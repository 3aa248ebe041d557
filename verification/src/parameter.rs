//! The parameter rule set: a parameter scoped as a notified callback must
//! carry both a destroy notifier and a closure reference; each absence is
//! its own error.
use vstd::prelude::*;

use crate::checker::{
    appends, concat2, lemma_appends_none, lemma_appends_one, lemma_appends_trans, Checker,
    DocChecker,
};
use crate::entities::{Class, FunctionScope, Parameter, ParameterV, PosV};
use crate::warning::{make_warning, Severity, Warning, WarningV};

verus! {

/// The label of a parameter: `"Parameter <name> of <parent>"`, the parent
/// name being supplied by the caller.
pub open spec fn parameter_id(name: Seq<char>, parent: Seq<char>) -> Seq<char> {
    "Parameter "@ + name + " of "@ + parent
}

/// Whether a parameter is scoped as a notified callback.
pub open spec fn spec_is_notified(p: ParameterV) -> bool {
    p.scope == Some(FunctionScope::Notified)
}

/// The parameter rule set's own findings: an error for a notified parameter
/// without a destroy notifier, and another for one without a closure
/// reference; the two are independent.
pub open spec fn parameter_check_diags(p: ParameterV, parent: Seq<char>) -> Seq<WarningV> {
    (if spec_is_notified(p) && p.destroy is None {
        seq![
            make_warning(
                p.position,
                parameter_id(p.name, parent),
                "is missing destroy"@,
                Severity::Error,
            ),
        ]
    } else {
        Seq::<WarningV>::empty()
    }) + (if spec_is_notified(p) && p.closure is None {
        seq![
            make_warning(
                p.position,
                parameter_id(p.name, parent),
                "is missing closure"@,
                Severity::Error,
            ),
        ]
    } else {
        Seq::<WarningV>::empty()
    })
}

/// The parameter rule set: holds the parameter under check, the enclosing
/// function's display name, the owning class, and its label.
pub struct ParameterChecker<'a> {
    class: &'a Class,
    parameter: &'a Parameter,
    parent_name: &'a str,
    id: String,
}

impl<'a> ParameterChecker<'a> {
    /// The parameter this rule set checks.
    pub closed spec fn spec_parameter(&self) -> ParameterV {
        self.parameter@
    }

    /// The enclosing function's display name.
    pub closed spec fn spec_parent_name(&self) -> Seq<char> {
        self.parent_name@
    }

    /// Builds the rule set over a parameter of a function of a class,
    /// computing its label once.
    pub fn new(parameter: &'a Parameter, parent_name: &'a str, class: &'a Class) -> (r: Self)
        ensures
            r.wf(),
            r.spec_parameter() == parameter@,
            r.spec_parent_name() == parent_name@,
            r.spec_identifier() == parameter_id(parameter@.name, parent_name@),
            r.check_diags() == parameter_check_diags(parameter@, parent_name@),
            r.doc_view() == parameter@.doc,
            r.position_view() == parameter@.position,
    {
        let head = concat2("Parameter ", parameter.name.as_str());
        let head = concat2(head.as_str(), " of ");
        let id = concat2(head.as_str(), parent_name);
        ParameterChecker { class, parameter, parent_name, id }
    }

    /// Whether the parameter is scoped as a notified callback; see
    /// `spec_is_notified`.
    fn is_notified(&self) -> (b: bool)
        ensures
            b == spec_is_notified(self.parameter@),
    {
        match self.parameter.scope {
            Some(FunctionScope::Notified) => true,
            _ => false,
        }
    }
}

impl<'a> Checker for ParameterChecker<'a> {
    closed spec fn wf(&self) -> bool {
        self.id@ == parameter_id(self.parameter@.name, self.parent_name@)
    }

    closed spec fn spec_identifier(&self) -> Seq<char> {
        parameter_id(self.parameter@.name, self.parent_name@)
    }

    closed spec fn check_diags(&self) -> Seq<WarningV> {
        parameter_check_diags(self.parameter@, self.parent_name@)
    }

    fn identifier(&self) -> (r: &str) {
        self.id.as_str()
    }

    fn check(&self, warnings: &mut Vec<Warning>) {
        let pos = self.parameter.position.as_ref();
        let id = self.identifier();
        let ghost base = warnings@;
        let ghost destroy_part = (if spec_is_notified(self.parameter@)
            && self.parameter@.destroy is None {
            seq![
                make_warning(
                    self.parameter@.position,
                    parameter_id(self.parameter@.name, self.parent_name@),
                    "is missing destroy"@,
                    Severity::Error,
                ),
            ]
        } else {
            Seq::<WarningV>::empty()
        });
        let ghost closure_part = (if spec_is_notified(self.parameter@)
            && self.parameter@.closure is None {
            seq![
                make_warning(
                    self.parameter@.position,
                    parameter_id(self.parameter@.name, self.parent_name@),
                    "is missing closure"@,
                    Severity::Error,
                ),
            ]
        } else {
            Seq::<WarningV>::empty()
        });
        if self.is_notified() && self.parameter.destroy.is_none() {
            let w = Warning::error(pos, id, "is missing destroy");
            proof {
                lemma_appends_one(warnings@, w);
            }
            warnings.push(w);
            proof {
                assert(seq![w@] =~= destroy_part);
            }
        } else {
            proof {
                lemma_appends_none(warnings@);
                assert(Seq::<WarningV>::empty() =~= destroy_part);
            }
        }
        let ghost mid = warnings@;
        if self.is_notified() && self.parameter.closure.is_none() {
            let w = Warning::error(pos, id, "is missing closure");
            proof {
                lemma_appends_one(warnings@, w);
            }
            warnings.push(w);
            proof {
                assert(seq![w@] =~= closure_part);
            }
        } else {
            proof {
                lemma_appends_none(warnings@);
                assert(Seq::<WarningV>::empty() =~= closure_part);
            }
        }
        proof {
            lemma_appends_trans(base, mid, warnings@, destroy_part, closure_part);
        }
    }
}

impl<'a> DocChecker for ParameterChecker<'a> {
    closed spec fn doc_view(&self) -> Option<Seq<char>> {
        self.parameter@.doc
    }

    closed spec fn position_view(&self) -> Option<PosV> {
        self.parameter@.position
    }

    fn check_docs(&self, warnings: &mut Vec<Warning>) {
        let pos = self.parameter.position.as_ref();
        let id = self.identifier();
        if self.parameter.doc.is_none() {
            let w = Warning::new(pos, id, "missing a docstring");
            proof {
                lemma_appends_one(warnings@, w);
            }
            warnings.push(w);
            proof {
                assert(seq![w@] =~= crate::checker::doc_check_diags(
                    self.spec_identifier(),
                    self.doc_view(),
                    self.position_view(),
                ));
            }
        } else {
            proof {
                lemma_appends_none(warnings@);
            }
        }
    }
}

} // verus!
