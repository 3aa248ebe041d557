//! The method rule set: an asynchronous method must declare a finish
//! function. A method counts as asynchronous when it declares one already or
//! when any of its parameters is scoped as an asynchronous callback.
use vstd::prelude::*;

use crate::checker::{appends, concat2, lemma_appends_none, lemma_appends_one, Checker, DocChecker};
use crate::entities::{Class, FunctionScope, Method, MethodV, PosV};
use crate::warning::{make_warning, Severity, Warning, WarningV};

verus! {

/// The label of a method: its canonical identifier when it has one, else
/// `"Method <class>.<name>"`.
pub open spec fn method_id(m: MethodV, class_name: Seq<char>) -> Seq<char> {
    match m.c_identifier {
        Some(ci) => "Method "@ + ci,
        None => "Method "@ + class_name + "."@ + m.name,
    }
}

/// Whether a method is asynchronous: it declares a finish function, or some
/// parameter of it is scoped as an asynchronous callback.
pub open spec fn spec_is_async(m: MethodV) -> bool {
    m.finish_func is Some || exists|i: int|
        0 <= i < m.parameters.len() && (#[trigger] m.parameters[i]).scope == Some(
            FunctionScope::Async,
        )
}

/// The method rule set's own findings: one `Info` entry when the method is
/// asynchronous but declares no finish function, nothing otherwise.
pub open spec fn method_check_diags(m: MethodV, class_name: Seq<char>) -> Seq<WarningV> {
    if spec_is_async(m) && m.finish_func is None {
        seq![
            make_warning(
                m.position,
                method_id(m, class_name),
                "is missing a finish-func"@,
                Severity::Info,
            ),
        ]
    } else {
        Seq::<WarningV>::empty()
    }
}

/// The method rule set: holds the method under check, its owning class, and
/// its label.
pub struct MethodChecker<'a> {
    class: &'a Class,
    method: &'a Method,
    id: String,
}

impl<'a> MethodChecker<'a> {
    /// The method this rule set checks.
    pub closed spec fn spec_method(&self) -> MethodV {
        self.method@
    }

    /// The owning class.
    pub closed spec fn spec_class(&self) -> crate::entities::ClassV {
        self.class@
    }

    /// Builds the rule set over a method of a class, computing its label
    /// once.
    pub fn new(method: &'a Method, class: &'a Class) -> (r: Self)
        ensures
            r.wf(),
            r.spec_method() == method@,
            r.spec_class() == class@,
            r.spec_identifier() == method_id(method@, class@.name),
            r.check_diags() == method_check_diags(method@, class@.name),
            r.doc_view() == method@.doc,
            r.position_view() == method@.position,
    {
        let id = match &method.c_identifier {
            Some(ci) => concat2("Method ", ci.as_str()),
            None => {
                let head = concat2("Method ", class.name.as_str());
                let head = concat2(head.as_str(), ".");
                concat2(head.as_str(), method.name.as_str())
            },
        };
        MethodChecker { class, method, id }
    }

    /// Whether the method is asynchronous; see `spec_is_async`.
    fn is_async(&self) -> (b: bool)
        ensures
            b == spec_is_async(self.method@),
    {
        if self.method.finish_func.is_some() {
            return true;
        }
        let params = &self.method.parameters;
        let n = params.len();
        let mut i: usize = 0;
        while i < n
            invariant
                n == params.len(),
                0 <= i <= n,
                self.method@.parameters == params@.map_values(|p: crate::entities::Parameter| p@),
                forall|j: int|
                    0 <= j < i ==> (#[trigger] self.method@.parameters[j]).scope != Some(
                        FunctionScope::Async,
                    ),
            decreases n - i,
        {
            match params[i].scope {
                Some(FunctionScope::Async) => {
                    proof {
                        assert(self.method@.parameters[i as int].scope == Some(
                            FunctionScope::Async,
                        ));
                    }
                    return true;
                },
                _ => {},
            }
            i += 1;
        }
        false
    }
}

impl<'a> Checker for MethodChecker<'a> {
    closed spec fn wf(&self) -> bool {
        self.id@ == method_id(self.method@, self.class@.name)
    }

    closed spec fn spec_identifier(&self) -> Seq<char> {
        method_id(self.method@, self.class@.name)
    }

    closed spec fn check_diags(&self) -> Seq<WarningV> {
        method_check_diags(self.method@, self.class@.name)
    }

    fn identifier(&self) -> (r: &str) {
        self.id.as_str()
    }

    fn check(&self, warnings: &mut Vec<Warning>) {
        let pos = self.method.position.as_ref();
        let id = self.identifier();
        if self.is_async() && self.method.finish_func.is_none() {
            let w = Warning::info(pos, id, "is missing a finish-func");
            proof {
                lemma_appends_one(warnings@, w);
            }
            warnings.push(w);
            proof {
                assert(seq![w@] =~= method_check_diags(self.method@, self.class@.name));
            }
        } else {
            proof {
                lemma_appends_none(warnings@);
                assert(Seq::<WarningV>::empty() =~= method_check_diags(
                    self.method@,
                    self.class@.name,
                ));
            }
        }
    }
}

impl<'a> DocChecker for MethodChecker<'a> {
    closed spec fn doc_view(&self) -> Option<Seq<char>> {
        self.method@.doc
    }

    closed spec fn position_view(&self) -> Option<PosV> {
        self.method@.position
    }

    fn check_docs(&self, warnings: &mut Vec<Warning>) {
        let pos = self.method.position.as_ref();
        let id = self.identifier();
        if self.method.doc.is_none() {
            let w = Warning::new(pos, id, "missing a docstring");
            proof {
                lemma_appends_one(warnings@, w);
            }
            warnings.push(w);
            proof {
                assert(seq![w@] =~= crate::checker::doc_check_diags(
                    self.spec_identifier(),
                    self.doc_view(),
                    self.position_view(),
                ));
            }
        } else {
            proof {
                lemma_appends_none(warnings@);
            }
        }
    }
}

} // verus!
