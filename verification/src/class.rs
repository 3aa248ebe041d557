//! The class rule set: a class with no documentation gets an
//! `Error`-severity finding from its own check, on top of the generic
//! `Warning`-severity documentation finding.
use vstd::prelude::*;

use crate::checker::{appends, concat2, lemma_appends_none, lemma_appends_one, Checker, DocChecker};
use crate::entities::{Class, ClassV, PosV};
use crate::warning::{make_warning, Severity, Warning, WarningV};

verus! {

/// The label of a class: `"Class <name>"`.
pub open spec fn class_id(c: ClassV) -> Seq<char> {
    "Class "@ + c.name
}

/// The class rule set's own findings: one error when documentation is
/// absent, nothing otherwise.
pub open spec fn class_check_diags(c: ClassV) -> Seq<WarningV> {
    if c.doc is None {
        seq![make_warning(c.position, class_id(c), "is missing docs"@, Severity::Error)]
    } else {
        Seq::<WarningV>::empty()
    }
}

/// The class rule set: holds the class under check and its label.
pub struct ClassChecker<'a> {
    class: &'a Class,
    id: String,
}

impl<'a> ClassChecker<'a> {
    /// The class this rule set checks.
    pub closed spec fn spec_class(&self) -> ClassV {
        self.class@
    }

    /// Builds the rule set over a class, computing its label once.
    pub fn new(class: &'a Class) -> (r: Self)
        ensures
            r.wf(),
            r.spec_class() == class@,
            r.spec_identifier() == class_id(class@),
            r.check_diags() == class_check_diags(class@),
            r.doc_view() == class@.doc,
            r.position_view() == class@.position,
    {
        let id = concat2("Class ", class.name.as_str());
        ClassChecker { class, id }
    }

    /// Whether the class carries documentation.
    pub fn has_docs(&self) -> (b: bool)
        ensures
            b == (self.spec_class().doc is Some),
    {
        self.class.doc.is_some()
    }
}

impl<'a> Checker for ClassChecker<'a> {
    closed spec fn wf(&self) -> bool {
        self.id@ == class_id(self.class@)
    }

    closed spec fn spec_identifier(&self) -> Seq<char> {
        class_id(self.class@)
    }

    closed spec fn check_diags(&self) -> Seq<WarningV> {
        class_check_diags(self.class@)
    }

    fn identifier(&self) -> (r: &str) {
        self.id.as_str()
    }

    fn check(&self, warnings: &mut Vec<Warning>) {
        let pos = self.class.position.as_ref();
        let id = self.identifier();
        if self.class.doc.is_none() {
            let w = Warning::error(pos, id, "is missing docs");
            proof {
                lemma_appends_one(warnings@, w);
            }
            warnings.push(w);
            proof {
                assert(seq![w@] =~= class_check_diags(self.class@));
            }
        } else {
            proof {
                lemma_appends_none(warnings@);
                assert(Seq::<WarningV>::empty() =~= class_check_diags(self.class@));
            }
        }
    }
}

impl<'a> DocChecker for ClassChecker<'a> {
    closed spec fn doc_view(&self) -> Option<Seq<char>> {
        self.class@.doc
    }

    closed spec fn position_view(&self) -> Option<PosV> {
        self.class@.position
    }

    fn check_docs(&self, warnings: &mut Vec<Warning>) {
        let pos = self.class.position.as_ref();
        let id = self.identifier();
        if self.class.doc.is_none() {
            let w = Warning::new(pos, id, "missing a docstring");
            proof {
                lemma_appends_one(warnings@, w);
            }
            warnings.push(w);
            proof {
                assert(seq![w@] =~= crate::checker::doc_check_diags(
                    self.spec_identifier(),
                    self.doc_view(),
                    self.position_view(),
                ));
            }
        } else {
            proof {
                lemma_appends_none(warnings@);
            }
        }
    }
}

} // verus!
