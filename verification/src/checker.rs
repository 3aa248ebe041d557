//! The checker abstraction: a rule set produces an identifying label for the
//! entity under check and appends its findings to a growing report. The
//! documentation check composes with it, and `check_all` runs both in a
//! fixed order.
use vstd::prelude::*;
use vstd::string::StringExecFns;

use crate::entities::PosV;
use crate::sorting::views_of;
use crate::warning::{make_warning, Severity, Warning, WarningV};

verus! {

/// Holds when a call has left the report's old warnings in place and
/// appended exactly the warnings whose views are `diags`, in order.
pub open spec fn appends(old: Seq<Warning>, new: Seq<Warning>, diags: Seq<WarningV>) -> bool {
    &&& new.len() == old.len() + diags.len()
    &&& new.subrange(0, old.len() as int) == old
    &&& views_of(new.subrange(old.len() as int, new.len() as int)) == diags
}

/// Appending nothing leaves the report as it was.
pub proof fn lemma_appends_none(old: Seq<Warning>)
    ensures
        appends(old, old, Seq::<WarningV>::empty()),
{
    assert(old.subrange(0, old.len() as int) =~= old);
    assert(views_of(old.subrange(old.len() as int, old.len() as int)) =~= Seq::<
        WarningV,
    >::empty());
}

/// Pushing one warning appends exactly that warning.
pub proof fn lemma_appends_one(old: Seq<Warning>, w: Warning)
    ensures
        appends(old, old.push(w), seq![w@]),
{
    assert(old.push(w).subrange(0, old.len() as int) =~= old);
    assert(old.push(w).subrange(old.len() as int, old.len() as int + 1) =~= seq![w]);
    assert(views_of(seq![w]) =~= seq![w@]);
}

/// Two appends in a row append the concatenation.
pub proof fn lemma_appends_trans(
    a: Seq<Warning>,
    b: Seq<Warning>,
    c: Seq<Warning>,
    x: Seq<WarningV>,
    y: Seq<WarningV>,
)
    requires
        appends(a, b, x),
        appends(b, c, y),
    ensures
        appends(a, c, x + y),
{
    assert(c.subrange(0, a.len() as int) =~= b.subrange(0, a.len() as int));
    assert(c.subrange(a.len() as int, c.len() as int) =~= b.subrange(a.len() as int, b.len() as int)
        + c.subrange(b.len() as int, c.len() as int));
    assert(views_of(c.subrange(a.len() as int, c.len() as int)) =~= x + y);
}

/// What a report looks like after an append: the old views, then the new.
pub proof fn lemma_appends_views(old: Seq<Warning>, new: Seq<Warning>, diags: Seq<WarningV>)
    requires
        appends(old, new, diags),
    ensures
        views_of(new) == views_of(old) + diags,
{
    assert(new =~= new.subrange(0, old.len() as int) + new.subrange(
        old.len() as int,
        new.len() as int,
    ));
    assert(views_of(new) =~= views_of(old) + diags);
}

/// The two strings, one after the other.
pub(crate) fn concat2(a: &str, b: &str) -> (r: String)
    ensures
        r@ == a@ + b@,
{
    let mut s = a.to_owned();
    s.append(b);
    s
}

/// The findings the documentation check appends: one `Warning`-severity
/// "missing a docstring" entry when the entity has no documentation, nothing
/// otherwise.
pub open spec fn doc_check_diags(id: Seq<char>, doc: Option<Seq<char>>, pos: Option<PosV>) -> Seq<
    WarningV,
> {
    if doc is None {
        seq![make_warning(pos, id, "missing a docstring"@, Severity::Warning)]
    } else {
        Seq::<WarningV>::empty()
    }
}

/// A rule set: it labels the entity under check and appends its own
/// findings, pinned down by `check_diags`.
pub trait Checker {
    /// The checker was built over its entity: its label agrees with it.
    spec fn wf(&self) -> bool;

    /// The label this rule set gives its entity.
    spec fn spec_identifier(&self) -> Seq<char>;

    /// Exactly the findings `check` appends, in order.
    spec fn check_diags(&self) -> Seq<WarningV>;

    /// The identifying label for the entity under check.
    fn identifier(&self) -> (r: &str)
        requires
            self.wf(),
        ensures
            r@ == self.spec_identifier(),
    ;

    /// Appends this rule set's own findings for its entity.
    fn check(&self, warnings: &mut Vec<Warning>)
        requires
            self.wf(),
        ensures
            appends(old(warnings)@, final(warnings)@, self.check_diags()),
    ;
}

/// The documentation-check capability: the entity exposes optional
/// documentation and a position, and `check_docs` appends the generic
/// missing-documentation finding when the documentation is absent.
pub trait DocChecker: Checker {
    /// The entity's documentation, if any.
    spec fn doc_view(&self) -> Option<Seq<char>>;

    /// The entity's source position, if any.
    spec fn position_view(&self) -> Option<PosV>;

    /// Appends the generic missing-documentation finding, if it applies.
    fn check_docs(&self, warnings: &mut Vec<Warning>)
        requires
            self.wf(),
        ensures
            appends(
                old(warnings)@,
                final(warnings)@,
                doc_check_diags(self.spec_identifier(), self.doc_view(), self.position_view()),
            ),
    ;
}

/// Everything `check_all` appends for a rule set with the documentation
/// check: its own findings, then the documentation finding.
pub open spec fn all_diags<C: DocChecker>(c: &C) -> Seq<WarningV> {
    c.check_diags() + doc_check_diags(c.spec_identifier(), c.doc_view(), c.position_view())
}

/// Runs a rule set's own check and its documentation check, in that order.
pub trait CheckAll {
    /// The checker was built over its entity.
    spec fn all_wf(&self) -> bool;

    /// Exactly the findings `check_all` appends, in order.
    spec fn all_check_diags(&self) -> Seq<WarningV>;

    /// Appends the rule set's own findings, then the documentation finding.
    fn check_all(&self, warnings: &mut Vec<Warning>)
        requires
            self.all_wf(),
        ensures
            appends(old(warnings)@, final(warnings)@, self.all_check_diags()),
    ;
}

impl<C: DocChecker> CheckAll for C {
    open spec fn all_wf(&self) -> bool {
        self.wf()
    }

    open spec fn all_check_diags(&self) -> Seq<WarningV> {
        all_diags(self)
    }

    fn check_all(&self, warnings: &mut Vec<Warning>) {
        self.check(warnings);
        let ghost mid = warnings@;
        self.check_docs(warnings);
        proof {
            lemma_appends_trans(
                old(warnings)@,
                mid,
                warnings@,
                self.check_diags(),
                doc_check_diags(self.spec_identifier(), self.doc_view(), self.position_view()),
            );
        }
    }
}

} // verus!
