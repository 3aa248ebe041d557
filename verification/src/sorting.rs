//! Ranked ordering of warnings. A report is sorted by severity alone,
//! gravest first, and the sort is stable: warnings of equal severity keep
//! the relative order in which the rule sets appended them.
//!
//! The sorted form of a sequence is pinned down exactly: it is the errors,
//! in their original order, then the warnings, then the infos.
use vstd::prelude::*;

use crate::warning::{severity_rank, Severity, Warning, WarningV};

verus! {

/// The error-severity warnings of `s`, in order.
pub open spec fn errors_of(s: Seq<Warning>) -> Seq<Warning> {
    s.filter(|w: Warning| w.severity == Severity::Error)
}

/// The warning-severity warnings of `s`, in order.
pub open spec fn warnings_of(s: Seq<Warning>) -> Seq<Warning> {
    s.filter(|w: Warning| w.severity == Severity::Warning)
}

/// The info-severity warnings of `s`, in order.
pub open spec fn infos_of(s: Seq<Warning>) -> Seq<Warning> {
    s.filter(|w: Warning| w.severity == Severity::Info)
}

/// What sorting a report returns: the errors first, then the warnings, then
/// the infos, each group in its original order.
pub open spec fn sorted_warnings(s: Seq<Warning>) -> Seq<Warning> {
    errors_of(s) + warnings_of(s) + infos_of(s)
}

/// Severities never rise along the sequence: gravest first.
pub open spec fn sorted_by_severity(s: Seq<Warning>) -> bool {
    forall|i: int, j: int|
        0 <= i <= j < s.len() ==> severity_rank(s[i].severity) >= severity_rank(s[j].severity)
}

/// Filtering keeps every element that satisfies the predicate and no other,
/// so a sequence whose elements all satisfy it is left whole.
proof fn lemma_filter_all_true<A>(s: Seq<A>, p: spec_fn(A) -> bool)
    requires
        forall|i: int| 0 <= i < s.len() ==> p(#[trigger] s[i]),
    ensures
        s.filter(p) == s,
    decreases s.len(),
{
    reveal_with_fuel(Seq::filter, 2);
    if s.len() == 0 {
        assert(s.filter(p) =~= s);
    } else {
        lemma_filter_all_true(s.drop_last(), p);
        assert(s.filter(p) =~= s);
    }
}

/// A sequence none of whose elements satisfies the predicate filters to
/// nothing.
proof fn lemma_filter_all_false<A>(s: Seq<A>, p: spec_fn(A) -> bool)
    requires
        forall|i: int| 0 <= i < s.len() ==> !p(#[trigger] s[i]),
    ensures
        s.filter(p) == Seq::<A>::empty(),
    decreases s.len(),
{
    reveal_with_fuel(Seq::filter, 2);
    if s.len() == 0 {
        assert(s.filter(p) =~= Seq::<A>::empty());
    } else {
        lemma_filter_all_false(s.drop_last(), p);
        assert(s.filter(p) =~= Seq::<A>::empty());
    }
}

/// The sorted form of any report ranks gravest first.
pub proof fn lemma_sorted_warnings_sorted(s: Seq<Warning>)
    ensures
        sorted_by_severity(sorted_warnings(s)),
{
    broadcast use vstd::seq_lib::group_filter_ensures;

    let e = errors_of(s);
    let w = warnings_of(s);
    let i = infos_of(s);
    let out = sorted_warnings(s);
    assert forall|x: int, y: int|
        0 <= x <= y < out.len() implies severity_rank(out[x].severity) >= severity_rank(
        out[y].severity,
    ) by {
        if x < e.len() {
            assert(out[x] == e[x]);
            assert(out[x].severity == Severity::Error);
        } else if x < e.len() + w.len() {
            assert(out[x] == w[x - e.len()]);
            assert(out[x].severity == Severity::Warning);
        } else {
            assert(out[x] == i[x - e.len() - w.len()]);
            assert(out[x].severity == Severity::Info);
        }
        if y < e.len() {
            assert(out[y] == e[y]);
            assert(out[y].severity == Severity::Error);
        } else if y < e.len() + w.len() {
            assert(out[y] == w[y - e.len()]);
            assert(out[y].severity == Severity::Warning);
        } else {
            assert(out[y] == i[y - e.len() - w.len()]);
            assert(out[y].severity == Severity::Info);
        }
    }
}

/// Sorting is idempotent: sorting a sorted report changes nothing, since
/// each severity group of a sorted report is the group of the report it
/// was sorted from.
pub proof fn lemma_sorted_warnings_idempotent(s: Seq<Warning>)
    ensures
        sorted_warnings(sorted_warnings(s)) == sorted_warnings(s),
{
    lemma_sorted_warnings_stable(s);
}

/// Sorting is stable: for each severity, the subsequence of warnings of that
/// severity comes out exactly as it went in, so two warnings of equal
/// severity never swap their relative order.
pub proof fn lemma_sorted_warnings_stable(s: Seq<Warning>)
    ensures
        errors_of(sorted_warnings(s)) == errors_of(s),
        warnings_of(sorted_warnings(s)) == warnings_of(s),
        infos_of(sorted_warnings(s)) == infos_of(s),
{
    broadcast use vstd::seq_lib::group_filter_ensures;
    broadcast use Seq::filter_distributes_over_add;

    let e = errors_of(s);
    let w = warnings_of(s);
    let i = infos_of(s);
    lemma_filter_all_true(e, |x: Warning| x.severity == Severity::Error);
    lemma_filter_all_false(w, |x: Warning| x.severity == Severity::Error);
    lemma_filter_all_false(i, |x: Warning| x.severity == Severity::Error);
    assert(errors_of(sorted_warnings(s)) =~= e);
    lemma_filter_all_false(e, |x: Warning| x.severity == Severity::Warning);
    lemma_filter_all_true(w, |x: Warning| x.severity == Severity::Warning);
    lemma_filter_all_false(i, |x: Warning| x.severity == Severity::Warning);
    assert(warnings_of(sorted_warnings(s)) =~= w);
    lemma_filter_all_false(e, |x: Warning| x.severity == Severity::Info);
    lemma_filter_all_false(w, |x: Warning| x.severity == Severity::Info);
    lemma_filter_all_true(i, |x: Warning| x.severity == Severity::Info);
    assert(infos_of(sorted_warnings(s)) =~= i);
}

/// Sorts a report by severity, gravest first. The sort is stable; see
/// `lemma_sorted_warnings_stable`.
pub fn sort_warnings(warnings: Vec<Warning>) -> (r: Vec<Warning>)
    ensures
        r@ == sorted_warnings(warnings@),
{
    broadcast use Seq::lemma_filter_push;

    let ghost whole = warnings@;
    let mut rest = warnings;
    let mut errs: Vec<Warning> = Vec::new();
    let mut warns: Vec<Warning> = Vec::new();
    let mut infos: Vec<Warning> = Vec::new();
    let ghost mut done: int = 0;
    proof {
        assert(whole.subrange(0, 0) =~= Seq::<Warning>::empty());
        assert(errors_of(whole.subrange(0, 0)) =~= Seq::<Warning>::empty());
        assert(warnings_of(whole.subrange(0, 0)) =~= Seq::<Warning>::empty());
        assert(infos_of(whole.subrange(0, 0)) =~= Seq::<Warning>::empty());
        assert(rest@ =~= whole.subrange(0, whole.len() as int));
    }
    while rest.len() > 0
        invariant
            0 <= done <= whole.len(),
            rest@ == whole.subrange(done, whole.len() as int),
            errs@ == errors_of(whole.subrange(0, done)),
            warns@ == warnings_of(whole.subrange(0, done)),
            infos@ == infos_of(whole.subrange(0, done)),
        decreases rest@.len(),
    {
        let w = rest.remove(0);
        proof {
            assert(w == whole[done]);
            let prefix = whole.subrange(0, done);
            assert(whole.subrange(0, done + 1) =~= prefix.push(w));
            assert(rest@ =~= whole.subrange(done + 1, whole.len() as int));
            prefix.lemma_filter_push(w, |x: Warning| x.severity == Severity::Error);
            prefix.lemma_filter_push(w, |x: Warning| x.severity == Severity::Warning);
            prefix.lemma_filter_push(w, |x: Warning| x.severity == Severity::Info);
            done = done + 1;
        }
        match w.severity {
            Severity::Error => errs.push(w),
            Severity::Warning => warns.push(w),
            Severity::Info => infos.push(w),
        }
    }
    proof {
        assert(whole.subrange(0, whole.len() as int) =~= whole);
    }
    let mut out = errs;
    out.append(&mut warns);
    out.append(&mut infos);
    proof {
        assert(out@ =~= sorted_warnings(whole));
    }
    out
}

/// The severity groups of a sequence of warning views; these mirror the
/// groups over warnings, so that the sort can be spoken of at the view level.
pub open spec fn errors_of_v(s: Seq<WarningV>) -> Seq<WarningV> {
    s.filter(|w: WarningV| w.severity == Severity::Error)
}

/// The warning-severity views of `s`, in order.
pub open spec fn warnings_of_v(s: Seq<WarningV>) -> Seq<WarningV> {
    s.filter(|w: WarningV| w.severity == Severity::Warning)
}

/// The info-severity views of `s`, in order.
pub open spec fn infos_of_v(s: Seq<WarningV>) -> Seq<WarningV> {
    s.filter(|w: WarningV| w.severity == Severity::Info)
}

/// The sorted form of a sequence of warning views.
pub open spec fn sorted_views(s: Seq<WarningV>) -> Seq<WarningV> {
    errors_of_v(s) + warnings_of_v(s) + infos_of_v(s)
}

/// The views of a sequence of warnings.
pub open spec fn views_of(s: Seq<Warning>) -> Seq<WarningV> {
    s.map_values(|w: Warning| w@)
}

/// Taking views commutes with filtering by a severity, since a warning's
/// view keeps its severity.
proof fn lemma_views_filter(s: Seq<Warning>, k: Severity)
    ensures
        views_of(s.filter(|w: Warning| w.severity == k)) == views_of(s).filter(
            |w: WarningV| w.severity == k,
        ),
    decreases s.len(),
{
    reveal_with_fuel(Seq::filter, 2);
    if s.len() == 0 {
        assert(views_of(s.filter(|w: Warning| w.severity == k)) =~= views_of(s).filter(
            |w: WarningV| w.severity == k,
        ));
    } else {
        let t = s.drop_last();
        lemma_views_filter(t, k);
        assert(views_of(s) =~= views_of(t).push(s.last()@));
        assert(views_of(s).drop_last() =~= views_of(t));
        if s.last().severity == k {
            assert(views_of(s.filter(|w: Warning| w.severity == k)) =~= views_of(
                t.filter(|w: Warning| w.severity == k),
            ).push(s.last()@));
        } else {
            assert(views_of(s.filter(|w: Warning| w.severity == k)) =~= views_of(
                t.filter(|w: Warning| w.severity == k),
            ));
        }
        assert(views_of(s.filter(|w: Warning| w.severity == k)) =~= views_of(s).filter(
            |w: WarningV| w.severity == k,
        ));
    }
}

/// Taking views commutes with sorting.
pub proof fn lemma_views_sorted(s: Seq<Warning>)
    ensures
        views_of(sorted_warnings(s)) == sorted_views(views_of(s)),
{
    lemma_views_filter(s, Severity::Error);
    lemma_views_filter(s, Severity::Warning);
    lemma_views_filter(s, Severity::Info);
    assert(views_of(sorted_warnings(s)) =~= sorted_views(views_of(s)));
}

} // verus!
