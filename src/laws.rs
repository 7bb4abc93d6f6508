//! Laws that hold of every validator and every aggregated report.

use crate::error::ErrorView;
use crate::report::{lemma_report_push, report, violation, ConstraintView, Subject};
use crate::rule::{text_len, ConstraintType};
use crate::validator::{optional_text, Validate, Validator};
use crate::validators::Validators;
use vstd::prelude::*;

verus! {

/// Adding an unlabeled `Required` constraint to a validator bound to an absent
/// value, which held no `Required` constraint before, makes it report exactly
/// one violation, and that violation shows an empty value.
pub proof fn required_on_absent_value<'a>(
    v: Validator<'a, Option<String>>,
    w: Validator<'a, Option<String>>,
)
    requires
        v.bound_value() is None,
        forall|i: int| 0 <= i < v.rules().len() ==> !(#[trigger] v.rules()[i].rule is Required),
        w.rules() == v.rules().push(
            ConstraintView { rule: ConstraintType::Required, title: Seq::empty(), message: Seq::empty() },
        ),
        w.bound_value() == v.bound_value(),
    ensures
        w.violations().len() == 1,
        w.violations()[0].value == Seq::<char>::empty(),
{
    let subject = Subject::Text(None);
    let required = ConstraintView {
        rule: ConstraintType::Required,
        title: Seq::empty(),
        message: Seq::empty(),
    };
    assert(optional_text(v.bound_value()) is None);
    absent_value_breaks_nothing_else(v.rules());
    lemma_report_push(v.rules(), required, subject);
}

/// An absent value breaks no rule but `Required`.
proof fn absent_value_breaks_nothing_else(rules: Seq<ConstraintView>)
    requires
        forall|i: int| 0 <= i < rules.len() ==> !(#[trigger] rules[i].rule is Required),
    ensures
        report(rules, Subject::Text(None)) == Seq::<ErrorView>::empty(),
    decreases rules.len(),
{
    if rules.len() > 0 {
        let init = rules.drop_last();
        assert forall|i: int| 0 <= i < init.len() implies !(#[trigger] init[i].rule is Required) by {
            assert(init[i] == rules[i]);
        }
        absent_value_breaks_nothing_else(init);
        assert(init.push(rules.last()) == rules);
        lemma_report_push(init, rules.last(), Subject::Text(None));
    }
}

/// On a present text, `MinLength(n)` is broken exactly when the text is
/// shorter than `n`, and `MaxLength(n)` exactly when it is longer.
pub proof fn length_rules(t: Seq<char>, n: usize)
    ensures
        ConstraintType::MinLength(n).broken_by_text(Some(t)) <==> text_len(t) < n,
        ConstraintType::MaxLength(n).broken_by_text(Some(t)) <==> text_len(t) > n,
{
}

/// A minimum and a maximum length on one present text are judged
/// independently: the report holds one record for each bound that is broken.
pub proof fn length_rules_independent(
    t: Seq<char>,
    min: ConstraintView,
    max: ConstraintView,
    lo: usize,
    hi: usize,
)
    requires
        min.rule == ConstraintType::MinLength(lo),
        max.rule == ConstraintType::MaxLength(hi),
    ensures
        report(seq![min, max], Subject::Text(Some(t))).len() == (if text_len(t) < lo {
            1int
        } else {
            0int
        }) + (if text_len(t) > hi {
            1int
        } else {
            0int
        }),
{
    let subject = Subject::Text(Some(t));
    lemma_report_push(Seq::empty(), min, subject);
    lemma_report_push(seq![min], max, subject);
    reveal_with_fuel(Seq::filter, 1);
    assert(Seq::<ConstraintView>::empty().push(min) == seq![min]);
    assert(seq![min].push(max) == seq![min, max]);
}

/// Evaluation follows insertion order: when `a` and `c` are broken and `b`
/// is not, the report on `[a, b, c]` is the record of `a`, then that of `c`.
pub proof fn insertion_order_kept(
    a: ConstraintView,
    b: ConstraintView,
    c: ConstraintView,
    subject: Subject,
)
    requires
        subject.breaks(a.rule),
        !subject.breaks(b.rule),
        subject.breaks(c.rule),
    ensures
        report(seq![a, b, c], subject) == seq![
            violation(a, subject.shown()),
            violation(c, subject.shown()),
        ],
{
    reveal_with_fuel(Seq::filter, 1);
    lemma_report_push(Seq::empty(), a, subject);
    lemma_report_push(seq![a], b, subject);
    lemma_report_push(seq![a, b], c, subject);
    assert(Seq::<ConstraintView>::empty().push(a) == seq![a]);
    assert(seq![a].push(b) == seq![a, b]);
    assert(seq![a, b].push(c) == seq![a, b, c]);
    assert(Seq::<ErrorView>::empty().push(violation(a, subject.shown())).push(
        violation(c, subject.shown()),
    ) =~= seq![violation(a, subject.shown()), violation(c, subject.shown())]);
}

/// Merging keeps order: after merging `a` and then `b` into an empty report,
/// the report is all of `a`'s records, in order, then all of `b`'s.
pub proof fn merge_keeps_order<A: Validate, B: Validate>(
    start: Validators,
    first: Validators,
    second: Validators,
    a: A,
    b: B,
)
    requires
        start@ == Seq::<ErrorView>::empty(),
        first@ == start@ + a.violations(),
        second@ == first@ + b.violations(),
    ensures
        second@ == a.violations() + b.violations(),
{
    assert(start@ + a.violations() =~= a.violations());
}

/// Whatever reports are merged, one after another, into an empty aggregate,
/// the aggregate is their concatenation, and it holds a violation exactly
/// when one of the merged reports does.
pub proof fn merged_report(states: Seq<Validators>, reports: Seq<Seq<ErrorView>>)
    requires
        states.len() == reports.len() + 1,
        states[0]@ == Seq::<ErrorView>::empty(),
        forall|i: int| 0 <= i < reports.len() ==> #[trigger] states[i + 1]@ == states[i]@ + reports[i],
    ensures
        states.last()@ == reports.flatten(),
        states.last()@.len() > 0 <==> exists|i: int| 0 <= i < reports.len() && #[trigger] reports[i].len() > 0,
{
    merged_prefix(states, reports, reports.len() as int);
    assert(reports.take(reports.len() as int) == reports);
}

/// The aggregate after the first `k` merges.
proof fn merged_prefix(states: Seq<Validators>, reports: Seq<Seq<ErrorView>>, k: int)
    requires
        0 <= k <= reports.len(),
        states.len() == reports.len() + 1,
        states[0]@ == Seq::<ErrorView>::empty(),
        forall|i: int| 0 <= i < reports.len() ==> #[trigger] states[i + 1]@ == states[i]@ + reports[i],
    ensures
        states[k]@ == reports.take(k).flatten(),
        states[k]@.len() > 0 <==> exists|i: int| 0 <= i < k && #[trigger] reports[i].len() > 0,
    decreases k,
{
    if k == 0 {
        assert(reports.take(0) =~= Seq::<Seq<ErrorView>>::empty());
    } else {
        merged_prefix(states, reports, k - 1);
        assert(reports.take(k) =~= reports.take(k - 1).push(reports[k - 1]));
        reports.take(k - 1).lemma_flatten_push(reports[k - 1]);
        assert(states[k]@ == states[k - 1]@ + reports[k - 1]);
        if reports[k - 1].len() > 0 {
            assert(states[k]@.len() > 0);
        }
    }
}

} // verus!
