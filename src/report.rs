//! The mathematical model of evaluation: which rules a value breaks, and the
//! ordered report that results.

use crate::error::ErrorView;
use crate::rule::ConstraintType;
use vstd::prelude::*;

verus! {

broadcast use vstd::seq_lib::group_seq_properties;

/// The contents of a constraint: its rule, title and message.
pub ghost struct ConstraintView {
    pub rule: ConstraintType,
    pub title: Seq<char>,
    pub message: Seq<char>,
}

/// What a validator is bound to, as far as evaluation is concerned: an
/// optional text, or a number.
pub ghost enum Subject {
    Text(Option<Seq<char>>),
    Number(int),
}

/// The decimal digit character for `d`, which is below ten.
pub open spec fn digit_char(d: nat) -> char {
    seq!['0', '1', '2', '3', '4', '5', '6', '7', '8', '9'][d as int]
}

/// The decimal digits of `n`, most significant first, with no leading zero.
pub open spec fn digits(n: nat) -> Seq<char>
    decreases n,
{
    if n < 10 {
        seq![digit_char(n)]
    } else {
        digits(n / 10).push(digit_char(n % 10))
    }
}

/// The decimal form of `n`, with a leading `-` when it is negative.
pub open spec fn decimal(n: int) -> Seq<char> {
    if n < 0 {
        seq!['-'] + digits((-n) as nat)
    } else {
        digits(n as nat)
    }
}

impl Subject {
    /// Whether this subject breaks `rule`.
    pub open spec fn breaks(self, rule: ConstraintType) -> bool {
        match self {
            Subject::Text(value) => rule.broken_by_text(value),
            Subject::Number(n) => rule.broken_by_number(n),
        }
    }

    /// The text that a violation shows for this subject.
    pub open spec fn shown(self) -> Seq<char> {
        match self {
            Subject::Text(Some(t)) => t,
            Subject::Text(None) => Seq::empty(),
            Subject::Number(n) => decimal(n),
        }
    }
}

/// The record that constraint `c` yields when broken, showing `shown`.
pub open spec fn violation(c: ConstraintView, shown: Seq<char>) -> ErrorView {
    ErrorView { title: c.title, message: c.message, value: shown }
}

/// The report on `subject` under `rules`: one record for each rule that the
/// subject breaks, in the order of the rules.
pub open spec fn report(rules: Seq<ConstraintView>, subject: Subject) -> Seq<ErrorView> {
    rules.filter(|c: ConstraintView| subject.breaks(c.rule)).map_values(
        |c: ConstraintView| violation(c, subject.shown()),
    )
}

/// Adding a rule at the end adds its record, if any, at the end.
pub proof fn lemma_report_push(rules: Seq<ConstraintView>, c: ConstraintView, subject: Subject)
    ensures
        report(rules.push(c), subject) == if subject.breaks(c.rule) {
            report(rules, subject).push(violation(c, subject.shown()))
        } else {
            report(rules, subject)
        },
{
    let pred = |k: ConstraintView| subject.breaks(k.rule);
    rules.lemma_filter_push(c, pred);
    if subject.breaks(c.rule) {
        assert(report(rules.push(c), subject) =~= report(rules, subject).push(
            violation(c, subject.shown()),
        ));
    } else {
        assert(report(rules.push(c), subject) =~= report(rules, subject));
    }
}

/// The report under two runs of rules, one after the other, is the report
/// under the first followed by the report under the second.
pub proof fn lemma_report_add(a: Seq<ConstraintView>, b: Seq<ConstraintView>, subject: Subject)
    ensures
        report(a + b, subject) == report(a, subject) + report(b, subject),
{
    let pred = |k: ConstraintView| subject.breaks(k.rule);
    Seq::filter_distributes_over_add(a, b, pred);
    assert(report(a + b, subject) =~= report(a, subject) + report(b, subject));
}

} // verus!
