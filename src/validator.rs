//! Constraints, the validator that binds them to one value, and the
//! capability of producing a report.

use crate::error::{errors_view, lemma_errors_view_push, Error, ErrorView};
use crate::report::{decimal, lemma_report_push, report, violation, ConstraintView, Subject};
use crate::rule::{text_view, ConstraintType};
use vstd::prelude::*;

verus! {

/// A rule together with the title and message its violation carries.
pub struct Constraint {
    typ: ConstraintType,
    title: String,
    message: String,
}

impl View for Constraint {
    type V = ConstraintView;

    closed spec fn view(&self) -> ConstraintView {
        ConstraintView { rule: self.typ, title: self.title@, message: self.message@ }
    }
}

impl Constraint {
    /// A constraint with empty title and message.
    pub fn new(typ: ConstraintType) -> (r: Self)
        ensures
            r@ == (ConstraintView { rule: typ, title: Seq::empty(), message: Seq::empty() }),
    {
        Self { typ, title: String::new(), message: String::new() }
    }

    /// A constraint with the given title and message.
    pub fn new_with_message(typ: ConstraintType, title: &str, message: &str) -> (r: Self)
        ensures
            r@ == (ConstraintView { rule: typ, title: title@, message: message@ }),
    {
        Self { typ, title: title.to_string(), message: message.to_string() }
    }

    /// Replaces the message, for chaining.
    pub fn message(&mut self, value: &str) -> (r: &mut Self)
        ensures
            r@ == (ConstraintView { message: value@, ..old(self)@ }),
            *final(self) == *final(r),
    {
        self.message = value.to_string();
        self
    }

    /// Replaces the title, for chaining.
    pub fn title(&mut self, value: &str) -> (r: &mut Self)
        ensures
            r@ == (ConstraintView { title: value@, ..old(self)@ }),
            *final(self) == *final(r),
    {
        self.title = value.to_string();
        self
    }
}

/// The contents of a sequence of constraints, in order.
pub open spec fn constraints_view(cs: Seq<Constraint>) -> Seq<ConstraintView> {
    cs.map_values(|c: Constraint| c@)
}

/// An ordered list of constraints bound to one borrowed value.
pub struct Validator<'a, T> {
    constraints: Vec<Constraint>,
    value: &'a T,
}

impl<'a, T> Validator<'a, T> {
    /// The constraints, in insertion order.
    pub closed spec fn rules(&self) -> Seq<ConstraintView> {
        constraints_view(self.constraints@)
    }

    /// The value the validator is bound to.
    pub closed spec fn bound_value(&self) -> T {
        *self.value
    }

    /// A validator bound to `v`, with no constraints yet.
    pub fn new(v: &'a T) -> (r: Self)
        ensures
            r.rules() == Seq::<ConstraintView>::empty(),
            r.bound_value() == *v,
    {
        let r = Self { constraints: Vec::new(), value: v };
        assert(r.rules() =~= Seq::<ConstraintView>::empty());
        r
    }

    /// Appends `v` to the constraints.
    pub fn add_constraint(self, v: Constraint) -> (r: Self)
        ensures
            r.rules() == self.rules().push(v@),
            r.bound_value() == self.bound_value(),
    {
        let mut r = self;
        let ghost before = r.constraints@;
        r.constraints.push(v);
        assert(constraints_view(before.push(v)) =~= constraints_view(before).push(v@));
        r
    }

    /// Appends a constraint of rule `v`, with empty title and message.
    pub fn add(self, v: ConstraintType) -> (r: Self)
        ensures
            r.rules() == self.rules().push(
                ConstraintView { rule: v, title: Seq::empty(), message: Seq::empty() },
            ),
            r.bound_value() == self.bound_value(),
    {
        let mut r = self;
        let ghost before = r.constraints@;
        let c = Constraint::new(v);
        let ghost cv = c@;
        r.constraints.push(c);
        assert(constraints_view(before.push(c)) =~= constraints_view(before).push(cv));
        r
    }
}

/// A bound value as evaluation reads it: an optional text, or a number.
enum Probe<'b> {
    Text(Option<&'b str>),
    Number(i128),
}

impl<'b> Probe<'b> {
    spec fn subject(&self) -> Subject {
        match *self {
            Probe::Text(v) => Subject::Text(text_view(v)),
            Probe::Number(n) => Subject::Number(n as int),
        }
    }

    fn breaks(&self, rule: &ConstraintType) -> (r: bool)
        ensures
            r == self.subject().breaks(*rule),
    {
        match self {
            Probe::Text(v) => rule.is_broken_by_text(*v),
            Probe::Number(n) => rule.is_broken_by_number(*n),
        }
    }
}

/// One record for each constraint that `probe` breaks, in order, each
/// showing `shown`.
fn evaluate(constraints: &Vec<Constraint>, probe: Probe, shown: &str) -> (r: Vec<Error>)
    requires
        shown@ == probe.subject().shown(),
    ensures
        errors_view(r@) == report(constraints_view(constraints@), probe.subject()),
{
    let ghost subject = probe.subject();
    let mut errors: Vec<Error> = Vec::new();
    let n: usize = constraints.len();
    let mut i: usize = 0;
    while i < n
        invariant
            n == constraints@.len(),
            i <= n,
            subject == probe.subject(),
            shown@ == subject.shown(),
            errors_view(errors@) == report(
                constraints_view(constraints@).take(i as int),
                subject,
            ),
        decreases n - i,
    {
        let c = &constraints[i];
        proof {
            let views = constraints_view(constraints@);
            assert(views.take(i + 1) =~= views.take(i as int).push(c@));
            lemma_report_push(views.take(i as int), c@, subject);
        }
        if probe.breaks(&c.typ) {
            let e = Error { title: c.title.clone(), message: c.message.clone(), value: shown.to_string() };
            proof {
                lemma_errors_view_push(errors@, e);
                assert(e@ == violation(c@, subject.shown()));
            }
            errors.push(e);
        }
        i = i + 1;
    }
    assert(constraints_view(constraints@).take(n as int) =~= constraints_view(constraints@));
    errors
}

/// The report on an optional text.
fn check_text(constraints: &Vec<Constraint>, value: Option<&str>) -> (r: Vec<Error>)
    ensures
        errors_view(r@) == report(constraints_view(constraints@), Subject::Text(text_view(value))),
{
    let shown: &str = match value {
        Some(t) => t,
        None => "",
    };
    proof {
        reveal_strlit("");
    }
    assert(shown@ == Subject::Text(text_view(value)).shown());
    evaluate(constraints, Probe::Text(value), shown)
}

/// Relies on `i128`'s `Display` through `ToString`: the decimal digits with no
/// leading zero, after a `-` when the number is negative.
#[verifier::external_body]
fn render_number(n: i128) -> (r: String)
    ensures
        r@ == decimal(n as int),
{
    n.to_string()
}

/// The report on a number.
fn check_number(constraints: &Vec<Constraint>, value: i128) -> (r: Vec<Error>)
    ensures
        errors_view(r@) == report(constraints_view(constraints@), Subject::Number(value as int)),
{
    let shown = render_number(value);
    evaluate(constraints, Probe::Number(value), shown.as_str())
}

/// The capability of producing an ordered report of violations.
pub trait Validate {
    /// The records that `validate` produces, in order.
    spec fn violations(&self) -> Seq<ErrorView>;

    /// Evaluates every constraint in order and returns one record for each
    /// broken one; what the validator would report is left as it was.
    fn validate(&mut self) -> (r: Vec<Error>)
        ensures
            errors_view(r@) == old(self).violations(),
            final(self).violations() == old(self).violations(),
    ;
}

/// The text form of an optional string.
pub open spec fn optional_text(v: Option<String>) -> Option<Seq<char>> {
    match v {
        Some(s) => Some(s@),
        None => None,
    }
}

impl<'a> Validate for Validator<'a, Option<String>> {
    open spec fn violations(&self) -> Seq<ErrorView> {
        report(self.rules(), Subject::Text(optional_text(self.bound_value())))
    }

    fn validate(&mut self) -> (r: Vec<Error>) {
        let value: Option<&str> = match self.value {
            Some(s) => Some(s.as_str()),
            None => None,
        };
        check_text(&self.constraints, value)
    }
}

impl<'a> Validate for Validator<'a, String> {
    open spec fn violations(&self) -> Seq<ErrorView> {
        report(self.rules(), Subject::Text(Some(self.bound_value()@)))
    }

    fn validate(&mut self) -> (r: Vec<Error>) {
        check_text(&self.constraints, Some(self.value.as_str()))
    }
}

impl<'a> Validate for Validator<'a, i64> {
    open spec fn violations(&self) -> Seq<ErrorView> {
        report(self.rules(), Subject::Number(self.bound_value() as int))
    }

    fn validate(&mut self) -> (r: Vec<Error>) {
        check_number(&self.constraints, *self.value as i128)
    }
}

impl<'a> Validate for Validator<'a, i8> {
    open spec fn violations(&self) -> Seq<ErrorView> {
        report(self.rules(), Subject::Number(self.bound_value() as int))
    }

    fn validate(&mut self) -> (r: Vec<Error>) {
        check_number(&self.constraints, *self.value as i128)
    }
}

impl<'a> Validate for Validator<'a, i16> {
    open spec fn violations(&self) -> Seq<ErrorView> {
        report(self.rules(), Subject::Number(self.bound_value() as int))
    }

    fn validate(&mut self) -> (r: Vec<Error>) {
        check_number(&self.constraints, *self.value as i128)
    }
}

impl<'a> Validate for Validator<'a, i32> {
    open spec fn violations(&self) -> Seq<ErrorView> {
        report(self.rules(), Subject::Number(self.bound_value() as int))
    }

    fn validate(&mut self) -> (r: Vec<Error>) {
        check_number(&self.constraints, *self.value as i128)
    }
}

impl<'a> Validate for Validator<'a, isize> {
    open spec fn violations(&self) -> Seq<ErrorView> {
        report(self.rules(), Subject::Number(self.bound_value() as int))
    }

    fn validate(&mut self) -> (r: Vec<Error>) {
        check_number(&self.constraints, *self.value as i128)
    }
}

impl<'a> Validate for Validator<'a, u8> {
    open spec fn violations(&self) -> Seq<ErrorView> {
        report(self.rules(), Subject::Number(self.bound_value() as int))
    }

    fn validate(&mut self) -> (r: Vec<Error>) {
        check_number(&self.constraints, *self.value as i128)
    }
}

impl<'a> Validate for Validator<'a, u16> {
    open spec fn violations(&self) -> Seq<ErrorView> {
        report(self.rules(), Subject::Number(self.bound_value() as int))
    }

    fn validate(&mut self) -> (r: Vec<Error>) {
        check_number(&self.constraints, *self.value as i128)
    }
}

impl<'a> Validate for Validator<'a, u32> {
    open spec fn violations(&self) -> Seq<ErrorView> {
        report(self.rules(), Subject::Number(self.bound_value() as int))
    }

    fn validate(&mut self) -> (r: Vec<Error>) {
        check_number(&self.constraints, *self.value as i128)
    }
}

impl<'a> Validate for Validator<'a, u64> {
    open spec fn violations(&self) -> Seq<ErrorView> {
        report(self.rules(), Subject::Number(self.bound_value() as int))
    }

    fn validate(&mut self) -> (r: Vec<Error>) {
        check_number(&self.constraints, *self.value as i128)
    }
}

impl<'a> Validate for Validator<'a, usize> {
    open spec fn violations(&self) -> Seq<ErrorView> {
        report(self.rules(), Subject::Number(self.bound_value() as int))
    }

    fn validate(&mut self) -> (r: Vec<Error>) {
        check_number(&self.constraints, *self.value as i128)
    }
}

} // verus!
