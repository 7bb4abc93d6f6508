//! The aggregator that merges the reports of several validators.

use crate::error::{errors_view, lemma_errors_view_add, Error, ErrorView};
use crate::validator::Validate;
use vstd::prelude::*;

verus! {

/// One ordered report, merged from the reports of any number of validators.
pub struct Validators {
    inner: Vec<Error>,
}

impl View for Validators {
    type V = Seq<ErrorView>;

    closed spec fn view(&self) -> Seq<ErrorView> {
        errors_view(self.inner@)
    }
}

impl Validators {
    /// An empty report.
    pub fn new() -> (r: Self)
        ensures
            r@ == Seq::<ErrorView>::empty(),
    {
        let r = Self { inner: Vec::new() };
        assert(r@ =~= Seq::<ErrorView>::empty());
        r
    }

    /// Runs `validate` and appends its whole report, in its own order.
    pub fn add_validator<T>(&mut self, validate: T) where T: Validate
        ensures
            final(self)@ == old(self)@ + validate.violations(),
    {
        let mut v = validate;
        let mut found = v.validate();
        let ghost before = self.inner@;
        let ghost added = found@;
        self.inner.append(&mut found);
        proof {
            lemma_errors_view_add(before, added);
        }
    }

    /// Whether any violation has been recorded.
    pub fn has_error(&self) -> (r: bool)
        ensures
            r == (self@.len() > 0),
    {
        !self.inner.is_empty()
    }

    /// A copy of the report, in the order it was accumulated.
    pub fn to_vec(&self) -> (r: Vec<Error>)
        ensures
            errors_view(r@) == self@,
    {
        let r = self.inner.clone();
        assert(r@ =~= self.inner@);
        r
    }
}

} // verus!
