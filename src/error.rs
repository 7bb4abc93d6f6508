//! The violation record that a broken constraint yields.

use vstd::prelude::*;

verus! {

/// One broken constraint: its title and message, and the offending value as
/// text (empty when the value was absent).
#[derive(Debug)]
pub struct Error {
    pub title: String,
    pub message: String,
    pub value: String,
}

/// The contents of an [`Error`], as character sequences.
pub ghost struct ErrorView {
    pub title: Seq<char>,
    pub message: Seq<char>,
    pub value: Seq<char>,
}

impl View for Error {
    type V = ErrorView;

    open spec fn view(&self) -> ErrorView {
        ErrorView { title: self.title@, message: self.message@, value: self.value@ }
    }
}

impl Clone for Error {
    fn clone(&self) -> (r: Self)
        ensures
            r == *self,
    {
        Error { title: self.title.clone(), message: self.message.clone(), value: self.value.clone() }
    }
}

/// The contents of a sequence of records.
pub open spec fn errors_view(errors: Seq<Error>) -> Seq<ErrorView> {
    errors.map_values(|e: Error| e@)
}

/// Appending one record appends its contents.
pub proof fn lemma_errors_view_push(errors: Seq<Error>, e: Error)
    ensures
        errors_view(errors.push(e)) == errors_view(errors).push(e@),
{
    assert(errors_view(errors.push(e)) =~= errors_view(errors).push(e@));
}

/// Joining two sequences of records joins their contents.
pub proof fn lemma_errors_view_add(a: Seq<Error>, b: Seq<Error>)
    ensures
        errors_view(a + b) == errors_view(a) + errors_view(b),
{
    assert(errors_view(a + b) =~= errors_view(a) + errors_view(b));
}

} // verus!
