use vstd::prelude::*;

verus! {

/// The mathematical content of a [`UserErr`]: its two texts as character
/// sequences.
pub ghost struct UserErrView {
    pub message: Seq<char>,
    pub guidance: Seq<char>,
}

/// A user-facing error: a short message describing what went wrong plus
/// actionable guidance on how to fix it. Errors of this kind abort only the
/// resolution of a single trigger, never the whole process.
#[derive(Debug, PartialEq, Eq)]
pub struct UserErr {
    pub message: String,
    pub guidance: String,
}

impl View for UserErr {
    type V = UserErrView;

    open spec fn view(&self) -> UserErrView {
        UserErrView { message: self.message@, guidance: self.guidance@ }
    }
}

impl UserErr {
    pub fn new(message: String, guidance: String) -> (r: UserErr)
        ensures
            r@ == (UserErrView { message: message@, guidance: guidance@ }),
    {
        UserErr { message, guidance }
    }

    pub fn from_str(message: &str, guidance: &str) -> (r: UserErr)
        ensures
            r@ == (UserErrView { message: message@, guidance: guidance@ }),
    {
        UserErr { message: message.to_owned(), guidance: guidance.to_owned() }
    }
}

} // verus!
