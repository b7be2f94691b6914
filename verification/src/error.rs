//! The error that the library's operations report.

use vstd::prelude::*;

verus! {

/// A failure of one step of a pinning operation, as the text that is shown
/// to the user.
#[derive(Debug)]
pub struct EmacsError {
    pub message: String,
}

impl View for EmacsError {
    type V = Seq<char>;

    open spec fn view(&self) -> Seq<char> {
        self.message@
    }
}

impl EmacsError {
    /// An error with the given text.
    pub fn new(message: String) -> (e: EmacsError)
        ensures
            e@ == message@,
    {
        EmacsError { message }
    }

    /// The text of the error.
    pub fn to_string(&self) -> (text: String)
        ensures
            text@ == self@,
    {
        self.message.clone()
    }
}

/// What a fallible step came to, with texts in place of strings.
pub open spec fn result_view(r: Result<String, EmacsError>) -> Result<Seq<char>, Seq<char>> {
    match r {
        Ok(v) => Ok(v@),
        Err(e) => Err(e@),
    }
}

/// What a step of a session came to (`None`: the session has stopped), with
/// texts in place of strings.
pub open spec fn step_view(r: Option<Result<String, EmacsError>>) -> Option<
    Result<Seq<char>, Seq<char>>,
> {
    match r {
        Some(done) => Some(result_view(done)),
        None => None,
    }
}

/// What a step without a value came to, with texts in place of strings.
pub open spec fn unit_step_view(r: Option<Result<(), EmacsError>>) -> Option<
    Result<(), Seq<char>>,
> {
    match r {
        Some(Ok(_)) => Some(Ok(())),
        Some(Err(e)) => Some(Err(e@)),
        None => None,
    }
}

} // verus!
