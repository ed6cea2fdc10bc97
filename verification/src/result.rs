//! The error type shared by all fallible operations.

use vstd::prelude::*;

verus! {

/// An error described by a human-readable message.
#[derive(Debug)]
pub struct Error {
    msg: String,
}

impl View for Error {
    type V = Seq<char>;

    /// The message, as a sequence of characters.
    closed spec fn view(&self) -> Seq<char> {
        self.msg@
    }
}

impl Error {
    /// The message this error was made with.
    pub fn message(&self) -> (text: String)
        ensures
            text@ == self@,
    {
        self.msg.clone()
    }
}

/// Makes an error that carries `msg`.
pub fn err(msg: &str) -> (e: Error)
    ensures
        e@ == msg@,
{
    Error { msg: msg.to_owned() }
}

/// Makes a failed result that carries `msg`.
pub fn error<T>(msg: &str) -> (r: Result<T, Error>)
    ensures
        r matches Err(e) && e@ == msg@,
{
    Err(err(msg))
}

} // verus!
