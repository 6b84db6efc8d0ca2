//! The error of the codec.

use vstd::prelude::*;

verus! {

/// A frame could not be written or a payload could not be read.
#[derive(Debug)]
pub struct CodecError {
    message: String,
}

impl CodecError {
    /// The message of the error.
    pub closed spec fn spec_message(&self) -> Seq<char> {
        self.message@
    }

    /// An error with the given message.
    pub fn new(message: &str) -> (e: CodecError)
        ensures
            e.spec_message() == message@,
    {
        CodecError { message: message.to_owned() }
    }

    /// The error that stands for a failure of which nothing is known.
    pub fn unknown() -> (e: CodecError)
        ensures
            e.spec_message() == "unknown error"@,
    {
        CodecError::new("unknown error")
    }

    /// The message of the error.
    pub fn description(&self) -> (s: &str)
        ensures
            s@ == self.spec_message(),
    {
        self.message.as_str()
    }
}

} // verus!
