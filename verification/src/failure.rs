//! Why a run ends without its output, and what the program then tells
//! the user and the shell.

use vstd::prelude::*;
use crate::sprite::DecodeError;

verus! {

/// What is said where no name or number was given.
pub const ARGUMENT_MISSING_MESSAGE: &'static str = "a pokemon name or id is required";

/// What is said where a decoder's pixel data does not fit the extent it
/// gave.
pub const INCONSISTENT_MESSAGE: &'static str =
    "the pixel data of the image does not fit its extent";

/// The exit code of a run that printed its output.
pub const EXIT_SUCCESS: i32 = 0;

/// The exit code of a run that failed.
pub const EXIT_FAILURE: i32 = 1;

/// Why a run ends without its output. Nothing is tried again, and
/// nothing is printed in part.
#[derive(Debug)]
pub enum Failure {
    /// No name or number was given.
    ArgumentMissing,
    /// A request could not be made, or was answered with an error status.
    Network { reason: String },
    /// An answer was not what it should be: no record, or no image.
    Decode { reason: String },
}

impl Failure {
    /// The message of the failure: for a failed request or answer, the
    /// words of what failed.
    pub open spec fn message_text(self) -> Seq<char> {
        match self {
            Failure::ArgumentMissing => ARGUMENT_MISSING_MESSAGE@,
            Failure::Network { reason } => reason@,
            Failure::Decode { reason } => reason@,
        }
    }

    /// The message that the user is given.
    pub fn message(&self) -> (text: String)
        ensures
            text@ == self.message_text(),
    {
        match self {
            Failure::ArgumentMissing => String::from_str(ARGUMENT_MISSING_MESSAGE),
            Failure::Network { reason } => reason.clone(),
            Failure::Decode { reason } => reason.clone(),
        }
    }

    /// The failure of a run whose sprite could not be decoded.
    pub fn from_decode(error: DecodeError) -> (failure: Failure)
        ensures
            failure matches Failure::Decode { reason } && reason@ == match error {
                DecodeError::Malformed { reason: words } => words@,
                DecodeError::Inconsistent => INCONSISTENT_MESSAGE@,
            },
    {
        match error {
            DecodeError::Malformed { reason } => Failure::Decode { reason },
            DecodeError::Inconsistent => Failure::Decode {
                reason: String::from_str(INCONSISTENT_MESSAGE),
            },
        }
    }
}

/// The exit code of a run: zero if and only if it succeeded.
pub fn exit_code(outcome: &Result<(), Failure>) -> (code: i32)
    ensures
        code == if outcome is Ok {
            EXIT_SUCCESS
        } else {
            EXIT_FAILURE
        },
        code == 0 <==> outcome is Ok,
{
    match outcome {
        Ok(_) => EXIT_SUCCESS,
        Err(_) => EXIT_FAILURE,
    }
}

} // verus!
