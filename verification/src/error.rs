//! The ways a request to the library can be refused.

use vstd::prelude::*;

verus! {

/// Why a constructor or a synthesis was refused.
#[derive(Clone, Copy, Debug, PartialEq, Eq, Structural)]
pub enum WaveError {
    /// A period, frequency, step or cavity dimension that is not positive,
    /// or a resonance frequency that is negative.
    InvalidParameter,
    /// A synthesis over no waves at all.
    EmptyInput,
}

impl WaveError {
    /// The text of the message for each error.
    pub open spec fn text(self) -> Seq<char> {
        match self {
            WaveError::InvalidParameter => "invalid parameter"@,
            WaveError::EmptyInput => "empty input"@,
        }
    }

    /// A short message for the caller to report.
    pub fn message(&self) -> (r: &'static str)
        ensures
            r@ == self.text(),
    {
        match self {
            WaveError::InvalidParameter => "invalid parameter",
            WaveError::EmptyInput => "empty input",
        }
    }
}

} // verus!
