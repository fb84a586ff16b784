//! Error type for the `mining` module.

use vstd::prelude::*;

verus! {

/// The failures of mining. Both are fatal: the miner cannot go on with a
/// wrapped nonce or a wrapped target.
#[derive(Clone, Copy, Debug, PartialEq, Eq, Structural)]
pub enum Error {
    /// Every nonce up to the largest has been tried.
    NonceOverflow,
    /// The adjusted target does not fit in 256 bits.
    TargetOverflow,
}

impl Error {
    /// The text that describes this error.
    pub open spec fn spec_text(self) -> Seq<char> {
        match self {
            Error::NonceOverflow => "Nonce overflowed"@,
            Error::TargetOverflow => "Target overflowed"@,
        }
    }

    /// Return the text that describes this error.
    pub fn to_string(&self) -> (text: String)
        ensures
            text@ == self.spec_text(),
    {
        match self {
            Error::NonceOverflow => "Nonce overflowed".to_owned(),
            Error::TargetOverflow => "Target overflowed".to_owned(),
        }
    }
}

} // verus!
