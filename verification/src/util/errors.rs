//! The errors of network IDs and of the text of amounts.

use vstd::prelude::*;
use vstd::string::StringExecFns;

use crate::util::text::{decimal_of, decimal_text};

verus! {

/// An error enum covering the errors of network IDs and amounts.
#[derive(Clone, Debug)]
pub enum Error {
    /// Indicates an invalid network ID byte.
    InvalidNetworkIDByte(u8),
    /// Indicates an invalid currency unit suffix.
    InvalidUnitSuffix(String),
}

impl Error {
    /// The text that describes this error.
    pub open spec fn spec_text(self) -> Seq<char> {
        match self {
            Error::InvalidNetworkIDByte(byte) => "Invalid network ID byte: "@ + decimal_of(
                byte as nat,
            ),
            Error::InvalidUnitSuffix(suffix) => "Invalid currency unit suffix: "@ + suffix@,
        }
    }

    /// Return the text that describes this error.
    pub fn to_string(&self) -> (text: String)
        ensures
            text@ == self.spec_text(),
    {
        match self {
            Error::InvalidNetworkIDByte(byte) => {
                let mut text = "Invalid network ID byte: ".to_owned();
                text.append(decimal_text(*byte as u64).as_str());
                text
            },
            Error::InvalidUnitSuffix(suffix) => {
                let mut text = "Invalid currency unit suffix: ".to_owned();
                text.append(suffix.as_str());
                text
            },
        }
    }
}

} // verus!
