//! Amounts of currency, counted in indivisible nanoRBTC.

use vstd::prelude::*;

use crate::util::types::units::Unit;

verus! {

/// Error type for `Amount` objects.
#[derive(Clone, Copy, Debug, PartialEq, Eq, Structural)]
pub enum Error {
    /// Indicates integer overflow.
    IntegerOverflow,
}

impl Error {
    /// The text that describes this error.
    pub open spec fn spec_text(self) -> Seq<char> {
        match self {
            Error::IntegerOverflow => "IntegerOverflow"@,
        }
    }

    /// Return the text that describes this error.
    pub fn to_string(&self) -> (text: String)
        ensures
            text@ == self.spec_text(),
    {
        match self {
            Error::IntegerOverflow => "IntegerOverflow".to_owned(),
        }
    }
}

/// An amount of RBTC.
#[derive(Clone, Copy, Debug, PartialEq, Eq, Structural)]
pub struct Amount {
    /// The underlying amount, in indivisible nanoRBTC.
    pub underlying: u64,
}

/// The unit in which an amount of `underlying` nanoRBTC is written: the
/// largest unit that the amount reaches, and none for an amount of zero.
pub open spec fn display_unit_of(underlying: u64) -> Option<Unit> {
    if underlying < 1 {
        None
    } else if underlying < 1_000 {
        Some(Unit::nRBTC)
    } else if underlying < 1_000_000 {
        Some(Unit::uRBTC)
    } else if underlying < 1_000_000_000 {
        Some(Unit::mRBTC)
    } else if underlying < 1_000_000_000_000 {
        Some(Unit::RBTC)
    } else if underlying < 1_000_000_000_000_000 {
        Some(Unit::kRBTC)
    } else if underlying < 1_000_000_000_000_000_000 {
        Some(Unit::MRBTC)
    } else {
        Some(Unit::GRBTC)
    }
}

impl Amount {
    /// The amount of `count` whole units, or an overflow error if that many
    /// nanoRBTC do not fit in 64 bits.
    pub fn from_units(count: u64, unit: &Unit) -> (result: Result<Amount, Error>)
        ensures
            result is Ok <==> count * unit.spec_nanos() <= u64::MAX,
            result is Ok ==> result->Ok_0.underlying == count * unit.spec_nanos(),
            result is Err ==> result->Err_0 == Error::IntegerOverflow,
    {
        match count.checked_mul(unit.nanos()) {
            Some(underlying) => Ok(Amount { underlying }),
            None => Err(Error::IntegerOverflow),
        }
    }

    /// Return the unit in which this amount is written.
    pub fn display_unit(&self) -> (unit: Option<Unit>)
        ensures
            unit == display_unit_of(self.underlying),
    {
        if self.underlying < 1 {
            None
        } else if self.underlying < 1_000 {
            Some(Unit::nRBTC)
        } else if self.underlying < 1_000_000 {
            Some(Unit::uRBTC)
        } else if self.underlying < 1_000_000_000 {
            Some(Unit::mRBTC)
        } else if self.underlying < 1_000_000_000_000 {
            Some(Unit::RBTC)
        } else if self.underlying < 1_000_000_000_000_000 {
            Some(Unit::kRBTC)
        } else if self.underlying < 1_000_000_000_000_000_000 {
            Some(Unit::MRBTC)
        } else {
            Some(Unit::GRBTC)
        }
    }
}

/// An amount is written in a unit that it reaches, and in the largest such
/// unit: it does not reach a thousand of it, unless there is no larger unit.
pub proof fn lemma_display_unit(underlying: u64)
    ensures
        display_unit_of(underlying) is None <==> underlying == 0,
        display_unit_of(underlying) matches Some(unit) ==> unit.spec_nanos() <= underlying && (
        unit == Unit::GRBTC || underlying < 1000 * unit.spec_nanos()),
{
}

} // verus!
