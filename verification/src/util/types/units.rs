//! The units in which an amount is written.

use vstd::prelude::*;
use vstd::string::StringExecFns;

use crate::util::errors::Error as UtilError;

verus! {

/// Represents the unit of an amount.
/// - `nRBTC` (nano)
/// - `uRBTC` (micro)
/// - `mRBTC` (milli)
/// - `RBTC` (unit)
/// - `kRBTC` (kilo)
/// - `MRBTC` (mega)
/// - `GRBTC` (giga)
#[allow(non_camel_case_types)]
#[derive(Clone, Copy, Debug, PartialEq, Eq, Structural)]
pub enum Unit {
    nRBTC,
    uRBTC,
    mRBTC,
    RBTC,
    kRBTC,
    MRBTC,
    GRBTC,
}

/// The custom error type for a `Unit`.
#[derive(Clone, Debug)]
pub enum Error {
    /// Indicates an invalid unit.
    InvalidUnit(String),
}

impl Error {
    /// The text that describes this error.
    pub open spec fn spec_text(self) -> Seq<char> {
        match self {
            Error::InvalidUnit(text) => "Invalid unit: "@ + text@,
        }
    }

    /// Return the text that describes this error.
    pub fn to_string(&self) -> (text: String)
        ensures
            text@ == self.spec_text(),
    {
        match self {
            Error::InvalidUnit(unit) => {
                let mut text = "Invalid unit: ".to_owned();
                text.append(unit.as_str());
                text
            },
        }
    }
}

/// Whether two texts hold the same characters.
pub fn text_is(text: &str, word: &str) -> (same: bool)
    ensures
        same == (text@ == word@),
{
    let len = text.unicode_len();
    if len != word.unicode_len() {
        return false;
    }
    let mut i: usize = 0;
    while i < len
        invariant
            i <= len,
            len == text@.len(),
            len == word@.len(),
            forall|k: int| 0 <= k < i ==> text@[k] == word@[k],
        decreases len - i,
    {
        if text.get_char(i) != word.get_char(i) {
            return false;
        }
        i = i + 1;
    }
    assert(text@ =~= word@);
    true
}

/// Whether `text` ends with `word`.
pub open spec fn ends_with(text: Seq<char>, word: Seq<char>) -> bool {
    text.len() >= word.len() && text.subrange(text.len() - word.len(), text.len() as int)
        == word
}

/// Cut `word` off the end of `text`: return what stands before it, or
/// nothing if `text` does not end with `word`.
pub fn strip_suffix<'a>(text: &'a str, word: &str) -> (rest: Option<&'a str>)
    ensures
        rest is Some <==> ends_with(text@, word@),
        rest is Some ==> rest->0@ + word@ == text@,
{
    let len = text.unicode_len();
    let word_len = word.unicode_len();
    if len < word_len {
        return None;
    }
    let tail = text.substring_char(len - word_len, len);
    if text_is(tail, word) {
        let rest = text.substring_char(0, len - word_len);
        assert(rest@ + word@ =~= text@);
        Some(rest)
    } else {
        None
    }
}

impl Unit {
    /// The text that names this unit.
    pub open spec fn suffix(self) -> Seq<char> {
        match self {
            Unit::nRBTC => "nRBTC"@,
            Unit::uRBTC => "uRBTC"@,
            Unit::mRBTC => "mRBTC"@,
            Unit::RBTC => "RBTC"@,
            Unit::kRBTC => "kRBTC"@,
            Unit::MRBTC => "MRBTC"@,
            Unit::GRBTC => "GRBTC"@,
        }
    }

    /// The number of indivisible nanoRBTC in one of this unit.
    pub open spec fn spec_nanos(self) -> u64 {
        match self {
            Unit::nRBTC => 1,
            Unit::uRBTC => 1_000,
            Unit::mRBTC => 1_000_000,
            Unit::RBTC => 1_000_000_000,
            Unit::kRBTC => 1_000_000_000_000,
            Unit::MRBTC => 1_000_000_000_000_000,
            Unit::GRBTC => 1_000_000_000_000_000_000,
        }
    }

    /// Return the number of indivisible nanoRBTC in one of this unit.
    pub fn nanos(&self) -> (nanos: u64)
        ensures
            nanos == self.spec_nanos(),
    {
        match self {
            Unit::nRBTC => 1,
            Unit::uRBTC => 1_000,
            Unit::mRBTC => 1_000_000,
            Unit::RBTC => 1_000_000_000,
            Unit::kRBTC => 1_000_000_000_000,
            Unit::MRBTC => 1_000_000_000_000_000,
            Unit::GRBTC => 1_000_000_000_000_000_000,
        }
    }

    /// Return the text that names this unit.
    pub fn name(&self) -> (name: &'static str)
        ensures
            name@ == self.suffix(),
    {
        match self {
            Unit::nRBTC => "nRBTC",
            Unit::uRBTC => "uRBTC",
            Unit::mRBTC => "mRBTC",
            Unit::RBTC => "RBTC",
            Unit::kRBTC => "kRBTC",
            Unit::MRBTC => "MRBTC",
            Unit::GRBTC => "GRBTC",
        }
    }

    /// Read a unit from its name. Any other text is an invalid unit.
    pub fn parse(s: &str) -> (result: Result<Unit, Error>)
        ensures
            match result {
                Ok(unit) => s@ == unit.suffix(),
                Err(Error::InvalidUnit(text)) => text@ == s@ && forall|unit: Unit|
                    s@ != #[trigger] unit.suffix(),
            },
    {
        if text_is(s, "nRBTC") {
            Ok(Unit::nRBTC)
        } else if text_is(s, "uRBTC") {
            Ok(Unit::uRBTC)
        } else if text_is(s, "mRBTC") {
            Ok(Unit::mRBTC)
        } else if text_is(s, "RBTC") {
            Ok(Unit::RBTC)
        } else if text_is(s, "kRBTC") {
            Ok(Unit::kRBTC)
        } else if text_is(s, "MRBTC") {
            Ok(Unit::MRBTC)
        } else if text_is(s, "GRBTC") {
            Ok(Unit::GRBTC)
        } else {
            Err(Error::InvalidUnit(s.to_owned()))
        }
    }
}

/// Split the text of an amount into the number and the unit that follows
/// it. The unit is the one whose name ends the text; where `RBTC` and a
/// longer name both do, it is the longer one. A text that ends with no
/// unit name has an invalid unit suffix.
pub fn split_unit_suffix<'a>(s: &'a str) -> (result: Result<(&'a str, Unit), UtilError>)
    ensures
        match result {
            Ok((number, unit)) => number@ + unit.suffix() == s@ && (unit == Unit::RBTC
                ==> forall|other: Unit|
                other != Unit::RBTC ==> !ends_with(s@, #[trigger] other.suffix())),
            Err(UtilError::InvalidUnitSuffix(text)) => text@ == s@ && forall|unit: Unit|
                !ends_with(s@, #[trigger] unit.suffix()),
            Err(UtilError::InvalidNetworkIDByte(_)) => false,
        },
{
    if let Some(number) = strip_suffix(s, "nRBTC") {
        return Ok((number, Unit::nRBTC));
    }
    if let Some(number) = strip_suffix(s, "uRBTC") {
        return Ok((number, Unit::uRBTC));
    }
    if let Some(number) = strip_suffix(s, "mRBTC") {
        return Ok((number, Unit::mRBTC));
    }
    if let Some(number) = strip_suffix(s, "kRBTC") {
        return Ok((number, Unit::kRBTC));
    }
    if let Some(number) = strip_suffix(s, "MRBTC") {
        return Ok((number, Unit::MRBTC));
    }
    if let Some(number) = strip_suffix(s, "GRBTC") {
        return Ok((number, Unit::GRBTC));
    }
    if let Some(number) = strip_suffix(s, "RBTC") {
        return Ok((number, Unit::RBTC));
    }
    Err(UtilError::InvalidUnitSuffix(s.to_owned()))
}

impl std::str::FromStr for Unit {
    type Err = Error;

    fn from_str(s: &str) -> (result: Result<Unit, Error>)
        ensures
            match result {
                Ok(unit) => s@ == unit.suffix(),
                Err(Error::InvalidUnit(text)) => text@ == s@ && forall|unit: Unit|
                    s@ != #[trigger] unit.suffix(),
            },
    {
        Unit::parse(s)
    }
}

/// No two units share a name, so a name is read as one unit only.
pub proof fn lemma_unit_names_differ(a: Unit, b: Unit)
    requires
        a.suffix() == b.suffix(),
    ensures
        a == b,
{
    reveal_strlit("nRBTC");
    reveal_strlit("uRBTC");
    reveal_strlit("mRBTC");
    reveal_strlit("RBTC");
    reveal_strlit("kRBTC");
    reveal_strlit("MRBTC");
    reveal_strlit("GRBTC");
    assert("nRBTC"@.len() == 5 && "nRBTC"@[0] == 'n');
    assert("uRBTC"@.len() == 5 && "uRBTC"@[0] == 'u');
    assert("mRBTC"@.len() == 5 && "mRBTC"@[0] == 'm');
    assert("RBTC"@.len() == 4);
    assert("kRBTC"@.len() == 5 && "kRBTC"@[0] == 'k');
    assert("MRBTC"@.len() == 5 && "MRBTC"@[0] == 'M');
    assert("GRBTC"@.len() == 5 && "GRBTC"@[0] == 'G');
}

} // verus!
