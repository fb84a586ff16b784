//! Numbers and byte lists as text, for the messages of errors.

use vstd::prelude::*;
use vstd::string::StringExecFns;

verus! {

/// The text of a decimal digit.
pub open spec fn digit_text(digit: nat) -> Seq<char> {
    if digit == 0 {
        "0"@
    } else if digit == 1 {
        "1"@
    } else if digit == 2 {
        "2"@
    } else if digit == 3 {
        "3"@
    } else if digit == 4 {
        "4"@
    } else if digit == 5 {
        "5"@
    } else if digit == 6 {
        "6"@
    } else if digit == 7 {
        "7"@
    } else if digit == 8 {
        "8"@
    } else {
        "9"@
    }
}

/// The decimal text of a number: its digits, most significant first,
/// without leading zeros.
pub open spec fn decimal_of(n: nat) -> Seq<char>
    decreases n,
{
    if n < 10 {
        digit_text(n)
    } else {
        decimal_of(n / 10) + digit_text(n % 10)
    }
}

/// The items of a list of bytes in decimal, each but the first preceded by
/// a comma and a space.
pub open spec fn list_items_of(bytes: Seq<u8>) -> Seq<char>
    decreases bytes.len(),
{
    if bytes.len() == 0 {
        Seq::empty()
    } else if bytes.len() == 1 {
        decimal_of(bytes[0] as nat)
    } else {
        list_items_of(bytes.drop_last()) + ", "@ + decimal_of(bytes.last() as nat)
    }
}

/// The text of a list of bytes: its items in decimal between square
/// brackets.
pub open spec fn list_of(bytes: Seq<u8>) -> Seq<char> {
    "["@ + list_items_of(bytes) + "]"@
}

/// Return the text of a decimal digit.
fn digit_str(digit: u64) -> (text: &'static str)
    requires
        digit < 10,
    ensures
        text@ == digit_text(digit as nat),
{
    if digit == 0 {
        "0"
    } else if digit == 1 {
        "1"
    } else if digit == 2 {
        "2"
    } else if digit == 3 {
        "3"
    } else if digit == 4 {
        "4"
    } else if digit == 5 {
        "5"
    } else if digit == 6 {
        "6"
    } else if digit == 7 {
        "7"
    } else if digit == 8 {
        "8"
    } else {
        "9"
    }
}

/// Return the decimal text of a number.
pub fn decimal_text(n: u64) -> (text: String)
    ensures
        text@ == decimal_of(n as nat),
    decreases n,
{
    if n < 10 {
        digit_str(n).to_owned()
    } else {
        let mut text = decimal_text(n / 10);
        text.append(digit_str(n % 10));
        text
    }
}

/// Return the text of a list of bytes.
pub fn list_text(bytes: &Vec<u8>) -> (text: String)
    ensures
        text@ == list_of(bytes@),
{
    let mut text = "[".to_owned();
    let mut i: usize = 0;
    while i < bytes.len()
        invariant
            i <= bytes.len(),
            text@ == "["@ + list_items_of(bytes@.take(i as int)),
        decreases bytes.len() - i,
    {
        if i > 0 {
            text.append(", ");
        }
        let item = decimal_text(bytes[i] as u64);
        text.append(item.as_str());
        proof {
            let before = bytes@.take(i as int);
            let after = bytes@.take(i + 1);
            assert(after.drop_last() == before);
            assert(after.last() == bytes@[i as int]);
            if i == 0 {
                assert(list_items_of(before) == Seq::<char>::empty());
                assert(text@ == "["@ + list_items_of(after));
            } else {
                assert(text@ == "["@ + (list_items_of(before) + ", "@ + decimal_of(
                    bytes@[i as int] as nat,
                )));
            }
        }
        i = i + 1;
    }
    assert(bytes@.take(i as int) == bytes@);
    text.append("]");
    text
}

} // verus!
