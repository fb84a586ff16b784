//! Transactions in their text form.

use vstd::prelude::*;

verus! {

/// A transaction that is carried as text.
#[derive(Clone, Debug)]
pub struct Tx {
    x: String,
}

impl View for Tx {
    type V = Seq<char>;

    closed spec fn view(&self) -> Seq<char> {
        self.x@
    }
}

impl Tx {
    /// Make a transaction of its text.
    pub fn new(x: String) -> (tx: Tx)
        ensures
            tx@ == x@,
    {
        Tx { x }
    }

    /// Return the text of this transaction.
    pub fn x(&self) -> (x: &str)
        ensures
            x@ == self@,
    {
        self.x.as_str()
    }
}

} // verus!
