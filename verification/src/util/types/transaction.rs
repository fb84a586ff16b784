//! Value transfers: transactions that carry nothing but an amount.

use vstd::prelude::*;

use crate::util::bytes::{le_bytes, lemma_le_bytes_len, push_le};
use crate::util::constants::SHA256_HASH_SIZE;
use crate::util::hashes::{double_sha256, double_sha256_of};
use crate::util::types::amount::Amount;

verus! {

/// A transaction.
#[derive(Clone, Copy, Debug)]
pub struct Transaction {
    amount: Amount,
}

impl View for Transaction {
    type V = Amount;

    closed spec fn view(&self) -> Amount {
        self.amount
    }
}

/// The serialized form of a transaction of `amount`: the underlying amount
/// as 8 little-endian bytes.
pub open spec fn transaction_bytes(amount: Amount) -> Seq<u8> {
    le_bytes(amount.underlying as nat, 8)
}

impl Transaction {
    /// Initialize a new transaction of the provided amount.
    pub fn new(amount: Amount) -> (transaction: Transaction)
        ensures
            transaction@ == amount,
    {
        Transaction { amount }
    }

    /// Return the amount of this transaction.
    pub fn amount(&self) -> (amount: Amount)
        ensures
            amount == self@,
    {
        self.amount
    }

    /// Return the hash of this transaction's data.
    pub fn hash(&self) -> (digest: [u8; SHA256_HASH_SIZE])
        ensures
            digest@ == double_sha256_of(transaction_bytes(self@)),
    {
        let mut bytes = Vec::<u8>::new();
        push_le(&mut bytes, self.amount.underlying, 8);
        proof {
            lemma_le_bytes_len(self.amount.underlying as nat, 8);
            assert(bytes@ == transaction_bytes(self@));
        }
        double_sha256(bytes.as_slice())
    }
}

} // verus!
