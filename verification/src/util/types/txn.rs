//! Transactions and their serialized form, which is what gets hashed.
//!
//! The layout is fixed-width little-endian: every integer field in declared
//! order, every list preceded by its length as 8 bytes, byte arrays verbatim.

use vstd::prelude::*;

use crate::util::bytes::{le_bytes, lemma_le_bytes_len, push_le};
use crate::util::constants::SHA256_HASH_SIZE;
use crate::util::hashes::{double_sha256, double_sha256_of, hashable_len, HASH_INPUT_LIMIT};
use crate::util::types::txi::{lemma_txi_bytes_len, Txi, TxiView, TXI_ENCODED_LEN};
use crate::util::types::txo::{lemma_txo_bytes_len, Txo, TxoView, TXO_ENCODED_LEN};

verus! {

/// The plain values of a list of inputs.
pub open spec fn txi_views(list: Seq<Txi>) -> Seq<TxiView> {
    list.map_values(|t: Txi| t@)
}

/// The plain values of a list of outputs.
pub open spec fn txo_views(list: Seq<Txo>) -> Seq<TxoView> {
    list.map_values(|t: Txo| t@)
}

/// The plain values of a list of transactions.
pub open spec fn txn_views(list: Seq<Txn>) -> Seq<TxnView> {
    list.map_values(|t: Txn| t@)
}

/// The serialized inputs, one after the other.
pub open spec fn txis_bytes(list: Seq<TxiView>) -> Seq<u8>
    decreases list.len(),
{
    if list.len() == 0 {
        Seq::empty()
    } else {
        txis_bytes(list.drop_last()) + list.last().bytes()
    }
}

/// The serialized outputs, one after the other.
pub open spec fn txos_bytes(list: Seq<TxoView>) -> Seq<u8>
    decreases list.len(),
{
    if list.len() == 0 {
        Seq::empty()
    } else {
        txos_bytes(list.drop_last()) + list.last().bytes()
    }
}

/// The serialized transactions, one after the other.
pub open spec fn txns_concat(list: Seq<TxnView>) -> Seq<u8>
    decreases list.len(),
{
    if list.len() == 0 {
        Seq::empty()
    } else {
        txns_concat(list.drop_last()) + list.last().bytes()
    }
}

/// The serialized form of a list of transactions: its length as 8 bytes,
/// then the transactions.
pub open spec fn txns_bytes(list: Seq<TxnView>) -> Seq<u8> {
    le_bytes(list.len(), 8) + txns_concat(list)
}

/// What a transaction holds, as plain values.
pub struct TxnView {
    pub version: u32,
    pub txi_count: u32,
    pub inputs: Seq<TxiView>,
    pub txo_count: u32,
    pub outputs: Seq<TxoView>,
}

impl TxnView {
    /// The serialized form.
    pub open spec fn bytes(self) -> Seq<u8> {
        le_bytes(self.version as nat, 4) + le_bytes(self.txi_count as nat, 4) + le_bytes(
            self.inputs.len(),
            8,
        ) + txis_bytes(self.inputs) + le_bytes(self.txo_count as nat, 4) + le_bytes(
            self.outputs.len(),
            8,
        ) + txos_bytes(self.outputs)
    }

    /// The transaction digest: the double SHA-256 of the serialized form.
    pub open spec fn digest(self) -> Seq<u8> {
        double_sha256_of(self.bytes())
    }

    /// Every input and output is well formed.
    pub open spec fn wf(self) -> bool {
        &&& forall|i: int| 0 <= i < self.inputs.len() ==> (#[trigger] self.inputs[i]).wf()
        &&& forall|i: int| 0 <= i < self.outputs.len() ==> (#[trigger] self.outputs[i]).wf()
    }

    /// The length of the serialized form.
    pub open spec fn encoded_len(self) -> nat {
        28 + TXI_ENCODED_LEN as nat * self.inputs.len() + TXO_ENCODED_LEN as nat
            * self.outputs.len()
    }
}

/// The summed serialized lengths of a list of transactions.
pub open spec fn txns_encoded_len(list: Seq<TxnView>) -> nat
    decreases list.len(),
{
    if list.len() == 0 {
        0
    } else {
        txns_encoded_len(list.drop_last()) + list.last().encoded_len()
    }
}

/// Every transaction of the list is well formed.
pub open spec fn txns_wf(list: Seq<TxnView>) -> bool {
    forall|i: int| 0 <= i < list.len() ==> (#[trigger] list[i]).wf()
}

/// Well-formed inputs serialize to `TXI_ENCODED_LEN` bytes each.
pub proof fn lemma_txis_bytes_len(list: Seq<TxiView>)
    requires
        forall|i: int| 0 <= i < list.len() ==> (#[trigger] list[i]).wf(),
    ensures
        txis_bytes(list).len() == TXI_ENCODED_LEN * list.len(),
    decreases list.len(),
{
    if list.len() > 0 {
        lemma_txis_bytes_len(list.drop_last());
        lemma_txi_bytes_len(list.last());
    }
}

/// Well-formed outputs serialize to `TXO_ENCODED_LEN` bytes each.
pub proof fn lemma_txos_bytes_len(list: Seq<TxoView>)
    requires
        forall|i: int| 0 <= i < list.len() ==> (#[trigger] list[i]).wf(),
    ensures
        txos_bytes(list).len() == TXO_ENCODED_LEN * list.len(),
    decreases list.len(),
{
    if list.len() > 0 {
        lemma_txos_bytes_len(list.drop_last());
        lemma_txo_bytes_len(list.last());
    }
}

/// A well-formed transaction serializes to `encoded_len` bytes.
pub proof fn lemma_txn_bytes_len(t: TxnView)
    requires
        t.wf(),
    ensures
        t.bytes().len() == t.encoded_len(),
{
    lemma_le_bytes_len(t.version as nat, 4);
    lemma_le_bytes_len(t.txi_count as nat, 4);
    lemma_le_bytes_len(t.inputs.len(), 8);
    lemma_le_bytes_len(t.txo_count as nat, 4);
    lemma_le_bytes_len(t.outputs.len(), 8);
    lemma_txis_bytes_len(t.inputs);
    lemma_txos_bytes_len(t.outputs);
}

/// A list of well-formed transactions serializes to 8 bytes more than the
/// summed lengths of its transactions.
pub proof fn lemma_txns_bytes_len(list: Seq<TxnView>)
    requires
        txns_wf(list),
    ensures
        txns_concat(list).len() == txns_encoded_len(list),
        txns_bytes(list).len() == 8 + txns_encoded_len(list),
    decreases list.len(),
{
    lemma_le_bytes_len(list.len(), 8);
    if list.len() > 0 {
        lemma_txns_bytes_len(list.drop_last());
        lemma_txn_bytes_len(list.last());
    }
}

/// The summed length of a prefix is at most that of the whole list.
pub proof fn lemma_txns_encoded_len_prefix(list: Seq<TxnView>, n: int)
    requires
        0 <= n <= list.len(),
    ensures
        txns_encoded_len(list.take(n)) <= txns_encoded_len(list),
    decreases list.len() - n,
{
    if n < list.len() {
        lemma_txns_encoded_len_prefix(list, n + 1);
        assert(list.take(n + 1).drop_last() == list.take(n));
    } else {
        assert(list.take(n) == list);
    }
}

/// A transaction.
#[derive(Clone, Debug)]
pub struct Txn {
    version: u32,
    txi_count: u32,
    txi_list: Vec<Txi>,
    txo_count: u32,
    txo_list: Vec<Txo>,
}

impl View for Txn {
    type V = TxnView;

    closed spec fn view(&self) -> TxnView {
        TxnView {
            version: self.version,
            txi_count: self.txi_count,
            inputs: txi_views(self.txi_list@),
            txo_count: self.txo_count,
            outputs: txo_views(self.txo_list@),
        }
    }
}

/// Append the serialized inputs to `buf`.
fn serialize_inputs(list: &Vec<Txi>, buf: &mut Vec<u8>)
    ensures
        final(buf)@ == old(buf)@ + txis_bytes(txi_views(list@)),
{
    let ghost views = txi_views(list@);
    let mut i: usize = 0;
    while i < list.len()
        invariant
            i <= list.len(),
            views == txi_views(list@),
            buf@ == old(buf)@ + txis_bytes(views.take(i as int)),
        decreases list.len() - i,
    {
        list[i].serialize_into(buf);
        proof {
            assert(views.take(i + 1).drop_last() == views.take(i as int));
            assert(views.take(i + 1).last() == list[i as int]@);
        }
        i = i + 1;
    }
    assert(views.take(i as int) == views);
}

/// Append the serialized outputs to `buf`.
fn serialize_outputs(list: &Vec<Txo>, buf: &mut Vec<u8>)
    ensures
        final(buf)@ == old(buf)@ + txos_bytes(txo_views(list@)),
{
    let ghost views = txo_views(list@);
    let mut i: usize = 0;
    while i < list.len()
        invariant
            i <= list.len(),
            views == txo_views(list@),
            buf@ == old(buf)@ + txos_bytes(views.take(i as int)),
        decreases list.len() - i,
    {
        list[i].serialize_into(buf);
        proof {
            assert(views.take(i + 1).drop_last() == views.take(i as int));
            assert(views.take(i + 1).last() == list[i as int]@);
        }
        i = i + 1;
    }
    assert(views.take(i as int) == views);
}

impl Txn {
    /// Initialize a new transaction from the provided values.
    pub fn new(
        version: u32,
        txi_count: u32,
        txi_list: Vec<Txi>,
        txo_count: u32,
        txo_list: Vec<Txo>,
    ) -> (txn: Txn)
        ensures
            txn@ == (TxnView {
                version,
                txi_count,
                inputs: txi_views(txi_list@),
                txo_count,
                outputs: txo_views(txo_list@),
            }),
    {
        Txn { version, txi_count, txi_list, txo_count, txo_list }
    }

    /// Return this transaction's `version`.
    pub fn version(&self) -> (version: u32)
        ensures
            version == self@.version,
    {
        self.version
    }

    /// Return the number of inputs that this transaction declares.
    pub fn txi_count(&self) -> (count: u32)
        ensures
            count == self@.txi_count,
    {
        self.txi_count
    }

    /// Return this transaction's inputs.
    pub fn txi_list(&self) -> (list: &Vec<Txi>)
        ensures
            txi_views(list@) == self@.inputs,
    {
        &self.txi_list
    }

    /// Return the number of outputs that this transaction declares.
    pub fn txo_count(&self) -> (count: u32)
        ensures
            count == self@.txo_count,
    {
        self.txo_count
    }

    /// Return this transaction's outputs.
    pub fn txo_list(&self) -> (list: &Vec<Txo>)
        ensures
            txo_views(list@) == self@.outputs,
    {
        &self.txo_list
    }

    /// Every transaction is well formed.
    pub proof fn lemma_wf(self)
        ensures
            self@.wf(),
    {
        assert forall|i: int| 0 <= i < self@.inputs.len() implies (#[trigger] self@.inputs[i]).wf() by {
            self.txi_list@[i].lemma_wf();
        }
        assert forall|i: int| 0 <= i < self@.outputs.len() implies (#[trigger] self@.outputs[i]).wf() by {
            self.txo_list@[i].lemma_wf();
        }
    }

    /// Append the serialized form of this transaction to `buf`.
    pub fn serialize_into(&self, buf: &mut Vec<u8>)
        ensures
            final(buf)@ == old(buf)@ + self@.bytes(),
    {
        push_le(buf, self.version as u64, 4);
        push_le(buf, self.txi_count as u64, 4);
        push_le(buf, self.txi_list.len() as u64, 8);
        serialize_inputs(&self.txi_list, buf);
        push_le(buf, self.txo_count as u64, 4);
        push_le(buf, self.txo_list.len() as u64, 8);
        serialize_outputs(&self.txo_list, buf);
        assert(buf@ == old(buf)@ + self@.bytes());
    }

    /// Return the serialized form of this transaction.
    pub fn serialize(&self) -> (bytes: Vec<u8>)
        ensures
            bytes@ == self@.bytes(),
    {
        let mut bytes = Vec::<u8>::new();
        self.serialize_into(&mut bytes);
        assert(bytes@ == self@.bytes());
        bytes
    }

    /// Return the length of the serialized form of this transaction.
    pub fn encoded_len(&self) -> (len: u128)
        ensures
            len == self@.encoded_len(),
            len == self@.bytes().len(),
    {
        proof {
            self.lemma_wf();
            lemma_txn_bytes_len(self@);
        }
        28 + (TXI_ENCODED_LEN as u128) * (self.txi_list.len() as u128) + (TXO_ENCODED_LEN as u128)
            * (self.txo_list.len() as u128)
    }

    /// Whether this transaction is short enough to be hashed.
    pub fn is_hashable(&self) -> (fits: bool)
        ensures
            fits == hashable_len(self@.bytes().len()),
    {
        self.encoded_len() < HASH_INPUT_LIMIT as u128
    }

    /// Return the hash of this transaction's data.
    pub fn hash(&self) -> (digest: [u8; SHA256_HASH_SIZE])
        requires
            hashable_len(self@.bytes().len()),
        ensures
            digest@ == self@.digest(),
    {
        let bytes = self.serialize();
        double_sha256(bytes.as_slice())
    }

    /// Return a copy of this transaction.
    pub fn duplicate(&self) -> (copy: Txn)
        ensures
            copy@ == self@,
    {
        let mut txi_list = Vec::<Txi>::new();
        let mut i: usize = 0;
        while i < self.txi_list.len()
            invariant
                i <= self.txi_list.len(),
                txi_list@ == self.txi_list@.take(i as int),
            decreases self.txi_list.len() - i,
        {
            txi_list.push(self.txi_list[i]);
            assert(self.txi_list@.take(i + 1) == self.txi_list@.take(i as int).push(
                self.txi_list@[i as int],
            ));
            i = i + 1;
        }
        assert(self.txi_list@.take(i as int) == self.txi_list@);
        let mut txo_list = Vec::<Txo>::new();
        let mut j: usize = 0;
        while j < self.txo_list.len()
            invariant
                j <= self.txo_list.len(),
                txo_list@ == self.txo_list@.take(j as int),
            decreases self.txo_list.len() - j,
        {
            txo_list.push(self.txo_list[j]);
            assert(self.txo_list@.take(j + 1) == self.txo_list@.take(j as int).push(
                self.txo_list@[j as int],
            ));
            j = j + 1;
        }
        assert(self.txo_list@.take(j as int) == self.txo_list@);
        Txn {
            version: self.version,
            txi_count: self.txi_count,
            txi_list,
            txo_count: self.txo_count,
            txo_list,
        }
    }
}

/// Every transaction of a list is well formed.
pub proof fn lemma_txns_wf(list: Seq<Txn>)
    ensures
        txns_wf(txn_views(list)),
{
    assert forall|i: int| 0 <= i < txn_views(list).len() implies (#[trigger] txn_views(list)[i]).wf() by {
        list[i].lemma_wf();
    }
}

/// Return the serialized form of a list of transactions.
pub fn serialize_txns(txns: &Vec<Txn>) -> (bytes: Vec<u8>)
    ensures
        bytes@ == txns_bytes(txn_views(txns@)),
{
    let ghost views = txn_views(txns@);
    let mut bytes = Vec::<u8>::new();
    push_le(&mut bytes, txns.len() as u64, 8);
    let mut i: usize = 0;
    while i < txns.len()
        invariant
            i <= txns.len(),
            views == txn_views(txns@),
            bytes@ == le_bytes(views.len(), 8) + txns_concat(views.take(i as int)),
        decreases txns.len() - i,
    {
        txns[i].serialize_into(&mut bytes);
        proof {
            assert(views.take(i + 1).drop_last() == views.take(i as int));
            assert(views.take(i + 1).last() == txns[i as int]@);
        }
        i = i + 1;
    }
    assert(views.take(i as int) == views);
    bytes
}

/// Return the length of the serialized form of a list of transactions, or
/// `None` if it is at least `limit` bytes long.
pub fn txns_encoded_len_below(txns: &Vec<Txn>, limit: u64) -> (len: Option<u64>)
    ensures
        len is Some <==> txns_bytes(txn_views(txns@)).len() < limit,
        len is Some ==> len->0 == txns_bytes(txn_views(txns@)).len(),
{
    let ghost views = txn_views(txns@);
    proof {
        lemma_txns_wf(txns@);
        lemma_txns_bytes_len(views);
    }
    let mut total: u128 = 8;
    let mut i: usize = 0;
    while i < txns.len()
        invariant
            i <= txns.len(),
            views == txn_views(txns@),
            total == 8 + txns_encoded_len(views.take(i as int)),
            txns_bytes(views).len() == 8 + txns_encoded_len(views),
        decreases txns.len() - i,
    {
        if total >= limit as u128 {
            proof {
                lemma_txns_encoded_len_prefix(views, i as int);
            }
            return None;
        }
        let len = txns[i].encoded_len();
        proof {
            assert(views.take(i + 1).drop_last() == views.take(i as int));
            assert(views.take(i + 1).last() == txns[i as int]@);
        }
        if len >= limit as u128 {
            proof {
                lemma_txns_encoded_len_prefix(views, i + 1);
            }
            return None;
        }
        total = total + len;
        i = i + 1;
    }
    assert(views.take(i as int) == views);
    if total < limit as u128 {
        Some(total as u64)
    } else {
        None
    }
}

} // verus!
