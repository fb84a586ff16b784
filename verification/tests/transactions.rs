use rbtc::util::types::amount::Amount;
use rbtc::util::types::transaction::Transaction;
use rbtc::util::types::tx::Tx;
use rbtc::util::types::txi::Txi;
use rbtc::util::types::txn::{serialize_txns, txns_encoded_len_below, Txn};
use rbtc::util::types::txo::Txo;

fn hex(text: &str) -> Vec<u8> {
    let digits: Vec<u8> = text
        .bytes()
        .map(|c| match c {
            b'0'..=b'9' => c - b'0',
            b'a'..=b'f' => c - b'a' + 10,
            _ => panic!("not a hex digit"),
        })
        .collect();
    digits.chunks(2).map(|pair| pair[0] * 16 + pair[1]).collect()
}

fn counting20() -> [u8; 20] {
    let mut bytes = [0u8; 20];
    for (i, byte) in bytes.iter_mut().enumerate() {
        *byte = i as u8;
    }
    bytes
}

fn sample_txn() -> Txn {
    Txn::new(
        1,
        1,
        vec![Txi::new([0xaa; 32], 7, [0xbb; 32])],
        2,
        vec![Txo::new(5000, [0xcc; 20]), Txo::new(1, counting20())],
    )
}

type PlainTxn = (u32, u32, Vec<([u8; 32], u64, [u8; 32])>, u32, Vec<(u64, [u8; 20])>);

fn sample_plain() -> PlainTxn {
    (
        1,
        1,
        vec![([0xaa; 32], 7, [0xbb; 32])],
        2,
        vec![(5000, [0xcc; 20]), (1, counting20())],
    )
}

#[test]
fn txi_serializes_to_72_bytes() {
    let mut buf = vec![0xee];
    Txi::new([0xaa; 32], 0x0102, [0xbb; 32]).serialize_into(&mut buf);
    let mut expected = vec![0xee];
    expected.extend_from_slice(&[0xaa; 32]);
    expected.extend_from_slice(&[0x02, 0x01, 0, 0, 0, 0, 0, 0]);
    expected.extend_from_slice(&[0xbb; 32]);
    assert_eq!(buf, expected);
    assert_eq!(buf.len(), 73);
}

#[test]
fn txo_serializes_to_28_bytes() {
    let mut buf = Vec::new();
    Txo::new(0x0102030405060708, [0xcc; 20]).serialize_into(&mut buf);
    let mut expected = vec![8, 7, 6, 5, 4, 3, 2, 1];
    expected.extend_from_slice(&[0xcc; 20]);
    assert_eq!(buf, expected);
}

#[test]
fn txn_serializes_fields_in_order() {
    let bytes = sample_txn().serialize();
    assert_eq!(
        bytes,
        hex(concat_hex(&[
            "01000000",
            "01000000",
            "0100000000000000",
            "aaaaaaaaaaaaaaaaaaaaaaaaaaaaaaaaaaaaaaaaaaaaaaaaaaaaaaaaaaaaaaaa",
            "0700000000000000",
            "bbbbbbbbbbbbbbbbbbbbbbbbbbbbbbbbbbbbbbbbbbbbbbbbbbbbbbbbbbbbbbbb",
            "02000000",
            "0200000000000000",
            "8813000000000000",
            "cccccccccccccccccccccccccccccccccccccccc",
            "0100000000000000",
            "000102030405060708090a0b0c0d0e0f10111213",
        ])
        .as_str())
    );
    assert_eq!(bytes.len(), 156);
    assert_eq!(sample_txn().encoded_len(), 156);
    assert!(sample_txn().is_hashable());
}

fn concat_hex(parts: &[&str]) -> String {
    let mut text = String::new();
    for part in parts {
        text.push_str(part);
    }
    text
}

#[test]
fn txn_serialization_is_the_bincode_layout() {
    assert_eq!(sample_txn().serialize(), bincode::serialize(&sample_plain()).unwrap());
    let empty = Txn::new(9, 0, Vec::new(), 0, Vec::new());
    let plain: PlainTxn = (9, 0, Vec::new(), 0, Vec::new());
    assert_eq!(empty.serialize(), bincode::serialize(&plain).unwrap());
    assert_eq!(empty.serialize().len(), 28);
}

#[test]
fn txn_list_serialization_is_the_bincode_layout() {
    let txns = vec![sample_txn(), Txn::new(3, 5, Vec::new(), 6, vec![Txo::new(2, [1; 20])])];
    let plain: Vec<PlainTxn> =
        vec![sample_plain(), (3, 5, Vec::new(), 6, vec![(2, [1; 20])])];
    assert_eq!(serialize_txns(&txns), bincode::serialize(&plain).unwrap());
    let none: Vec<Txn> = Vec::new();
    assert_eq!(serialize_txns(&none), vec![0u8; 8]);
}

#[test]
fn counts_are_stored_as_given() {
    // The declared counts are fields of their own and need not match the lists.
    let txn = Txn::new(1, 40, Vec::new(), 50, Vec::new());
    assert_eq!(
        txn.serialize(),
        hex("0100000028000000000000000000000032000000" ).into_iter().chain([0u8; 8]).collect::<Vec<u8>>()
    );
}

#[test]
fn encoded_length_is_reported_below_the_limit_only() {
    let txns = vec![sample_txn(), sample_txn()];
    assert_eq!(txns_encoded_len_below(&txns, 1000), Some(8 + 156 + 156));
    assert_eq!(txns_encoded_len_below(&txns, 321), Some(320));
    assert_eq!(txns_encoded_len_below(&txns, 320), None);
    assert_eq!(txns_encoded_len_below(&txns, 100), None);
    assert_eq!(txns_encoded_len_below(&txns, 0), None);
    let none: Vec<Txn> = Vec::new();
    assert_eq!(txns_encoded_len_below(&none, 9), Some(8));
    assert_eq!(txns_encoded_len_below(&none, 8), None);
}

#[test]
fn txn_hash_is_the_double_sha256_of_the_serialized_form() {
    assert_eq!(
        sample_txn().hash().to_vec(),
        hex("b7fae04729b1d87d74f348e815398246a3c51329633a790b5d4c4a0652dd7330")
    );
}

#[test]
fn duplicate_is_an_equal_transaction() {
    let txn = sample_txn();
    let copy = txn.duplicate();
    assert_eq!(copy.serialize(), txn.serialize());
    assert_eq!(copy.hash(), txn.hash());
}

#[test]
fn transaction_of_an_amount_hashes_its_eight_bytes() {
    let transaction = Transaction::new(Amount { underlying: 1500 });
    assert_eq!(transaction.amount(), Amount { underlying: 1500 });
    assert_eq!(
        transaction.hash().to_vec(),
        hex("23fecc8ace88d520abe6e409458627370e9711242bde0e791c85d99201ec74d6")
    );
}

/// A small deterministic generator of test data.
struct Lcg(u64);

impl Lcg {
    fn next(&mut self) -> u64 {
        self.0 = self.0.wrapping_mul(6364136223846793005).wrapping_add(1442695040888963407);
        self.0 >> 11
    }

    fn bytes32(&mut self) -> [u8; 32] {
        let mut out = [0u8; 32];
        for byte in out.iter_mut() {
            *byte = self.next() as u8;
        }
        out
    }

    fn bytes20(&mut self) -> [u8; 20] {
        let mut out = [0u8; 20];
        for byte in out.iter_mut() {
            *byte = self.next() as u8;
        }
        out
    }

    fn txn(&mut self) -> (Txn, PlainTxn) {
        let version = self.next() as u32;
        let txi_count = self.next() as u32;
        let txo_count = self.next() as u32;
        let mut txis = Vec::new();
        let mut plain_txis = Vec::new();
        for _ in 0..self.next() % 4 {
            let (hash, index, sig) = (self.bytes32(), self.next(), self.bytes32());
            txis.push(Txi::new(hash, index as usize, sig));
            plain_txis.push((hash, index as usize as u64, sig));
        }
        let mut txos = Vec::new();
        let mut plain_txos = Vec::new();
        for _ in 0..self.next() % 4 {
            let (value, hash) = (self.next() << 11 | self.next(), self.bytes20());
            txos.push(Txo::new(value, hash));
            plain_txos.push((value, hash));
        }
        (
            Txn::new(version, txi_count, txis, txo_count, txos),
            (version, txi_count, plain_txis, txo_count, plain_txos),
        )
    }
}

#[test]
fn generated_transactions_serialize_as_bincode_does() {
    let mut lcg = Lcg(0x5eed);
    for round in 0..200u64 {
        let mut txns = Vec::new();
        let mut plain = Vec::new();
        for _ in 0..round % 5 {
            let (txn, plain_txn) = lcg.txn();
            assert_eq!(txn.serialize(), bincode::serialize(&plain_txn).unwrap());
            assert_eq!(txn.encoded_len(), txn.serialize().len() as u128);
            txns.push(txn);
            plain.push(plain_txn);
        }
        let bytes = serialize_txns(&txns);
        assert_eq!(bytes, bincode::serialize(&plain).unwrap());
        assert_eq!(txns_encoded_len_below(&txns, u64::MAX), Some(bytes.len() as u64));
        assert_eq!(txns_encoded_len_below(&txns, bytes.len() as u64), None);
    }
}

#[test]
fn tx_carries_its_text() {
    let tx = Tx::new("pay 5 to alice".to_string());
    assert_eq!(tx.x(), "pay 5 to alice");
    assert_eq!(Tx::new(String::new()).x(), "");
}
