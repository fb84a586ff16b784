use rbtc::util::types::header::{decode_target, Header};
use rbtc::util::uint256::Uint256;

fn hex32(text: &str) -> [u8; 32] {
    let digits: Vec<u8> = text
        .bytes()
        .map(|c| match c {
            b'0'..=b'9' => c - b'0',
            b'a'..=b'f' => c - b'a' + 10,
            _ => panic!("not a hex digit"),
        })
        .collect();
    let bytes: Vec<u8> = digits.chunks(2).map(|pair| pair[0] * 16 + pair[1]).collect();
    let mut out = [0u8; 32];
    out.copy_from_slice(&bytes);
    out
}

fn shifted(coefficient: u128, bits: u32) -> Uint256 {
    let value = ethnum::U256::from(coefficient) << bits;
    let (hi, lo) = value.into_words();
    Uint256 { hi, lo }
}

#[test]
fn decode_target_multiplies_the_coefficient_by_a_power_of_256() {
    assert_eq!(decode_target(0x1d00ffff), Some(shifted(0xffff, 8 * (0x1d - 3))));
    assert_eq!(decode_target(0x03000001), Some(Uint256 { hi: 0, lo: 1 }));
    assert_eq!(decode_target(0x04003456), Some(Uint256 { hi: 0, lo: 0x345600 }));
    assert_eq!(decode_target(0x2100ffff), Some(shifted(0xffff, 240)));
    assert_eq!(decode_target(0x13000001), Some(Uint256 { hi: 1, lo: 0 }));
    assert_eq!(decode_target(0x13000100), Some(Uint256 { hi: 0x100, lo: 0 }));
}

#[test]
fn decode_target_forces_the_first_coefficient_byte_to_zero() {
    // Of the three bytes after the exponent the first counts for nothing:
    // it is neither part of the coefficient nor read into the exponent.
    assert_eq!(decode_target(0x03123456), Some(Uint256 { hi: 0, lo: 0x3456 }));
    assert_eq!(decode_target(0x03ffffff), Some(Uint256 { hi: 0, lo: 0xffff }));
    assert_eq!(decode_target(0x03ff0001), Some(Uint256 { hi: 0, lo: 1 }));
    assert_eq!(decode_target(0x03800000), Some(Uint256 { hi: 0, lo: 0 }));
    assert_eq!(decode_target(0x05120100), Some(Uint256 { hi: 0, lo: 0x1000000 }));
    assert_eq!(decode_target(0x04123456), decode_target(0x04003456));
    assert_eq!(decode_target(0x21ffffff), decode_target(0x2100ffff));
}

#[test]
fn decode_target_refuses_exponents_below_three() {
    assert_eq!(decode_target(0x0000ffff), None);
    assert_eq!(decode_target(0x00ffffff), None);
    assert_eq!(decode_target(0x01000001), None);
    assert_eq!(decode_target(0x02ffffff), None);
    assert_eq!(decode_target(0x02000100), None);
}

#[test]
fn decode_target_refuses_targets_beyond_256_bits() {
    assert_eq!(decode_target(0x2100ffff), Some(shifted(0xffff, 240)));
    assert_eq!(decode_target(0x220000ff), Some(shifted(0xff, 248)));
    assert_eq!(decode_target(0x22000100), None);
    assert_eq!(decode_target(0x2200ffff), None);
    assert_eq!(decode_target(0x23000001), None);
    assert_eq!(decode_target(0xff000001), None);
    assert_eq!(decode_target(0xffffffff), None);
}

#[test]
fn decode_target_of_a_zero_coefficient_is_zero() {
    assert_eq!(decode_target(0x03000000), Some(Uint256 { hi: 0, lo: 0 }));
    assert_eq!(decode_target(0x20000000), Some(Uint256 { hi: 0, lo: 0 }));
    assert_eq!(decode_target(0xff000000), Some(Uint256 { hi: 0, lo: 0 }));
    assert_eq!(decode_target(0xffff0000), Some(Uint256 { hi: 0, lo: 0 }));
    // Whatever the exponent: the all-zero bits of the genesis header too.
    assert_eq!(decode_target(0), Some(Uint256 { hi: 0, lo: 0 }));
    assert_eq!(decode_target(0x02000000), Some(Uint256 { hi: 0, lo: 0 }));
    assert_eq!(decode_target(0x01ff0000), Some(Uint256 { hi: 0, lo: 0 }));
}

#[test]
fn decode_target_gives_the_same_target_every_time() {
    for bits in [0u32, 0x03000001, 0x03123456, 0x1d00ffff, 0x2100ffff, 0x2200ffff, 0xff000000] {
        assert_eq!(decode_target(bits), decode_target(bits));
    }
}

#[test]
fn header_target_is_the_decoded_bits() {
    let header = Header::new(1, [0; 32], [0; 32], 0, 0x1d00ffff, 0);
    assert_eq!(header.target(), shifted(0xffff, 208));
    assert_eq!(header.checked_target(), Some(shifted(0xffff, 208)));
    let header = Header::new(0, [0; 32], [0; 32], 0, 0x03123456, 0);
    assert_eq!(header.target(), Uint256 { hi: 0, lo: 0x3456 });
    let undecodable = Header::new(1, [0; 32], [0; 32], 0, 0x02000001, 0);
    assert_eq!(undecodable.checked_target(), None);
}

#[test]
fn genesis_header_has_the_target_zero() {
    assert_eq!(Header::genesis().target(), Uint256 { hi: 0, lo: 0 });
    assert_eq!(Header::new(0, [0; 32], [0; 32], 0, 0, 0).target(), Uint256 { hi: 0, lo: 0 });
    assert_eq!(Header::genesis().checked_target(), Some(Uint256 { hi: 0, lo: 0 }));
}

#[test]
fn header_getters_return_the_fields() {
    let header = Header::new(2, [0x11; 32], [0x22; 32], 1_700_000_000, 0x1d00ffff, 12345);
    assert_eq!(header.nonce(), 12345);
    assert_eq!(header.bits(), 0x1d00ffff);
    assert_eq!(header.prev_block_hash(), [0x11; 32]);
}

#[test]
fn header_hash_is_the_double_sha256_of_the_80_byte_form() {
    let header = Header::new(2, [0x11; 32], [0x22; 32], 1_700_000_000, 0x1d00ffff, 12345);
    assert_eq!(
        header.hash(),
        hex32("fa36824fd97d36f7293f5f738d6774303f6223ec612274cd1089ff9a084f103e")
    );
    let other_nonce = Header::new(2, [0x11; 32], [0x22; 32], 1_700_000_000, 0x1d00ffff, 12346);
    assert_ne!(other_nonce.hash(), header.hash());
}

#[test]
fn genesis_header_is_all_zero() {
    let genesis = Header::genesis();
    assert_eq!(genesis.nonce(), 0);
    assert_eq!(genesis.bits(), 0);
    assert_eq!(genesis.prev_block_hash(), [0u8; 32]);
    assert_eq!(
        genesis.hash(),
        hex32("4be7570e8f70eb093640c8468274ba759745a7aa2b7d25ab1e0421b259845014")
    );
    assert_eq!(Header::default().hash(), genesis.hash());
    assert_eq!(Header::new(0, [0; 32], [0; 32], 0, 0, 0).hash(), genesis.hash());
}
