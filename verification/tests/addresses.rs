use rbtc::util::constants::{NetworkID, MAINNET_ID_BYTE, TESTNET_ID_BYTE};
use rbtc::util::errors::Error as UtilError;
use rbtc::util::hashes::{double_sha256, ripemd160, sha256};
use rbtc::util::types::addr::{
    checksum_bytes, derive_address, underlying_bytes, Addr, Error as AddrError,
};
use rbtc::util::types::wallet_addr::WalletAddr;

fn hex(text: &str) -> Vec<u8> {
    let digits: Vec<u8> = text
        .bytes()
        .map(|c| match c {
            b'0'..=b'9' => c - b'0',
            b'a'..=b'f' => c - b'a' + 10,
            _ => panic!("not a hex digit"),
        })
        .collect();
    digits.chunks(2).map(|pair| pair[0] * 16 + pair[1]).collect()
}

const MAINNET_HEX: &str = "00c7c81a1e290c2990d1920f40b4211a04be6f0edeae7e15a1";
const TESTNET_HEX: &str = "6fc7c81a1e290c2990d1920f40b4211a04be6f0ede892d8de0";
const MAINNET_TEXT: &str = "1KDMBWNyi1RLKoBSUMCYAE4kL2LZSZuCHv";
const TESTNET_TEXT: &str = "myjJUZTxX2rb6uf4BvAuz9H5C1wGLcL57m";

#[test]
fn network_id_is_read_from_its_byte() {
    assert!(matches!(NetworkID::new(0x00), Ok(NetworkID::Mainnet)));
    assert!(matches!(NetworkID::new(0x6f), Ok(NetworkID::Testnet)));
    assert!(matches!(NetworkID::new(0x01), Err(UtilError::InvalidNetworkIDByte(0x01))));
    assert!(matches!(NetworkID::new(0xff), Err(UtilError::InvalidNetworkIDByte(0xff))));
    assert_eq!(NetworkID::Mainnet.byte(), MAINNET_ID_BYTE);
    assert_eq!(NetworkID::Testnet.byte(), TESTNET_ID_BYTE);
    assert_eq!(NetworkID::Mainnet.byte(), 0x00);
    assert_eq!(NetworkID::Testnet.byte(), 0x6f);
    for id in [NetworkID::Mainnet, NetworkID::Testnet] {
        assert_eq!(NetworkID::new(id.byte()).unwrap(), id);
    }
}

#[test]
fn derive_address_hashes_the_public_key_and_appends_a_checksum() {
    assert_eq!(derive_address(&[1; 32], &[2; 32], 0x00).to_vec(), hex(MAINNET_HEX));
    assert_eq!(derive_address(&[1; 32], &[2; 32], 0x6f).to_vec(), hex(TESTNET_HEX));
    let mut key = vec![0x04u8];
    key.extend_from_slice(&[1; 32]);
    key.extend_from_slice(&[2; 32]);
    let bytes = derive_address(&[1; 32], &[2; 32], 0x00);
    assert_eq!(bytes[0], 0x00);
    assert_eq!(bytes[1..21], ripemd160(&sha256(&key)));
    assert_eq!(bytes[21..25], double_sha256(&bytes[..21])[..4]);
    assert_ne!(derive_address(&[2; 32], &[1; 32], 0x00), bytes);
}

#[test]
fn address_parts_are_cut_at_1_and_at_21() {
    let mut bytes = [0u8; 25];
    for (i, byte) in bytes.iter_mut().enumerate() {
        *byte = i as u8;
    }
    assert_eq!(underlying_bytes(&bytes).to_vec(), (1u8..21).collect::<Vec<u8>>());
    assert_eq!(checksum_bytes(&bytes), [21, 22, 23, 24]);
}

#[test]
fn wallet_addr_is_the_address_of_the_given_key() {
    let addr = WalletAddr::new([1; 32], [2; 32], NetworkID::Mainnet).unwrap();
    assert_eq!(addr.to_bytes().to_vec(), hex(MAINNET_HEX));
    assert!(matches!(addr.network_id(), Ok(NetworkID::Mainnet)));
    assert_eq!(addr.get_underlying().to_vec(), hex(MAINNET_HEX)[1..21].to_vec());
    assert_eq!(addr.get_checksum().to_vec(), hex(MAINNET_HEX)[21..].to_vec());
    let addr = WalletAddr::new([1; 32], [2; 32], NetworkID::Testnet).unwrap();
    assert_eq!(addr.to_bytes().to_vec(), hex(TESTNET_HEX));
    assert!(matches!(addr.network_id(), Ok(NetworkID::Testnet)));
    assert_eq!(addr.get_checksum().to_vec(), hex("892d8de0"));
}

#[test]
fn addr_of_a_public_key_has_the_same_bytes() {
    let addr = Addr::from_public_key(&[1; 32], &[2; 32], NetworkID::Mainnet);
    assert_eq!(addr.to_bytes().to_vec(), hex(MAINNET_HEX));
    assert!(matches!(addr.network_id(), Ok(NetworkID::Mainnet)));
    assert_eq!(addr.get_underlying().unwrap().to_vec(), hex(MAINNET_HEX)[1..21].to_vec());
    assert_eq!(addr.get_checksum().unwrap().to_vec(), hex("ae7e15a1"));
}

#[test]
fn addr_text_is_base58() {
    let mainnet = Addr::from_public_key(&[1; 32], &[2; 32], NetworkID::Mainnet);
    assert_eq!(mainnet.encode(), MAINNET_TEXT);
    let testnet = Addr::from_public_key(&[1; 32], &[2; 32], NetworkID::Testnet);
    assert_eq!(testnet.encode(), TESTNET_TEXT);
    assert_eq!(mainnet.encode(), bs58::encode(hex(MAINNET_HEX)).into_string());
}

#[test]
fn addr_is_read_back_from_its_text() {
    let addr = Addr::decode(MAINNET_TEXT).unwrap();
    assert_eq!(addr.to_bytes().to_vec(), hex(MAINNET_HEX));
    let addr: Addr = TESTNET_TEXT.parse().unwrap();
    assert_eq!(addr.to_bytes().to_vec(), hex(TESTNET_HEX));
    assert!(matches!(addr.network_id(), Ok(NetworkID::Testnet)));
    let fresh = Addr::new(NetworkID::Mainnet).unwrap();
    assert_eq!(Addr::decode(&fresh.encode()).unwrap().to_bytes(), fresh.to_bytes());
}

#[test]
fn decode_refuses_text_that_is_not_base58() {
    // 0, O, I and l are not in the alphabet.
    assert!(matches!(Addr::decode("0KDMBWNyi1RLKoBSUMCYAE4kL2LZSZuCHv"), Err(AddrError::Base58DecodeError(_))));
    assert!(matches!(Addr::decode("not base58!"), Err(AddrError::Base58DecodeError(_))));
    assert!(matches!("l".parse::<Addr>(), Err(AddrError::Base58DecodeError(_))));
}

#[test]
fn decode_refuses_text_of_another_length() {
    match Addr::decode("he11owor1d") {
        Err(AddrError::IntoArrayError(bytes)) => {
            assert_eq!(bytes, vec![0x04, 0x30, 0x5e, 0x2b, 0x24, 0x73, 0xf0, 0x58]);
        },
        _ => panic!("expected an array error"),
    }
    assert!(matches!(Addr::decode(""), Err(AddrError::IntoArrayError(_))));
    assert!(matches!(Addr::from_decoded(vec![0; 24]), Err(AddrError::IntoArrayError(_))));
    assert!(matches!(Addr::from_decoded(vec![0; 26]), Err(AddrError::IntoArrayError(_))));
    assert_eq!(Addr::from_decoded(vec![7; 25]).unwrap().to_bytes(), [7u8; 25]);
}

#[test]
fn addr_with_an_unknown_network_byte_reports_it() {
    let mut bytes = hex(MAINNET_HEX);
    bytes[0] = 0x05;
    let addr = Addr::from_decoded(bytes).unwrap();
    assert!(matches!(addr.network_id(), Err(AddrError::InvalidNetworkID(0x05))));
    assert!(addr.get_underlying().is_ok());
    assert!(addr.get_checksum().is_ok());
}

#[test]
fn fresh_addr_is_well_formed() {
    for id in [NetworkID::Mainnet, NetworkID::Testnet] {
        let addr = Addr::new(id).unwrap();
        let bytes = addr.to_bytes();
        assert_eq!(bytes[0], id.byte());
        assert_eq!(addr.network_id().unwrap(), id);
        assert_eq!(addr.get_checksum().unwrap(), double_sha256(&bytes[..21])[..4]);
        assert_eq!(addr.get_underlying().unwrap(), bytes[1..21]);
    }
    let first = Addr::new(NetworkID::Mainnet).unwrap();
    let second = Addr::new(NetworkID::Mainnet).unwrap();
    assert_ne!(first.to_bytes(), second.to_bytes());
}

#[test]
fn util_error_has_its_text() {
    assert_eq!(UtilError::InvalidNetworkIDByte(0).to_string(), "Invalid network ID byte: 0");
    assert_eq!(UtilError::InvalidNetworkIDByte(7).to_string(), "Invalid network ID byte: 7");
    assert_eq!(UtilError::InvalidNetworkIDByte(111).to_string(), "Invalid network ID byte: 111");
    assert_eq!(UtilError::InvalidNetworkIDByte(255).to_string(), "Invalid network ID byte: 255");
    match NetworkID::new(0x2a) {
        Err(err) => assert_eq!(err.to_string(), "Invalid network ID byte: 42"),
        Ok(_) => panic!("expected an invalid network ID byte"),
    }
}

#[test]
fn addr_error_has_its_text() {
    assert_eq!(AddrError::InvalidNetworkID(5).to_string(), "InvalidNetworkID: 5");
    assert_eq!(AddrError::InvalidNetworkID(100).to_string(), "InvalidNetworkID: 100");
    assert_eq!(AddrError::IntoArrayError(Vec::new()).to_string(), "IntoArrayError: []");
    assert_eq!(AddrError::IntoArrayError(vec![9]).to_string(), "IntoArrayError: [9]");
    let bytes = vec![0, 1, 10, 99, 100, 255];
    assert_eq!(
        AddrError::IntoArrayError(bytes.clone()).to_string(),
        format!("IntoArrayError: {:?}", bytes)
    );
    match Addr::decode("he11owor1d") {
        Err(err) => assert_eq!(err.to_string(), "IntoArrayError: [4, 48, 94, 43, 36, 115, 240, 88]"),
        Ok(_) => panic!("expected an array error"),
    }
    let outside = bs58::decode("0").into_vec().unwrap_err();
    match Addr::decode("0") {
        Err(err) => assert_eq!(err.to_string(), format!("Base58DecodeError: {}", outside)),
        Ok(_) => panic!("expected a decoding error"),
    }
}

#[test]
fn wallet_addr_text_is_base58() {
    let addr = WalletAddr::new([1; 32], [2; 32], NetworkID::Mainnet).unwrap();
    assert_eq!(addr.encode(), MAINNET_TEXT);
    let addr = WalletAddr::new([1; 32], [2; 32], NetworkID::Testnet).unwrap();
    assert_eq!(addr.encode(), TESTNET_TEXT);
    assert_eq!(addr.encode(), bs58::encode(hex(TESTNET_HEX)).into_string());
}

#[test]
fn wallet_addr_is_read_back_from_its_text() {
    let addr = WalletAddr::decode(MAINNET_TEXT).unwrap();
    assert_eq!(addr.to_bytes().to_vec(), hex(MAINNET_HEX));
    let addr: WalletAddr = TESTNET_TEXT.parse().unwrap();
    assert_eq!(addr.to_bytes().to_vec(), hex(TESTNET_HEX));
    assert!(matches!(addr.network_id(), Ok(NetworkID::Testnet)));
    assert!(matches!(WalletAddr::decode("not base58!"), Err(AddrError::Base58DecodeError(_))));
    assert!(matches!("l".parse::<WalletAddr>(), Err(AddrError::Base58DecodeError(_))));
    match WalletAddr::decode("he11owor1d") {
        Err(AddrError::IntoArrayError(bytes)) => {
            assert_eq!(bytes, vec![0x04, 0x30, 0x5e, 0x2b, 0x24, 0x73, 0xf0, 0x58]);
        },
        _ => panic!("expected an array error"),
    }
}

#[test]
fn addr_is_made_of_its_bytes() {
    let addr = Addr::from_bytes([9; 25]);
    assert_eq!(addr.to_bytes(), [9u8; 25]);
    assert_eq!(addr.encode(), bs58::encode([9u8; 25]).into_string());
}
