use traceable_address::{
    addr_expiry_height, addr_expiry_time, to_traceable_address, traceable_to_p2pkh, AddressData,
    AddressError, AddressKind, AddressNetwork, Receiver, TraceableAddress, TraceableAddressError,
    UnsupportedKind,
};
use zcash_address::unified::{self, Encoding};
use zcash_address::{Network, ToAddress, TryFromAddress, ZcashAddress};

const ZERO_P2PKH_MAIN: &str = "t1Hsc1LR8yKnbbe3twRp88p6vFfC5t7DLbs";
const ZERO_SAPLING_MAIN: &str =
    "zs1qqqqqqqqqqqqqqqqqqqqqqqqqqqqqqqqqqqqqqqqqqqqqqqqqqqqqqqqqqqqqqqqqqqqqpq6d8g";

fn unknown(typecode: u32, data: &[u8]) -> unified::Receiver {
    unified::Receiver::Unknown { typecode, data: data.to_vec() }
}

fn unified_string(net: Network, receivers: Vec<unified::Receiver>) -> String {
    let container = unified::Address::try_from_items(receivers).unwrap();
    ZcashAddress::from_unified(net, container).encode()
}

fn zero_address(net: AddressNetwork) -> TraceableAddress {
    TraceableAddress {
        net,
        validating_key_hash: [0; 20],
        expiry_height: None,
        expiry_time: None,
    }
}

#[test]
fn create_then_query_then_downgrade() {
    let created = to_traceable_address(ZERO_P2PKH_MAIN, 1_700_000_000).unwrap();
    assert!(created.starts_with("u1"));
    assert_eq!(addr_expiry_time(&created), Ok(Some(1_700_000_000)));
    assert_eq!(addr_expiry_height(&created), Ok(None));
    assert_eq!(traceable_to_p2pkh(&created), Ok(ZERO_P2PKH_MAIN.to_string()));
    let plain = ZcashAddress::from_transparent_p2pkh(Network::Main, [0; 20]).encode();
    assert_eq!(traceable_to_p2pkh(&created), Ok(plain));
}

#[test]
fn created_address_is_the_unified_address_of_its_items() {
    let created = to_traceable_address(ZERO_P2PKH_MAIN, 1_700_000_000).unwrap();
    let expected = unified_string(
        Network::Main,
        vec![unknown(0x04, &[0; 20]), unknown(0xE1, &1_700_000_000u64.to_le_bytes())],
    );
    assert_eq!(created, expected);
}

#[test]
fn create_keeps_height_and_replaces_time() {
    let address = zero_address(AddressNetwork::Test).with_expiry_height(123).with_expiry_time(5);
    let created = to_traceable_address(&address.encode(), 77).unwrap();
    assert_eq!(addr_expiry_height(&created), Ok(Some(123)));
    assert_eq!(addr_expiry_time(&created), Ok(Some(77)));
    assert_eq!(
        TraceableAddress::try_from_encoded(&created),
        Ok(zero_address(AddressNetwork::Test).with_expiry_height(123).with_expiry_time(77))
    );
}

#[test]
fn plain_address_has_no_expiry_and_downgrades_to_itself() {
    assert_eq!(addr_expiry_height(ZERO_P2PKH_MAIN), Ok(None));
    assert_eq!(addr_expiry_time(ZERO_P2PKH_MAIN), Ok(None));
    assert_eq!(traceable_to_p2pkh(ZERO_P2PKH_MAIN), Ok(ZERO_P2PKH_MAIN.to_string()));
    assert_eq!(
        TraceableAddress::try_from_encoded(ZERO_P2PKH_MAIN),
        Ok(zero_address(AddressNetwork::Main))
    );
}

#[test]
fn strings_round_trip_for_every_choice_of_fields_and_network() {
    let mut hash = [0u8; 20];
    for (i, byte) in hash.iter_mut().enumerate() {
        *byte = 3 * i as u8 + 1;
    }
    for net in [AddressNetwork::Main, AddressNetwork::Test, AddressNetwork::Regtest] {
        for height in [None, Some(0u32), Some(u32::MAX)] {
            for time in [None, Some(1_700_000_000u64), Some(u64::MAX)] {
                let address = TraceableAddress {
                    net,
                    validating_key_hash: hash,
                    expiry_height: height,
                    expiry_time: time,
                };
                let encoded = address.encode();
                assert_eq!(TraceableAddress::try_from_encoded(&encoded), Ok(address));
                assert_eq!(addr_expiry_height(&encoded), Ok(height));
                assert_eq!(addr_expiry_time(&encoded), Ok(time));
            }
        }
    }
}

#[test]
fn downgrade_of_address_without_expiry_is_the_plain_address() {
    let mut hash = [0u8; 20];
    hash[19] = 0xEE;
    let address = TraceableAddress {
        net: AddressNetwork::Main,
        validating_key_hash: hash,
        expiry_height: None,
        expiry_time: None,
    };
    let plain = ZcashAddress::from_transparent_p2pkh(Network::Main, hash).encode();
    assert_eq!(traceable_to_p2pkh(&address.encode()), Ok(plain.clone()));
    assert_eq!(address.into_p2pkh().encode(), plain);
    assert_eq!(traceable_to_p2pkh(&plain), Ok(plain));
}

#[test]
fn downgrade_drops_expiry_fields() {
    let address = zero_address(AddressNetwork::Main).with_expiry_height(1).with_expiry_time(2);
    assert_eq!(traceable_to_p2pkh(&address.encode()), Ok(ZERO_P2PKH_MAIN.to_string()));
}

#[test]
fn encode_agrees_with_the_address_crate() {
    let address = zero_address(AddressNetwork::Regtest).with_expiry_height(0x0A0B_0C0D);
    let expected = unified_string(
        Network::Regtest,
        vec![unknown(0x04, &[0; 20]), unknown(0xE0, &[0x0D, 0x0C, 0x0B, 0x0A])],
    );
    assert_eq!(address.encode(), expected);
    assert_eq!(address.to_address().encode(), expected);
    assert!(expected.starts_with("uregtest1"));
}

#[test]
fn to_address_holds_the_receivers() {
    let address = zero_address(AddressNetwork::Test).with_expiry_time(3);
    assert_eq!(
        address.to_address(),
        AddressData { net: AddressNetwork::Test, kind: AddressKind::Unified(address.receivers()) }
    );
}

#[test]
fn into_p2pkh_holds_the_key_hash() {
    let address = zero_address(AddressNetwork::Test).with_expiry_time(3);
    assert_eq!(
        address.into_p2pkh(),
        AddressData { net: AddressNetwork::Test, kind: AddressKind::P2pkh([0; 20]) }
    );
    let testnet = ZcashAddress::from_transparent_p2pkh(Network::Test, [0; 20]).encode();
    assert_eq!(address.into_p2pkh().encode(), testnet);
    assert!(testnet.starts_with("tm"));
}

#[test]
fn parse_reads_every_kind_of_address() {
    assert_eq!(
        AddressData::parse(ZERO_P2PKH_MAIN),
        Ok(AddressData { net: AddressNetwork::Main, kind: AddressKind::P2pkh([0; 20]) })
    );
    assert_eq!(
        AddressData::parse(ZERO_SAPLING_MAIN),
        Ok(AddressData { net: AddressNetwork::Main, kind: AddressKind::Sapling([0; 43]) })
    );
    let p2sh = ZcashAddress::from_transparent_p2sh(Network::Test, [5; 20]).encode();
    assert_eq!(
        AddressData::parse(&p2sh),
        Ok(AddressData { net: AddressNetwork::Test, kind: AddressKind::P2sh([5; 20]) })
    );
    let sprout = ZcashAddress::from_sprout(Network::Main, [6; 64]).encode();
    assert_eq!(
        AddressData::parse(&sprout),
        Ok(AddressData { net: AddressNetwork::Main, kind: AddressKind::Sprout([6; 64]) })
    );
    let tex = ZcashAddress::from_tex(Network::Regtest, [7; 20]).encode();
    assert_eq!(
        AddressData::parse(&tex),
        Ok(AddressData { net: AddressNetwork::Regtest, kind: AddressKind::Tex([7; 20]) })
    );
}

#[test]
fn parse_reads_the_items_of_a_unified_address_in_order() {
    let encoded = unified_string(
        Network::Test,
        vec![
            unknown(0xE1, &[1; 8]),
            unified::Receiver::Sapling([2; 43]),
            unified::Receiver::P2pkh([3; 20]),
            unified::Receiver::Orchard([4; 43]),
            unknown(0x04, &[5; 20]),
        ],
    );
    assert_eq!(
        AddressData::parse(&encoded),
        Ok(AddressData {
            net: AddressNetwork::Test,
            kind: AddressKind::Unified(vec![
                Receiver::P2pkh([3; 20]),
                Receiver::Sapling([2; 43]),
                Receiver::Orchard([4; 43]),
                Receiver::Unknown { typecode: 0x04, data: vec![5; 20] },
                Receiver::Unknown { typecode: 0xE1, data: vec![1; 8] },
            ]),
        })
    );
    let read = TraceableAddress::try_from_encoded(&encoded).unwrap();
    assert_eq!(read.net, AddressNetwork::Test);
    assert_eq!(read.validating_key_hash, [3; 20]);
    assert_eq!(read.expiry_height, None);
    assert_eq!(read.expiry_time, Some(0x0101_0101_0101_0101));
}

#[test]
fn unified_address_with_p2sh_receiver_only_has_no_key_hash() {
    let encoded = unified_string(
        Network::Main,
        vec![unified::Receiver::P2sh([3; 20]), unified::Receiver::Sapling([2; 43])],
    );
    assert_eq!(
        addr_expiry_time(&encoded),
        Err(AddressError::Traceable(TraceableAddressError::P2pkhReceiverNotFound))
    );
}

#[test]
fn crafted_height_of_three_or_five_bytes_is_refused() {
    for data in [&[1u8, 2, 3][..], &[1u8, 2, 3, 4, 5][..]] {
        let encoded =
            unified_string(Network::Main, vec![unknown(0x04, &[0; 20]), unknown(0xE0, data)]);
        let expected = AddressError::Traceable(TraceableAddressError::ExpiryHeightInvalid);
        assert_eq!(addr_expiry_height(&encoded), Err(AddressError::Traceable(
            TraceableAddressError::ExpiryHeightInvalid
        )));
        assert_eq!(addr_expiry_time(&encoded), Err(AddressError::Traceable(
            TraceableAddressError::ExpiryHeightInvalid
        )));
        assert_eq!(to_traceable_address(&encoded, 1).unwrap_err(), expected);
        assert_eq!(
            traceable_to_p2pkh(&encoded),
            Err(AddressError::Traceable(TraceableAddressError::ExpiryHeightInvalid))
        );
    }
}

#[test]
fn crafted_time_of_seven_or_nine_bytes_is_refused() {
    for len in [7usize, 9] {
        let encoded = unified_string(
            Network::Main,
            vec![unknown(0x04, &[0; 20]), unknown(0xE1, &vec![1u8; len])],
        );
        assert_eq!(
            addr_expiry_time(&encoded),
            Err(AddressError::Traceable(TraceableAddressError::ExpiryTimeInvalid))
        );
    }
}

#[test]
fn crafted_address_without_key_hash_is_refused() {
    let encoded = unified_string(
        Network::Main,
        vec![unknown(0xE0, &[0; 12]), unknown(0xE1, &[0; 8])],
    );
    assert_eq!(
        addr_expiry_height(&encoded),
        Err(AddressError::Traceable(TraceableAddressError::P2pkhReceiverNotFound))
    );
    let encoded = unified_string(
        Network::Main,
        vec![unknown(0xE0, &[0; 4]), unknown(0xE1, &[0; 8]), unknown(0x05, &[0; 4])],
    );
    assert_eq!(
        to_traceable_address(&encoded, 5),
        Err(AddressError::Traceable(TraceableAddressError::P2pkhReceiverNotFound))
    );
}

#[test]
fn crafted_key_hash_of_wrong_length_is_refused() {
    let encoded = unified_string(
        Network::Main,
        vec![unknown(0x04, &[0; 21]), unknown(0xE0, &[0; 3])],
    );
    assert_eq!(
        addr_expiry_height(&encoded),
        Err(AddressError::Traceable(TraceableAddressError::ReceiverLengthInvalid))
    );
}

#[test]
fn other_kinds_of_address_are_unsupported() {
    assert_eq!(
        addr_expiry_height(ZERO_SAPLING_MAIN),
        Err(AddressError::Unsupported(UnsupportedKind::Sapling))
    );
    let p2sh = ZcashAddress::from_transparent_p2sh(Network::Main, [5; 20]).encode();
    assert_eq!(
        traceable_to_p2pkh(&p2sh),
        Err(AddressError::Unsupported(UnsupportedKind::P2sh))
    );
    let sprout = ZcashAddress::from_sprout(Network::Main, [6; 64]).encode();
    assert_eq!(
        to_traceable_address(&sprout, 1),
        Err(AddressError::Unsupported(UnsupportedKind::Sprout))
    );
    let tex = ZcashAddress::from_tex(Network::Main, [7; 20]).encode();
    assert_eq!(addr_expiry_time(&tex), Err(AddressError::Unsupported(UnsupportedKind::Tex)));
}

/// A type that no kind of address converts into.
#[derive(Debug)]
struct Nothing;

impl TryFromAddress for Nothing {
    type Error = &'static str;
}

fn refusal(address: ZcashAddress) -> String {
    address.convert::<Nothing>().unwrap_err().to_string()
}

#[test]
fn unsupported_messages_agree_with_the_address_crate() {
    assert_eq!(
        UnsupportedKind::Sprout.message(),
        refusal(ZcashAddress::from_sprout(Network::Main, [0; 64]))
    );
    assert_eq!(
        UnsupportedKind::Sapling.message(),
        refusal(ZcashAddress::from_sapling(Network::Main, [0; 43]))
    );
    assert_eq!(
        UnsupportedKind::P2sh.message(),
        refusal(ZcashAddress::from_transparent_p2sh(Network::Main, [0; 20]))
    );
    assert_eq!(
        UnsupportedKind::Tex.message(),
        refusal(ZcashAddress::from_tex(Network::Main, [0; 20]))
    );
}

#[test]
fn unsupported_messages_are_fixed() {
    assert_eq!(UnsupportedKind::Sprout.message(), "Zcash Sprout addresses are not supported");
    assert_eq!(UnsupportedKind::Sapling.message(), "Zcash Sapling addresses are not supported");
    assert_eq!(
        UnsupportedKind::P2sh.message(),
        "Zcash transparent P2SH addresses are not supported"
    );
    assert_eq!(
        UnsupportedKind::Tex.message(),
        "Zcash transparent-source restricted P2PKH addresses are not supported"
    );
}

#[test]
fn strings_that_are_no_address_give_the_parse_error() {
    for text in ["", "not an address", "t1Hsc1LR8yKnbbe3twRp88p6vFfC5t7DLbt", "u1qqqq"] {
        let expected = ZcashAddress::try_from_encoded(text).unwrap_err();
        assert_eq!(AddressData::parse(text), Err(ZcashAddress::try_from_encoded(text).unwrap_err()));
        assert_eq!(addr_expiry_height(text), Err(AddressError::Parse(expected)));
        assert!(matches!(addr_expiry_time(text), Err(AddressError::Parse(_))));
        assert!(matches!(to_traceable_address(text, 1), Err(AddressError::Parse(_))));
        assert!(matches!(traceable_to_p2pkh(text), Err(AddressError::Parse(_))));
    }
}

#[test]
fn surrounding_whitespace_is_not_part_of_the_address() {
    let padded = format!("  {}\n", ZERO_P2PKH_MAIN);
    assert_eq!(traceable_to_p2pkh(&padded), Ok(ZERO_P2PKH_MAIN.to_string()));
}

#[test]
fn regtest_plain_address_is_written_as_testnet() {
    let address = zero_address(AddressNetwork::Regtest);
    let testnet = zero_address(AddressNetwork::Test);
    assert_eq!(address.into_p2pkh().encode(), testnet.into_p2pkh().encode());
    assert_eq!(
        TraceableAddress::try_from_encoded(&address.into_p2pkh().encode()),
        Ok(testnet)
    );
}
