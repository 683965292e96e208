//! The boundary to the `zcash_address` crate, which parses address strings,
//! writes them, and holds the items of a unified address.
//!
//! The contracts of the functions marked `external_body` are not proved:
//! each states what the source of `zcash_address` shows of the call in its
//! body. Everything else in the library is proved from them.

use vstd::prelude::*;
use zcash_address::unified::{self, Container, Encoding};
use zcash_address::{ConversionError, ParseError, ToAddress, TryFromAddress, ZcashAddress};
use crate::address::{
    encodable_items, AddressData, AddressDataView, AddressKind, AddressKindView,
};
use crate::network::AddressNetwork;
use crate::receiver::{views, Receiver, ReceiverView};

verus! {

/// Why `zcash_address` could not read a string as an address.
#[verifier::external_type_specification]
#[verifier::external_body]
pub struct ExParseError(ParseError);

/// The network type of `zcash_address`.
#[verifier::external_type_specification]
#[verifier::external_body]
pub struct ExNetwork(zcash_address::Network);

/// The validated item container of a unified address.
#[verifier::external_type_specification]
#[verifier::external_body]
pub struct ExUnifiedAddress(unified::Address);

/// The error type of `ZcashAddress::convert`.
#[verifier::external_type_specification]
#[verifier::external_body]
#[verifier::reject_recursive_types(E)]
pub struct ExConversionError<E>(ConversionError<E>);

/// The items that a unified address holds, in the order in which it keeps
/// and writes them.
pub uninterp spec fn container_items(container: unified::Address) -> Seq<ReceiverView>;

/// The address that `ZcashAddress::try_from_encoded` reads out of a string,
/// or `None` where it reports an error.
pub uninterp spec fn parsed_address(s: Seq<char>) -> Option<AddressDataView>;

/// The string that `ZcashAddress::encode` writes for an address.
pub uninterp spec fn address_encoding(address: AddressDataView) -> Seq<char>;

/// `Encoding::try_from_items` on the receivers that `items` stand for.
///
/// That function sorts the items by typecode and refuses a list with a
/// repeated typecode, with both a P2PKH and a P2SH receiver, or with none but
/// transparent receivers. Encodable items are uninterpreted and strictly
/// ascending, so sorting leaves them in place and none of the refusals
/// applies: the container holds the items as given.
#[verifier::external_body]
pub(crate) fn unified_container(items: &Vec<Receiver>) -> (container: unified::Address)
    requires
        encodable_items(views(items@)),
    ensures
        container_items(container) == views(items@),
{
    let receivers = items.iter().map(|item| match item {
        Receiver::Orchard(data) => unified::Receiver::Orchard(*data),
        Receiver::Sapling(data) => unified::Receiver::Sapling(*data),
        Receiver::P2pkh(data) => unified::Receiver::P2pkh(*data),
        Receiver::P2sh(data) => unified::Receiver::P2sh(*data),
        Receiver::Unknown { typecode, data } => {
            unified::Receiver::Unknown { typecode: *typecode, data: data.clone() }
        },
    }).collect();
    unified::Address::try_from_items(receivers).expect("encodable items form a unified address")
}

/// `Container::items_as_parsed`, each receiver moved into the library's type.
#[verifier::external_body]
pub(crate) fn receivers_from(container: &unified::Address) -> (items: Vec<Receiver>)
    ensures
        views(items@) == container_items(*container),
{
    container.items_as_parsed().iter().map(|item| match item {
        unified::Receiver::Orchard(data) => Receiver::Orchard(*data),
        unified::Receiver::Sapling(data) => Receiver::Sapling(*data),
        unified::Receiver::P2pkh(data) => Receiver::P2pkh(*data),
        unified::Receiver::P2sh(data) => Receiver::P2sh(*data),
        unified::Receiver::Unknown { typecode, data } => {
            Receiver::Unknown { typecode: *typecode, data: data.clone() }
        },
    }).collect()
}

/// The library's name for a network of `zcash_address`, variant by variant.
#[verifier::external_body]
pub(crate) fn network_from(net: zcash_address::Network) -> AddressNetwork {
    match net {
        zcash_address::Network::Main => AddressNetwork::Main,
        zcash_address::Network::Test => AddressNetwork::Test,
        zcash_address::Network::Regtest => AddressNetwork::Regtest,
    }
}

/// `ZcashAddress::from_unified` followed by `ZcashAddress::encode`.
///
/// The string is a function of the network and of the items alone. The crate
/// documents that writing a unified address and reading it again gives the
/// same items in the same order; reading goes through the same checks that
/// the container has passed. The requirement leaves out the containers whose
/// padded size the crate refuses to jumble, and the uninterpreted items
/// whose typecode would be read back as a native receiver or not at all.
#[verifier::external_body]
pub(crate) fn encode_unified(net: AddressNetwork, container: unified::Address) -> (s: String)
    requires
        encodable_items(container_items(container)),
    ensures
        s@ == address_encoding(
            AddressDataView { net, kind: AddressKindView::Unified(container_items(container)) },
        ),
        parsed_address(s@) == Some(
            AddressDataView { net, kind: AddressKindView::Unified(container_items(container)) },
        ),
{
    let net = match net {
        AddressNetwork::Main => zcash_address::Network::Main,
        AddressNetwork::Test => zcash_address::Network::Test,
        AddressNetwork::Regtest => zcash_address::Network::Regtest,
    };
    ZcashAddress::from_unified(net, container).encode()
}

/// `ZcashAddress::from_transparent_p2pkh` followed by `ZcashAddress::encode`.
///
/// The string is a function of the network and of the key hash alone. The
/// crate writes a regtest address of this kind as it writes a testnet one.
#[verifier::external_body]
pub(crate) fn encode_p2pkh(net: AddressNetwork, hash: [u8; 20]) -> (s: String)
    ensures
        s@ == address_encoding(AddressDataView { net, kind: AddressKindView::P2pkh(hash@) }),
{
    let net = match net {
        AddressNetwork::Main => zcash_address::Network::Main,
        AddressNetwork::Test => zcash_address::Network::Test,
        AddressNetwork::Regtest => zcash_address::Network::Regtest,
    };
    ZcashAddress::from_transparent_p2pkh(net, hash).encode()
}

/// `ZcashAddress::try_from_encoded`, and `ZcashAddress::convert` into the
/// library's [`AddressData`], which takes every kind of address and so never
/// fails. What is read depends on the string alone.
#[verifier::external_body]
pub(crate) fn parse_address(s: &str) -> (r: Result<AddressData, ParseError>)
    ensures
        match r {
            Ok(address) => parsed_address(s@) == Some(address@),
            Err(_) => parsed_address(s@) is None,
        },
{
    match ZcashAddress::try_from_encoded(s) {
        Ok(address) => Ok(address.convert::<AddressData>().expect("every kind converts")),
        Err(e) => Err(e),
    }
}

/// How `ZcashAddress::convert` hands each kind of address to the library:
/// the payload is kept as it is, the network under the library's name.
impl TryFromAddress for AddressData {
    type Error = ();

    fn try_from_sprout(net: zcash_address::Network, data: [u8; 64]) -> (r: Result<
        Self,
        ConversionError<()>,
    >)
        ensures
            r matches Ok(address) && address.kind == AddressKind::Sprout(data),
    {
        Ok(AddressData { net: network_from(net), kind: AddressKind::Sprout(data) })
    }

    fn try_from_sapling(net: zcash_address::Network, data: [u8; 43]) -> (r: Result<
        Self,
        ConversionError<()>,
    >)
        ensures
            r matches Ok(address) && address.kind == AddressKind::Sapling(data),
    {
        Ok(AddressData { net: network_from(net), kind: AddressKind::Sapling(data) })
    }

    fn try_from_unified(net: zcash_address::Network, data: unified::Address) -> (r: Result<
        Self,
        ConversionError<()>,
    >)
        ensures
            r matches Ok(address) && address.kind@ == AddressKindView::Unified(
                container_items(data),
            ),
    {
        Ok(AddressData { net: network_from(net), kind: AddressKind::Unified(receivers_from(&data)) })
    }

    fn try_from_transparent_p2pkh(net: zcash_address::Network, data: [u8; 20]) -> (r: Result<
        Self,
        ConversionError<()>,
    >)
        ensures
            r matches Ok(address) && address.kind == AddressKind::P2pkh(data),
    {
        Ok(AddressData { net: network_from(net), kind: AddressKind::P2pkh(data) })
    }

    fn try_from_transparent_p2sh(net: zcash_address::Network, data: [u8; 20]) -> (r: Result<
        Self,
        ConversionError<()>,
    >)
        ensures
            r matches Ok(address) && address.kind == AddressKind::P2sh(data),
    {
        Ok(AddressData { net: network_from(net), kind: AddressKind::P2sh(data) })
    }

    fn try_from_tex(net: zcash_address::Network, data: [u8; 20]) -> (r: Result<
        Self,
        ConversionError<()>,
    >)
        ensures
            r matches Ok(address) && address.kind == AddressKind::Tex(data),
    {
        Ok(AddressData { net: network_from(net), kind: AddressKind::Tex(data) })
    }
}

} // verus!
