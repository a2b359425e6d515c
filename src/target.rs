//! What a probe is aimed at: checking the request, and resolving it into a
//! destination, an amount and a feature list.
use vstd::prelude::*;
use crate::features::{get_node_features, probe_feature_set, TLV_ONION_REQ};
use crate::pubkey::{decode_pubkey, hex_bytes, is_hex};

verus! {

/// Why a probe could not produce a result.
#[derive(Debug)]
pub enum ProbeError {
    /// Not exactly one of a destination identifier and an invoice was given.
    InvalidSpec,
    /// A probe by identifier was asked for no amount, or a non-positive one.
    NonPositiveAmount,
    /// A node identifier is not hex text.
    InvalidPubkey,
    /// The payment node knows no such destination.
    NodeInfoUnavailable,
    /// The invoice could not be decoded; the payment node's message.
    InvoiceDecodeError(String),
    /// The invoice fixes no amount.
    ZeroAmountInvoice,
    /// The local channels could not be listed; the payment node's message.
    ChannelListError(String),
    /// The payment attempt could not be started; the transport's message.
    DispatchError(String),
    /// The update stream broke off; the transport's message.
    StreamError(String),
    /// The update stream closed before any terminal status.
    UnexpectedStreamEnd,
}

/// A probe request: exactly one of `destination_pubkey` and `payment_request`
/// is meant to be set.
pub struct ProbeDestination {
    pub probe_amount_sat: Option<i64>,
    pub destination_pubkey: Option<String>,
    pub timeout_seconds: Option<i32>,
    pub fee_limit_sat: i64,
    pub payment_request: Option<String>,
    pub outgoing_pubkeys: Option<Vec<String>>,
    pub last_hop_pubkey: Option<String>,
    pub max_paths: Option<u32>,
}

/// What the probe is aimed at, as given.
pub enum ProbeTarget {
    DestinationPubkey(String),
    PaymentRequest(String),
}

/// The fields of a decoded invoice that a probe reads.
pub struct DecodedInvoice {
    pub destination: String,
    pub num_satoshis: i64,
    pub num_msat: i64,
    pub features: Vec<u32>,
}

/// A resolved probe target.
pub struct ResolvedTarget {
    pub destination: Vec<u8>,
    pub amount: i64,
    pub features: Vec<u32>,
}

pub open spec fn exactly_one_target(args: ProbeDestination) -> bool {
    args.destination_pubkey is Some != args.payment_request is Some
}

/// Whether the first hop is to be restricted: peers were given, and at least
/// one.
pub open spec fn restriction_requested(args: ProbeDestination) -> bool {
    args.outgoing_pubkeys matches Some(peers) && peers@.len() > 0
}

pub open spec fn positive_amount(amount: Option<i64>) -> bool {
    amount matches Some(a) && a > 0
}

/// `t` aims at the node `destination` (hex text) with `amount`, asserting the
/// probe features of `advertised` without `excluded`.
pub open spec fn resolves_to(
    t: ResolvedTarget,
    destination: Seq<char>,
    amount: i64,
    advertised: Seq<u32>,
    excluded: Seq<u32>,
) -> bool {
    &&& t.destination@ == hex_bytes(destination)
    &&& t.amount == amount
    &&& t.features@.to_set() == probe_feature_set(advertised.to_set(), excluded.to_set())
    &&& t.features@.no_duplicates()
    &&& t.features@.len() > 0
    &&& t.features@[0] == TLV_ONION_REQ
}

/// Checks a probe request before anything is asked of the payment node.
/// It fails with `InvalidSpec` unless exactly one target is given; a probe by
/// identifier must also carry a positive amount.
pub fn probe_target(args: &ProbeDestination) -> (r: Result<ProbeTarget, ProbeError>)
    ensures
        !exactly_one_target(*args) ==> (r matches Err(e) && e is InvalidSpec),
        exactly_one_target(*args) ==> match args.destination_pubkey {
            Some(key) => if positive_amount(args.probe_amount_sat) {
                r matches Ok(ProbeTarget::DestinationPubkey(k)) && k@ == key@
            } else {
                r matches Err(e) && e is NonPositiveAmount
            },
            None => r matches Ok(ProbeTarget::PaymentRequest(p)) && p@
                == args.payment_request->Some_0@,
        },
{
    match (&args.destination_pubkey, &args.payment_request) {
        (Some(key), None) => {
            match args.probe_amount_sat {
                Some(a) => {
                    if a > 0 {
                        Ok(ProbeTarget::DestinationPubkey(key.clone()))
                    } else {
                        Err(ProbeError::NonPositiveAmount)
                    }
                },
                None => Err(ProbeError::NonPositiveAmount),
            }
        },
        (None, Some(request)) => Ok(ProbeTarget::PaymentRequest(request.clone())),
        _ => Err(ProbeError::InvalidSpec),
    }
}

/// Whether the local channels must be listed to restrict the first hop.
pub fn needs_channel_listing(args: &ProbeDestination) -> (r: bool)
    ensures
        r == restriction_requested(*args),
{
    match &args.outgoing_pubkeys {
        Some(peers) => peers.len() > 0,
        None => false,
    }
}

/// Resolves a probe by identifier from what the payment node knows of the
/// node: `node_features` holds its advertised bits, or nothing where the node
/// is unknown.
pub fn resolve_from_node_info(
    pubkey: &String,
    amount: i64,
    node_features: &Option<Vec<u32>>,
    excluded: &Vec<u32>,
) -> (r: Result<ResolvedTarget, ProbeError>)
    ensures
        node_features is None ==> (r matches Err(e) && e is NodeInfoUnavailable),
        node_features matches Some(adv) ==> {
            if !is_hex(pubkey@) {
                r matches Err(e) && e is InvalidPubkey
            } else if amount <= 0 {
                r matches Err(e) && e is NonPositiveAmount
            } else {
                r matches Ok(t) && resolves_to(t, pubkey@, amount, adv@, excluded@)
            }
        },
{
    match node_features {
        None => Err(ProbeError::NodeInfoUnavailable),
        Some(advertised) => {
            match decode_pubkey(pubkey) {
                None => Err(ProbeError::InvalidPubkey),
                Some(destination) => {
                    if amount <= 0 {
                        Err(ProbeError::NonPositiveAmount)
                    } else {
                        let features = get_node_features(advertised, excluded);
                        Ok(ResolvedTarget { destination, amount, features })
                    }
                },
            }
        },
    }
}

/// Resolves a probe by invoice from its decoded fields. An invoice whose
/// amount, or whose amount in thousandths, is zero fixes nothing to probe
/// with and is refused.
pub fn resolve_from_invoice(invoice: &DecodedInvoice, excluded: &Vec<u32>) -> (r: Result<
    ResolvedTarget,
    ProbeError,
>)
    ensures
        (invoice.num_satoshis == 0 || invoice.num_msat == 0) ==> (r matches Err(e)
            && e is ZeroAmountInvoice),
        invoice.num_satoshis != 0 && invoice.num_msat != 0 ==> {
            if invoice.num_satoshis < 0 {
                r matches Err(e) && e is NonPositiveAmount
            } else if !is_hex(invoice.destination@) {
                r matches Err(e) && e is InvalidPubkey
            } else {
                r matches Ok(t) && resolves_to(
                    t,
                    invoice.destination@,
                    invoice.num_satoshis,
                    invoice.features@,
                    excluded@,
                )
            }
        },
{
    if invoice.num_satoshis == 0 || invoice.num_msat == 0 {
        return Err(ProbeError::ZeroAmountInvoice);
    }
    if invoice.num_satoshis < 0 {
        return Err(ProbeError::NonPositiveAmount);
    }
    match decode_pubkey(&invoice.destination) {
        None => Err(ProbeError::InvalidPubkey),
        Some(destination) => {
            let features = get_node_features(&invoice.features, excluded);
            Ok(ResolvedTarget { destination, amount: invoice.num_satoshis, features })
        },
    }
}

} // verus!
