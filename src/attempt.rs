//! The payment attempt that a probe sends.
use vstd::prelude::*;
use crate::pubkey::{decode_pubkey, hex_bytes, is_hex};
use crate::target::{ProbeDestination, ProbeError, ResolvedTarget};

verus! {

/// How long the payment node may spend on a probe when the request names no
/// timeout, in seconds.
pub const DEFAULT_TIMEOUT_SECONDS: i32 = 300;

/// A payment attempt, ready to hand to the payment node.
pub struct ProbeAttempt {
    pub dest: Vec<u8>,
    pub amt: i64,
    pub dest_features: Vec<u32>,
    pub payment_hash: Vec<u8>,
    pub timeout_seconds: i32,
    pub fee_limit_sat: i64,
    /// Zero leaves the number of parts to the payment node.
    pub max_parts: u32,
    /// Empty where the first hop is not restricted.
    pub outgoing_chan_ids: Vec<u64>,
    pub last_hop_pubkey: Option<Vec<u8>>,
}

pub open spec fn timeout_or_default(t: Option<i32>) -> i32 {
    match t {
        Some(v) => v,
        None => DEFAULT_TIMEOUT_SECONDS,
    }
}

pub open spec fn max_parts_or_default(m: Option<u32>) -> u32 {
    match m {
        Some(v) => v,
        None => 0,
    }
}

/// Whether a last-hop restriction, if any, is hex text.
pub open spec fn last_hop_valid(args: ProbeDestination) -> bool {
    args.last_hop_pubkey matches Some(k) ==> is_hex(k@)
}

/// Assembles the attempt from the resolved target, the probe hash and the
/// request's limits. It fails only where the last-hop identifier is not hex.
pub fn build_probe_attempt(
    target: ResolvedTarget,
    payment_hash: Vec<u8>,
    args: &ProbeDestination,
    outgoing_chan_ids: Vec<u64>,
) -> (r: Result<ProbeAttempt, ProbeError>)
    ensures
        !last_hop_valid(*args) ==> (r matches Err(e) && e is InvalidPubkey),
        last_hop_valid(*args) ==> (r matches Ok(a) && {
            &&& a.dest == target.destination
            &&& a.amt == target.amount
            &&& a.dest_features == target.features
            &&& a.payment_hash == payment_hash
            &&& a.timeout_seconds == timeout_or_default(args.timeout_seconds)
            &&& a.fee_limit_sat == args.fee_limit_sat
            &&& a.max_parts == max_parts_or_default(args.max_paths)
            &&& a.outgoing_chan_ids == outgoing_chan_ids
            &&& match args.last_hop_pubkey {
                Some(k) => a.last_hop_pubkey matches Some(b) && b@ == hex_bytes(k@),
                None => a.last_hop_pubkey is None,
            }
        }),
{
    let last_hop_pubkey = match &args.last_hop_pubkey {
        Some(k) => match decode_pubkey(k) {
            Some(b) => Some(b),
            None => {
                return Err(ProbeError::InvalidPubkey);
            },
        },
        None => None,
    };
    let timeout_seconds = match args.timeout_seconds {
        Some(v) => v,
        None => DEFAULT_TIMEOUT_SECONDS,
    };
    let max_parts = match args.max_paths {
        Some(v) => v,
        None => 0,
    };
    Ok(
        ProbeAttempt {
            dest: target.destination,
            amt: target.amount,
            dest_features: target.features,
            payment_hash,
            timeout_seconds,
            fee_limit_sat: args.fee_limit_sat,
            max_parts,
            outgoing_chan_ids,
            last_hop_pubkey,
        },
    )
}

} // verus!
