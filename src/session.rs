//! One probe, as a sequence of decisions: the payment node's answers come in
//! as events, and each step says what to ask of it next.
use vstd::prelude::*;
use crate::attempt::{
    build_probe_attempt,
    last_hop_valid,
    max_parts_or_default,
    timeout_or_default,
    ProbeAttempt,
};
use crate::channels::{filter_channels_from_pubkeys, selected_channel_ids, ChannelInfo};
use crate::features::{probe_feature_set, TLV_ONION_REQ};
use crate::outcome::{classify_spec, classify_update, PaymentRecord, ProbeResult};
use crate::pubkey::{hex_bytes, is_hex};
use crate::secret::{generate_secret_for_probes, sha256_of};
use crate::target::{
    exactly_one_target,
    needs_channel_listing,
    positive_amount,
    probe_target,
    resolve_from_invoice,
    resolve_from_node_info,
    restriction_requested,
    DecodedInvoice,
    ProbeDestination,
    ProbeError,
    ProbeTarget,
};

verus! {

/// Where a probe stands.
#[derive(Debug, Clone, Copy, PartialEq, Eq, Structural)]
pub enum ProbeStage {
    /// Nothing has been asked of the payment node.
    Start,
    /// The local channels have been asked for.
    ListingChannels,
    /// The destination's features, or the decoded invoice, have been asked for.
    Resolving,
    /// The attempt has been sent; updates are being read.
    Streaming,
    /// A verdict or an error has been given.
    Done,
}

/// What the payment node answered.
pub enum ProbeEvent {
    /// The probe is to begin.
    Begin,
    ChannelsListed(Vec<ChannelInfo>),
    ChannelListFailed(String),
    /// The destination's advertised feature bits, or `None` where the node
    /// is unknown or the lookup failed.
    NodeInfo(Option<Vec<u32>>),
    InvoiceDecoded(DecodedInvoice),
    InvoiceDecodeFailed(String),
    DispatchFailed(String),
    Update(PaymentRecord),
    StreamFailed(String),
    StreamEnded,
}

/// What to do next.
pub enum ProbeAction {
    ListChannels,
    GetNodeInfo(String),
    DecodePaymentRequest(String),
    SendPayment(ProbeAttempt),
    /// Read the next update of the stream.
    AwaitUpdate,
    Finish(Result<ProbeResult, ProbeError>),
    /// The event does not belong to the current stage; nothing changes.
    Ignore,
}

pub struct ProbeSession {
    pub args: ProbeDestination,
    /// Feature bits never asserted by this probe.
    pub excluded: Vec<u32>,
    pub stage: ProbeStage,
    /// The first-hop restriction; empty while none applies.
    pub outgoing_chan_ids: Vec<u64>,
}

/// The action that asks for what resolves the target.
pub open spec fn is_lookup_for(action: ProbeAction, args: ProbeDestination) -> bool {
    match args.destination_pubkey {
        Some(key) => action matches ProbeAction::GetNodeInfo(k) && k@ == key@,
        None => action matches ProbeAction::DecodePaymentRequest(p) && p@
            == args.payment_request->Some_0@,
    }
}

/// `a` is the probe attempt towards `destination` (hex text) for `amount`,
/// asserting the probe features of `advertised`, under the request's limits
/// and first-hop restriction, locked to a fresh digest.
pub open spec fn is_attempt_for(
    a: ProbeAttempt,
    args: ProbeDestination,
    outgoing: Seq<u64>,
    destination: Seq<char>,
    amount: i64,
    advertised: Seq<u32>,
    excluded: Seq<u32>,
) -> bool {
    &&& a.dest@ == hex_bytes(destination)
    &&& a.amt == amount
    &&& a.dest_features@.to_set() == probe_feature_set(advertised.to_set(), excluded.to_set())
    &&& a.dest_features@.no_duplicates()
    &&& a.dest_features@.len() > 0
    &&& a.dest_features@[0] == TLV_ONION_REQ
    &&& a.payment_hash@.len() == 32
    &&& exists|secret: Seq<u8>| secret.len() == 32 && a.payment_hash@ == sha256_of(secret)
    &&& a.timeout_seconds == timeout_or_default(args.timeout_seconds)
    &&& a.fee_limit_sat == args.fee_limit_sat
    &&& a.max_parts == max_parts_or_default(args.max_paths)
    &&& a.outgoing_chan_ids@ == outgoing
    &&& match args.last_hop_pubkey {
        Some(k) => a.last_hop_pubkey matches Some(b) && b@ == hex_bytes(k@),
        None => a.last_hop_pubkey is None,
    }
}

/// The error, if any, of resolving a probe by identifier from the node's
/// features and sending it.
pub open spec fn node_info_error(args: ProbeDestination, features: Option<Vec<u32>>) -> Option<
    ProbeError,
> {
    if features is None {
        Some(ProbeError::NodeInfoUnavailable)
    } else if !is_hex(args.destination_pubkey->Some_0@) {
        Some(ProbeError::InvalidPubkey)
    } else if !positive_amount(args.probe_amount_sat) {
        Some(ProbeError::NonPositiveAmount)
    } else if !last_hop_valid(args) {
        Some(ProbeError::InvalidPubkey)
    } else {
        None
    }
}

/// The error, if any, of resolving a probe by invoice and sending it.
pub open spec fn invoice_error(args: ProbeDestination, invoice: DecodedInvoice) -> Option<
    ProbeError,
> {
    if invoice.num_satoshis == 0 || invoice.num_msat == 0 {
        Some(ProbeError::ZeroAmountInvoice)
    } else if invoice.num_satoshis < 0 {
        Some(ProbeError::NonPositiveAmount)
    } else if !is_hex(invoice.destination@) {
        Some(ProbeError::InvalidPubkey)
    } else if !last_hop_valid(args) {
        Some(ProbeError::InvalidPubkey)
    } else {
        None
    }
}

/// `action` finishes the probe with the error `e`.
pub open spec fn fails_with(action: ProbeAction, e: ProbeError) -> bool {
    action matches ProbeAction::Finish(Err(f)) && f == e
}

impl ProbeSession {
    pub fn new(args: ProbeDestination, excluded: Vec<u32>) -> (r: Self)
        ensures
            r.wf(),
            r.args == args,
            r.excluded == excluded,
            r.stage == ProbeStage::Start,
            r.outgoing_chan_ids@.len() == 0,
    {
        ProbeSession { args, excluded, stage: ProbeStage::Start, outgoing_chan_ids: Vec::new() }
    }

    fn lookup(&self) -> (r: ProbeAction)
        requires
            exactly_one_target(self.args),
        ensures
            is_lookup_for(r, self.args),
    {
        match &self.args.destination_pubkey {
            Some(key) => ProbeAction::GetNodeInfo(key.clone()),
            None => match &self.args.payment_request {
                Some(request) => ProbeAction::DecodePaymentRequest(request.clone()),
                None => ProbeAction::Ignore,
            },
        }
    }

    fn dispatch(&mut self, resolved: Result<crate::target::ResolvedTarget, ProbeError>) -> (r:
        ProbeAction)
        requires
            old(self).stage == ProbeStage::Resolving,
        ensures
            final(self).stage == (if r is SendPayment {
                ProbeStage::Streaming
            } else {
                ProbeStage::Done
            }),
            final(self).args == old(self).args,
            final(self).excluded == old(self).excluded,
            resolved matches Err(e) ==> (r matches ProbeAction::Finish(Err(f)) && f == e),
            resolved matches Ok(t) ==> {
                if last_hop_valid(old(self).args) {
                    r matches ProbeAction::SendPayment(a) && a.dest == t.destination && a.amt
                        == t.amount && a.dest_features == t.features && a.payment_hash@.len()
                        == 32 && (exists|secret: Seq<u8>|
                        secret.len() == 32 && a.payment_hash@ == sha256_of(secret))
                        && a.timeout_seconds == timeout_or_default(old(self).args.timeout_seconds)
                        && a.fee_limit_sat == old(self).args.fee_limit_sat && a.max_parts
                        == max_parts_or_default(old(self).args.max_paths) && a.outgoing_chan_ids@
                        == old(self).outgoing_chan_ids@ && match old(self).args.last_hop_pubkey {
                        Some(k) => a.last_hop_pubkey matches Some(b) && b@ == hex_bytes(k@),
                        None => a.last_hop_pubkey is None,
                    }
                } else {
                    fails_with(r, ProbeError::InvalidPubkey)
                }
            },
    {
        match resolved {
            Err(e) => {
                self.stage = ProbeStage::Done;
                ProbeAction::Finish(Err(e))
            },
            Ok(target) => {
                let hash = generate_secret_for_probes();
                let mut outgoing: Vec<u64> = Vec::new();
                std::mem::swap(&mut outgoing, &mut self.outgoing_chan_ids);
                match build_probe_attempt(target, hash, &self.args, outgoing) {
                    Ok(a) => {
                        self.stage = ProbeStage::Streaming;
                        ProbeAction::SendPayment(a)
                    },
                    Err(e) => {
                        self.stage = ProbeStage::Done;
                        ProbeAction::Finish(Err(e))
                    },
                }
            },
        }
    }
    /// The session's invariant: while the payment node is being asked, the
    /// request names exactly one target, and one by identifier carries a
    /// positive amount; channels are listed only where a restriction was
    /// asked for.
    pub open spec fn wf(&self) -> bool {
        &&& (self.stage != ProbeStage::Start && self.stage != ProbeStage::Done) ==> {
            &&& exactly_one_target(self.args)
            &&& self.args.destination_pubkey is Some ==> positive_amount(
                self.args.probe_amount_sat,
            )
        }
        &&& self.stage == ProbeStage::ListingChannels ==> restriction_requested(self.args)
    }

    /// Takes one answer of the payment node and says what to do next.
    ///
    /// A request that does not name exactly one target fails with
    /// `InvalidSpec` on the first step, before anything is asked of the
    /// payment node. The probe succeeds exactly when the attempt fails for
    /// incorrect payment details; a settled payment is reported as such; a
    /// stream that closes before a terminal status fails with
    /// `UnexpectedStreamEnd`.
    pub fn step(&mut self, event: ProbeEvent) -> (r: ProbeAction)
        requires
            old(self).wf(),
        ensures
            final(self).wf(),
            final(self).args == old(self).args,
            final(self).excluded == old(self).excluded,
            r is Ignore ==> final(self).stage == old(self).stage && final(self).outgoing_chan_ids@
                == old(self).outgoing_chan_ids@,
            old(self).stage == ProbeStage::Start ==> match event {
                ProbeEvent::Begin => {
                    if !exactly_one_target(old(self).args) {
                        fails_with(r, ProbeError::InvalidSpec) && final(self).stage
                            == ProbeStage::Done
                    } else if old(self).args.destination_pubkey is Some && !positive_amount(
                        old(self).args.probe_amount_sat,
                    ) {
                        fails_with(r, ProbeError::NonPositiveAmount) && final(self).stage
                            == ProbeStage::Done
                    } else if restriction_requested(old(self).args) {
                        r is ListChannels && final(self).stage == ProbeStage::ListingChannels
                    } else {
                        is_lookup_for(r, old(self).args) && final(self).stage
                            == ProbeStage::Resolving && final(self).outgoing_chan_ids@
                            == old(self).outgoing_chan_ids@
                    }
                },
                _ => r is Ignore,
            },
            old(self).stage == ProbeStage::ListingChannels ==> match event {
                ProbeEvent::ChannelsListed(channels) => is_lookup_for(r, old(self).args)
                    && final(self).stage == ProbeStage::Resolving && final(self).outgoing_chan_ids@
                    == selected_channel_ids(channels@, old(self).args.outgoing_pubkeys->Some_0@),
                ProbeEvent::ChannelListFailed(m) => fails_with(r, ProbeError::ChannelListError(m))
                    && final(self).stage == ProbeStage::Done,
                _ => r is Ignore,
            },
            old(self).stage == ProbeStage::Resolving ==> match event {
                ProbeEvent::NodeInfo(features) => {
                    if old(self).args.destination_pubkey is None {
                        r is Ignore
                    } else {
                        match node_info_error(old(self).args, features) {
                            Some(e) => fails_with(r, e) && final(self).stage == ProbeStage::Done,
                            None => final(self).stage == ProbeStage::Streaming && (r matches ProbeAction::SendPayment(a) && is_attempt_for(
                                a,
                                old(self).args,
                                old(self).outgoing_chan_ids@,
                                old(self).args.destination_pubkey->Some_0@,
                                old(self).args.probe_amount_sat->Some_0,
                                features->Some_0@,
                                old(self).excluded@,
                            )),
                        }
                    }
                },
                ProbeEvent::InvoiceDecoded(invoice) => {
                    if old(self).args.destination_pubkey is Some {
                        r is Ignore
                    } else {
                        match invoice_error(old(self).args, invoice) {
                            Some(e) => fails_with(r, e) && final(self).stage == ProbeStage::Done,
                            None => final(self).stage == ProbeStage::Streaming && (r matches ProbeAction::SendPayment(a) && is_attempt_for(
                                a,
                                old(self).args,
                                old(self).outgoing_chan_ids@,
                                invoice.destination@,
                                invoice.num_satoshis,
                                invoice.features@,
                                old(self).excluded@,
                            )),
                        }
                    }
                },
                ProbeEvent::InvoiceDecodeFailed(m) => {
                    if old(self).args.destination_pubkey is Some {
                        r is Ignore
                    } else {
                        fails_with(r, ProbeError::InvoiceDecodeError(m)) && final(self).stage
                            == ProbeStage::Done
                    }
                },
                _ => r is Ignore,
            },
            old(self).stage == ProbeStage::Streaming ==> match event {
                ProbeEvent::DispatchFailed(m) => fails_with(r, ProbeError::DispatchError(m))
                    && final(self).stage == ProbeStage::Done,
                ProbeEvent::Update(update) => match classify_spec(update) {
                    Some(res) => r == ProbeAction::Finish(Ok(res)) && final(self).stage
                        == ProbeStage::Done,
                    None => r is AwaitUpdate && final(self).stage == ProbeStage::Streaming,
                },
                ProbeEvent::StreamFailed(m) => fails_with(r, ProbeError::StreamError(m))
                    && final(self).stage == ProbeStage::Done,
                ProbeEvent::StreamEnded => fails_with(r, ProbeError::UnexpectedStreamEnd)
                    && final(self).stage == ProbeStage::Done,
                _ => r is Ignore,
            },
            old(self).stage == ProbeStage::Done ==> r is Ignore,
    {
        match self.stage {
            ProbeStage::Start => match event {
                ProbeEvent::Begin => match probe_target(&self.args) {
                    Err(e) => {
                        self.stage = ProbeStage::Done;
                        ProbeAction::Finish(Err(e))
                    },
                    Ok(_) => {
                        if needs_channel_listing(&self.args) {
                            self.stage = ProbeStage::ListingChannels;
                            ProbeAction::ListChannels
                        } else {
                            self.stage = ProbeStage::Resolving;
                            self.lookup()
                        }
                    },
                },
                _ => ProbeAction::Ignore,
            },
            ProbeStage::ListingChannels => match event {
                ProbeEvent::ChannelsListed(channels) => {
                    let ids = match &self.args.outgoing_pubkeys {
                        Some(peers) => filter_channels_from_pubkeys(&channels, peers),
                        None => Vec::new(),
                    };
                    self.outgoing_chan_ids = ids;
                    self.stage = ProbeStage::Resolving;
                    self.lookup()
                },
                ProbeEvent::ChannelListFailed(m) => {
                    self.stage = ProbeStage::Done;
                    ProbeAction::Finish(Err(ProbeError::ChannelListError(m)))
                },
                _ => ProbeAction::Ignore,
            },
            ProbeStage::Resolving => match event {
                ProbeEvent::NodeInfo(features) => {
                    let amount = match self.args.probe_amount_sat {
                        Some(a) => a,
                        None => 0,
                    };
                    let resolved = match &self.args.destination_pubkey {
                        Some(key) => resolve_from_node_info(key, amount, &features, &self.excluded),
                        None => {
                            return ProbeAction::Ignore;
                        },
                    };
                    self.dispatch(resolved)
                },
                ProbeEvent::InvoiceDecoded(invoice) => {
                    if self.args.destination_pubkey.is_some() {
                        return ProbeAction::Ignore;
                    }
                    let resolved = resolve_from_invoice(&invoice, &self.excluded);
                    self.dispatch(resolved)
                },
                ProbeEvent::InvoiceDecodeFailed(m) => {
                    if self.args.destination_pubkey.is_some() {
                        return ProbeAction::Ignore;
                    }
                    self.stage = ProbeStage::Done;
                    ProbeAction::Finish(Err(ProbeError::InvoiceDecodeError(m)))
                },
                _ => ProbeAction::Ignore,
            },
            ProbeStage::Streaming => match event {
                ProbeEvent::DispatchFailed(m) => {
                    self.stage = ProbeStage::Done;
                    ProbeAction::Finish(Err(ProbeError::DispatchError(m)))
                },
                ProbeEvent::Update(update) => match classify_update(update) {
                    Some(res) => {
                        self.stage = ProbeStage::Done;
                        ProbeAction::Finish(Ok(res))
                    },
                    None => ProbeAction::AwaitUpdate,
                },
                ProbeEvent::StreamFailed(m) => {
                    self.stage = ProbeStage::Done;
                    ProbeAction::Finish(Err(ProbeError::StreamError(m)))
                },
                ProbeEvent::StreamEnded => {
                    self.stage = ProbeStage::Done;
                    ProbeAction::Finish(Err(ProbeError::UnexpectedStreamEnd))
                },
                _ => ProbeAction::Ignore,
            },
            ProbeStage::Done => ProbeAction::Ignore,
        }
    }
}

} // verus!
