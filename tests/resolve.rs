use lightning_probing::channels::{filter_channels_from_pubkeys, ChannelInfo};
use lightning_probing::features::default_excluded_features;
use lightning_probing::target::{
    needs_channel_listing, probe_target, resolve_from_invoice, resolve_from_node_info,
    DecodedInvoice, ProbeDestination, ProbeError, ProbeTarget,
};

const PEER_A: &str = "0364913d18a19c671bb36dd04d6ad5be0fe8f2894314c36a9db3f03c2d414907e1";
const PEER_B: &str = "033a8f92bb6ed087e13270ffbbfe65dcd9c4531d9f63f01ae481ec6257df97f4cf";

fn request(pubkey: Option<&str>, invoice: Option<&str>, amount: Option<i64>) -> ProbeDestination {
    ProbeDestination {
        probe_amount_sat: amount,
        destination_pubkey: pubkey.map(|s| s.to_string()),
        timeout_seconds: None,
        fee_limit_sat: 1000,
        payment_request: invoice.map(|s| s.to_string()),
        outgoing_pubkeys: None,
        last_hop_pubkey: None,
        max_paths: None,
    }
}

#[test]
fn both_targets_invalid() {
    let r = probe_target(&request(Some(PEER_A), Some("lnbcrt1"), Some(10)));
    assert!(matches!(r, Err(ProbeError::InvalidSpec)));
}

#[test]
fn neither_target_invalid() {
    let r = probe_target(&request(None, None, Some(10)));
    assert!(matches!(r, Err(ProbeError::InvalidSpec)));
}

#[test]
fn pubkey_target_accepted() {
    match probe_target(&request(Some(PEER_A), None, Some(100000))) {
        Ok(ProbeTarget::DestinationPubkey(k)) => assert_eq!(k, PEER_A),
        _ => panic!("expected a pubkey target"),
    }
}

#[test]
fn invoice_target_accepted() {
    match probe_target(&request(None, Some("lnbcrt500u1"), None)) {
        Ok(ProbeTarget::PaymentRequest(p)) => assert_eq!(p, "lnbcrt500u1"),
        _ => panic!("expected an invoice target"),
    }
}

#[test]
fn pubkey_target_needs_positive_amount() {
    assert!(matches!(probe_target(&request(Some(PEER_A), None, None)), Err(ProbeError::NonPositiveAmount)));
    assert!(matches!(probe_target(&request(Some(PEER_A), None, Some(0))), Err(ProbeError::NonPositiveAmount)));
}

#[test]
fn channel_listing_only_for_nonempty_peers() {
    let mut args = request(Some(PEER_A), None, Some(1));
    assert!(!needs_channel_listing(&args));
    args.outgoing_pubkeys = Some(vec![]);
    assert!(!needs_channel_listing(&args));
    args.outgoing_pubkeys = Some(vec![PEER_B.to_string()]);
    assert!(needs_channel_listing(&args));
}

#[test]
fn channels_filtered_by_peer() {
    let channels = vec![
        ChannelInfo { chan_id: 11, remote_pubkey: PEER_A.to_string() },
        ChannelInfo { chan_id: 22, remote_pubkey: PEER_B.to_string() },
        ChannelInfo { chan_id: 33, remote_pubkey: PEER_A.to_string() },
    ];
    assert_eq!(filter_channels_from_pubkeys(&channels, &vec![PEER_A.to_string()]), vec![11, 33]);
    assert_eq!(filter_channels_from_pubkeys(&channels, &vec!["02ff".to_string()]), Vec::<u64>::new());
}

#[test]
fn unknown_node_unavailable() {
    let r = resolve_from_node_info(&PEER_A.to_string(), 100, &None, &default_excluded_features());
    assert!(matches!(r, Err(ProbeError::NodeInfoUnavailable)));
}

#[test]
fn node_info_resolves() {
    let r = resolve_from_node_info(&"02ab".to_string(), 3000, &Some(vec![51, 9]), &default_excluded_features())
        .unwrap();
    assert_eq!(r.destination, vec![0x02, 0xab]);
    assert_eq!(r.amount, 3000);
    assert_eq!(r.features, vec![8, 9]);
}

#[test]
fn node_info_bad_hex() {
    let r = resolve_from_node_info(&"xyz".to_string(), 3000, &Some(vec![]), &default_excluded_features());
    assert!(matches!(r, Err(ProbeError::InvalidPubkey)));
}

fn invoice(sat: i64, msat: i64) -> DecodedInvoice {
    DecodedInvoice {
        destination: "02ab".to_string(),
        num_satoshis: sat,
        num_msat: msat,
        features: vec![9, 14, 45],
    }
}

#[test]
fn zero_amount_invoice_refused() {
    let excluded = default_excluded_features();
    assert!(matches!(resolve_from_invoice(&invoice(0, 0), &excluded), Err(ProbeError::ZeroAmountInvoice)));
    assert!(matches!(resolve_from_invoice(&invoice(5, 0), &excluded), Err(ProbeError::ZeroAmountInvoice)));
    assert!(matches!(resolve_from_invoice(&invoice(0, 5000), &excluded), Err(ProbeError::ZeroAmountInvoice)));
}

#[test]
fn invoice_resolves() {
    let r = resolve_from_invoice(&invoice(3730, 3730000), &default_excluded_features()).unwrap();
    assert_eq!(r.amount, 3730);
    assert_eq!(r.destination, vec![0x02, 0xab]);
    assert_eq!(r.features, vec![8, 9, 14]);
}
