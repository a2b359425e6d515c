use lightning_probing::features::{
    default_excluded_features, get_node_features, FEATURE_CHANNEL_TYPE, FEATURE_TRUSTED_FUNDING,
    TLV_ONION_REQ,
};

#[test]
fn excluded_bits_dropped_and_onion_bit_added() {
    let advertised = vec![1, 45, 9, 51, 17];
    let r = get_node_features(&advertised, &default_excluded_features());
    assert_eq!(r, vec![TLV_ONION_REQ, 1, 9, 17]);
    assert!(!r.contains(&FEATURE_CHANNEL_TYPE));
    assert!(!r.contains(&FEATURE_TRUSTED_FUNDING));
}

#[test]
fn empty_advertisement_gives_onion_bit_only() {
    let r = get_node_features(&vec![], &default_excluded_features());
    assert_eq!(r, vec![8]);
}

#[test]
fn onion_bit_not_repeated() {
    let r = get_node_features(&vec![8, 9, 8], &default_excluded_features());
    assert_eq!(r, vec![8, 9]);
}

#[test]
fn filtering_twice_changes_nothing() {
    let excluded = default_excluded_features();
    let once = get_node_features(&vec![51, 14, 45, 16, 23], &excluded);
    let twice = get_node_features(&once, &excluded);
    assert_eq!(once, twice);
    assert_eq!(once, vec![8, 14, 16, 23]);
}

#[test]
fn single_exclusion_keeps_channel_type() {
    let r = get_node_features(&vec![45, 51], &vec![FEATURE_TRUSTED_FUNDING]);
    assert_eq!(r, vec![8, 45]);
}
