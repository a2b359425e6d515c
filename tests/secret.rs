use lightning_probing::pubkey::decode_pubkey;
use lightning_probing::secret::generate_secret_for_probes;
use std::collections::HashSet;

#[test]
fn secret_is_32_bytes() {
    assert_eq!(generate_secret_for_probes().len(), 32);
}

#[test]
fn secrets_never_repeat() {
    let mut seen = HashSet::new();
    for _ in 0..10000 {
        let s = generate_secret_for_probes();
        assert_eq!(s.len(), 32);
        assert!(seen.insert(s));
    }
}

#[test]
fn hex_pubkey_decodes() {
    assert_eq!(decode_pubkey(&"0a1B".to_string()), Some(vec![0x0a, 0x1b]));
    assert_eq!(decode_pubkey(&"".to_string()), Some(vec![]));
    let key = "0364913d18a19c671bb36dd04d6ad5be0fe8f2894314c36a9db3f03c2d414907e1".to_string();
    let bytes = decode_pubkey(&key).unwrap();
    assert_eq!(bytes.len(), 33);
    assert_eq!(bytes[0], 0x03);
    assert_eq!(bytes[32], 0xe1);
}

#[test]
fn non_hex_pubkey_refused() {
    assert_eq!(decode_pubkey(&"abc".to_string()), None);
    assert_eq!(decode_pubkey(&"zz".to_string()), None);
    assert_eq!(decode_pubkey(&"0g".to_string()), None);
}
