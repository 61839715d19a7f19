use internet_identity::delegation::{
    calculate_seed, delegation_expiration, delegation_signature_msg_hash,
    der_encode_canister_sig_key, get_delegation, get_principal, prepare_delegation,
    record_delegation_origin, DelegationOrigin,
};
use internet_identity::signature_map::SignatureMap;
use sha2::Digest;

const CANISTER_ID: [u8; 10] = [0, 0, 0, 0, 0, 0, 0, 7, 1, 1];

fn salt() -> Vec<u8> {
    vec![42u8; 32]
}

fn sha256(b: &[u8]) -> Vec<u8> {
    sha2::Sha256::digest(b).to_vec()
}

#[test]
fn delegation_lasts_thirty_minutes_by_default() {
    let t0 = 1_620_328_630_000_000_000u64;
    assert_eq!(delegation_expiration(t0, None), t0 + 1_800_000_000_000);
    assert_eq!(delegation_expiration(t0, Some(60)), t0 + 60);
    assert_eq!(delegation_expiration(t0, Some(u64::MAX)), t0 + 1_800_000_000_000);
    assert_eq!(delegation_expiration(u64::MAX - 1, None), u64::MAX);
}

#[test]
fn seed_hashes_domain_anchor_frontend_and_salt() {
    let seed = calculate_seed(10_000, &"https://example.com".to_string(), &salt());
    let mut blob = vec![26u8];
    blob.extend_from_slice(b"ic-request-auth-delegation");
    blob.extend_from_slice(&10_000u64.to_be_bytes());
    blob.extend_from_slice(b"https://example.com");
    blob.extend_from_slice(&salt());
    assert_eq!(seed, sha256(&blob));
    assert_ne!(seed, calculate_seed(10_001, &"https://example.com".to_string(), &salt()));
}

#[test]
fn user_key_is_der_encoded() {
    let seed = vec![9u8; 32];
    let der = der_encode_canister_sig_key(&CANISTER_ID.to_vec(), &seed);
    let mut expected = vec![0x30, 17 + 43, 0x30, 0x0C, 0x06, 0x0A, 0x2B, 0x06, 0x01, 0x04, 0x01, 0x83, 0xB8, 0x43, 0x01, 0x02, 0x03, 44, 0x00, 10];
    expected.extend_from_slice(&CANISTER_ID);
    expected.extend_from_slice(&seed);
    assert_eq!(der, expected);
}

#[test]
fn message_hash_is_representation_independent() {
    let session_key = b"session key".to_vec();
    let expiration = 1_800_000_000_000u64;
    let p = [sha256(b"pubkey"), sha256(&session_key)].concat();
    // 1_800_000_000_000 in LEB128
    let mut n = expiration;
    let mut leb = vec![];
    loop {
        let byte = (n % 128) as u8;
        n /= 128;
        if n == 0 {
            leb.push(byte);
            break;
        }
        leb.push(byte | 0x80);
    }
    let e = [sha256(b"expiration"), sha256(&leb)].concat();
    let mut pairs = vec![p, e];
    pairs.sort();
    let map_hash = sha256(&pairs.concat());
    let mut msg = vec![26u8];
    msg.extend_from_slice(b"ic-request-auth-delegation");
    msg.extend_from_slice(&map_hash);
    assert_eq!(delegation_signature_msg_hash(&session_key, expiration), sha256(&msg));
}

#[test]
fn prepare_then_get_delegation() {
    let mut sigs = SignatureMap::new();
    let t0 = 1_000_000u64;
    let frontend = "https://example.com".to_string();
    let session_key = b"session pubkey".to_vec();
    let (user_key, expiration) = prepare_delegation(&mut sigs, &CANISTER_ID.to_vec(), 10_000, &frontend, &session_key, &salt(), t0, None);
    assert_eq!(expiration, t0 + 1_800_000_000_000);
    let seed = calculate_seed(10_000, &frontend, &salt());
    assert_eq!(user_key, der_encode_canister_sig_key(&CANISTER_ID.to_vec(), &seed));
    let d = get_delegation(&sigs, 10_000, &frontend, &session_key, expiration, &salt()).unwrap();
    assert_eq!(d.pubkey, session_key);
    assert_eq!(d.expiration, expiration);
    assert!(get_delegation(&sigs, 10_000, &frontend, &session_key, expiration + 1, &salt()).is_none());
    assert!(get_delegation(&sigs, 10_001, &frontend, &session_key, expiration, &salt()).is_none());
}

#[test]
fn preparing_twice_at_the_same_time_is_idempotent() {
    let mut sigs = SignatureMap::new();
    let frontend = "https://example.com".to_string();
    let session_key = b"session pubkey".to_vec();
    let first = prepare_delegation(&mut sigs, &CANISTER_ID.to_vec(), 10_000, &frontend, &session_key, &salt(), 7, None);
    let snapshot: Vec<_> = sigs.entries().iter().map(|e| (e.seed_hash.clone(), e.msg_hash.clone(), e.expires_at)).collect();
    let second = prepare_delegation(&mut sigs, &CANISTER_ID.to_vec(), 10_000, &frontend, &session_key, &salt(), 7, None);
    assert_eq!(first, second);
    let after: Vec<_> = sigs.entries().iter().map(|e| (e.seed_hash.clone(), e.msg_hash.clone(), e.expires_at)).collect();
    assert_eq!(snapshot, after);
    // another expiration gives an independent entry
    prepare_delegation(&mut sigs, &CANISTER_ID.to_vec(), 10_000, &frontend, &session_key, &salt(), 8, None);
    assert_eq!(sigs.len(), 2);
}

#[test]
fn principal_depends_on_anchor_frontend_and_salt() {
    let f = "https://example.com".to_string();
    let p = get_principal(&CANISTER_ID.to_vec(), 10_000, &f, &salt());
    assert_eq!(p, get_principal(&CANISTER_ID.to_vec(), 10_000, &f, &salt()));
    assert_eq!(p.len(), 29);
    assert_ne!(p, get_principal(&CANISTER_ID.to_vec(), 10_000, &"https://other.com".to_string(), &salt()));
    assert_ne!(p, get_principal(&CANISTER_ID.to_vec(), 10_001, &f, &salt()));
    assert_ne!(p, get_principal(&CANISTER_ID.to_vec(), 10_000, &f, &vec![1u8; 32]));
    let seed = calculate_seed(10_000, &f, &salt());
    let der = der_encode_canister_sig_key(&CANISTER_ID.to_vec(), &seed);
    assert_eq!(p, candid::Principal::self_authenticating(&der).as_slice().to_vec());
}

#[test]
fn signature_map_put_replaces_and_evicts() {
    let mut sigs = SignatureMap::new();
    assert_eq!(sigs.put(vec![1], vec![1], 50), None);
    assert_eq!(sigs.put(vec![1], vec![1], 60), Some(50));
    assert_eq!(sigs.len(), 1);
    for i in 0..999u32 {
        assert_eq!(sigs.put(i.to_be_bytes().to_vec(), vec![2], 100 + i as u64), None);
    }
    assert_eq!(sigs.len(), 1000);
    assert_eq!(sigs.put(vec![9, 9], vec![9], 5_000), None);
    assert_eq!(sigs.len(), 1000);
    // the entry with the smallest expiration (60) made room
    assert!(!sigs.contains(&vec![1], &vec![1]));
    assert!(sigs.contains(&vec![9, 9], &vec![9]));
}

#[test]
fn signature_map_prunes_at_most_ten() {
    let mut sigs = SignatureMap::new();
    for i in 0..15u8 {
        sigs.put(vec![i], vec![0], i as u64);
    }
    sigs.put(vec![200], vec![0], 1_000);
    assert_eq!(sigs.prune_expired(100), 10);
    assert_eq!(sigs.len(), 6);
    assert_eq!(sigs.prune_expired(100), 5);
    assert_eq!(sigs.len(), 1);
    assert_eq!(sigs.prune_expired(100), 0);
    assert_eq!(sigs.prune_expired(1_000), 1);
}

#[test]
fn delegation_origins_are_bounded_and_ordered_by_use() {
    let mut origins: Vec<DelegationOrigin> = vec![];
    record_delegation_origin(&mut origins, "a".to_string(), 1, 2);
    record_delegation_origin(&mut origins, "b".to_string(), 2, 2);
    record_delegation_origin(&mut origins, "a".to_string(), 3, 2);
    let view: Vec<_> = origins.iter().map(|o| (o.frontend.clone(), o.last_used)).collect();
    assert_eq!(view, vec![("b".to_string(), 2), ("a".to_string(), 3)]);
    record_delegation_origin(&mut origins, "c".to_string(), 4, 2);
    let view: Vec<_> = origins.iter().map(|o| (o.frontend.clone(), o.last_used)).collect();
    assert_eq!(view, vec![("a".to_string(), 3), ("c".to_string(), 4)]);
}
