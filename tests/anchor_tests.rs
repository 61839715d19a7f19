use internet_identity::anchor::{Anchor, AnchorError, DomainActivity};
use internet_identity::device::{
    Device, DeviceData, DeviceProtection, IIDomain, KeyType, Purpose, IC0_APP_ORIGIN,
    INTERNETCOMPUTER_ORG_ORIGIN,
};

fn device(pubkey: &[u8], alias: &str, key_type: KeyType, protection: DeviceProtection) -> Device {
    Device {
        pubkey: pubkey.to_vec(),
        alias: alias.to_string(),
        credential_id: Some(b"credential id 1".to_vec()),
        purpose: Purpose::Authentication,
        key_type,
        protection,
        origin: Some("https://identity.internetcomputer.org".to_string()),
        last_usage_timestamp: None,
    }
}

fn device_data_1() -> Device {
    device(b"test", "My Device", KeyType::Unknown, DeviceProtection::Unprotected)
}

fn recovery_phrase(pubkey: &[u8]) -> Device {
    Device {
        pubkey: pubkey.to_vec(),
        alias: "Recovery Phrase".to_string(),
        credential_id: None,
        purpose: Purpose::Recovery,
        key_type: KeyType::SeedPhrase,
        protection: DeviceProtection::Unprotected,
        origin: None,
        last_usage_timestamp: None,
    }
}

fn max_size_device(tag: u8) -> Device {
    Device {
        pubkey: vec![tag; 300],
        alias: "a".repeat(64),
        credential_id: Some(vec![7u8; 200]),
        purpose: Purpose::Authentication,
        key_type: KeyType::Unknown,
        protection: DeviceProtection::Unprotected,
        origin: Some("https://rdmx6-jaaaa-aaaaa-aaadq-cai.foobar.icp0.io".to_string()),
        last_usage_timestamp: None,
    }
}

fn used_device(pubkey: &[u8], origin: Option<&str>, last_used: Option<u64>) -> Device {
    let mut d = device(pubkey, "d", KeyType::Unknown, DeviceProtection::Unprotected);
    d.origin = origin.map(|o| o.to_string());
    d.last_usage_timestamp = last_used;
    d
}

fn seed_phrases(anchor: &Anchor) -> usize {
    anchor.devices().iter().filter(|d| d.key_type == KeyType::SeedPhrase).count()
}

#[test]
fn add_device_appends() {
    let mut anchor = Anchor::new();
    assert!(anchor.add_device(device_data_1()).is_ok());
    assert_eq!(anchor.devices().len(), 1);
    assert_eq!(anchor.devices()[0].pubkey, b"test".to_vec());
    assert_eq!(anchor.devices()[0].alias, "My Device");
}

#[test]
fn variable_fields_len_sums_the_four_fields() {
    // 4 + 9 + 15 + 37 bytes
    assert_eq!(device_data_1().variable_fields_len(), 65);
    assert_eq!(max_size_device(1).variable_fields_len(), 614);
    let mut d = recovery_phrase(b"r");
    d.alias = "é".to_string();
    assert_eq!(d.variable_fields_len(), 3);
}

#[test]
fn eleventh_device_fails_too_many_devices() {
    let mut anchor = Anchor::new();
    for i in 0..10u8 {
        let d = device(&[i], "x", KeyType::Unknown, DeviceProtection::Unprotected);
        assert!(anchor.add_device(d).is_ok());
    }
    let r = anchor.add_device(device(&[10], "x", KeyType::Unknown, DeviceProtection::Unprotected));
    assert!(matches!(r, Err(AnchorError::TooManyDevices { limit: 10, num_devices: 11 })));
    assert_eq!(anchor.devices().len(), 10);
}

#[test]
fn second_seed_phrase_fails_multiple_recovery_phrases() {
    let mut anchor = Anchor::new();
    assert!(anchor.add_device(recovery_phrase(b"recovery 1")).is_ok());
    let r = anchor.add_device(recovery_phrase(b"recovery 2"));
    assert!(matches!(r, Err(AnchorError::MultipleRecoveryPhrases)));
    assert_eq!(seed_phrases(&anchor), 1);
}

#[test]
fn protected_platform_device_fails_invalid_device_protection() {
    let mut anchor = Anchor::new();
    let d = device(b"test", "x", KeyType::Platform, DeviceProtection::Protected);
    let r = anchor.add_device(d);
    assert!(matches!(r, Err(AnchorError::InvalidDeviceProtection { key_type: KeyType::Platform })));
    assert!(anchor.devices().is_empty());
}

#[test]
fn protected_seed_phrase_is_accepted() {
    let mut anchor = Anchor::new();
    let mut d = recovery_phrase(b"recovery 1");
    d.protection = DeviceProtection::Protected;
    assert!(anchor.add_device(d).is_ok());
}

#[test]
fn remove_from_anchor_with_two_recovery_phrases_leaves_one() {
    let mut anchor = Anchor::from_devices(vec![
        recovery_phrase(b"recovery 1"),
        device_data_1(),
        recovery_phrase(b"recovery 2"),
    ]);
    assert_eq!(seed_phrases(&anchor), 2);
    assert!(anchor.remove_device(&b"recovery 1".to_vec(), &vec![1, 2, 3]).is_ok());
    assert_eq!(seed_phrases(&anchor), 1);
    assert_eq!(anchor.devices().len(), 2);
    assert_eq!(anchor.devices()[1].pubkey, b"recovery 2".to_vec());
}

#[test]
fn duplicate_device_is_refused() {
    let mut anchor = Anchor::new();
    assert!(anchor.add_device(device_data_1()).is_ok());
    match anchor.add_device(device_data_1()) {
        Err(AnchorError::DuplicateDevice { device_key }) => assert_eq!(device_key, b"test".to_vec()),
        other => panic!("unexpected {other:?}"),
    }
    assert_eq!(anchor.devices().len(), 1);
}

fn expect_limit(d: Device, field: &str, length: usize, limit: usize) {
    let mut anchor = Anchor::new();
    match anchor.add_device(d) {
        Err(AnchorError::DeviceLimitExceeded { field: f, length: l, limit: m }) => {
            assert_eq!(f, field);
            assert_eq!(l, length);
            assert_eq!(m, limit);
        }
        other => panic!("unexpected {other:?}"),
    }
}

#[test]
fn field_limits_are_enforced() {
    let mut d = device_data_1();
    d.alias = "a".repeat(65);
    expect_limit(d, "alias", 65, 64);
    let mut d = device_data_1();
    d.pubkey = vec![1; 301];
    expect_limit(d, "pubkey", 301, 300);
    let mut d = device_data_1();
    d.credential_id = Some(vec![1; 201]);
    expect_limit(d, "credential_id", 201, 200);
    let mut d = device_data_1();
    d.origin = Some("o".repeat(51));
    expect_limit(d, "origin", 51, 50);
}

#[test]
fn max_size_device_is_accepted() {
    let mut anchor = Anchor::new();
    assert!(anchor.add_device(max_size_device(1)).is_ok());
}

#[test]
fn cumulative_size_limit_is_enforced() {
    let mut anchor = Anchor::new();
    for i in 0..3u8 {
        assert!(anchor.add_device(max_size_device(i)).is_ok());
    }
    let r = anchor.add_device(max_size_device(3));
    assert!(matches!(
        r,
        Err(AnchorError::CumulativeDataLimitExceeded { length: 2456, limit: 2348 })
    ));
    assert_eq!(anchor.devices().len(), 3);
}

#[test]
fn remove_missing_device_fails_not_found() {
    let mut anchor = Anchor::new();
    assert!(anchor.add_device(device_data_1()).is_ok());
    match anchor.remove_device(&b"other".to_vec(), &vec![]) {
        Err(AnchorError::NotFound { device_key }) => assert_eq!(device_key, b"other".to_vec()),
        other => panic!("unexpected {other:?}"),
    }
}

#[test]
fn protected_device_can_only_be_removed_by_itself() {
    let mut anchor = Anchor::new();
    let mut d = recovery_phrase(b"recovery 1");
    d.protection = DeviceProtection::Protected;
    assert!(anchor.add_device(d).is_ok());
    let own = candid::Principal::self_authenticating(b"recovery 1").as_slice().to_vec();
    let other = candid::Principal::self_authenticating(b"test").as_slice().to_vec();
    match anchor.remove_device(&b"recovery 1".to_vec(), &other) {
        Err(AnchorError::MutationNotAllowed { authorized_principal, actual_principal }) => {
            assert_eq!(authorized_principal, own);
            assert_eq!(actual_principal, other);
        }
        r => panic!("unexpected {r:?}"),
    }
    assert_eq!(anchor.devices().len(), 1);
    assert!(anchor.remove_device(&b"recovery 1".to_vec(), &own).is_ok());
    assert!(anchor.devices().is_empty());
}

#[test]
fn modify_device_key_cannot_change() {
    let mut anchor = Anchor::new();
    assert!(anchor.add_device(device_data_1()).is_ok());
    let r = anchor.modify_device(&b"test".to_vec(), device(b"new", "x", KeyType::Unknown, DeviceProtection::Unprotected), &vec![]);
    assert!(matches!(r, Err(AnchorError::CannotModifyDeviceKey)));
}

#[test]
fn modify_device_replaces_in_place() {
    let mut anchor = Anchor::new();
    assert!(anchor.add_device(device_data_1()).is_ok());
    assert!(anchor.add_device(recovery_phrase(b"recovery 1")).is_ok());
    let mut d = device_data_1();
    d.alias = "Renamed".to_string();
    assert!(anchor.modify_device(&b"test".to_vec(), d, &vec![]).is_ok());
    assert_eq!(anchor.devices()[0].alias, "Renamed");
    assert_eq!(anchor.devices().len(), 2);
}

#[test]
fn modify_device_rechecks_anchor_invariants() {
    let mut anchor = Anchor::new();
    assert!(anchor.add_device(device_data_1()).is_ok());
    assert!(anchor.add_device(recovery_phrase(b"recovery 1")).is_ok());
    let mut d = device_data_1();
    d.key_type = KeyType::SeedPhrase;
    let r = anchor.modify_device(&b"test".to_vec(), d, &vec![]);
    assert!(matches!(r, Err(AnchorError::MultipleRecoveryPhrases)));
    assert_eq!(anchor.devices()[0].key_type, KeyType::Unknown);
}

#[test]
fn modify_missing_device_fails_not_found() {
    let mut anchor = Anchor::new();
    let r = anchor.modify_device(&b"test".to_vec(), device_data_1(), &vec![]);
    assert!(matches!(r, Err(AnchorError::NotFound { .. })));
}

#[test]
fn usage_timestamp_and_last_activity() {
    let mut anchor = Anchor::new();
    assert_eq!(anchor.last_activity(), None);
    assert!(anchor.add_device(device_data_1()).is_ok());
    assert!(anchor.add_device(recovery_phrase(b"recovery 1")).is_ok());
    assert_eq!(anchor.last_activity(), None);
    assert!(anchor.set_device_usage_timestamp(&b"recovery 1".to_vec(), 500).is_ok());
    assert!(anchor.set_device_usage_timestamp(&b"test".to_vec(), 200).is_ok());
    assert_eq!(anchor.last_activity(), Some(500));
    assert_eq!(anchor.device(&b"test".to_vec()).unwrap().last_usage_timestamp, Some(200));
    assert!(matches!(
        anchor.set_device_usage_timestamp(&b"nope".to_vec(), 1),
        Err(AnchorError::NotFound { .. })
    ));
}

#[test]
fn device_lookup() {
    let mut anchor = Anchor::new();
    assert!(anchor.add_device(device_data_1()).is_ok());
    assert!(anchor.device(&b"test".to_vec()).is_some());
    assert!(anchor.device(&b"missing".to_vec()).is_none());
    assert_eq!(anchor.into_devices().len(), 1);
}

#[test]
fn domain_activity_cases() {
    let a = Anchor::from_devices(vec![]);
    assert_eq!(a.domain_activity_since(0), DomainActivity::NoActivity);
    let a = Anchor::from_devices(vec![used_device(b"1", None, Some(10))]);
    assert_eq!(a.domain_activity_since(5), DomainActivity::NonIIDomain);
    assert_eq!(a.domain_activity_since(11), DomainActivity::NoActivity);
    let a = Anchor::from_devices(vec![
        used_device(b"1", Some(IC0_APP_ORIGIN), Some(10)),
        used_device(b"2", Some("https://example.com"), Some(10)),
    ]);
    assert_eq!(a.domain_activity_since(10), DomainActivity::Ic0App);
    let a = Anchor::from_devices(vec![
        used_device(b"1", Some(INTERNETCOMPUTER_ORG_ORIGIN), Some(10)),
        used_device(b"2", None, Some(10)),
    ]);
    assert_eq!(a.domain_activity_since(1), DomainActivity::InternetComputerOrg);
    let a = Anchor::from_devices(vec![
        used_device(b"1", Some(INTERNETCOMPUTER_ORG_ORIGIN), Some(10)),
        used_device(b"2", Some(IC0_APP_ORIGIN), Some(20)),
        used_device(b"3", Some(IC0_APP_ORIGIN), None),
    ]);
    assert_eq!(a.domain_activity_since(1), DomainActivity::BothIIDomains);
    assert_eq!(a.domain_activity_since(15), DomainActivity::Ic0App);
}

#[test]
fn ii_domain_of_devices() {
    assert_eq!(used_device(b"1", Some(IC0_APP_ORIGIN), None).ii_domain(), Some(IIDomain::Ic0AppDomain));
    assert_eq!(
        used_device(b"1", Some(INTERNETCOMPUTER_ORG_ORIGIN), None).ii_domain(),
        Some(IIDomain::InternetComputerOrgDomain)
    );
    assert_eq!(used_device(b"1", Some("https://example.org"), None).ii_domain(), None);
    assert_eq!(used_device(b"1", None, None).ii_domain(), None);
}

#[test]
fn invariants_hold_after_a_sequence_of_operations() {
    let mut anchor = Anchor::new();
    let mut results = vec![];
    for i in 0..12u8 {
        results.push(anchor.add_device(device(&[i], "x", KeyType::Unknown, DeviceProtection::Unprotected)).is_ok());
        results.push(anchor.add_device(recovery_phrase(&[100 + i])).is_ok());
    }
    assert!(results.iter().filter(|ok| **ok).count() <= 10);
    let devices = anchor.devices();
    assert!(devices.len() <= 10);
    assert!(devices.iter().map(|d| d.variable_fields_len()).sum::<usize>() <= 2348);
    assert!(seed_phrases(&anchor) <= 1);
    for (i, a) in devices.iter().enumerate() {
        for b in devices.iter().skip(i + 1) {
            assert_ne!(a.pubkey, b.pubkey);
        }
        if a.protection == DeviceProtection::Protected {
            assert_eq!(a.key_type, KeyType::SeedPhrase);
        }
    }
}

#[test]
fn device_conversions_keep_fields() {
    let data = DeviceData {
        pubkey: b"k".to_vec(),
        alias: "a".to_string(),
        credential_id: None,
        purpose: Purpose::Recovery,
        key_type: KeyType::CrossPlatform,
        protection: DeviceProtection::Unprotected,
        origin: Some("o".to_string()),
    };
    let mut d = Device::from(data);
    assert_eq!(d.last_usage_timestamp, None);
    d.last_usage_timestamp = Some(9);
    let back = DeviceData::from(d.clone());
    assert_eq!(back.key_type, KeyType::CrossPlatform);
    let with_usage = internet_identity::device::DeviceWithUsage::from(d.clone());
    assert_eq!(with_usage.last_usage, Some(9));
    let without_alias = internet_identity::device::DeviceDataWithoutAlias::from(d.clone());
    assert_eq!(without_alias.pubkey, b"k".to_vec());
    let mut e = d.clone();
    e.apply_device_data(DeviceData {
        pubkey: b"k2".to_vec(),
        alias: "b".to_string(),
        credential_id: Some(vec![1]),
        purpose: Purpose::Authentication,
        key_type: KeyType::Platform,
        protection: DeviceProtection::Unprotected,
        origin: None,
    });
    assert_eq!(e.alias, "b");
    assert_eq!(e.last_usage_timestamp, Some(9));
}
