use internet_identity::anchor::{Anchor, AnchorError};
use internet_identity::device::{Device, KeyType};
use internet_identity::fixtures::{
    device_data_1, device_data_2, max_size_device, principal, principal_1, principal_2,
    principal_recovery_1, principal_recovery_2, recovery_device_data_1, recovery_device_data_2,
};

fn candid_principal(key: &[u8]) -> Vec<u8> {
    candid::Principal::self_authenticating(key).as_slice().to_vec()
}

#[test]
fn sample_principals_are_self_authenticating() {
    assert_eq!(principal_1(), candid_principal(b"test"));
    assert_eq!(principal_2(), candid_principal(b"some other key"));
    assert_eq!(principal_recovery_1(), candid_principal(b"recovery 1"));
    assert_eq!(principal_recovery_2(), candid_principal(b"recovery 2"));
    assert_eq!(principal(&device_data_2()), principal_2());
    assert_eq!(principal_1().len(), 29);
    assert_eq!(principal_1()[28], 2);
}

#[test]
fn sample_devices() {
    let d = device_data_1();
    assert_eq!(d.pubkey, b"test".to_vec());
    assert_eq!(d.alias, "My Device");
    assert_eq!(d.origin.as_deref(), Some("https://identity.internetcomputer.org"));
    let m = Device::from(max_size_device());
    assert_eq!(m.variable_fields_len(), 614);
    assert_eq!(m.alias.len(), 64);
    assert_eq!(recovery_device_data_1().key_type, KeyType::SeedPhrase);
}

#[test]
fn two_sample_recovery_phrases_do_not_fit_one_anchor() {
    let mut anchor = Anchor::new();
    assert!(anchor.add_device(Device::from(device_data_1())).is_ok());
    assert!(anchor.add_device(Device::from(recovery_device_data_1())).is_ok());
    assert!(matches!(
        anchor.add_device(Device::from(recovery_device_data_2())),
        Err(AnchorError::MultipleRecoveryPhrases)
    ));
    assert!(anchor.add_device(Device::from(max_size_device())).is_ok());
}
