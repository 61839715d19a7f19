//! Sample devices and principals, as the canister's integration tests use them.

use vstd::prelude::*;
use vstd::string::*;
use crate::assets::slice_to_vec;
use crate::device::{DeviceData, DeviceProtection, KeyType, Purpose};
use crate::principal::{self_authenticating, self_authenticating_of};

verus! {

pub const PUBKEY_1: &'static str = "test";

pub const PUBKEY_2: &'static str = "some other key";

pub const RECOVERY_PUBKEY_1: &'static str = "recovery 1";

pub const RECOVERY_PUBKEY_2: &'static str = "recovery 2";

/// The principal of the first sample device.
pub fn principal_1() -> (r: Vec<u8>)
    ensures
        r@ == self_authenticating_of(PUBKEY_1.spec_bytes()),
{
    self_authenticating(&slice_to_vec(PUBKEY_1.as_bytes()))
}

/// The principal of the second sample device.
pub fn principal_2() -> (r: Vec<u8>)
    ensures
        r@ == self_authenticating_of(PUBKEY_2.spec_bytes()),
{
    self_authenticating(&slice_to_vec(PUBKEY_2.as_bytes()))
}

/// The principal of the first sample recovery phrase.
pub fn principal_recovery_1() -> (r: Vec<u8>)
    ensures
        r@ == self_authenticating_of(RECOVERY_PUBKEY_1.spec_bytes()),
{
    self_authenticating(&slice_to_vec(RECOVERY_PUBKEY_1.as_bytes()))
}

/// The principal of the second sample recovery phrase.
pub fn principal_recovery_2() -> (r: Vec<u8>)
    ensures
        r@ == self_authenticating_of(RECOVERY_PUBKEY_2.spec_bytes()),
{
    self_authenticating(&slice_to_vec(RECOVERY_PUBKEY_2.as_bytes()))
}

/// The principal of a device.
pub fn principal(device: &DeviceData) -> (r: Vec<u8>)
    ensures
        r@ == self_authenticating_of(device.pubkey@),
{
    self_authenticating(&device.pubkey)
}

/// An authentication device with the given key, alias, credential id and origin.
fn authentication_device(pubkey: &str, alias: &str, credential_id: &str, origin: &str) -> (r: DeviceData)
    ensures
        r.pubkey@ == pubkey.spec_bytes(),
        r.alias@ == alias@,
        r.credential_id matches Some(c) && c@ == credential_id.spec_bytes(),
        r.purpose == Purpose::Authentication,
        r.key_type == KeyType::Unknown,
        r.protection == DeviceProtection::Unprotected,
        r.origin matches Some(o) && o@ == origin@,
{
    DeviceData {
        pubkey: slice_to_vec(pubkey.as_bytes()),
        alias: String::from_str(alias),
        credential_id: Some(slice_to_vec(credential_id.as_bytes())),
        purpose: Purpose::Authentication,
        key_type: KeyType::Unknown,
        protection: DeviceProtection::Unprotected,
        origin: Some(String::from_str(origin)),
    }
}

/// A recovery phrase with the given key and alias.
fn recovery_phrase(pubkey: &str, alias: &str) -> (r: DeviceData)
    ensures
        r.pubkey@ == pubkey.spec_bytes(),
        r.alias@ == alias@,
        r.credential_id is None,
        r.purpose == Purpose::Recovery,
        r.key_type == KeyType::SeedPhrase,
        r.protection == DeviceProtection::Unprotected,
        r.origin is None,
{
    DeviceData {
        pubkey: slice_to_vec(pubkey.as_bytes()),
        alias: String::from_str(alias),
        credential_id: None,
        purpose: Purpose::Recovery,
        key_type: KeyType::SeedPhrase,
        protection: DeviceProtection::Unprotected,
        origin: None,
    }
}

/// The first sample device, registered from identity.internetcomputer.org.
pub fn device_data_1() -> (r: DeviceData)
    ensures
        r.pubkey@ == PUBKEY_1.spec_bytes(),
        r.alias@ == "My Device"@,
        r.credential_id matches Some(c) && c@ == "credential id 1".spec_bytes(),
        r.purpose == Purpose::Authentication,
        r.key_type == KeyType::Unknown,
        r.protection == DeviceProtection::Unprotected,
        r.origin matches Some(o) && o@ == "https://identity.internetcomputer.org"@,
{
    authentication_device(PUBKEY_1, "My Device", "credential id 1", "https://identity.internetcomputer.org")
}

/// The second sample device, registered from identity.ic0.app.
pub fn device_data_2() -> (r: DeviceData)
    ensures
        r.pubkey@ == PUBKEY_2.spec_bytes(),
        r.alias@ == "My second device"@,
        r.credential_id matches Some(c) && c@ == "credential id 2".spec_bytes(),
        r.purpose == Purpose::Authentication,
        r.key_type == KeyType::Unknown,
        r.protection == DeviceProtection::Unprotected,
        r.origin matches Some(o) && o@ == "https://identity.ic0.app"@,
{
    authentication_device(PUBKEY_2, "My second device", "credential id 2", "https://identity.ic0.app")
}

/// The first sample recovery phrase.
pub fn recovery_device_data_1() -> (r: DeviceData)
    ensures
        r.pubkey@ == RECOVERY_PUBKEY_1.spec_bytes(),
        r.alias@ == "Recovery Phrase 1"@,
        r.credential_id is None,
        r.purpose == Purpose::Recovery,
        r.key_type == KeyType::SeedPhrase,
        r.protection == DeviceProtection::Unprotected,
        r.origin is None,
{
    recovery_phrase(RECOVERY_PUBKEY_1, "Recovery Phrase 1")
}

/// The second sample recovery phrase.
pub fn recovery_device_data_2() -> (r: DeviceData)
    ensures
        r.pubkey@ == RECOVERY_PUBKEY_2.spec_bytes(),
        r.alias@ == "Recovery Phrase 2"@,
        r.credential_id is None,
        r.purpose == Purpose::Recovery,
        r.key_type == KeyType::SeedPhrase,
        r.protection == DeviceProtection::Unprotected,
        r.origin is None,
{
    recovery_phrase(RECOVERY_PUBKEY_2, "Recovery Phrase 2")
}

/// A string of `n` copies of the letter `a`.
fn repeat_a(n: usize) -> (r: String)
    ensures
        r@ == Seq::new(n as nat, |i: int| 'a'),
{
    proof {
        reveal_strlit("a");
    }
    let mut r = String::new();
    let mut i: usize = 0;
    while i < n
        invariant
            0 <= i <= n,
            r@ == Seq::new(i as nat, |j: int| 'a'),
            "a"@ == seq!['a'],
        decreases n - i,
    {
        r.append("a");
        i = i + 1;
        assert(r@ =~= Seq::new(i as nat, |j: int| 'a'));
    }
    r
}

/// A device whose variable-length fields are all as long as the limits allow.
pub fn max_size_device() -> (r: DeviceData)
    ensures
        r.pubkey@ == Seq::new(300, |i: int| 255u8),
        r.alias@ == Seq::new(64, |i: int| 'a'),
        r.credential_id matches Some(c) && c@ == Seq::new(200, |i: int| 7u8),
        r.purpose == Purpose::Authentication,
        r.key_type == KeyType::Unknown,
        r.protection == DeviceProtection::Unprotected,
        r.origin matches Some(o) && o@ == "https://rdmx6-jaaaa-aaaaa-aaadq-cai.foobar.icp0.io"@,
{
    let pubkey = vec![255u8; 300];
    let credential_id = vec![7u8; 200];
    assert(pubkey@ =~= Seq::new(300, |i: int| 255u8));
    assert(credential_id@ =~= Seq::new(200, |i: int| 7u8));
    DeviceData {
        pubkey,
        alias: repeat_a(64),
        credential_id: Some(credential_id),
        purpose: Purpose::Authentication,
        key_type: KeyType::Unknown,
        protection: DeviceProtection::Unprotected,
        origin: Some(String::from_str("https://rdmx6-jaaaa-aaaaa-aaadq-cai.foobar.icp0.io")),
    }
}

} // verus!
