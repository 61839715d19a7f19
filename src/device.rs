//! Devices: the authentication credentials attached to an anchor.

use vstd::prelude::*;
use vstd::string::*;

verus! {

pub type DeviceKey = Vec<u8>;

pub type CredentialId = Vec<u8>;

pub type Timestamp = u64;

pub type AnchorNumber = u64;

/// Origin of the identity frontend served from the ic0.app domain.
pub const IC0_APP_ORIGIN: &'static str = "https://identity.ic0.app";

/// Origin of the identity frontend served from the internetcomputer.org domain.
pub const INTERNETCOMPUTER_ORG_ORIGIN: &'static str = "https://identity.internetcomputer.org";

#[derive(Clone, Copy, Debug, PartialEq, Eq, Structural)]
pub enum Purpose {
    Recovery,
    Authentication,
}

#[derive(Clone, Copy, Debug, PartialEq, Eq, Structural)]
pub enum KeyType {
    Unknown,
    Platform,
    CrossPlatform,
    SeedPhrase,
    BrowserStorageKey,
}

#[derive(Clone, Copy, Debug, PartialEq, Eq, Structural)]
pub enum DeviceProtection {
    Protected,
    Unprotected,
}

/// The two domains the identity frontend is served from.
#[derive(Clone, Copy, Debug, PartialEq, Eq, Structural)]
pub enum IIDomain {
    Ic0AppDomain,
    InternetComputerOrgDomain,
}

/// Device data as supplied by a client.
#[derive(Clone, Debug)]
pub struct DeviceData {
    pub pubkey: DeviceKey,
    pub alias: String,
    pub credential_id: Option<CredentialId>,
    pub purpose: Purpose,
    pub key_type: KeyType,
    pub protection: DeviceProtection,
    pub origin: Option<String>,
}

/// Device data together with the time the device was last used.
#[derive(Clone, Debug)]
pub struct DeviceWithUsage {
    pub pubkey: DeviceKey,
    pub alias: String,
    pub credential_id: Option<CredentialId>,
    pub purpose: Purpose,
    pub key_type: KeyType,
    pub protection: DeviceProtection,
    pub origin: Option<String>,
    pub last_usage: Option<Timestamp>,
}

/// Device data without the alias, as recorded in the operation log.
#[derive(Clone, Debug)]
pub struct DeviceDataWithoutAlias {
    pub pubkey: DeviceKey,
    pub credential_id: Option<CredentialId>,
    pub purpose: Purpose,
    pub key_type: KeyType,
    pub protection: DeviceProtection,
    pub origin: Option<String>,
}

/// A device as stored in an anchor.
#[derive(Clone, Debug)]
pub struct Device {
    pub pubkey: DeviceKey,
    pub alias: String,
    pub credential_id: Option<CredentialId>,
    pub purpose: Purpose,
    pub key_type: KeyType,
    pub protection: DeviceProtection,
    pub origin: Option<String>,
    pub last_usage_timestamp: Option<Timestamp>,
}

/// Length in bytes of the UTF-8 encoding of a string, as `str::len` reports it.
pub open spec fn utf8_len(s: Seq<char>) -> nat {
    (vstd::utf8::encode_utf8(s).len() as usize) as nat
}

/// Length of an optional byte string; absent counts as empty.
pub open spec fn opt_bytes_len(b: Option<Vec<u8>>) -> nat {
    match b {
        Some(v) => v@.len(),
        None => 0,
    }
}

/// Length in bytes of an optional string; absent counts as empty.
pub open spec fn opt_str_len(s: Option<String>) -> nat {
    match s {
        Some(v) => utf8_len(v@),
        None => 0,
    }
}

/// The domain an origin belongs to, if it is one of the two identity frontend origins.
pub open spec fn origin_domain(origin: Seq<char>) -> Option<IIDomain> {
    if origin == IC0_APP_ORIGIN@ {
        Some(IIDomain::Ic0AppDomain)
    } else if origin == INTERNETCOMPUTER_ORG_ORIGIN@ {
        Some(IIDomain::InternetComputerOrgDomain)
    } else {
        None
    }
}

/// The two identity frontend origins differ.
pub proof fn lemma_ii_origins_differ()
    ensures
        IC0_APP_ORIGIN@ != INTERNETCOMPUTER_ORG_ORIGIN@,
{
    reveal_strlit("https://identity.ic0.app");
    reveal_strlit("https://identity.internetcomputer.org");
    assert(IC0_APP_ORIGIN@.len() != INTERNETCOMPUTER_ORG_ORIGIN@.len());
}

/// Byte length of an optional byte string.
fn opt_bytes_length(b: &Option<Vec<u8>>) -> (r: usize)
    ensures
        r == opt_bytes_len(*b),
{
    match b {
        Some(v) => v.len(),
        None => 0,
    }
}

/// Byte length of an optional string.
fn opt_str_length(s: &Option<String>) -> (r: usize)
    ensures
        r == opt_str_len(*s),
{
    match s {
        Some(v) => v.as_str().len(),
        None => 0,
    }
}

impl IIDomain {
    /// The domain of an origin, if it is one of the two identity frontend origins.
    pub fn from_origin(origin: &String) -> (r: Option<IIDomain>)
        ensures
            r == origin_domain(origin@),
    {
        let ic0 = String::from_str(IC0_APP_ORIGIN);
        let org = String::from_str(INTERNETCOMPUTER_ORG_ORIGIN);
        if *origin == ic0 {
            Some(IIDomain::Ic0AppDomain)
        } else if *origin == org {
            Some(IIDomain::InternetComputerOrgDomain)
        } else {
            None
        }
    }
}

impl Device {
    /// Sum of the lengths of the variable-length fields, in bytes.
    pub open spec fn spec_variable_fields_len(&self) -> nat {
        utf8_len(self.alias@) + self.pubkey@.len() + opt_bytes_len(self.credential_id)
            + opt_str_len(self.origin)
    }

    /// Whether this device is protected against mutation by other devices.
    pub open spec fn is_protected(&self) -> bool {
        self.protection == DeviceProtection::Protected
    }

    /// Whether this device is a recovery seed phrase.
    pub open spec fn is_seed_phrase(&self) -> bool {
        self.key_type == KeyType::SeedPhrase
    }

    /// Sum of the lengths of the variable-length fields (alias, public key, credential id
    /// and origin), in bytes; it saturates at `usize::MAX`.
    pub fn variable_fields_len(&self) -> (r: usize)
        ensures
            r as int == if self.spec_variable_fields_len() <= usize::MAX {
                self.spec_variable_fields_len() as int
            } else {
                usize::MAX as int
            },
    {
        let a = self.alias.as_str().len();
        let p = self.pubkey.len();
        let c = opt_bytes_length(&self.credential_id);
        let o = opt_str_length(&self.origin);
        a.saturating_add(p).saturating_add(c).saturating_add(o)
    }

    /// The identity frontend domain this device was registered from, if any.
    pub fn ii_domain(&self) -> (r: Option<IIDomain>)
        ensures
            r == match self.origin {
                Some(o) => origin_domain(o@),
                None => None,
            },
    {
        match &self.origin {
            Some(o) => IIDomain::from_origin(o),
            None => None,
        }
    }

    /// Replaces the client-supplied fields with those of `device_data`, keeping the
    /// last usage timestamp.
    pub fn apply_device_data(&mut self, device_data: DeviceData)
        ensures
            final(self).pubkey == device_data.pubkey,
            final(self).alias == device_data.alias,
            final(self).credential_id == device_data.credential_id,
            final(self).purpose == device_data.purpose,
            final(self).key_type == device_data.key_type,
            final(self).protection == device_data.protection,
            final(self).origin == device_data.origin,
            final(self).last_usage_timestamp == old(self).last_usage_timestamp,
    {
        self.pubkey = device_data.pubkey;
        self.alias = device_data.alias;
        self.credential_id = device_data.credential_id;
        self.purpose = device_data.purpose;
        self.key_type = device_data.key_type;
        self.protection = device_data.protection;
        self.origin = device_data.origin;
    }
}

/// The stored device for client-supplied device data: never used yet.
pub open spec fn device_from_data(d: DeviceData) -> Device {
    Device {
        pubkey: d.pubkey,
        alias: d.alias,
        credential_id: d.credential_id,
        purpose: d.purpose,
        key_type: d.key_type,
        protection: d.protection,
        origin: d.origin,
        last_usage_timestamp: None,
    }
}

impl From<DeviceData> for Device {
    fn from(d: DeviceData) -> (r: Device)
    {
        Device {
            pubkey: d.pubkey,
            alias: d.alias,
            credential_id: d.credential_id,
            purpose: d.purpose,
            key_type: d.key_type,
            protection: d.protection,
            origin: d.origin,
            last_usage_timestamp: None,
        }
    }
}

impl vstd::std_specs::convert::FromSpecImpl<DeviceData> for Device {
    open spec fn obeys_from_spec() -> bool {
        true
    }

    open spec fn from_spec(d: DeviceData) -> Device {
        device_from_data(d)
    }
}

impl From<Device> for DeviceData {
    fn from(d: Device) -> (r: DeviceData)
    {
        DeviceData {
            pubkey: d.pubkey,
            alias: d.alias,
            credential_id: d.credential_id,
            purpose: d.purpose,
            key_type: d.key_type,
            protection: d.protection,
            origin: d.origin,
        }
    }
}

impl vstd::std_specs::convert::FromSpecImpl<Device> for DeviceData {
    open spec fn obeys_from_spec() -> bool {
        true
    }

    open spec fn from_spec(d: Device) -> DeviceData {
        DeviceData {
            pubkey: d.pubkey,
            alias: d.alias,
            credential_id: d.credential_id,
            purpose: d.purpose,
            key_type: d.key_type,
            protection: d.protection,
            origin: d.origin,
        }
    }
}

impl From<Device> for DeviceWithUsage {
    fn from(d: Device) -> (r: DeviceWithUsage)
    {
        DeviceWithUsage {
            pubkey: d.pubkey,
            alias: d.alias,
            credential_id: d.credential_id,
            purpose: d.purpose,
            key_type: d.key_type,
            protection: d.protection,
            origin: d.origin,
            last_usage: d.last_usage_timestamp,
        }
    }
}

impl vstd::std_specs::convert::FromSpecImpl<Device> for DeviceWithUsage {
    open spec fn obeys_from_spec() -> bool {
        true
    }

    open spec fn from_spec(d: Device) -> DeviceWithUsage {
        DeviceWithUsage {
            pubkey: d.pubkey,
            alias: d.alias,
            credential_id: d.credential_id,
            purpose: d.purpose,
            key_type: d.key_type,
            protection: d.protection,
            origin: d.origin,
            last_usage: d.last_usage_timestamp,
        }
    }
}

impl From<Device> for DeviceDataWithoutAlias {
    fn from(d: Device) -> (r: DeviceDataWithoutAlias)
    {
        DeviceDataWithoutAlias {
            pubkey: d.pubkey,
            credential_id: d.credential_id,
            purpose: d.purpose,
            key_type: d.key_type,
            protection: d.protection,
            origin: d.origin,
        }
    }
}

impl vstd::std_specs::convert::FromSpecImpl<Device> for DeviceDataWithoutAlias {
    open spec fn obeys_from_spec() -> bool {
        true
    }

    open spec fn from_spec(d: Device) -> DeviceDataWithoutAlias {
        DeviceDataWithoutAlias {
            pubkey: d.pubkey,
            credential_id: d.credential_id,
            purpose: d.purpose,
            key_type: d.key_type,
            protection: d.protection,
            origin: d.origin,
        }
    }
}

} // verus!
