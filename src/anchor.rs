//! The anchor: an identity's ordered list of devices, with the invariants that every
//! adding or modifying mutation checks.

use vstd::prelude::*;
use vstd::string::*;
use crate::device::{
    Device, DeviceKey, DeviceProtection, KeyType, Timestamp, IC0_APP_ORIGIN,
    INTERNETCOMPUTER_ORG_ORIGIN, utf8_len, lemma_ii_origins_differ, opt_bytes_len, opt_str_len,
};
use crate::principal::{bytes_equal, self_authenticating, self_authenticating_of};

verus! {

/// Most devices an anchor may hold.
pub const MAX_DEVICES_PER_ANCHOR: usize = 10;

/// Largest sum of the variable-length fields over all devices of an anchor, in bytes.
pub const VARIABLE_FIELDS_LIMIT: usize = 2348;

/// Longest origin of a device, in bytes.
pub const ORIGIN_LEN_LIMIT: usize = 50;

/// Longest alias of a device, in bytes.
pub const ALIAS_LEN_LIMIT: usize = 64;

/// Longest public key of a device, in bytes.
pub const PK_LEN_LIMIT: usize = 300;

/// Longest credential id of a device, in bytes.
pub const CREDENTIAL_ID_LEN_LIMIT: usize = 200;

/// Why a mutation of an anchor was refused.
#[derive(Debug)]
pub enum AnchorError {
    TooManyDevices { limit: usize, num_devices: usize },
    DeviceLimitExceeded { field: String, length: usize, limit: usize },
    CumulativeDataLimitExceeded { length: usize, limit: usize },
    InvalidDeviceProtection { key_type: KeyType },
    MutationNotAllowed { authorized_principal: Vec<u8>, actual_principal: Vec<u8> },
    MultipleRecoveryPhrases,
    CannotModifyDeviceKey,
    NotFound { device_key: DeviceKey },
    DuplicateDevice { device_key: DeviceKey },
}

/// Which domains an anchor was active on, over some period.
#[derive(Clone, Copy, Debug, PartialEq, Eq, Structural)]
pub enum DomainActivity {
    /// no activity at all
    NoActivity,
    /// only active on domains other than the two identity frontend domains
    NonIIDomain,
    /// only active on the identity.ic0.app domain
    Ic0App,
    /// only active on the identity.internetcomputer.org domain
    InternetComputerOrg,
    /// active on both identity.ic0.app and identity.internetcomputer.org
    BothIIDomains,
}

/// An identity anchor: its devices, in the order they were added.
#[derive(Debug)]
pub struct Anchor {
    devices: Vec<Device>,
}

// ----- the model -----

/// Sum of the variable-length fields over a list of devices.
pub open spec fn total_variable_len(ds: Seq<Device>) -> nat
    decreases ds.len(),
{
    if ds.len() == 0 {
        0
    } else {
        total_variable_len(ds.drop_last()) + ds.last().spec_variable_fields_len()
    }
}

/// Number of recovery seed phrases in a list of devices.
pub open spec fn seed_phrase_count(ds: Seq<Device>) -> nat
    decreases ds.len(),
{
    if ds.len() == 0 {
        0
    } else {
        seed_phrase_count(ds.drop_last()) + if ds.last().is_seed_phrase() {
            1nat
        } else {
            0nat
        }
    }
}

/// `n` capped at `usize::MAX`.
pub open spec fn saturate(n: nat) -> usize {
    if n <= usize::MAX {
        n as usize
    } else {
        usize::MAX
    }
}

/// The limits on the size of an anchor's device list.
pub open spec fn anchor_invariants_hold(ds: Seq<Device>) -> bool {
    &&& ds.len() <= MAX_DEVICES_PER_ANCHOR
    &&& total_variable_len(ds) <= VARIABLE_FIELDS_LIMIT
    &&& seed_phrase_count(ds) <= 1
}

/// The error reported for a device list that breaks `anchor_invariants_hold`.
pub open spec fn anchor_invariants_error(ds: Seq<Device>, e: AnchorError) -> bool {
    if ds.len() > MAX_DEVICES_PER_ANCHOR {
        e == AnchorError::TooManyDevices {
            limit: MAX_DEVICES_PER_ANCHOR,
            num_devices: ds.len() as usize,
        }
    } else if total_variable_len(ds) > VARIABLE_FIELDS_LIMIT {
        e == AnchorError::CumulativeDataLimitExceeded {
            length: saturate(total_variable_len(ds)),
            limit: VARIABLE_FIELDS_LIMIT,
        }
    } else {
        e == AnchorError::MultipleRecoveryPhrases
    }
}

/// The size limits on the fields of one device.
pub open spec fn device_limits_hold(d: Device) -> bool {
    &&& utf8_len(d.alias@) <= ALIAS_LEN_LIMIT
    &&& d.pubkey@.len() <= PK_LEN_LIMIT
    &&& opt_bytes_len(d.credential_id) <= CREDENTIAL_ID_LEN_LIMIT
    &&& opt_str_len(d.origin) <= ORIGIN_LEN_LIMIT
}

/// Whether `e` reports that `field` has `length` bytes, over `limit`.
pub open spec fn is_limit_error(e: AnchorError, field: Seq<char>, length: nat, limit: usize) -> bool {
    e matches AnchorError::DeviceLimitExceeded { field: f, length: l, limit: m } && f@ == field
        && l == length && m == limit
}

/// The error reported for a device that breaks `device_limits_hold`: the first field
/// over its limit, in the order alias, public key, credential id, origin.
pub open spec fn device_limits_error(d: Device, e: AnchorError) -> bool {
    if utf8_len(d.alias@) > ALIAS_LEN_LIMIT {
        is_limit_error(e, "alias"@, utf8_len(d.alias@), ALIAS_LEN_LIMIT)
    } else if d.pubkey@.len() > PK_LEN_LIMIT {
        is_limit_error(e, "pubkey"@, d.pubkey@.len(), PK_LEN_LIMIT)
    } else if opt_bytes_len(d.credential_id) > CREDENTIAL_ID_LEN_LIMIT {
        is_limit_error(e, "credential_id"@, opt_bytes_len(d.credential_id), CREDENTIAL_ID_LEN_LIMIT)
    } else {
        is_limit_error(e, "origin"@, opt_str_len(d.origin), ORIGIN_LEN_LIMIT)
    }
}

/// A device is valid on its own: its fields fit their limits and only a seed phrase is
/// protected.
pub open spec fn device_invariants_hold(d: Device) -> bool {
    device_limits_hold(d) && (d.is_protected() ==> d.is_seed_phrase())
}

/// The error reported for a device that breaks `device_invariants_hold`.
pub open spec fn device_invariants_error(d: Device, e: AnchorError) -> bool {
    if !device_limits_hold(d) {
        device_limits_error(d, e)
    } else {
        e == AnchorError::InvalidDeviceProtection { key_type: d.key_type }
    }
}

/// Whether `add_device` accepts `d` on an anchor with devices `ds`.
pub open spec fn add_device_succeeds(ds: Seq<Device>, d: Device) -> bool {
    !has_key(ds, d.pubkey@) && device_invariants_hold(d) && anchor_invariants_hold(ds.push(d))
}

/// Whether some device of the list has public key `key`.
pub open spec fn has_key(ds: Seq<Device>, key: Seq<u8>) -> bool {
    exists|i: int| 0 <= i < ds.len() && ds[i].pubkey@ == key
}

/// `i` is the position of the first device of the list with public key `key`.
pub open spec fn is_first_key_index(ds: Seq<Device>, key: Seq<u8>, i: int) -> bool {
    &&& 0 <= i < ds.len()
    &&& ds[i].pubkey@ == key
    &&& forall|j: int| 0 <= j < i ==> ds[j].pubkey@ != key
}

/// Position of the first device of the list with public key `key` (meaningful when
/// `has_key(ds, key)`).
pub open spec fn first_key_index(ds: Seq<Device>, key: Seq<u8>) -> int {
    choose|i: int| is_first_key_index(ds, key, i)
}

/// No two devices of the list share a public key.
pub open spec fn keys_distinct(ds: Seq<Device>) -> bool {
    forall|i: int, j: int| 0 <= i < j < ds.len() ==> ds[i].pubkey@ != ds[j].pubkey@
}

/// Every protected device of the list is a seed phrase.
pub open spec fn protected_are_seed_phrases(ds: Seq<Device>) -> bool {
    forall|i: int| 0 <= i < ds.len() ==> (#[trigger] ds[i]).is_protected() ==> ds[i].is_seed_phrase()
}

/// Whether a caller with principal `caller` may remove or modify device `d`: an
/// unprotected device always, a protected one only from its own principal.
pub open spec fn mutation_allowed(d: Device, caller: Seq<u8>) -> bool {
    !d.is_protected() || caller == self_authenticating_of(d.pubkey@)
}

/// The error reported when `mutation_allowed(d, caller)` fails.
pub open spec fn mutation_error(d: Device, caller: Seq<u8>, e: AnchorError) -> bool {
    e matches AnchorError::MutationNotAllowed { authorized_principal, actual_principal }
        && authorized_principal@ == self_authenticating_of(d.pubkey@)
        && actual_principal@ == caller
}

/// The later of two optional timestamps, where absent is earliest.
pub open spec fn later(a: Option<Timestamp>, b: Option<Timestamp>) -> Option<Timestamp> {
    match (a, b) {
        (None, _) => b,
        (_, None) => a,
        (Some(x), Some(y)) => if x >= y {
            a
        } else {
            b
        },
    }
}

/// The latest usage timestamp over a list of devices.
pub open spec fn latest_usage(ds: Seq<Device>) -> Option<Timestamp>
    decreases ds.len(),
{
    if ds.len() == 0 {
        None
    } else {
        later(latest_usage(ds.drop_last()), ds.last().last_usage_timestamp)
    }
}

/// Device `d` was used at or after `t`.
pub open spec fn used_since(d: Device, t: Timestamp) -> bool {
    d.last_usage_timestamp matches Some(u) && u >= t
}

/// Device `d` has origin `o`.
pub open spec fn has_origin(d: Device, o: Seq<char>) -> bool {
    d.origin matches Some(x) && x@ == o
}

/// Some device of the list with origin `o` was used at or after `t`.
pub open spec fn active_on(ds: Seq<Device>, t: Timestamp, o: Seq<char>) -> bool {
    exists|i: int| 0 <= i < ds.len() && used_since(ds[i], t) && has_origin(ds[i], o)
}

/// Device `d` has no origin, or one that is neither identity frontend origin.
pub open spec fn outside_ii_domains(d: Device) -> bool {
    !has_origin(d, IC0_APP_ORIGIN@) && !has_origin(d, INTERNETCOMPUTER_ORG_ORIGIN@)
}

/// Some device of the list with no identity frontend origin was used at or after `t`.
pub open spec fn active_elsewhere(ds: Seq<Device>, t: Timestamp) -> bool {
    exists|i: int| 0 <= i < ds.len() && used_since(ds[i], t) && outside_ii_domains(ds[i])
}

/// The domain activity of a list of devices since `t`; activity outside the identity
/// frontend domains counts only where there is none on them.
pub open spec fn domain_activity(ds: Seq<Device>, t: Timestamp) -> DomainActivity {
    let ic0 = active_on(ds, t, IC0_APP_ORIGIN@);
    let org = active_on(ds, t, INTERNETCOMPUTER_ORG_ORIGIN@);
    if ic0 && org {
        DomainActivity::BothIIDomains
    } else if ic0 {
        DomainActivity::Ic0App
    } else if org {
        DomainActivity::InternetComputerOrg
    } else if active_elsewhere(ds, t) {
        DomainActivity::NonIIDomain
    } else {
        DomainActivity::NoActivity
    }
}

impl View for Anchor {
    type V = Seq<Device>;

    closed spec fn view(&self) -> Seq<Device> {
        self.devices@
    }
}

/// Reports that `field` is `length` bytes long, over `limit`.
fn limit_exceeded(field: &'static str, length: usize, limit: usize) -> (r: Result<(), AnchorError>)
    ensures
        r matches Err(e) && is_limit_error(e, field@, length as nat, limit),
{
    Err(AnchorError::DeviceLimitExceeded { field: String::from_str(field), length, limit })
}

/// Checks the size limits on the fields of one device.
fn check_device_limits(device: &Device) -> (r: Result<(), AnchorError>)
    ensures
        r is Ok <==> device_limits_hold(*device),
        r matches Err(e) ==> device_limits_error(*device, e),
{
    let n = device.alias.as_str().len();
    if n > ALIAS_LEN_LIMIT {
        return limit_exceeded("alias", n, ALIAS_LEN_LIMIT);
    }
    let n = device.pubkey.len();
    if n > PK_LEN_LIMIT {
        return limit_exceeded("pubkey", n, PK_LEN_LIMIT);
    }
    let n = match &device.credential_id {
        Some(bytes) => bytes.len(),
        None => 0,
    };
    if n > CREDENTIAL_ID_LEN_LIMIT {
        return limit_exceeded("credential_id", n, CREDENTIAL_ID_LEN_LIMIT);
    }
    let n = match &device.origin {
        Some(origin) => origin.as_str().len(),
        None => 0,
    };
    if n > ORIGIN_LEN_LIMIT {
        return limit_exceeded("origin", n, ORIGIN_LEN_LIMIT);
    }
    Ok(())
}

/// Checks that a device is valid on its own: field sizes, and that only a seed phrase is
/// protected.
fn check_device_invariants(device: &Device) -> (r: Result<(), AnchorError>)
    ensures
        r is Ok <==> device_invariants_hold(*device),
        r matches Err(e) ==> device_invariants_error(*device, e),
{
    match check_device_limits(device) {
        Err(e) => return Err(e),
        Ok(()) => {},
    }
    if device.protection == DeviceProtection::Protected && device.key_type != KeyType::SeedPhrase {
        return Err(AnchorError::InvalidDeviceProtection { key_type: device.key_type });
    }
    Ok(())
}

proof fn lemma_prefix_step(ds: Seq<Device>, i: int)
    requires
        0 <= i < ds.len(),
    ensures
        ds.subrange(0, i + 1).drop_last() == ds.subrange(0, i),
        ds.subrange(0, i + 1).last() == ds[i],
{
    assert(ds.subrange(0, i + 1).drop_last() =~= ds.subrange(0, i));
}

/// Checks the limits on the size of a device list: the number of devices, the sum of
/// their variable-length fields, and the number of seed phrases.
fn check_anchor_invariants(devices: &Vec<Device>) -> (r: Result<(), AnchorError>)
    ensures
        r is Ok <==> anchor_invariants_hold(devices@),
        r matches Err(e) ==> anchor_invariants_error(devices@, e),
{
    let ghost ds = devices@;
    if devices.len() > MAX_DEVICES_PER_ANCHOR {
        return Err(
            AnchorError::TooManyDevices {
                limit: MAX_DEVICES_PER_ANCHOR,
                num_devices: devices.len(),
            },
        );
    }
    let mut size: usize = 0;
    let mut seed_phrases: usize = 0;
    let mut i: usize = 0;
    while i < devices.len()
        invariant
            ds == devices@,
            0 <= i <= ds.len() <= MAX_DEVICES_PER_ANCHOR,
            size == saturate(total_variable_len(ds.subrange(0, i as int))),
            seed_phrases == seed_phrase_count(ds.subrange(0, i as int)),
            seed_phrases <= i,
        decreases ds.len() - i,
    {
        proof {
            lemma_prefix_step(ds, i as int);
        }
        size = size.saturating_add(devices[i].variable_fields_len());
        if devices[i].key_type == KeyType::SeedPhrase {
            seed_phrases = seed_phrases + 1;
        }
        i = i + 1;
    }
    assert(ds.subrange(0, ds.len() as int) =~= ds);
    if size > VARIABLE_FIELDS_LIMIT {
        return Err(
            AnchorError::CumulativeDataLimitExceeded { length: size, limit: VARIABLE_FIELDS_LIMIT },
        );
    }
    if seed_phrases > 1 {
        return Err(AnchorError::MultipleRecoveryPhrases);
    }
    Ok(())
}

/// 1 for a seed phrase, else 0.
pub open spec fn seed_phrase_mark(d: Device) -> nat {
    if d.is_seed_phrase() {
        1
    } else {
        0
    }
}

proof fn lemma_update_totals(ds: Seq<Device>, i: int, x: Device)
    requires
        0 <= i < ds.len(),
    ensures
        total_variable_len(ds.update(i, x)) + ds[i].spec_variable_fields_len() == total_variable_len(ds)
            + x.spec_variable_fields_len(),
        seed_phrase_count(ds.update(i, x)) + seed_phrase_mark(ds[i]) == seed_phrase_count(ds)
            + seed_phrase_mark(x),
    decreases ds.len(),
{
    if i == ds.len() - 1 {
        assert(ds.update(i, x).drop_last() =~= ds.drop_last());
    } else {
        assert(ds.update(i, x).drop_last() =~= ds.drop_last().update(i, x));
        lemma_update_totals(ds.drop_last(), i, x);
    }
}

proof fn lemma_remove_totals(ds: Seq<Device>, i: int)
    requires
        0 <= i < ds.len(),
    ensures
        total_variable_len(ds.remove(i)) + ds[i].spec_variable_fields_len() == total_variable_len(ds),
        seed_phrase_count(ds.remove(i)) + seed_phrase_mark(ds[i]) == seed_phrase_count(ds),
    decreases ds.len(),
{
    if i == ds.len() - 1 {
        assert(ds.remove(i) =~= ds.drop_last());
    } else {
        assert(ds.remove(i).drop_last() =~= ds.drop_last().remove(i));
        lemma_remove_totals(ds.drop_last(), i);
    }
}

proof fn lemma_first_key_index(ds: Seq<Device>, key: Seq<u8>, i: int)
    requires
        is_first_key_index(ds, key, i),
    ensures
        first_key_index(ds, key) == i,
        has_key(ds, key),
{
    let j = first_key_index(ds, key);
    assert(is_first_key_index(ds, key, j));
    if j < i {
        assert(ds[j].pubkey@ != key);
    } else if i < j {
        assert(ds[i].pubkey@ != key);
    }
}

impl Anchor {
    /// The invariants that hold of every anchor built by `new` and this type's mutations.
    pub open spec fn wf(&self) -> bool {
        &&& anchor_invariants_hold(self@)
        &&& keys_distinct(self@)
        &&& protected_are_seed_phrases(self@)
    }

    /// An anchor without devices.
    pub fn new() -> (r: Anchor)
        ensures
            r@ == Seq::<Device>::empty(),
            r.wf(),
    {
        Anchor { devices: Vec::new() }
    }

    /// An anchor holding `devices` as they are, as read back from storage; it may break
    /// the invariants that the mutations check.
    pub fn from_devices(devices: Vec<Device>) -> (r: Anchor)
        ensures
            r@ == devices@,
    {
        Anchor { devices }
    }

    fn device_index(&self, device_key: &DeviceKey) -> (r: Result<usize, AnchorError>)
        ensures
            match r {
                Ok(i) => has_key(self@, device_key@) && i == first_key_index(self@, device_key@)
                    && is_first_key_index(self@, device_key@, i as int),
                Err(e) => !has_key(self@, device_key@) && (e matches AnchorError::NotFound {
                    device_key: k,
                } && k@ == device_key@),
            },
    {
        let mut i: usize = 0;
        while i < self.devices.len()
            invariant
                0 <= i <= self@.len(),
                forall|j: int| 0 <= j < i ==> self@[j].pubkey@ != device_key@,
            decreases self@.len() - i,
        {
            if bytes_equal(&self.devices[i].pubkey, device_key) {
                proof {
                    lemma_first_key_index(self@, device_key@, i as int);
                }
                return Ok(i);
            }
            i = i + 1;
        }
        let k = device_key.clone();
        assert(k@ =~= device_key@);
        Err(AnchorError::NotFound { device_key: k })
    }

    /// The device with public key `device_key`, if any.
    pub fn device(&self, device_key: &DeviceKey) -> (r: Option<&Device>)
        ensures
            has_key(self@, device_key@) ==> r == Some(&self@[first_key_index(self@, device_key@)]),
            !has_key(self@, device_key@) ==> r is None,
    {
        match self.device_index(device_key) {
            Ok(i) => Some(&self.devices[i]),
            Err(_) => None,
        }
    }

    /// The devices, in order.
    pub fn devices(&self) -> (r: &Vec<Device>)
        ensures
            r@ == self@,
    {
        &self.devices
    }

    /// Consumes the anchor and hands out its devices.
    pub fn into_devices(self) -> (r: Vec<Device>)
        ensures
            r@ == self@,
    {
        self.devices
    }
}

/// Checks that a caller with principal `caller` may remove or modify `device`.
fn check_mutation_allowed(device: &Device, caller: &Vec<u8>) -> (r: Result<(), AnchorError>)
    ensures
        r is Ok <==> mutation_allowed(*device, caller@),
        r matches Err(e) ==> mutation_error(*device, caller@, e),
{
    match device.protection {
        DeviceProtection::Unprotected => {},
        DeviceProtection::Protected => {
            let authorized = self_authenticating(&device.pubkey);
            if !bytes_equal(caller, &authorized) {
                let actual = caller.clone();
                assert(actual@ =~= caller@);
                return Err(
                    AnchorError::MutationNotAllowed {
                        authorized_principal: authorized,
                        actual_principal: actual,
                    },
                );
            }
        },
    }
    Ok(())
}

impl Anchor {
    /// As `add_device`, but hands `device` back with the error. It fails if a device with the same
    /// public key is present, if the device is invalid on its own, or if the resulting
    /// list breaks the anchor invariants; on failure the anchor is unchanged.
    pub(crate) fn add_device_or_return(&mut self, device: Device) -> (r: Result<
        (),
        (AnchorError, Device),
    >)
        ensures
            has_key(old(self)@, device.pubkey@) ==> (r matches Err(
                (AnchorError::DuplicateDevice { device_key }, _),
            ) && device_key@ == device.pubkey@),
            !has_key(old(self)@, device.pubkey@) && !device_invariants_hold(device) ==> (r matches Err(
                (e, _),
            ) && device_invariants_error(device, e)),
            !has_key(old(self)@, device.pubkey@) && device_invariants_hold(device)
                && !anchor_invariants_hold(old(self)@.push(device)) ==> (r matches Err((e, _))
                && anchor_invariants_error(old(self)@.push(device), e)),
            r is Ok <==> add_device_succeeds(old(self)@, device),
            r is Ok ==> final(self)@ == old(self)@.push(device),
            r is Err ==> final(self)@ == old(self)@,
            r matches Err((_, d)) ==> d == device,
            r is Ok ==> anchor_invariants_hold(final(self)@),
            keys_distinct(old(self)@) ==> keys_distinct(final(self)@),
            protected_are_seed_phrases(old(self)@) ==> protected_are_seed_phrases(final(self)@),
            old(self).wf() ==> final(self).wf(),
    {
        let mut i: usize = 0;
        while i < self.devices.len()
            invariant
                0 <= i <= self@.len(),
                forall|j: int| 0 <= j < i ==> self@[j].pubkey@ != device.pubkey@,
            decreases self@.len() - i,
        {
            if bytes_equal(&self.devices[i].pubkey, &device.pubkey) {
                let device_key = device.pubkey.clone();
                assert(device_key@ =~= device.pubkey@);
                return Err((AnchorError::DuplicateDevice { device_key }, device));
            }
            i = i + 1;
        }
        match check_device_invariants(&device) {
            Err(e) => return Err((e, device)),
            Ok(()) => {},
        }
        let ghost before = self@;
        self.devices.push(device);
        match check_anchor_invariants(&self.devices) {
            Err(e) => {
                let popped = self.devices.pop();
                assert(self@ =~= before);
                match popped {
                    Some(d) => Err((e, d)),
                    None => Err((e, unreached())),
                }
            },
            Ok(()) => {
                assert(self@[self@.len() - 1] == device);
                Ok(())
            },
        }
    }

    /// Adds `device` at the end of the device list. It fails if a device with the same
    /// public key is present, if the device is invalid on its own, or if the resulting
    /// list breaks the anchor invariants; on failure the anchor is unchanged.
    pub fn add_device(&mut self, device: Device) -> (r: Result<(), AnchorError>)
        ensures
            has_key(old(self)@, device.pubkey@) ==> (r matches Err(
                AnchorError::DuplicateDevice { device_key },
            ) && device_key@ == device.pubkey@),
            !has_key(old(self)@, device.pubkey@) && !device_invariants_hold(device) ==> (r matches Err(
                e,
            ) && device_invariants_error(device, e)),
            !has_key(old(self)@, device.pubkey@) && device_invariants_hold(device)
                && !anchor_invariants_hold(old(self)@.push(device)) ==> (r matches Err(e)
                && anchor_invariants_error(old(self)@.push(device), e)),
            r is Ok <==> add_device_succeeds(old(self)@, device),
            r is Ok ==> final(self)@ == old(self)@.push(device),
            r is Err ==> final(self)@ == old(self)@,
            r is Ok ==> anchor_invariants_hold(final(self)@),
            keys_distinct(old(self)@) ==> keys_distinct(final(self)@),
            protected_are_seed_phrases(old(self)@) ==> protected_are_seed_phrases(final(self)@),
            old(self).wf() ==> final(self).wf(),
    {
        match self.add_device_or_return(device) {
            Ok(()) => Ok(()),
            Err((e, _)) => Err(e),
        }
    }

    /// Removes the device with public key `device_key`, on behalf of a caller with
    /// principal `caller`. It fails if there is no such device, or if the device is
    /// protected and `caller` is not its own principal. The anchor invariants are not
    /// checked, so that an anchor stored before they existed can shed devices.
    pub fn remove_device(&mut self, device_key: &DeviceKey, caller: &Vec<u8>) -> (r: Result<
        (),
        AnchorError,
    >)
        ensures
            !has_key(old(self)@, device_key@) ==> (r matches Err(AnchorError::NotFound { device_key: k })
                && k@ == device_key@),
            has_key(old(self)@, device_key@) ==> ({
                let i = first_key_index(old(self)@, device_key@);
                &&& (r is Ok <==> mutation_allowed(old(self)@[i], caller@))
                &&& (r matches Err(e) ==> mutation_error(old(self)@[i], caller@, e))
                &&& (r is Ok ==> final(self)@ == old(self)@.remove(i))
            }),
            r is Err ==> final(self)@ == old(self)@,
            final(self)@.len() <= old(self)@.len(),
            total_variable_len(final(self)@) <= total_variable_len(old(self)@),
            seed_phrase_count(final(self)@) <= seed_phrase_count(old(self)@),
            keys_distinct(old(self)@) ==> keys_distinct(final(self)@),
            protected_are_seed_phrases(old(self)@) ==> protected_are_seed_phrases(final(self)@),
            old(self).wf() ==> final(self).wf(),
    {
        let index = match self.device_index(device_key) {
            Ok(i) => i,
            Err(e) => return Err(e),
        };
        match check_mutation_allowed(&self.devices[index], caller) {
            Err(e) => return Err(e),
            Ok(()) => {},
        }
        let ghost before = self@;
        self.devices.remove(index);
        proof {
            lemma_remove_totals(before, index as int);
            if keys_distinct(before) {
                assert forall|a: int, b: int| 0 <= a < b < self@.len() implies self@[a].pubkey@
                    != self@[b].pubkey@ by {
                    if b < index {
                    } else if a < index {
                        assert(self@[b] == before[b + 1]);
                    } else {
                        assert(self@[a] == before[a + 1]);
                        assert(self@[b] == before[b + 1]);
                    }
                }
            }
            if protected_are_seed_phrases(before) {
                assert forall|a: int| 0 <= a < self@.len() && (#[trigger] self@[a]).is_protected()
                    implies self@[a].is_seed_phrase() by {
                    if a >= index {
                        assert(self@[a] == before[a + 1]);
                    }
                }
            }
        }
        Ok(())
    }
}

impl Anchor {
    /// Replaces the device with public key `device_key` by `modified_device`, on behalf of
    /// a caller with principal `caller`. In order, it fails if the new device has another
    /// public key, if it is invalid on its own, if there is no device with that key, if
    /// the caller may not mutate the present device, or if the resulting list breaks the
    /// anchor invariants; on failure the anchor is unchanged.
    pub fn modify_device(
        &mut self,
        device_key: &DeviceKey,
        modified_device: Device,
        caller: &Vec<u8>,
    ) -> (r: Result<(), AnchorError>)
        ensures
            device_key@ != modified_device.pubkey@ ==> (r matches Err(
                AnchorError::CannotModifyDeviceKey,
            )),
            device_key@ == modified_device.pubkey@ && !device_invariants_hold(modified_device) ==> (r matches Err(
                e,
            ) && device_invariants_error(modified_device, e)),
            device_key@ == modified_device.pubkey@ && device_invariants_hold(modified_device)
                && !has_key(old(self)@, device_key@) ==> (r matches Err(
                AnchorError::NotFound { device_key: k },
            ) && k@ == device_key@),
            device_key@ == modified_device.pubkey@ && device_invariants_hold(modified_device)
                && has_key(old(self)@, device_key@) ==> ({
                let i = first_key_index(old(self)@, device_key@);
                let post = old(self)@.update(i, modified_device);
                &&& (!mutation_allowed(old(self)@[i], caller@) ==> (r matches Err(e)
                    && mutation_error(old(self)@[i], caller@, e)))
                &&& (mutation_allowed(old(self)@[i], caller@) && !anchor_invariants_hold(post) ==> (r matches Err(e)
                    && anchor_invariants_error(post, e)))
                &&& (r is Ok <==> mutation_allowed(old(self)@[i], caller@) && anchor_invariants_hold(post))
                &&& (r is Ok ==> final(self)@ == post)
            }),
            r is Ok ==> device_key@ == modified_device.pubkey@ && device_invariants_hold(modified_device)
                && has_key(old(self)@, device_key@),
            r is Err ==> final(self)@ == old(self)@,
            r is Ok ==> anchor_invariants_hold(final(self)@),
            keys_distinct(old(self)@) ==> keys_distinct(final(self)@),
            protected_are_seed_phrases(old(self)@) ==> protected_are_seed_phrases(final(self)@),
            old(self).wf() ==> final(self).wf(),
    {
        if !bytes_equal(device_key, &modified_device.pubkey) {
            return Err(AnchorError::CannotModifyDeviceKey);
        }
        match check_device_invariants(&modified_device) {
            Err(e) => return Err(e),
            Ok(()) => {},
        }
        let index = match self.device_index(device_key) {
            Ok(i) => i,
            Err(e) => return Err(e),
        };
        match check_mutation_allowed(&self.devices[index], caller) {
            Err(e) => return Err(e),
            Ok(()) => {},
        }
        let ghost before = self@;
        let mut device = modified_device;
        self.devices.set_and_swap(index, &mut device);
        match check_anchor_invariants(&self.devices) {
            Err(e) => {
                self.devices.set_and_swap(index, &mut device);
                assert(self@ =~= before);
                Err(e)
            },
            Ok(()) => {
                proof {
                    assert forall|a: int| 0 <= a < self@.len() && a != index implies self@[a]
                        == before[a] by {}
                    assert(self@[index as int] == modified_device);
                }
                Ok(())
            },
        }
    }

    /// Records `time` as the last usage of the device with public key `device_key`; fails
    /// if there is no such device. No invariant is checked: none depends on the timestamp.
    pub fn set_device_usage_timestamp(&mut self, device_key: &DeviceKey, time: Timestamp) -> (r:
        Result<(), AnchorError>)
        ensures
            !has_key(old(self)@, device_key@) ==> (r matches Err(AnchorError::NotFound { device_key: k })
                && k@ == device_key@) && final(self)@ == old(self)@,
            has_key(old(self)@, device_key@) ==> ({
                let i = first_key_index(old(self)@, device_key@);
                &&& r is Ok
                &&& final(self)@ == old(self)@.update(
                    i,
                    Device { last_usage_timestamp: Some(time), ..old(self)@[i] },
                )
            }),
            final(self)@.len() == old(self)@.len(),
            total_variable_len(final(self)@) == total_variable_len(old(self)@),
            seed_phrase_count(final(self)@) == seed_phrase_count(old(self)@),
            keys_distinct(old(self)@) ==> keys_distinct(final(self)@),
            protected_are_seed_phrases(old(self)@) ==> protected_are_seed_phrases(final(self)@),
            old(self).wf() ==> final(self).wf(),
    {
        let index = match self.device_index(device_key) {
            Ok(i) => i,
            Err(e) => return Err(e),
        };
        let ghost before = self@;
        let mut device = self.devices.remove(index);
        device.last_usage_timestamp = Some(time);
        self.devices.insert(index, device);
        proof {
            assert(self@ =~= before.update(index as int, device));
            lemma_update_totals(before, index as int, device);
        }
        Ok(())
    }
}

/// The later of two optional timestamps, where absent is earliest.
fn later_of(a: Option<Timestamp>, b: Option<Timestamp>) -> (r: Option<Timestamp>)
    ensures
        r == later(a, b),
{
    match (a, b) {
        (None, _) => b,
        (_, None) => a,
        (Some(x), Some(y)) => if x >= y {
            a
        } else {
            b
        },
    }
}

impl Anchor {
    /// The latest usage timestamp over all devices, if any device was ever used.
    pub fn last_activity(&self) -> (r: Option<Timestamp>)
        ensures
            r == latest_usage(self@),
    {
        let ghost ds = self@;
        let mut latest: Option<Timestamp> = None;
        let mut i: usize = 0;
        while i < self.devices.len()
            invariant
                ds == self@,
                0 <= i <= ds.len(),
                latest == latest_usage(ds.subrange(0, i as int)),
            decreases ds.len() - i,
        {
            proof {
                lemma_prefix_step(ds, i as int);
            }
            latest = later_of(latest, self.devices[i].last_usage_timestamp);
            i = i + 1;
        }
        assert(ds.subrange(0, ds.len() as int) =~= ds);
        latest
    }

    /// The domains this anchor was active on since `timestamp`. Activity on other domains,
    /// or from devices without an origin, is dropped where there is activity on one of
    /// the two identity frontend domains.
    pub fn domain_activity_since(&self, timestamp: Timestamp) -> (r: DomainActivity)
        ensures
            r == domain_activity(self@, timestamp),
    {
        let ghost ds = self@;
        proof {
            lemma_ii_origins_differ();
        }
        let ic0_origin = String::from_str(IC0_APP_ORIGIN);
        let org_origin = String::from_str(INTERNETCOMPUTER_ORG_ORIGIN);
        let mut ic0_app = false;
        let mut internet_computer_org = false;
        let mut non_ii = false;
        let mut i: usize = 0;
        while i < self.devices.len()
            invariant
                ds == self@,
                0 <= i <= ds.len(),
                ic0_origin@ == IC0_APP_ORIGIN@,
                org_origin@ == INTERNETCOMPUTER_ORG_ORIGIN@,
                IC0_APP_ORIGIN@ != INTERNETCOMPUTER_ORG_ORIGIN@,
                ic0_app == exists|j: int|
                    0 <= j < i && used_since(ds[j], timestamp) && has_origin(ds[j], IC0_APP_ORIGIN@),
                internet_computer_org == exists|j: int|
                    0 <= j < i && used_since(ds[j], timestamp) && has_origin(
                        ds[j],
                        INTERNETCOMPUTER_ORG_ORIGIN@,
                    ),
                non_ii == exists|j: int|
                    0 <= j < i && used_since(ds[j], timestamp) && outside_ii_domains(ds[j]),
            decreases ds.len() - i,
        {
            let device = &self.devices[i];
            let active = match device.last_usage_timestamp {
                Some(t) => t >= timestamp,
                None => false,
            };
            if active {
                match &device.origin {
                    None => {
                        non_ii = true;
                    },
                    Some(origin) => {
                        if *origin == ic0_origin {
                            ic0_app = true;
                        } else if *origin == org_origin {
                            internet_computer_org = true;
                        } else {
                            non_ii = true;
                        }
                    },
                }
            }
            i = i + 1;
        }
        if ic0_app && internet_computer_org {
            DomainActivity::BothIIDomains
        } else if ic0_app {
            DomainActivity::Ic0App
        } else if internet_computer_org {
            DomainActivity::InternetComputerOrg
        } else if non_ii {
            DomainActivity::NonIIDomain
        } else {
            DomainActivity::NoActivity
        }
    }
}

} // verus!
