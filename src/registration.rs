//! Registration of a new anchor: the rate limit, the challenge, the caller's key, the
//! device and a fresh anchor number, in that order.

use vstd::prelude::*;
use crate::anchor::{
    Anchor, AnchorError, device_invariants_error, device_invariants_hold, seed_phrase_count,
    total_variable_len,
};
use crate::challenge::{ChallengeAttempt, ChallengeStore, answers, kept};
use crate::device::{AnchorNumber, Device, DeviceData, Timestamp, device_from_data};
use crate::principal::{bytes_equal, self_authenticating, self_authenticating_of};
use crate::rate_limit::{
    RateLimitConfig, RateLimitState, bucket_wf, current_bucket, process_rate_limit, refilled,
};
use crate::storage::AnchorRange;

verus! {

/// Why a registration was refused.
#[derive(Debug)]
pub enum RegisterError {
    /// the rate limit had no token left
    RateLimited,
    /// the challenge was not answered right, or had expired
    BadChallenge,
    /// the caller is not the principal of the device's key
    Unauthorized { actual_principal: Vec<u8> },
    /// the device is not valid
    InvalidDevice { error: AnchorError },
    /// every anchor number of the range is in use
    CanisterFull,
}

/// Whether the rate limit lets a registration through at `now`.
pub open spec fn rate_limit_passes(
    config: Option<RateLimitConfig>,
    bucket: Option<RateLimitState>,
    now: Timestamp,
) -> bool {
    match config {
        None => true,
        Some(c) => refilled(c, current_bucket(c, bucket, now), now).tokens > 0,
    }
}

/// Registers a new anchor for the device described by `device_data`, on behalf of a
/// caller with principal `caller`, at `now`. In order, it fails if the rate limit (when
/// configured) has no token, if the challenge attempt is wrong or expired, if the
/// caller is not the device's own principal, if the device is invalid, or if no anchor
/// number is left. On success it returns the new number and the anchor holding just
/// that device.
pub fn register(
    rate_limit: Option<RateLimitConfig>,
    bucket: &mut Option<RateLimitState>,
    challenges: &mut ChallengeStore,
    attempt: &ChallengeAttempt,
    range: &mut AnchorRange,
    device_data: DeviceData,
    caller: &Vec<u8>,
    now: Timestamp,
) -> (r: Result<(AnchorNumber, Anchor), RegisterError>)
    requires
        rate_limit matches Some(c) ==> c.time_per_token_ns > 0 && bucket_wf(c, *old(bucket)),
        old(challenges).wf(),
        old(range).wf(),
    ensures
        rate_limit matches Some(c) ==> ({
            let b = refilled(c, current_bucket(c, *old(bucket), now), now);
            &&& (b.tokens > 0 ==> *final(bucket) == Some(
                RateLimitState { tokens: (b.tokens - 1) as u64, ..b },
            ))
            &&& (b.tokens == 0 ==> *final(bucket) == Some(b))
        }),
        rate_limit is None ==> *final(bucket) == *old(bucket),
        final(challenges).wf(),
        final(range).wf(),
        final(range).lo() == old(range).lo() && final(range).hi() == old(range).hi(),
        !rate_limit_passes(rate_limit, *old(bucket), now) ==> (r matches Err(
            RegisterError::RateLimited,
        )) && final(challenges)@ == old(challenges)@ && *final(range) == *old(range),
        rate_limit_passes(rate_limit, *old(bucket), now) ==> final(challenges)@ == old(
            challenges,
        )@.filter(kept(now, attempt.key@)),
        rate_limit_passes(rate_limit, *old(bucket), now) && !answers(
            old(challenges)@,
            attempt.key@,
            attempt.chars@,
            now,
        ) ==> (r matches Err(RegisterError::BadChallenge)),
        rate_limit_passes(rate_limit, *old(bucket), now) && answers(
            old(challenges)@,
            attempt.key@,
            attempt.chars@,
            now,
        ) ==> ({
            let device = device_from_data(device_data);
            let authorized = caller@ == self_authenticating_of(device.pubkey@);
            &&& (!authorized ==> (r matches Err(RegisterError::Unauthorized { actual_principal })
                && actual_principal@ == caller@))
            &&& (authorized && !device_invariants_hold(device) ==> (r matches Err(
                RegisterError::InvalidDevice { error },
            ) && device_invariants_error(device, error)))
            &&& (authorized && device_invariants_hold(device) && old(range).allocated() == old(
                range,
            ).hi() - old(range).lo() ==> (r matches Err(RegisterError::CanisterFull)))
            &&& (authorized && device_invariants_hold(device) && old(range).allocated() < old(
                range,
            ).hi() - old(range).lo() ==> (r matches Ok((n, a)) && n == old(range).lo() + old(
                range,
            ).allocated() && a@ == seq![device] && a.wf() && final(range).allocated() == old(
                range,
            ).allocated() + 1))
        }),
        r is Err ==> *final(range) == *old(range),
{
    if let Some(config) = rate_limit {
        match process_rate_limit(&config, bucket, now) {
            Err(_) => return Err(RegisterError::RateLimited),
            Ok(()) => {},
        }
    }
    if !challenges.check_challenge(attempt, now) {
        return Err(RegisterError::BadChallenge);
    }
    let device = Device::from(device_data);
    let authorized = self_authenticating(&device.pubkey);
    if !bytes_equal(caller, &authorized) {
        let actual_principal = caller.clone();
        assert(actual_principal@ =~= caller@);
        return Err(RegisterError::Unauthorized { actual_principal });
    }
    let mut anchor = Anchor::new();
    let ghost d = device;
    proof {
        let s = Seq::<Device>::empty().push(d);
        assert(s.drop_last() =~= Seq::<Device>::empty());
        assert(total_variable_len(s) == d.spec_variable_fields_len());
        assert(seed_phrase_count(s) <= 1);
    }
    match anchor.add_device(device) {
        Err(error) => return Err(RegisterError::InvalidDevice { error }),
        Ok(()) => {},
    }
    assert(anchor@ =~= seq![d]);
    match range.allocate_new() {
        Err(_) => Err(RegisterError::CanisterFull),
        Ok(n) => Ok((n, anchor)),
    }
}

} // verus!
