//! Service-wide state that is not an anchor: the persistent configuration block, usage
//! counters, the archive status cache and the salt.

use vstd::prelude::*;
use crate::delegation::{DelegationOrigin, MAX_NUM_DELEGATION_ORIGINS, SALT_LEN};
use crate::device::Timestamp;
use crate::rate_limit::RateLimitConfig;

verus! {

/// How long a cached archive status stays valid: one hour.
pub const ARCHIVE_STATUS_CACHE_TTL_NS: u64 = 3_600_000_000_000;

/// Counters of calls since the last upgrade.
#[derive(Clone, Copy, Debug, PartialEq, Eq, Structural)]
pub struct UsageMetrics {
    /// number of prepare_delegation calls
    pub delegation_counter: u64,
    /// number of anchor operations (register, add, remove, update)
    pub anchor_operation_counter: u64,
}

impl Default for UsageMetrics {
    fn default() -> (r: UsageMetrics)
        ensures
            r.delegation_counter == 0 && r.anchor_operation_counter == 0,
    {
        UsageMetrics { delegation_counter: 0, anchor_operation_counter: 0 }
    }
}

/// The configuration kept across upgrades.
#[derive(Clone, Debug)]
pub struct PersistentState {
    /// Cycles to attach when the service creates a canister.
    pub canister_creation_cycles_cost: u64,
    /// Configuration of the rate limit on registrations, if any.
    pub registration_rate_limit: Option<RateLimitConfig>,
    /// The frontends recently used for delegations.
    pub latest_delegation_origins: Option<Vec<DelegationOrigin>>,
    /// Most frontends kept in `latest_delegation_origins`.
    pub max_num_latest_delegation_origins: Option<u64>,
}

impl PersistentState {
    /// The state of a fresh installation.
    pub fn new() -> (r: PersistentState)
        ensures
            r.canister_creation_cycles_cost == 0,
            r.registration_rate_limit is None,
            r.latest_delegation_origins is None,
            r.max_num_latest_delegation_origins == Some(MAX_NUM_DELEGATION_ORIGINS),
    {
        PersistentState {
            canister_creation_cycles_cost: 0,
            registration_rate_limit: None,
            latest_delegation_origins: None,
            max_num_latest_delegation_origins: Some(MAX_NUM_DELEGATION_ORIGINS),
        }
    }

    /// Gives a state read back from an earlier version the default bound on recent
    /// delegation origins, where it has none.
    pub fn fill_defaults(&mut self)
        ensures
            final(self).max_num_latest_delegation_origins == match old(
                self,
            ).max_num_latest_delegation_origins {
                Some(m) => Some(m),
                None => Some(MAX_NUM_DELEGATION_ORIGINS),
            },
            final(self).canister_creation_cycles_cost == old(self).canister_creation_cycles_cost,
            final(self).registration_rate_limit == old(self).registration_rate_limit,
            final(self).latest_delegation_origins == old(self).latest_delegation_origins,
    {
        if self.max_num_latest_delegation_origins.is_none() {
            self.max_num_latest_delegation_origins = Some(MAX_NUM_DELEGATION_ORIGINS);
        }
    }
}

/// Whether an archive status cached at `cached_at` may still be used at `now`.
pub fn archive_status_cache_valid(cached_at: Timestamp, now: Timestamp) -> (r: bool)
    ensures
        r == !(now > cached_at && now - cached_at > ARCHIVE_STATUS_CACHE_TTL_NS),
{
    !(now > cached_at && now - cached_at > ARCHIVE_STATUS_CACHE_TTL_NS)
}

/// The salt drawn from raw randomness: the bytes themselves when there are exactly 32
/// of them; otherwise their number, as an error.
pub fn salt_from_random(random: Vec<u8>) -> (r: Result<Vec<u8>, usize>)
    ensures
        random@.len() == SALT_LEN ==> (r matches Ok(s) && s@ == random@),
        random@.len() != SALT_LEN ==> r == Err::<Vec<u8>, usize>(random@.len() as usize),
{
    if random.len() != SALT_LEN {
        return Err(random.len());
    }
    Ok(random)
}

} // verus!
