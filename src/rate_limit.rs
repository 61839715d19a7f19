//! Token-bucket rate limit on registrations.

use vstd::prelude::*;
use crate::device::Timestamp;

verus! {

/// Configuration of the registration rate limit.
#[derive(Clone, Copy, Debug, PartialEq, Eq, Structural)]
pub struct RateLimitConfig {
    /// Time it takes for one token to be added back to the bucket.
    pub time_per_token_ns: u64,
    /// Most tokens the bucket can hold.
    pub max_tokens: u64,
}

/// The bucket. Not kept across upgrades.
#[derive(Clone, Copy, Debug, PartialEq, Eq, Structural)]
pub struct RateLimitState {
    /// Tokens available; each accepted call takes one.
    pub tokens: u64,
    /// Time from which `time_per_token_ns` must pass for the next token to be added.
    pub token_timestamp: Timestamp,
}

/// A call refused for want of tokens.
#[derive(Clone, Copy, Debug, PartialEq, Eq, Structural)]
pub enum RateLimitError {
    RateLimited,
}

/// The bucket holds no more than the configured number of tokens.
pub open spec fn bucket_wf(config: RateLimitConfig, state: Option<RateLimitState>) -> bool {
    state matches Some(s) ==> s.tokens <= config.max_tokens
}

/// The bucket before the refill: as it was, or full at `now` on first use.
pub open spec fn current_bucket(
    config: RateLimitConfig,
    state: Option<RateLimitState>,
    now: Timestamp,
) -> RateLimitState {
    match state {
        Some(s) => s,
        None => RateLimitState { tokens: config.max_tokens, token_timestamp: now },
    }
}

/// Time since the bucket's timestamp; none if the clock is behind it.
pub open spec fn elapsed_since(s: RateLimitState, now: Timestamp) -> nat {
    if now >= s.token_timestamp {
        (now - s.token_timestamp) as nat
    } else {
        0
    }
}

/// The bucket after adding the tokens earned since its timestamp, capped at
/// `max_tokens`; the timestamp moves on by the time those tokens took.
pub open spec fn refilled(config: RateLimitConfig, s: RateLimitState, now: Timestamp) -> RateLimitState
    recommends
        config.time_per_token_ns > 0,
{
    let earned = elapsed_since(s, now) / (config.time_per_token_ns as nat);
    let tokens: nat = if s.tokens + earned <= config.max_tokens {
        (s.tokens + earned) as nat
    } else {
        config.max_tokens as nat
    };
    RateLimitState {
        tokens: tokens as u64,
        token_timestamp: (s.token_timestamp + (tokens - s.tokens) * config.time_per_token_ns) as u64,
    }
}

/// Takes one token for a registration at time `now`, refilling the bucket first. The
/// call is accepted when the refilled bucket holds a token.
pub fn process_rate_limit(
    config: &RateLimitConfig,
    state: &mut Option<RateLimitState>,
    now: Timestamp,
) -> (r: Result<(), RateLimitError>)
    requires
        config.time_per_token_ns > 0,
        bucket_wf(*config, *old(state)),
    ensures
        ({
            let b = refilled(*config, current_bucket(*config, *old(state), now), now);
            &&& (r is Ok <==> b.tokens > 0)
            &&& (r is Ok ==> *final(state) == Some(
                RateLimitState { tokens: (b.tokens - 1) as u64, ..b },
            ))
            &&& (r is Err ==> *final(state) == Some(b))
        }),
        bucket_wf(*config, *final(state)),
{
    let s = match *state {
        Some(s) => s,
        None => RateLimitState { tokens: config.max_tokens, token_timestamp: now },
    };
    let elapsed = now.saturating_sub(s.token_timestamp);
    let earned = elapsed / config.time_per_token_ns;
    let tokens = if earned <= config.max_tokens - s.tokens {
        s.tokens + earned
    } else {
        config.max_tokens
    };
    let added = tokens - s.tokens;
    proof {
        assert(added <= earned);
        assert(added * config.time_per_token_ns <= earned * config.time_per_token_ns) by (nonlinear_arith)
            requires
                added <= earned,
        ;
        assert(earned * config.time_per_token_ns <= elapsed) by (nonlinear_arith)
            requires
                earned == elapsed / config.time_per_token_ns,
                config.time_per_token_ns > 0,
        ;
    }
    let token_timestamp = s.token_timestamp + added * config.time_per_token_ns;
    if tokens == 0 {
        *state = Some(RateLimitState { tokens, token_timestamp });
        return Err(RateLimitError::RateLimited);
    }
    *state = Some(RateLimitState { tokens: tokens - 1, token_timestamp });
    Ok(())
}

} // verus!
