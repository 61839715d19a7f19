//! CAPTCHA challenges that gate the creation of anchors: each is kept, under a random
//! key, for a limited time, and checked at most once.

use vstd::prelude::*;
use vstd::string::*;
use crate::device::Timestamp;

verus! {

/// How long a challenge can be answered: 5 minutes.
pub const CAPTCHA_CHALLENGE_LIFETIME_NS: u64 = 300_000_000_000;

/// Most challenges kept at once.
pub const MAX_INFLIGHT_CHALLENGES: usize = 500;

pub type ChallengeKey = String;

/// A challenge as stored: when it was made and the characters it shows.
#[derive(Clone, Debug)]
pub struct ChallengeInfo {
    pub created: Timestamp,
    pub chars: String,
}

/// The user's answer to a challenge.
#[derive(Clone, Debug)]
pub struct ChallengeAttempt {
    pub chars: String,
    pub key: ChallengeKey,
}

/// A challenge as sent to the user: the rendered image and its key.
#[derive(Clone, Debug)]
pub struct Challenge {
    pub png_base64: String,
    pub challenge_key: ChallengeKey,
}

/// The characters challenges and their keys are made of.
pub const CHALLENGE_ALPHABET: &'static str = "abcdefghijklmnopqrstuvwxyz0123456789";

/// Number of characters a challenge shows.
pub const CHALLENGE_CHARS_LEN: usize = 5;

/// Number of characters of a challenge key.
pub const CHALLENGE_KEY_LEN: usize = 10;

/// Random bytes a new challenge takes: its characters, then its key.
pub const CHALLENGE_RANDOM_LEN: usize = 15;

/// The `n` characters drawn from the random bytes starting at `from`: each byte picks
/// the letter or digit at its value modulo 36.
pub open spec fn random_chars(random: Seq<u8>, from: int, n: nat) -> Seq<char> {
    Seq::new(n, |i: int| CHALLENGE_ALPHABET@[random[from + i] as int % 36])
}

/// Why a challenge was not stored.
#[derive(Clone, Copy, Debug, PartialEq, Eq, Structural)]
pub enum ChallengeError {
    /// the store is full of live challenges
    Busy,
}

/// A stored challenge under its key.
#[derive(Clone, Debug)]
pub struct ChallengeEntry {
    pub key: ChallengeKey,
    pub info: ChallengeInfo,
}

/// The challenges in flight, in the order they were made.
#[derive(Debug)]
pub struct ChallengeStore {
    entries: Vec<ChallengeEntry>,
}

/// Whether a challenge made at `created` can no longer be answered at `now`.
pub open spec fn is_expired(created: Timestamp, now: Timestamp) -> bool {
    now > created && now - created > CAPTCHA_CHALLENGE_LIFETIME_NS
}

/// Entries that are kept at `now` apart from the one under `key`.
pub open spec fn kept(now: Timestamp, key: Seq<char>) -> spec_fn(ChallengeEntry) -> bool {
    |e: ChallengeEntry| !is_expired(e.info.created, now) && e.key@ != key
}

/// Whether the list holds a live entry under `key` whose characters are `chars`.
pub open spec fn answers(es: Seq<ChallengeEntry>, key: Seq<char>, chars: Seq<char>, now: Timestamp) -> bool {
    exists|i: int|
        0 <= i < es.len() && es[i].key@ == key && es[i].info.chars@ == chars && !is_expired(
            es[i].info.created,
            now,
        )
}

/// No two entries share a key.
pub open spec fn keys_unique(es: Seq<ChallengeEntry>) -> bool {
    forall|i: int, j: int| 0 <= i < j < es.len() ==> es[i].key@ != es[j].key@
}

fn is_expired_at(created: Timestamp, now: Timestamp) -> (r: bool)
    ensures
        r == is_expired(created, now),
{
    now > created && now - created > CAPTCHA_CHALLENGE_LIFETIME_NS
}

proof fn lemma_filter_step(s: Seq<ChallengeEntry>, p: spec_fn(ChallengeEntry) -> bool, i: int)
    requires
        0 <= i < s.len(),
    ensures
        s.subrange(0, i + 1).filter(p) == if p(s[i]) {
            s.subrange(0, i).filter(p).push(s[i])
        } else {
            s.subrange(0, i).filter(p)
        },
{
    reveal(Seq::filter);
    assert(s.subrange(0, i + 1).drop_last() =~= s.subrange(0, i));
}

proof fn lemma_filter_unique(s: Seq<ChallengeEntry>, p: spec_fn(ChallengeEntry) -> bool)
    requires
        keys_unique(s),
    ensures
        keys_unique(s.filter(p)),
    decreases s.len(),
{
    reveal(Seq::filter);
    if s.len() > 0 {
        let q = s.drop_last();
        lemma_filter_unique(q, p);
        if p(s.last()) {
            let f = q.filter(p);
            assert forall|i: int| 0 <= i < f.len() implies f[i].key@ != s.last().key@ by {
                q.lemma_filter_contains_rev(p, f[i]);
                assert(q.contains(f[i]));
                let k = choose|k: int| 0 <= k < q.len() && q[k] == f[i];
                assert(s[k] == q[k]);
            }
        }
    }
}

impl View for ChallengeStore {
    type V = Seq<ChallengeEntry>;

    closed spec fn view(&self) -> Seq<ChallengeEntry> {
        self.entries@
    }
}

impl ChallengeStore {
    /// No two challenges share a key.
    pub open spec fn wf(&self) -> bool {
        keys_unique(self@)
    }

    /// A store without challenges.
    pub fn new() -> (r: ChallengeStore)
        ensures
            r@ == Seq::<ChallengeEntry>::empty(),
            r.wf(),
    {
        ChallengeStore { entries: Vec::new() }
    }

    /// Number of challenges stored.
    pub fn len(&self) -> (r: usize)
        ensures
            r == self@.len(),
    {
        self.entries.len()
    }

    /// Drops the challenges that have expired at `now` and the one under `key`; returns
    /// whether a live challenge under `key` had characters `chars`.
    fn retain_live_except(&mut self, key: &String, chars: &String, now: Timestamp) -> (r: bool)
        requires
            old(self).wf(),
        ensures
            final(self)@ == old(self)@.filter(kept(now, key@)),
            r == answers(old(self)@, key@, chars@, now),
            final(self).wf(),
    {
        let ghost before = self@;
        let ghost p = kept(now, key@);
        let mut old_entries: Vec<ChallengeEntry> = Vec::new();
        std::mem::swap(&mut old_entries, &mut self.entries);
        assert(old_entries@ == before);
        let mut found = false;
        let mut i: usize = 0;
        assert(before.len() == old_entries.len());
        while old_entries.len() > 0
            invariant
                i + old_entries@.len() == before.len(),
                before.len() <= usize::MAX,
                old_entries@ == before.subrange(i as int, before.len() as int),
                self.entries@ == before.subrange(0, i as int).filter(p),
                p == kept(now, key@),
                found == exists|j: int|
                    0 <= j < i && before[j].key@ == key@ && before[j].info.chars@ == chars@
                        && !is_expired(before[j].info.created, now),
            decreases old_entries@.len(),
        {
            let e = old_entries.remove(0);
            proof {
                lemma_filter_step(before, p, i as int);
                assert(e == before[i as int]);
            }
            let expired = is_expired_at(e.info.created, now);
            let same_key = e.key == *key;
            if same_key && !expired && e.info.chars == *chars {
                found = true;
            }
            if !expired && !same_key {
                self.entries.push(e);
            }
            i = i + 1;
            assert(old_entries@ =~= before.subrange(i as int, before.len() as int));
        }
        assert(before.subrange(0, before.len() as int) =~= before);
        proof {
            lemma_filter_unique(before, p);
        }
        found
    }

    /// Checks an answer at time `now`: it is right if a challenge under its key is
    /// stored, has not expired, and shows exactly its characters. The challenge under
    /// that key is dropped either way, and so are all expired ones.
    pub fn check_challenge(&mut self, attempt: &ChallengeAttempt, now: Timestamp) -> (r: bool)
        requires
            old(self).wf(),
        ensures
            r == answers(old(self)@, attempt.key@, attempt.chars@, now),
            final(self)@ == old(self)@.filter(kept(now, attempt.key@)),
            final(self).wf(),
    {
        self.retain_live_except(&attempt.key, &attempt.chars, now)
    }

    /// Stores a challenge made at `now` showing `chars`, under `key`, after dropping the
    /// expired challenges and any under the same key; fails, storing nothing, if
    /// `MAX_INFLIGHT_CHALLENGES` remain.
    pub fn add_challenge(&mut self, key: ChallengeKey, chars: String, now: Timestamp) -> (r: Result<
        (),
        ChallengeError,
    >)
        requires
            old(self).wf(),
        ensures
            ({
                let pruned = old(self)@.filter(kept(now, key@));
                &&& (pruned.len() >= MAX_INFLIGHT_CHALLENGES ==> r == Err::<(), ChallengeError>(
                    ChallengeError::Busy,
                ) && final(self)@ == pruned)
                &&& (pruned.len() < MAX_INFLIGHT_CHALLENGES ==> r is Ok && final(self)@ == pruned.push(
                    ChallengeEntry { key, info: ChallengeInfo { created: now, chars } },
                ))
            }),
            final(self).wf(),
    {
        self.retain_live_except(&key, &chars, now);
        let ghost pruned = self@;
        if self.entries.len() >= MAX_INFLIGHT_CHALLENGES {
            return Err(ChallengeError::Busy);
        }
        let entry = ChallengeEntry { key, info: ChallengeInfo { created: now, chars } };
        proof {
            assert forall|i: int| 0 <= i < pruned.len() implies pruned[i].key@ != entry.key@ by {
                old(self)@.lemma_filter_pred(kept(now, entry.key@), i);
            }
        }
        self.entries.push(entry);
        proof {
            assert forall|i: int, j: int| 0 <= i < j < self@.len() implies self@[i].key@
                != self@[j].key@ by {
                if j == pruned.len() {
                    assert(self@[i] == pruned[i]);
                } else {
                    assert(self@[i] == pruned[i] && self@[j] == pruned[j]);
                }
            }
        }
        Ok(())
    }
}

/// `n` letters and digits drawn from the random bytes starting at `from`.
fn random_string(random: &Vec<u8>, from: usize, n: usize) -> (r: String)
    requires
        from + n <= random@.len(),
    ensures
        r@ == random_chars(random@, from as int, n as nat),
{
    proof {
        reveal_strlit("abcdefghijklmnopqrstuvwxyz0123456789");
    }
    let mut r = String::new();
    let mut i: usize = 0;
    while i < n
        invariant
            from + n <= random.len(),
            0 <= i <= n,
            CHALLENGE_ALPHABET@.len() == 36,
            r@ == random_chars(random@, from as int, i as nat),
        decreases n - i,
    {
        let k = (random[from + i] % 36) as usize;
        r.append(CHALLENGE_ALPHABET.substring_char(k, k + 1));
        i = i + 1;
        assert(r@ =~= random_chars(random@, from as int, i as nat));
    }
    r
}

/// The characters and the key of a new challenge, drawn from random bytes: the first
/// five bytes give the characters, the next ten the key.
pub fn new_challenge_strings(random: &Vec<u8>) -> (r: (String, ChallengeKey))
    requires
        random@.len() >= CHALLENGE_RANDOM_LEN,
    ensures
        r.0@ == random_chars(random@, 0, CHALLENGE_CHARS_LEN as nat),
        r.1@ == random_chars(random@, CHALLENGE_CHARS_LEN as int, CHALLENGE_KEY_LEN as nat),
{
    (random_string(random, 0, CHALLENGE_CHARS_LEN), random_string(random, CHALLENGE_CHARS_LEN, CHALLENGE_KEY_LEN))
}

} // verus!
