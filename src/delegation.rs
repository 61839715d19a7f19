//! Delegations: the user key of an anchor on a frontend, and the signatures that let a
//! session key act for it until an expiration.

use vstd::prelude::*;
use vstd::string::*;
use crate::assets::{sha256, sha256_of};
use crate::device::{AnchorNumber, Timestamp};
use crate::principal::{self_authenticating, self_authenticating_of};
use crate::signature_map::{SignatureMap, SigTriple, has_pair, pairs_unique, put_result};

verus! {

/// How long a delegation lasts unless the caller asks for less: 30 minutes.
pub const DEFAULT_EXPIRATION_PERIOD_NS: u64 = 1_800_000_000_000;

/// The domain separator of delegation signatures and seeds.
pub const DELEGATION_DOMAIN: &'static str = "ic-request-auth-delegation";

/// Length of the canister-wide salt.
pub const SALT_LEN: usize = 32;

/// A delegation of a session key until an expiration.
#[derive(Clone, Debug)]
pub struct Delegation {
    pub pubkey: Vec<u8>,
    pub expiration: Timestamp,
}

/// The expiration of a delegation prepared at `now`: 30 minutes on, or less if the
/// caller asks for less; it saturates.
pub open spec fn delegation_expiration_of(now: Timestamp, max_time_to_live: Option<u64>) -> Timestamp {
    let ttl = match max_time_to_live {
        Some(t) => if t < DEFAULT_EXPIRATION_PERIOD_NS {
            t
        } else {
            DEFAULT_EXPIRATION_PERIOD_NS
        },
        None => DEFAULT_EXPIRATION_PERIOD_NS,
    };
    if now + ttl <= u64::MAX {
        (now + ttl) as u64
    } else {
        u64::MAX
    }
}

/// A domain separator: the length of the name in one byte, then the name.
pub open spec fn domain_separator(name: Seq<u8>) -> Seq<u8> {
    seq![name.len() as u8] + name
}

/// The `k` low-order bytes of `n`, most significant first.
pub open spec fn be_bytes(n: nat, k: nat) -> Seq<u8>
    decreases k,
{
    if k == 0 {
        Seq::empty()
    } else {
        be_bytes(n / 256, (k - 1) as nat).push((n % 256) as u8)
    }
}

/// What the seed of an anchor on a frontend hashes: the delegation domain separator,
/// the anchor number in 8 big-endian bytes, the frontend hostname's bytes, and the salt.
pub open spec fn seed_blob(anchor_number: AnchorNumber, frontend: Seq<char>, salt: Seq<u8>) -> Seq<u8> {
    domain_separator(DELEGATION_DOMAIN.spec_bytes()) + be_bytes(anchor_number as nat, 8)
        + vstd::utf8::encode_utf8(frontend) + salt
}

/// The seed of an anchor on a frontend.
pub open spec fn seed_of(anchor_number: AnchorNumber, frontend: Seq<char>, salt: Seq<u8>) -> Seq<u8> {
    sha256_of(seed_blob(anchor_number, frontend, salt))
}

/// The object identifier of canister signatures, 1.3.6.1.4.1.56387.1.2, in DER.
pub open spec fn canister_sig_oid() -> Seq<u8> {
    seq![0x30u8, 0x0C, 0x06, 0x0A, 0x2B, 0x06, 0x01, 0x04, 0x01, 0x83, 0xB8, 0x43, 0x01, 0x02]
}

/// The DER encoding of the canister signature public key of a canister and a seed.
pub open spec fn canister_sig_key_der(canister_id: Seq<u8>, seed: Seq<u8>) -> Seq<u8> {
    let bits = seq![canister_id.len() as u8] + canister_id + seed;
    seq![0x30u8, (17 + bits.len()) as u8] + canister_sig_oid() + seq![0x03u8, (1 + bits.len()) as u8, 0x00u8]
        + bits
}

/// The unsigned LEB128 encoding of `n`.
pub open spec fn leb128(n: nat) -> Seq<u8>
    decreases n,
{
    if n < 128 {
        seq![n as u8]
    } else {
        seq![(n % 128 + 128) as u8] + leb128(n / 128)
    }
}

/// Whether `a` has a smaller byte than `b` where they first differ.
pub open spec fn lex_less(a: Seq<u8>, b: Seq<u8>) -> bool {
    exists|i: int|
        0 <= i < a.len() && i < b.len() && a[i] < b[i] && forall|j: int| 0 <= j < i ==> a[j] == b[j]
}

/// The representation-independent hash of the delegation map
/// `{pubkey: session_key, expiration: expiration}`: the SHA-256 of its two
/// key-hash/value-hash pairs, in byte order.
pub open spec fn delegation_map_hash(session_key: Seq<u8>, expiration: u64) -> Seq<u8> {
    let p = sha256_of("pubkey".spec_bytes()) + sha256_of(session_key);
    let e = sha256_of("expiration".spec_bytes()) + sha256_of(leb128(expiration as nat));
    if lex_less(e, p) {
        sha256_of(e + p)
    } else {
        sha256_of(p + e)
    }
}

/// The hash that is signed for a delegation: SHA-256 over the delegation domain
/// separator and the map hash.
pub open spec fn delegation_msg_hash(session_key: Seq<u8>, expiration: u64) -> Seq<u8> {
    sha256_of(
        domain_separator(DELEGATION_DOMAIN.spec_bytes()) + delegation_map_hash(session_key, expiration),
    )
}

/// The signature-map entry a delegation adds.
pub open spec fn delegation_entry(
    anchor_number: AnchorNumber,
    frontend: Seq<char>,
    salt: Seq<u8>,
    session_key: Seq<u8>,
    now: Timestamp,
    max_time_to_live: Option<u64>,
) -> SigTriple {
    let expiration = delegation_expiration_of(now, max_time_to_live);
    (
        sha256_of(seed_of(anchor_number, frontend, salt)),
        delegation_msg_hash(session_key, expiration),
        expiration,
    )
}

/// The expiration of a delegation prepared at `now`.
pub fn delegation_expiration(now: Timestamp, max_time_to_live: Option<u64>) -> (r: Timestamp)
    ensures
        r == delegation_expiration_of(now, max_time_to_live),
{
    let ttl = match max_time_to_live {
        Some(t) => if t < DEFAULT_EXPIRATION_PERIOD_NS {
            t
        } else {
            DEFAULT_EXPIRATION_PERIOD_NS
        },
        None => DEFAULT_EXPIRATION_PERIOD_NS,
    };
    now.saturating_add(ttl)
}

/// Appends a byte slice to a vector.
fn extend(v: &mut Vec<u8>, b: &[u8])
    ensures
        final(v)@ == old(v)@ + b@,
{
    let mut i: usize = 0;
    while i < b.len()
        invariant
            0 <= i <= b@.len(),
            v@ == old(v)@ + b@.subrange(0, i as int),
        decreases b@.len() - i,
    {
        v.push(b[i]);
        i = i + 1;
        assert(v@ =~= old(v)@ + b@.subrange(0, i as int));
    }
    assert(b@.subrange(0, b@.len() as int) =~= b@);
}

proof fn lemma_delegation_domain_len()
    ensures
        DELEGATION_DOMAIN.spec_bytes().len() == 26,
{
    reveal_strlit("ic-request-auth-delegation");
    vstd::string::is_ascii_spec_bytes(DELEGATION_DOMAIN);
    assert(vstd::string::is_ascii(DELEGATION_DOMAIN)) by {
        reveal_strlit("ic-request-auth-delegation");
    }
}

/// The delegation domain separator.
fn delegation_domain_separator() -> (r: Vec<u8>)
    ensures
        r@ == domain_separator(DELEGATION_DOMAIN.spec_bytes()),
{
    proof {
        lemma_delegation_domain_len();
    }
    let name = DELEGATION_DOMAIN.as_bytes();
    let mut r: Vec<u8> = Vec::new();
    r.push(name.len() as u8);
    extend(&mut r, name);
    r
}

/// The `k` low-order bytes of `n`, most significant first.
fn be_bytes_of(n: u64, k: usize) -> (r: Vec<u8>)
    requires
        k <= 8,
    ensures
        r@ == be_bytes(n as nat, k as nat),
    decreases k,
{
    if k == 0 {
        Vec::new()
    } else {
        let mut r = be_bytes_of(n / 256, k - 1);
        r.push((n % 256) as u8);
        r
    }
}

/// The unsigned LEB128 encoding of `n`.
fn leb128_of(n: u64) -> (r: Vec<u8>)
    ensures
        r@ == leb128(n as nat),
    decreases n,
{
    if n < 128 {
        let r = vec![n as u8];
        assert(r@ =~= seq![n as u8]);
        r
    } else {
        let mut r = vec![(n % 128 + 128) as u8];
        let rest = leb128_of(n / 128);
        extend(&mut r, rest.as_slice());
        assert(r@ =~= seq![(n % 128 + 128) as u8] + leb128(n as nat / 128));
        r
    }
}

/// Whether `a` has a smaller byte than `b` where they first differ.
fn bytes_less(a: &Vec<u8>, b: &Vec<u8>) -> (r: bool)
    ensures
        r == lex_less(a@, b@),
{
    let mut i: usize = 0;
    while i < a.len() && i < b.len()
        invariant
            0 <= i <= a@.len(),
            i <= b@.len(),
            forall|j: int| 0 <= j < i ==> a@[j] == b@[j],
        decreases a@.len() - i,
    {
        if a[i] != b[i] {
            let less = a[i] < b[i];
            proof {
                if !less {
                    assert forall|k: int|
                        0 <= k < a@.len() && k < b@.len() && a@[k] < b@[k] implies !(forall|j: int|
                        0 <= j < k ==> a@[j] == b@[j]) by {
                        if k > i {
                            assert(!(a@[i as int] == b@[i as int]));
                        }
                    }
                }
            }
            return less;
        }
        i = i + 1;
    }
    proof {
        assert forall|k: int|
            0 <= k < a@.len() && k < b@.len() && a@[k] < b@[k] implies !(forall|j: int|
            0 <= j < k ==> a@[j] == b@[j]) by {
            assert(a@[k] == b@[k]);
        }
    }
    false
}

/// The seed of an anchor on a frontend, from the canister-wide salt.
pub fn calculate_seed(anchor_number: AnchorNumber, frontend: &String, salt: &Vec<u8>) -> (r: Vec<u8>)
    ensures
        r@ == seed_of(anchor_number, frontend@, salt@),
        r@.len() == 32,
{
    let mut blob = delegation_domain_separator();
    let number = be_bytes_of(anchor_number, 8);
    extend(&mut blob, number.as_slice());
    extend(&mut blob, frontend.as_str().as_bytes());
    extend(&mut blob, salt.as_slice());
    sha256(blob.as_slice())
}

/// The DER encoding of the canister signature public key of a canister and a seed.
pub fn der_encode_canister_sig_key(canister_id: &Vec<u8>, seed: &Vec<u8>) -> (r: Vec<u8>)
    requires
        canister_id@.len() + seed@.len() < 200,
    ensures
        r@ == canister_sig_key_der(canister_id@, seed@),
{
    let mut bits: Vec<u8> = Vec::new();
    bits.push(canister_id.len() as u8);
    extend(&mut bits, canister_id.as_slice());
    extend(&mut bits, seed.as_slice());
    let mut der: Vec<u8> = Vec::new();
    der.push(0x30);
    der.push((17 + bits.len()) as u8);
    let oid: Vec<u8> = vec![0x30, 0x0C, 0x06, 0x0A, 0x2B, 0x06, 0x01, 0x04, 0x01, 0x83, 0xB8, 0x43, 0x01, 0x02];
    extend(&mut der, oid.as_slice());
    der.push(0x03);
    der.push((1 + bits.len()) as u8);
    der.push(0x00);
    extend(&mut der, bits.as_slice());
    assert(oid@ =~= canister_sig_oid());
    assert(der@ =~= canister_sig_key_der(canister_id@, seed@));
    der
}

/// Concatenation of two byte strings.
fn concat(a: &Vec<u8>, b: &Vec<u8>) -> (r: Vec<u8>)
    ensures
        r@ == a@ + b@,
{
    let mut r: Vec<u8> = Vec::new();
    extend(&mut r, a.as_slice());
    extend(&mut r, b.as_slice());
    assert(r@ =~= a@ + b@);
    r
}

/// The hash signed for the delegation of `session_key` until `expiration`.
pub fn delegation_signature_msg_hash(session_key: &Vec<u8>, expiration: u64) -> (r: Vec<u8>)
    ensures
        r@ == delegation_msg_hash(session_key@, expiration),
        r@.len() == 32,
{
    let pubkey_key = sha256("pubkey".as_bytes());
    let pubkey_value = sha256(session_key.as_slice());
    let p = concat(&pubkey_key, &pubkey_value);
    let expiration_key = sha256("expiration".as_bytes());
    let encoded = leb128_of(expiration);
    let expiration_value = sha256(encoded.as_slice());
    let e = concat(&expiration_key, &expiration_value);
    let map_hash = if bytes_less(&e, &p) {
        sha256(concat(&e, &p).as_slice())
    } else {
        sha256(concat(&p, &e).as_slice())
    };
    let msg = concat(&delegation_domain_separator(), &map_hash);
    sha256(msg.as_slice())
}

/// Prepares a delegation of `session_key` for an anchor on a frontend at `now`: records
/// its signature in `sigs` and returns the user key and the expiration. The canister id
/// and the salt are those of this service.
pub fn prepare_delegation(
    sigs: &mut SignatureMap,
    canister_id: &Vec<u8>,
    anchor_number: AnchorNumber,
    frontend: &String,
    session_key: &Vec<u8>,
    salt: &Vec<u8>,
    now: Timestamp,
    max_time_to_live: Option<u64>,
) -> (r: (Vec<u8>, Timestamp))
    requires
        old(sigs).wf(),
        canister_id@.len() <= 29,
    ensures
        r.0@ == canister_sig_key_der(canister_id@, seed_of(anchor_number, frontend@, salt@)),
        r.1 == delegation_expiration_of(now, max_time_to_live),
        final(sigs)@ == put_result(
            old(sigs)@,
            delegation_entry(anchor_number, frontend@, salt@, session_key@, now, max_time_to_live),
        ),
        final(sigs).wf(),
{
    let seed = calculate_seed(anchor_number, frontend, salt);
    let expiration = delegation_expiration(now, max_time_to_live);
    let msg_hash = delegation_signature_msg_hash(session_key, expiration);
    let seed_hash = sha256(seed.as_slice());
    sigs.put(seed_hash, msg_hash, expiration);
    let user_key = der_encode_canister_sig_key(canister_id, &seed);
    (user_key, expiration)
}

/// The delegation of `session_key` until `expiration` for an anchor on a frontend, if
/// its signature is recorded in `sigs`.
pub fn get_delegation(
    sigs: &SignatureMap,
    anchor_number: AnchorNumber,
    frontend: &String,
    session_key: &Vec<u8>,
    expiration: Timestamp,
    salt: &Vec<u8>,
) -> (r: Option<Delegation>)
    requires
        sigs.wf(),
    ensures
        has_pair(
            sigs@,
            sha256_of(seed_of(anchor_number, frontend@, salt@)),
            delegation_msg_hash(session_key@, expiration),
        ) ==> (r matches Some(d) && d.pubkey@ == session_key@ && d.expiration == expiration),
        !has_pair(
            sigs@,
            sha256_of(seed_of(anchor_number, frontend@, salt@)),
            delegation_msg_hash(session_key@, expiration),
        ) ==> r is None,
{
    let seed = calculate_seed(anchor_number, frontend, salt);
    let seed_hash = sha256(seed.as_slice());
    let msg_hash = delegation_signature_msg_hash(session_key, expiration);
    if sigs.contains(&seed_hash, &msg_hash) {
        let pubkey = session_key.clone();
        assert(pubkey@ =~= session_key@);
        Some(Delegation { pubkey, expiration })
    } else {
        None
    }
}

/// The principal of an anchor on a frontend: the self-authenticating principal of its
/// user key.
pub fn get_principal(
    canister_id: &Vec<u8>,
    anchor_number: AnchorNumber,
    frontend: &String,
    salt: &Vec<u8>,
) -> (r: Vec<u8>)
    requires
        canister_id@.len() <= 29,
    ensures
        r@ == self_authenticating_of(
            canister_sig_key_der(canister_id@, seed_of(anchor_number, frontend@, salt@)),
        ),
{
    let seed = calculate_seed(anchor_number, frontend, salt);
    let user_key = der_encode_canister_sig_key(canister_id, &seed);
    self_authenticating(&user_key)
}

/// Preparing the same delegation twice at the same time gives the same user key and
/// expiration, and the second time leaves the signature map as the first left it.
pub proof fn lemma_prepare_delegation_idempotent(
    sigs: Seq<SigTriple>,
    canister_id: Seq<u8>,
    anchor_number: AnchorNumber,
    frontend: Seq<char>,
    session_key: Seq<u8>,
    salt: Seq<u8>,
    now: Timestamp,
    max_time_to_live: Option<u64>,
)
    requires
        pairs_unique(sigs),
    ensures
        ({
            let e = delegation_entry(anchor_number, frontend, salt, session_key, now, max_time_to_live);
            put_result(put_result(sigs, e), e) == put_result(sigs, e)
        }),
{
    let e = delegation_entry(anchor_number, frontend, salt, session_key, now, max_time_to_live);
    crate::signature_map::lemma_put_idempotent(sigs, e);
}

/// Most frontends kept in the list of recently used delegation origins, by default.
pub const MAX_NUM_DELEGATION_ORIGINS: u64 = 1000;

/// A frontend hostname and when it was last used for a delegation.
#[derive(Clone, Debug)]
pub struct DelegationOrigin {
    pub frontend: String,
    pub last_used: Timestamp,
}

/// The list after recording a delegation for `frontend` at `now`: its entry, if any,
/// leaves its place, the frontend goes last with time `now`, and when the list then
/// holds more than `max` entries the first one goes.
pub open spec fn record_origin_result(
    origins: Seq<(Seq<char>, Timestamp)>,
    frontend: Seq<char>,
    now: Timestamp,
    max: u64,
) -> Seq<(Seq<char>, Timestamp)> {
    let pushed = origins.filter(|o: (Seq<char>, Timestamp)| o.0 != frontend).push((frontend, now));
    if pushed.len() > max {
        pushed.drop_first()
    } else {
        pushed
    }
}

/// What the contracts see of the origin list.
pub open spec fn origins_view(origins: Seq<DelegationOrigin>) -> Seq<(Seq<char>, Timestamp)> {
    origins.map_values(|o: DelegationOrigin| (o.frontend@, o.last_used))
}

proof fn lemma_filter_step_origin(
    s: Seq<(Seq<char>, Timestamp)>,
    p: spec_fn((Seq<char>, Timestamp)) -> bool,
    i: int,
)
    requires
        0 <= i < s.len(),
    ensures
        s.subrange(0, i + 1).filter(p) == if p(s[i]) {
            s.subrange(0, i).filter(p).push(s[i])
        } else {
            s.subrange(0, i).filter(p)
        },
{
    reveal(Seq::filter);
    assert(s.subrange(0, i + 1).drop_last() =~= s.subrange(0, i));
}

/// Records a delegation for `frontend` at `now` in the list of recently used origins,
/// which keeps at most `max` of them, in the order of their last use.
pub fn record_delegation_origin(
    origins: &mut Vec<DelegationOrigin>,
    frontend: String,
    now: Timestamp,
    max: u64,
)
    ensures
        origins_view(final(origins)@) == record_origin_result(
            origins_view(old(origins)@),
            frontend@,
            now,
            max,
        ),
{
    let ghost before = origins_view(origins@);
    let ghost p = |o: (Seq<char>, Timestamp)| o.0 != frontend@;
    let mut rest: Vec<DelegationOrigin> = Vec::new();
    std::mem::swap(&mut rest, origins);
    let mut i: usize = 0;
    assert(before.len() == rest.len());
    assert(origins_view(origins@) =~= Seq::<(Seq<char>, Timestamp)>::empty());
    while rest.len() > 0
        invariant
            i + rest@.len() == before.len(),
            before.len() <= usize::MAX,
            origins_view(rest@) == before.subrange(i as int, before.len() as int),
            origins_view(origins@) == before.subrange(0, i as int).filter(p),
            p == (|o: (Seq<char>, Timestamp)| o.0 != frontend@),
        decreases rest@.len(),
    {
        let ghost rest_before = rest@;
        let o = rest.remove(0);
        proof {
            lemma_filter_step_origin(before, p, i as int);
            assert(origins_view(rest_before)[0] == before[i as int]);
        }
        if o.frontend != frontend {
            let ghost mid = origins@;
            origins.push(o);
            assert(origins_view(origins@) =~= origins_view(mid).push((o.frontend@, o.last_used)));
        }
        proof {
            let old_i = i as int;
            assert forall|k: int| 0 <= k < rest@.len() implies origins_view(rest@)[k] == before[old_i
                + 1 + k] by {
                assert(rest@[k] == rest_before[k + 1]);
                assert(origins_view(rest_before)[k + 1] == before.subrange(old_i, before.len() as int)[k
                    + 1]);
            }
        }
        i = i + 1;
        assert(origins_view(rest@) =~= before.subrange(i as int, before.len() as int));
    }
    assert(before.subrange(0, before.len() as int) =~= before);
    let ghost kept = origins@;
    let ghost frontend_view = frontend@;
    origins.push(DelegationOrigin { frontend, last_used: now });
    assert(origins_view(origins@) =~= origins_view(kept).push((frontend_view, now)));
    if origins.len() as u64 > max {
        let ghost pushed = origins@;
        origins.remove(0);
        assert(origins_view(origins@) =~= origins_view(pushed).drop_first());
    }
}

} // verus!
