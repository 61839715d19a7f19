//! Two-phase registration of a device from a second channel: the anchor enters
//! registration mode, a device is added tentatively and gets a verification code, and
//! the code entered on an authenticated device commits it.

use vstd::prelude::*;
use crate::anchor::{Anchor, AnchorError, add_device_succeeds};
use crate::device::{Device, DeviceData, Timestamp, device_from_data};

verus! {

/// How long registration mode lasts: 15 minutes.
pub const REGISTRATION_MODE_DURATION_NS: u64 = 900_000_000_000;

/// Wrong codes after which a tentative registration is dropped.
pub const MAX_DEVICE_REGISTRATION_ATTEMPTS: u8 = 3;

/// Number of decimal digits of a verification code.
pub const VERIFICATION_CODE_DIGITS: usize = 6;

/// Bound on the numbers a verification code encodes.
pub const VERIFICATION_CODE_MODULUS: u64 = 1_000_000;

pub type DeviceVerificationCode = String;

pub type FailedAttemptsCounter = u8;

/// Registration state of new devices added with the two step device add flow.
#[derive(Clone, Debug)]
pub enum RegistrationState {
    DeviceRegistrationModeActive,
    DeviceTentativelyAdded {
        tentative_device: DeviceData,
        verification_code: DeviceVerificationCode,
        failed_attempts: FailedAttemptsCounter,
    },
}

/// An anchor's registration mode, until `expiration`.
#[derive(Clone, Debug)]
pub struct TentativeDeviceRegistration {
    pub expiration: Timestamp,
    pub state: RegistrationState,
}

/// Why a tentative device was not accepted.
#[derive(Clone, Copy, Debug, PartialEq, Eq, Structural)]
pub enum AddTentativeDeviceError {
    /// the anchor is not in registration mode, or it has expired
    DeviceRegistrationModeOff,
    /// a device is already waiting for verification
    AnotherDeviceTentativelyAdded,
}

/// What verifying a code led to.
#[derive(Clone, Copy, Debug, PartialEq, Eq, Structural)]
pub enum VerifyTentativeDeviceResponse {
    /// the code was right and the device was added to the anchor
    Verified,
    /// the code was wrong; at 0 retries left the registration was dropped
    WrongCode { retries_left: u8 },
    /// the anchor is not in registration mode
    DeviceRegistrationModeOff,
    /// registration mode had expired; it was dropped
    Expired,
    /// no device was added tentatively
    NoDeviceToVerify,
}

/// The decimal digit character for `d < 10`.
pub open spec fn digit_char(d: nat) -> char {
    seq!['0', '1', '2', '3', '4', '5', '6', '7', '8', '9'][d as int]
}

/// The last `k` decimal digits of `n`, most significant first.
pub open spec fn decimal_digits(n: nat, k: nat) -> Seq<char>
    decreases k,
{
    if k == 0 {
        Seq::empty()
    } else {
        decimal_digits(n / 10, (k - 1) as nat).push(digit_char(n % 10))
    }
}

/// The number a big-endian byte string stands for.
pub open spec fn big_endian_value(b: Seq<u8>) -> nat
    decreases b.len(),
{
    if b.len() == 0 {
        0
    } else {
        big_endian_value(b.drop_last()) * 256 + b.last() as nat
    }
}

/// Relies on `format!` with the `{:06}` specification: `n` in decimal, padded on the
/// left with zeros to 6 digits.
#[verifier::external_body]
fn six_digits(n: u64) -> (r: String)
    requires
        n < VERIFICATION_CODE_MODULUS,
    ensures
        r@ == decimal_digits(n as nat, VERIFICATION_CODE_DIGITS as nat),
{
    format!("{:06}", n)
}

/// The verification code drawn from random bytes: the first 8 of them, read as a
/// big-endian number, modulo one million, in 6 decimal digits.
pub fn new_verification_code(random: &Vec<u8>) -> (r: DeviceVerificationCode)
    requires
        random@.len() >= 8,
    ensures
        r@ == decimal_digits(
            big_endian_value(random@.subrange(0, 8)) % (VERIFICATION_CODE_MODULUS as nat),
            VERIFICATION_CODE_DIGITS as nat,
        ),
{
    let mut n: u64 = 0;
    let mut i: usize = 0;
    while i < 8
        invariant
            random@.len() >= 8,
            0 <= i <= 8,
            n as nat == big_endian_value(random@.subrange(0, i as int)),
            n < pow256(i as nat),
        decreases 8 - i,
    {
        assert(random@.subrange(0, i + 1).drop_last() =~= random@.subrange(0, i as int));
        proof {
            lemma_pow256_step(i as nat);
            assert(n * 256 + random@[i as int] < pow256((i + 1) as nat)) by (nonlinear_arith)
                requires
                    n < pow256(i as nat),
                    random@[i as int] < 256,
                    pow256((i + 1) as nat) == pow256(i as nat) * 256,
            ;
        }
        n = n * 256 + random[i] as u64;
        i = i + 1;
    }
    six_digits(n % VERIFICATION_CODE_MODULUS)
}

/// 256 to the power `i`.
pub open spec fn pow256(i: nat) -> nat
    decreases i,
{
    if i == 0 {
        1
    } else {
        pow256((i - 1) as nat) * 256
    }
}

proof fn lemma_pow256_step(i: nat)
    requires
        i < 8,
    ensures
        pow256(i + 1) == pow256(i) * 256,
        pow256(i + 1) <= pow256(8),
        pow256(8) == 0x1_0000_0000_0000_0000,
    decreases 8 - i,
{
    reveal_with_fuel(pow256, 9);
    if i + 1 < 8 {
        lemma_pow256_step(i + 1);
    }
}

/// Whether the registration is live at `now`.
pub open spec fn is_live(reg: Option<TentativeDeviceRegistration>, now: Timestamp) -> bool {
    reg matches Some(r) && r.expiration > now
}

/// `now` plus the registration mode duration, saturating.
pub open spec fn mode_expiration(now: Timestamp) -> Timestamp {
    if now as nat + REGISTRATION_MODE_DURATION_NS <= u64::MAX {
        (now + REGISTRATION_MODE_DURATION_NS) as u64
    } else {
        u64::MAX
    }
}

/// Puts the anchor in registration mode for 15 minutes from `now`, unless it is in a
/// live registration already, which is kept. Returns the expiration.
pub fn enter_device_registration_mode(
    registration: &mut Option<TentativeDeviceRegistration>,
    now: Timestamp,
) -> (r: Timestamp)
    ensures
        is_live(*old(registration), now) ==> *final(registration) == *old(registration)
            && r == old(registration)->Some_0.expiration,
        !is_live(*old(registration), now) ==> r == mode_expiration(now) && *final(registration)
            == Some(
            TentativeDeviceRegistration {
                expiration: r,
                state: RegistrationState::DeviceRegistrationModeActive,
            },
        ),
{
    if let Some(reg) = registration {
        if reg.expiration > now {
            return reg.expiration;
        }
    }
    let expiration = now.saturating_add(REGISTRATION_MODE_DURATION_NS);
    *registration = Some(
        TentativeDeviceRegistration {
            expiration,
            state: RegistrationState::DeviceRegistrationModeActive,
        },
    );
    expiration
}

/// Leaves registration mode.
pub fn exit_device_registration_mode(registration: &mut Option<TentativeDeviceRegistration>)
    ensures
        *final(registration) is None,
{
    *registration = None;
}

/// Adds `device` tentatively, with `verification_code`, to an anchor in live registration
/// mode with no tentative device yet; returns when the mode expires. An expired
/// registration is dropped.
pub fn add_tentative_device(
    registration: &mut Option<TentativeDeviceRegistration>,
    device: DeviceData,
    verification_code: DeviceVerificationCode,
    now: Timestamp,
) -> (r: Result<Timestamp, AddTentativeDeviceError>)
    ensures
        !is_live(*old(registration), now) ==> r == Err::<Timestamp, AddTentativeDeviceError>(
            AddTentativeDeviceError::DeviceRegistrationModeOff,
        ) && *final(registration) is None,
        is_live(*old(registration), now) ==> ({
            let reg = old(registration)->Some_0;
            match reg.state {
                RegistrationState::DeviceRegistrationModeActive => r == Ok::<
                    Timestamp,
                    AddTentativeDeviceError,
                >(reg.expiration) && *final(registration) == Some(
                    TentativeDeviceRegistration {
                        expiration: reg.expiration,
                        state: RegistrationState::DeviceTentativelyAdded {
                            tentative_device: device,
                            verification_code,
                            failed_attempts: 0,
                        },
                    },
                ),
                RegistrationState::DeviceTentativelyAdded { .. } => r == Err::<
                    Timestamp,
                    AddTentativeDeviceError,
                >(AddTentativeDeviceError::AnotherDeviceTentativelyAdded) && *final(registration)
                    == *old(registration),
            }
        }),
{
    let expiration = match registration {
        None => return Err(AddTentativeDeviceError::DeviceRegistrationModeOff),
        Some(reg) => {
            if reg.expiration <= now {
                *registration = None;
                return Err(AddTentativeDeviceError::DeviceRegistrationModeOff);
            }
            match reg.state {
                RegistrationState::DeviceTentativelyAdded { .. } => {
                    return Err(AddTentativeDeviceError::AnotherDeviceTentativelyAdded);
                },
                RegistrationState::DeviceRegistrationModeActive => reg.expiration,
            }
        },
    };
    *registration = Some(
        TentativeDeviceRegistration {
            expiration,
            state: RegistrationState::DeviceTentativelyAdded {
                tentative_device: device,
                verification_code,
                failed_attempts: 0,
            },
        },
    );
    Ok(expiration)
}

/// The count of failed attempts after one more wrong code, saturating.
pub open spec fn next_failed_attempts(failed_attempts: u8) -> u8 {
    if failed_attempts < u8::MAX {
        (failed_attempts + 1) as u8
    } else {
        u8::MAX
    }
}

/// Attempts left after `failed_attempts` wrong codes.
pub open spec fn retries_left(failed_attempts: u8) -> u8 {
    if failed_attempts < MAX_DEVICE_REGISTRATION_ATTEMPTS {
        (MAX_DEVICE_REGISTRATION_ATTEMPTS - failed_attempts) as u8
    } else {
        0
    }
}

/// Checks `code` against the device added tentatively to `anchor`. The right code adds
/// the device to the anchor, by the checks of `Anchor::add_device`, and ends
/// registration mode; should the anchor refuse the device, its error is returned and
/// nothing changes. A wrong code counts as a failed attempt, and the third one ends
/// registration mode. An expired registration is dropped.
pub fn verify_tentative_device(
    anchor: &mut Anchor,
    registration: &mut Option<TentativeDeviceRegistration>,
    code: &DeviceVerificationCode,
    now: Timestamp,
) -> (r: Result<VerifyTentativeDeviceResponse, AnchorError>)
    ensures
        *old(registration) is None ==> r == Ok::<VerifyTentativeDeviceResponse, AnchorError>(
            VerifyTentativeDeviceResponse::DeviceRegistrationModeOff,
        ) && *final(registration) is None,
        *old(registration) is Some && !is_live(*old(registration), now) ==> r == Ok::<
            VerifyTentativeDeviceResponse,
            AnchorError,
        >(VerifyTentativeDeviceResponse::Expired) && *final(registration) is None,
        is_live(*old(registration), now) ==> ({
            let reg = old(registration)->Some_0;
            match reg.state {
                RegistrationState::DeviceRegistrationModeActive => r == Ok::<
                    VerifyTentativeDeviceResponse,
                    AnchorError,
                >(VerifyTentativeDeviceResponse::NoDeviceToVerify) && *final(registration)
                    == *old(registration),
                RegistrationState::DeviceTentativelyAdded {
                    tentative_device,
                    verification_code,
                    failed_attempts,
                } => if code@ == verification_code@ {
                    let device = device_from_data(tentative_device);
                    &&& (r is Ok <==> add_device_succeeds(old(anchor)@, device))
                    &&& (r is Ok ==> r == Ok::<VerifyTentativeDeviceResponse, AnchorError>(
                        VerifyTentativeDeviceResponse::Verified,
                    ) && final(anchor)@ == old(anchor)@.push(device) && *final(registration) is None)
                    &&& (r is Err ==> *final(registration) == *old(registration))
                } else {
                    let failed = next_failed_attempts(failed_attempts);
                    &&& r == Ok::<VerifyTentativeDeviceResponse, AnchorError>(
                        VerifyTentativeDeviceResponse::WrongCode { retries_left: retries_left(failed) },
                    )
                    &&& (failed >= MAX_DEVICE_REGISTRATION_ATTEMPTS ==> *final(registration) is None)
                    &&& (failed < MAX_DEVICE_REGISTRATION_ATTEMPTS ==> *final(registration) == Some(
                        TentativeDeviceRegistration {
                            expiration: reg.expiration,
                            state: RegistrationState::DeviceTentativelyAdded {
                                tentative_device,
                                verification_code,
                                failed_attempts: failed,
                            },
                        },
                    ))
                },
            }
        }),
        r is Err || !(r == Ok::<VerifyTentativeDeviceResponse, AnchorError>(
            VerifyTentativeDeviceResponse::Verified,
        )) ==> final(anchor)@ == old(anchor)@,
        old(anchor).wf() ==> final(anchor).wf(),
{
    let taken = registration.take();
    let reg = match taken {
        None => return Ok(VerifyTentativeDeviceResponse::DeviceRegistrationModeOff),
        Some(reg) => reg,
    };
    if reg.expiration <= now {
        return Ok(VerifyTentativeDeviceResponse::Expired);
    }
    let expiration = reg.expiration;
    match reg.state {
        RegistrationState::DeviceRegistrationModeActive => {
            *registration = Some(reg);
            Ok(VerifyTentativeDeviceResponse::NoDeviceToVerify)
        },
        RegistrationState::DeviceTentativelyAdded {
            tentative_device,
            verification_code,
            failed_attempts,
        } => {
            if *code == verification_code {
                match anchor.add_device_or_return(Device::from(tentative_device)) {
                    Ok(()) => Ok(VerifyTentativeDeviceResponse::Verified),
                    Err((e, device)) => {
                        *registration = Some(
                            TentativeDeviceRegistration {
                                expiration,
                                state: RegistrationState::DeviceTentativelyAdded {
                                    tentative_device: DeviceData::from(device),
                                    verification_code,
                                    failed_attempts,
                                },
                            },
                        );
                        Err(e)
                    },
                }
            } else {
                let failed = failed_attempts.saturating_add(1);
                if failed < MAX_DEVICE_REGISTRATION_ATTEMPTS {
                    *registration = Some(
                        TentativeDeviceRegistration {
                            expiration,
                            state: RegistrationState::DeviceTentativelyAdded {
                                tentative_device,
                                verification_code,
                                failed_attempts: failed,
                            },
                        },
                    );
                }
                Ok(
                    VerifyTentativeDeviceResponse::WrongCode {
                        retries_left: MAX_DEVICE_REGISTRATION_ATTEMPTS.saturating_sub(failed),
                    },
                )
            }
        },
    }
}

} // verus!
