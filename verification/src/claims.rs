//! Claim structs carried by authentication tokens, and their permission bits.

use uuid::Uuid;
use vstd::prelude::*;

verus! {

/// `uuid::Uuid`, carried through the claims unread.
#[verifier::external_type_specification]
#[verifier::external_body]
pub struct ExUuid(uuid::Uuid);

/// `Uuid::clone`: `Uuid` derives `Clone` beside `Copy`, so a clone is the
/// same value.
pub assume_specification[ <uuid::Uuid as Clone>::clone ](u: &uuid::Uuid) -> (r: uuid::Uuid)
    ensures
        r == *u,
;

/// Reads the clock with `chrono::Utc::now().timestamp()`: the current time
/// in whole seconds since the Unix epoch. It is the time, so nothing is
/// claimed of the value.
#[verifier::external_body]
fn now_secs() -> i64 {
    chrono::Utc::now().timestamp()
}

/// How long a freshly issued token stays valid, in seconds.
pub const TOKEN_LIFETIME_SECS: usize = 500;

/// The expiry of a token issued at `iat` (seconds since the epoch):
/// `TOKEN_LIFETIME_SECS` later, wrapping around the width of `usize` as the
/// plain addition does in a build without overflow checks.
pub open spec fn expiry_of(iat: usize) -> usize {
    if iat + TOKEN_LIFETIME_SECS > usize::MAX {
        (iat + TOKEN_LIFETIME_SECS - usize::MAX - 1) as usize
    } else {
        (iat + TOKEN_LIFETIME_SECS) as usize
    }
}

/// Minimal claims: subject, audiences, issue and expiry times.
#[derive(Debug, Clone)]
pub struct Identity {
    pub aud: Vec<String>,
    pub iat: usize,
    pub exp: usize,
    pub sub: Uuid,
}

/// Claims with a permission bitmask `role` and a target resource `rcpt`.
#[derive(Debug, Clone)]
pub struct Authority {
    pub iat: usize,
    pub exp: usize,
    pub role: u128,
    pub aud: Vec<String>,
    pub sub: Uuid,
    pub rcpt: Uuid,
}

impl Identity {
    /// Claims for `sub` and `aud`, issued now.
    pub fn new(sub: Uuid, aud: Vec<String>) -> (r: Self)
        ensures
            r.sub == sub,
            r.aud@ == aud@,
            r.exp == expiry_of(r.iat),
    {
        Self::issued_at(sub, aud, now_secs())
    }

    /// Claims for `sub` and `aud` issued at `secs` seconds since the epoch
    /// (taken as a `usize`, as the clock reading is converted).
    pub fn issued_at(sub: Uuid, aud: Vec<String>, secs: i64) -> (r: Self)
        ensures
            r.sub == sub,
            r.aud@ == aud@,
            r.iat == secs as usize,
            r.exp == expiry_of(secs as usize),
    {
        let iat = #[verifier::truncate] (secs as usize);
        Self { aud, iat, exp: iat.wrapping_add(TOKEN_LIFETIME_SECS), sub }
    }
}

impl Authority {
    /// Claims for `sub` with permission bits `role` on `rcpt`, issued now.
    pub fn new(sub: Uuid, role: u128, rcpt: Uuid, aud: Vec<String>) -> (r: Self)
        ensures
            r.sub == sub,
            r.role == role,
            r.rcpt == rcpt,
            r.aud@ == aud@,
            r.exp == expiry_of(r.iat),
    {
        Self::issued_at(sub, role, rcpt, aud, now_secs())
    }

    /// Claims for `sub` with permission bits `role` on `rcpt`, issued at
    /// `secs` seconds since the epoch.
    pub fn issued_at(sub: Uuid, role: u128, rcpt: Uuid, aud: Vec<String>, secs: i64) -> (r: Self)
        ensures
            r.sub == sub,
            r.role == role,
            r.rcpt == rcpt,
            r.aud@ == aud@,
            r.iat == secs as usize,
            r.exp == expiry_of(secs as usize),
    {
        let iat = #[verifier::truncate] (secs as usize);
        Self { aud, iat, exp: iat.wrapping_add(TOKEN_LIFETIME_SECS), sub, role, rcpt }
    }

    /// Whether the role grants permission `perm_id`: bit `perm_id` of
    /// `role` is set.
    pub fn check(&self, perm_id: u16) -> (r: bool)
        requires
            perm_id < 128,
        ensures
            r == has_bit(self.role, perm_id as u128),
    {
        let perm_value: u128 = 1u128 << (perm_id as u128);
        let r = self.role & perm_value == perm_value;
        proof {
            let role = self.role;
            let p = perm_id as u128;
            assert(((role & (1u128 << p)) == (1u128 << p)) == ((role >> p) & 1 == 1)) by (bit_vector)
                requires
                    p < 128,
            ;
        }
        r
    }
}

/// Whether bit `bit` of the bitmask `role` is set.
pub open spec fn has_bit(role: u128, bit: u128) -> bool {
    (role >> bit) & 1 == 1
}

/// Whether `role` grants permission `perm_id`, as the route guard asks it:
/// bit `perm_id` must be set.
pub fn role_permits(role: u128, perm_id: u32) -> (r: bool)
    requires
        perm_id < 128,
    ensures
        r == has_bit(role, perm_id as u128),
{
    let p_value: u128 = 1u128 << perm_id;
    let r = role & p_value == p_value;
    proof {
        let p = perm_id as u128;
        assert(((role & (1u128 << p)) == (1u128 << p)) == ((role >> p) & 1 == 1)) by (bit_vector)
            requires
                p < 128,
        ;
    }
    r
}

} // verus!
