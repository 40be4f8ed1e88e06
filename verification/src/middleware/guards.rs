//! Route guards: a valid token is required, and for the authority guard a
//! permission bit of its role.

use crate::claims::{has_bit, role_permits, Authority};
use vstd::prelude::*;

verus! {

/// The authority guard's answer for claims `authority` on permission bit
/// `perm_id`: `None` to let the request through, `Some(403)` to refuse it.
pub fn authority_guard(authority: &Authority, perm_id: u32) -> (r: Option<u16>)
    requires
        perm_id < 128,
    ensures
        has_bit(authority.role, perm_id as u128) ==> r is None,
        !has_bit(authority.role, perm_id as u128) ==> r == Some(403u16),
{
    if role_permits(authority.role, perm_id) {
        None
    } else {
        Some(403)
    }
}

} // verus!
