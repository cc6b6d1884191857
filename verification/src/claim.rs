//! Claiming experience points. The entry point is reserved; nothing is
//! claimed yet.

use vstd::prelude::*;
use crate::error::ErrorCode;
use crate::pubkey::Pubkey;

verus! {

/// What `claim_xp` works on.
#[derive(Clone, Copy, Debug, PartialEq, Eq)]
pub struct ClaimXP {
    pub user: Pubkey,
}

/// Claims experience points. Nothing is claimed yet: the call succeeds and
/// changes nothing.
pub fn claim_xp(ctx: &mut ClaimXP) -> (res: Result<(), ErrorCode>)
    ensures
        res is Ok,
        *final(ctx) == *old(ctx),
{
    Ok(())
}

} // verus!
