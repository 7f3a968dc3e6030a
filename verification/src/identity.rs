//! Opaque 256-bit identities.
//!
//! Accounts, assets, and participants are addressed by 32-byte public
//! keys.  The core only ever compares such keys for equality, so it models
//! them as a pair of 128-bit halves; the host converts real keys to and
//! from this form.
use vstd::prelude::*;
use crate::constants::DEPLOYER_ID_HI;
use crate::constants::DEPLOYER_ID_LO;

verus! {

/// A 256-bit identity, split into two 128-bit halves.
#[derive(Clone, Copy, Debug, PartialEq, Eq, Hash, Structural)]
pub struct Identity {
    pub hi: u128,
    pub lo: u128,
}

impl Identity {
    /// The fixed, pre-provisioned identity allowed to initialize the
    /// global configuration.
    pub fn deployer() -> (r: Identity)
        ensures
            r == (Identity { hi: DEPLOYER_ID_HI, lo: DEPLOYER_ID_LO }),
    {
        Identity { hi: DEPLOYER_ID_HI, lo: DEPLOYER_ID_LO }
    }
}

} // verus!
