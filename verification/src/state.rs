//! The control state: the pause flag and the admin identity.

use crate::identity::Identity;
use vstd::prelude::*;

verus! {

/// The durable control record of one deployed asset: whether the asset is
/// globally paused, and the sole identity allowed to flip that flag.
///
/// It is created exactly once, together with the external ledger's asset
/// itself; `admin` is set from the creating principal and has no setter
/// afterwards (the design deliberately offers no admin rotation).
#[derive(Clone, Copy, Debug)]
pub struct State {
    /// Global kill switch: while `true`, every asset-mutating operation is
    /// rejected.
    pub is_paused: bool,
    /// The only principal permitted to pause and unpause.
    pub admin: Identity,
}

impl State {
    /// Stored size in bytes: one for the flag, 32 for the admin address.
    pub const SIZE: usize = 1 + 32;

    /// A control state is well formed when its admin identity is present:
    /// once the state exists, `admin` is never the null (all-zero) address.
    pub open spec fn wf(&self) -> bool {
        self.admin.is_nonzero()
    }

    /// Creates the control state for a freshly created asset: unpaused,
    /// administered by the creating principal.
    pub fn create(creator: Identity) -> (r: State)
        requires
            creator.is_nonzero(),
        ensures
            r.is_paused == false,
            r.admin == creator,
            r.wf(),
    {
        State { is_paused: false, admin: creator }
    }

    /// Sets the pause flag unconditionally and changes nothing else.
    /// Authorization is the caller's burden: only the pause and
    /// unpause decision procedures call this, after their admin check.
    pub fn set_paused(&mut self, value: bool)
        ensures
            final(self).is_paused == value,
            final(self).admin == old(self).admin,
            old(self).wf() ==> final(self).wf(),
    {
        self.is_paused = value;
    }
}

} // verus!
