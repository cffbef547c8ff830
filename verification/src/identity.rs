//! Principal identities: 32-byte account addresses.

use vstd::prelude::*;

verus! {

/// A principal identity: the 32-byte address of an account or authority.
///
/// Every party the authorization logic reasons about — the admin, a mint, a token account,
/// a declared authority — is known to it only as such an address. The
/// invocation environment is assumed to have already verified that a caller
/// controls the identity it presents; the authorization logic itself only compares
/// identities for equality.
#[derive(Clone, Copy, Debug)]
pub struct Identity {
    pub bytes: [u8; 32],
}

impl View for Identity {
    type V = Seq<u8>;

    open spec fn view(&self) -> Seq<u8> {
        self.bytes@
    }
}

impl Identity {
    /// The identity with the given address bytes.
    pub fn new(bytes: [u8; 32]) -> (r: Identity)
        ensures
            r@ == bytes@,
    {
        Identity { bytes }
    }

    /// An identity is considered present (non-null) when at least one of its
    /// bytes is set; the all-zero address stands for "no identity".
    pub open spec fn is_nonzero(&self) -> bool {
        exists|i: int| 0 <= i < 32 && self@[i] != 0
    }

    /// Decides whether this identity is present (not the all-zero address).
    pub fn check_nonzero(&self) -> (r: bool)
        ensures
            r == self.is_nonzero(),
    {
        let mut i: usize = 0;
        while i < 32
            invariant
                0 <= i <= 32,
                forall|j: int| 0 <= j < i ==> self@[j] == 0,
            decreases 32 - i,
        {
            if self.bytes[i] != 0 {
                proof {
                    assert(self@[i as int] != 0);
                }
                return true;
            }
            i += 1;
        }
        false
    }
}

impl PartialEq for Identity {
    /// Two identities are equal exactly when their 32 address bytes agree.
    fn eq(&self, other: &Identity) -> (r: bool) {
        let mut i: usize = 0;
        while i < 32
            invariant
                0 <= i <= 32,
                forall|j: int| 0 <= j < i ==> self@[j] == other@[j],
            decreases 32 - i,
        {
            if self.bytes[i] != other.bytes[i] {
                return false;
            }
            i += 1;
        }
        proof {
            assert(self@.len() == 32);
            assert(other@.len() == 32);
            assert(self@ =~= other@);
        }
        true
    }
}

impl Eq for Identity {
}

impl vstd::std_specs::cmp::PartialEqSpecImpl for Identity {
    open spec fn obeys_eq_spec() -> bool {
        true
    }

    open spec fn eq_spec(&self, other: &Identity) -> bool {
        self@ == other@
    }
}

} // verus!
