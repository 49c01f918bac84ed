//! Identities: the principals that create, own and trade certificates.

use vstd::prelude::*;

verus! {

/// An authenticated principal, named by its 32-byte public key.
///
/// The host proves that a caller holds the key before any operation runs;
/// the registry only ever asks whether two identities are the same.
#[derive(Clone, Copy, Debug, Eq)]
pub struct Identity {
    pub key: [u8; 32],
}

impl View for Identity {
    type V = Seq<u8>;

    open spec fn view(&self) -> Seq<u8> {
        self.key@
    }
}

impl PartialEq for Identity {
    fn eq(&self, other: &Self) -> (r: bool) {
        let mut i: usize = 0;
        while i < 32
            invariant
                i <= 32,
                forall|j: int| 0 <= j < i ==> self.key[j] == other.key[j],
            decreases 32 - i,
        {
            if self.key[i] != other.key[i] {
                return false;
            }
            i += 1;
        }
        assert(self.key@ =~= other.key@);
        true
    }
}

impl vstd::std_specs::cmp::PartialEqSpecImpl for Identity {
    open spec fn obeys_eq_spec() -> bool {
        true
    }

    open spec fn eq_spec(&self, other: &Self) -> bool {
        self@ == other@
    }
}

impl Default for Identity {
    /// The identity of a record that nobody was issued: its key is all zero.
    fn default() -> (id: Identity)
        ensures
            id@ == Identity::nobody(),
    {
        let id = Identity { key: [0u8; 32] };
        assert(id@ =~= Identity::nobody());
        id
    }
}

impl Identity {
    /// The all-zero key.
    pub open spec fn nobody() -> Seq<u8> {
        Seq::new(32, |i: int| 0u8)
    }

    /// The identity named by `key`.
    pub fn new(key: [u8; 32]) -> (id: Identity)
        ensures
            id@ == key@,
    {
        Identity { key }
    }
}

} // verus!
