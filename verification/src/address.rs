//! Ledger addresses as plain values.

use vstd::prelude::*;

verus! {

/// The length of an address in its textual form.
pub const STRKEY_LENGTH: usize = 56;

/// A ledger address in its textual form, the 56 ASCII characters under which an
/// account or a contract is known.
///
/// Policy decisions use an address only by identity: two addresses are the same
/// exactly when they are spelled the same.
#[derive(Clone, Copy, Debug, Eq)]
pub struct Address {
    pub strkey: [u8; STRKEY_LENGTH],
}

impl PartialEq for Address {
    fn eq(&self, other: &Address) -> (same: bool) {
        let mut i: usize = 0;
        while i < STRKEY_LENGTH
            invariant
                i <= STRKEY_LENGTH,
                forall|j: int| 0 <= j < i ==> self.strkey@[j] == other.strkey@[j],
            decreases STRKEY_LENGTH - i,
        {
            if self.strkey[i] != other.strkey[i] {
                return false;
            }
            i += 1;
        }
        assert(self.strkey =~= other.strkey);
        true
    }
}

impl vstd::std_specs::cmp::PartialEqSpecImpl for Address {
    open spec fn obeys_eq_spec() -> bool {
        true
    }

    open spec fn eq_spec(&self, other: &Address) -> bool {
        *self == *other
    }
}

/// Two addresses are the same exactly when they agree in every character.
pub proof fn law_same_address_is_same_spelling(one: Address, other: Address)
    ensures
        vstd::std_specs::cmp::PartialEqSpec::eq_spec(&one, &other) <==> (forall|i: int|
            0 <= i < 56 ==> one.strkey@[i] == other.strkey@[i]),
{
    if forall|i: int| 0 <= i < 56 ==> one.strkey@[i] == other.strkey@[i] {
        assert(one.strkey =~= other.strkey);
    }
}

} // verus!
