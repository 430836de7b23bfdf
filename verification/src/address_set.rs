//! A set of addresses.

use vstd::prelude::*;

use crate::address::Address;

verus! {

/// A set of addresses; its view is the mathematical set.
#[derive(Debug)]
pub struct AddressSet {
    items: Vec<Address>,
}

impl View for AddressSet {
    type V = Set<Address>;

    closed spec fn view(&self) -> Set<Address> {
        self.items@.to_set()
    }
}

impl AddressSet {
    /// The empty set.
    pub fn new() -> (set: AddressSet)
        ensures
            set@ == Set::<Address>::empty(),
    {
        let set = AddressSet { items: Vec::new() };
        assert(set@ =~= Set::<Address>::empty());
        set
    }

    /// Whether `address` is a member.
    pub fn contains(&self, address: &Address) -> (found: bool)
        ensures
            found == self@.contains(*address),
    {
        let mut i: usize = 0;
        while i < self.items.len()
            invariant
                i <= self.items.len(),
                forall|j: int| 0 <= j < i ==> self.items@[j] != *address,
            decreases self.items.len() - i,
        {
            if self.items[i] == *address {
                assert(self.items@.contains(*address));
                return true;
            }
            i += 1;
        }
        assert(!self.items@.contains(*address));
        false
    }

    /// Adds `address`; adding a member changes nothing.
    pub fn insert(&mut self, address: Address)
        ensures
            final(self)@ == old(self)@.insert(address),
    {
        if !self.contains(&address) {
            let ghost before = self.items@;
            self.items.push(address);
            proof {
                let after = before.push(address);
                assert forall|a: Address| after.contains(a) implies (a == address
                    || before.contains(a)) by {
                    let i = choose|i: int| 0 <= i < after.len() && after[i] == a;
                    if i < before.len() {
                        assert(before[i] == a);
                    }
                }
                assert forall|a: Address| before.contains(a) || a == address implies after.contains(
                    a,
                ) by {
                    if before.contains(a) {
                        let i = choose|i: int| 0 <= i < before.len() && before[i] == a;
                        assert(after[i] == a);
                    } else {
                        assert(after[before.len() as int] == a);
                    }
                }
                assert(after.to_set() =~= before.to_set().insert(address));
            }
        } else {
            assert(self@.insert(address) =~= self@);
        }
    }

    /// Removes `address`; removing a non-member changes nothing.
    pub fn remove(&mut self, address: &Address)
        ensures
            final(self)@ == old(self)@.remove(*address),
    {
        let ghost all = self.items@;
        let mut kept: Vec<Address> = Vec::new();
        let mut i: usize = 0;
        while i < self.items.len()
            invariant
                i <= self.items.len(),
                self.items@ == all,
                forall|a: Address| #[trigger]
                    kept@.contains(a) ==> a != *address && all.contains(a),
                forall|j: int|
                    0 <= j < i && all[j] != *address ==> kept@.contains(#[trigger] all[j]),
            decreases self.items.len() - i,
        {
            let item = self.items[i];
            if item != *address {
                let ghost before = kept@;
                kept.push(item);
                proof {
                    assert(all.contains(item));
                    assert forall|a: Address| #[trigger] kept@.contains(a) implies a != *address
                        && all.contains(a) by {
                        let k = choose|k: int| 0 <= k < kept@.len() && kept@[k] == a;
                        if k < before.len() {
                            assert(before[k] == a);
                            assert(before.contains(a));
                        }
                    }
                    assert forall|j: int| 0 <= j < i + 1 && all[j] != *address implies kept@.contains(
                        #[trigger] all[j],
                    ) by {
                        if j < i {
                            let k = choose|k: int| 0 <= k < before.len() && before[k] == all[j];
                            assert(kept@[k] == all[j]);
                        } else {
                            assert(kept@[before.len() as int] == all[j]);
                        }
                    }
                }
            }
            i += 1;
        }
        self.items = kept;
        assert(kept@.to_set() =~= all.to_set().remove(*address));
    }
}

impl Default for AddressSet {
    fn default() -> (set: AddressSet)
        ensures
            set@ == Set::<Address>::empty(),
    {
        AddressSet::new()
    }
}

} // verus!
