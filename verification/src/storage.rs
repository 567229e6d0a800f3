//! The contract's persistent instance storage, modelled as a key-value store.
use vstd::prelude::*;
use crate::address::Address;
use crate::symbol::Symbol;

verus! {

/// The value stored under `key` in a list of slots: the most recently written
/// entry for that key, or `None` where no entry exists.
pub open spec fn slots_lookup(s: Seq<(Symbol, Address)>, key: Seq<char>) -> Option<Seq<char>>
    decreases s.len(),
{
    if s.len() == 0 {
        None
    } else if s[0].0@ == key {
        Some(s[0].1@)
    } else {
        slots_lookup(s.drop_first(), key)
    }
}

/// A key-value region scoped to one contract instance, whose lifetime the
/// host ties to the contract's own. Keys are symbols; values are addresses,
/// the only value kind this contract ever persists.
pub struct InstanceStorage {
    slots: Vec<(Symbol, Address)>,
}

impl InstanceStorage {
    /// The value currently stored under `key`.
    pub closed spec fn spec_get(&self, key: Seq<char>) -> Option<Seq<char>> {
        slots_lookup(self.slots@, key)
    }

    /// Fresh storage, holding no entry under any key.
    pub fn new() -> (s: InstanceStorage)
        ensures
            forall|k: Seq<char>| s.spec_get(k) is None,
    {
        let s = InstanceStorage { slots: Vec::new() };
        proof {
            assert forall|k: Seq<char>| s.spec_get(k) is None by {
                reveal(slots_lookup);
            }
        }
        s
    }

    /// Stores `value` under `key`, leaving every other key as it was.
    pub fn set(&mut self, key: &Symbol, value: &Address)
        ensures
            final(self).spec_get(key@) == Some(value@),
            forall|k: Seq<char>|
                k != key@ ==> final(self).spec_get(k) == old(self).spec_get(k),
    {
        self.slots.insert(0, (key.duplicate(), value.duplicate()));
        proof {
            assert(self.slots@.drop_first() =~= old(self).slots@);
        }
    }

    /// The value stored under `key`, or `None` where no entry exists.
    pub fn get(&self, key: &Symbol) -> (r: Option<Address>)
        ensures
            match r {
                Some(a) => self.spec_get(key@) == Some(a@),
                None => self.spec_get(key@) is None,
            },
    {
        let n = self.slots.len();
        let mut i: usize = 0;
        proof {
            assert(self.slots@.skip(0) =~= self.slots@);
        }
        while i < n
            invariant
                0 <= i <= n,
                n == self.slots@.len(),
                slots_lookup(self.slots@, key@) == slots_lookup(
                    self.slots@.skip(i as int),
                    key@,
                ),
            decreases n - i,
        {
            if self.slots[i].0 == *key {
                proof {
                    assert(self.slots@.skip(i as int)[0] == self.slots@[i as int]);
                }
                return Some(self.slots[i].1.duplicate());
            }
            proof {
                assert(self.slots@.skip(i as int).drop_first() =~= self.slots@.skip(
                    i as int + 1,
                ));
            }
            i += 1;
        }
        proof {
            assert(self.slots@.skip(n as int) =~= Seq::<(Symbol, Address)>::empty());
        }
        None
    }
}

} // verus!
