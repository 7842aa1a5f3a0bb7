//! The identity registry: at most one name per account, last write wins.

use crate::assoc::{as_map, lemma_absent, lemma_overwrite, lemma_push, lemma_slot};
use sp_std::vec::Vec;
use vstd::laws_eq::obeys_concrete_eq;
use vstd::prelude::*;

verus! {

/// The names that accounts have registered.
///
/// Seen from outside, a registry is the map `self@` from account to name.
/// Inside it is a list of (account, name) slots in which no account occurs
/// twice.
pub struct Registry<AccountId> {
    entries: Vec<(AccountId, Vec<u8>)>,
}

impl<AccountId> Registry<AccountId> {
    /// The account of each slot, in slot order.
    spec fn accounts(&self) -> Seq<AccountId> {
        self.entries@.map_values(|e: (AccountId, Vec<u8>)| e.0)
    }

    /// The name of each slot, in slot order.
    spec fn names(&self) -> Seq<Seq<u8>> {
        self.entries@.map_values(|e: (AccountId, Vec<u8>)| e.1@)
    }

    #[verifier::type_invariant]
    spec fn well_formed(&self) -> bool {
        forall|i: int, j: int|
            0 <= i < j < self.entries.len() ==> self.entries[i].0 != self.entries[j].0
    }
}

impl<AccountId> View for Registry<AccountId> {
    type V = Map<AccountId, Seq<u8>>;

    closed spec fn view(&self) -> Map<AccountId, Seq<u8>> {
        as_map(self.accounts(), self.names())
    }
}

impl<AccountId: PartialEq> Registry<AccountId> {
    /// A registry with no names in it.
    pub fn new() -> (r: Self)
        ensures
            r@ == Map::<AccountId, Seq<u8>>::empty(),
    {
        let r = Registry { entries: Vec::new() };
        assert(r@ =~= Map::<AccountId, Seq<u8>>::empty());
        r
    }

    /// The slot that holds `who`, if one does.
    fn slot_of(&self, who: &AccountId) -> (r: Option<usize>)
        requires
            obeys_concrete_eq::<AccountId>(),
        ensures
            match r {
                Some(i) => i < self.entries.len() && self.entries[i as int].0 == *who,
                None => forall|i: int| 0 <= i < self.entries.len() ==> self.entries[i].0 != *who,
            },
    {
        let mut i: usize = 0;
        while i < self.entries.len()
            invariant
                i <= self.entries.len(),
                obeys_concrete_eq::<AccountId>(),
                forall|j: int| 0 <= j < i ==> self.entries[j].0 != *who,
            decreases self.entries.len() - i,
        {
            proof {
                reveal(obeys_concrete_eq);
            }
            if self.entries[i].0 == *who {
                return Some(i);
            }
            i += 1;
        }
        None
    }

    /// The name registered for `who`: `Some` exactly when the account has
    /// one, and then the name last written for it.
    pub fn get(&self, who: &AccountId) -> (r: Option<&Vec<u8>>)
        requires
            obeys_concrete_eq::<AccountId>(),
        ensures
            r is Some <==> self@.contains_key(*who),
            r matches Some(name) ==> name@ == self@[*who],
    {
        proof {
            use_type_invariant(self);
        }
        match self.slot_of(who) {
            Some(i) => {
                proof {
                    lemma_slot(self.accounts(), self.names(), i as int);
                }
                Some(&self.entries[i].1)
            },
            None => {
                proof {
                    lemma_absent(self.accounts(), self.names(), *who);
                }
                None
            },
        }
    }

    /// Registers `name` for `who`, replacing the name the account had, if any.
    /// No other account's name changes.
    pub fn insert(&mut self, who: AccountId, name: Vec<u8>)
        requires
            obeys_concrete_eq::<AccountId>(),
        ensures
            final(self)@ == old(self)@.insert(who, name@),
    {
        proof {
            use_type_invariant(&*self);
        }
        let ghost before = *self;
        let slot = self.slot_of(&who);
        // The list is taken out while it changes, so that `self` is whole at
        // every step.
        let mut entries = Vec::new();
        core::mem::swap(&mut self.entries, &mut entries);
        match slot {
            Some(i) => {
                entries[i].1 = name;
                self.entries = entries;
                proof {
                    lemma_overwrite(before.accounts(), before.names(), i as int, name@);
                    assert(self.accounts() =~= before.accounts());
                    assert(self.names() =~= before.names().update(i as int, name@));
                }
            },
            None => {
                entries.push((who, name));
                self.entries = entries;
                proof {
                    lemma_push(before.accounts(), before.names(), who, name@);
                    assert(self.accounts() =~= before.accounts().push(who));
                    assert(self.names() =~= before.names().push(name@));
                }
            },
        }
    }
}

} // verus!
