//! The translation directory: at most one translation per (term, language)
//! pair, last write wins. Both parts of the key count, byte for byte.

use crate::assoc::{as_map, lemma_absent, lemma_overwrite, lemma_push, lemma_slot};
use sp_std::vec::Vec;
use vstd::prelude::*;

verus! {

/// One slot of the directory.
struct Entry {
    term: Vec<u8>,
    language: Vec<u8>,
    translation: Vec<u8>,
}

impl Entry {
    spec fn key(self) -> (Seq<u8>, Seq<u8>) {
        (self.term@, self.language@)
    }
}

/// The translations stored so far.
///
/// Seen from outside, a directory is the map `self@` from (term, language) to
/// translation. Inside it is a list of slots in which no pair occurs twice.
pub struct Directory {
    entries: Vec<Entry>,
}

impl Directory {
    /// The key of each slot, in slot order.
    spec fn keys(&self) -> Seq<(Seq<u8>, Seq<u8>)> {
        self.entries@.map_values(|e: Entry| e.key())
    }

    /// The translation of each slot, in slot order.
    spec fn translations(&self) -> Seq<Seq<u8>> {
        self.entries@.map_values(|e: Entry| e.translation@)
    }

    #[verifier::type_invariant]
    spec fn well_formed(&self) -> bool {
        forall|i: int, j: int|
            0 <= i < j < self.entries.len() ==> self.entries[i].key() != self.entries[j].key()
    }
}

impl View for Directory {
    type V = Map<(Seq<u8>, Seq<u8>), Seq<u8>>;

    closed spec fn view(&self) -> Map<(Seq<u8>, Seq<u8>), Seq<u8>> {
        as_map(self.keys(), self.translations())
    }
}

/// Whether two byte strings are the same: same length, same byte at every
/// place.
fn same_bytes(a: &[u8], b: &[u8]) -> (r: bool)
    ensures
        r == (a@ == b@),
{
    if a.len() != b.len() {
        return false;
    }
    let mut i: usize = 0;
    while i < a.len()
        invariant
            a.len() == b.len(),
            i <= a.len(),
            forall|j: int| 0 <= j < i ==> a[j] == b[j],
        decreases a.len() - i,
    {
        if a[i] != b[i] {
            return false;
        }
        i += 1;
    }
    assert(a@ =~= b@);
    true
}

impl Directory {
    /// A directory with no translations in it.
    pub fn new() -> (r: Self)
        ensures
            r@ == Map::<(Seq<u8>, Seq<u8>), Seq<u8>>::empty(),
    {
        let r = Directory { entries: Vec::new() };
        assert(r@ =~= Map::<(Seq<u8>, Seq<u8>), Seq<u8>>::empty());
        r
    }

    /// The slot that holds the pair, if one does.
    fn slot_of(&self, term: &[u8], language: &[u8]) -> (r: Option<usize>)
        ensures
            match r {
                Some(i) => i < self.entries.len() && self.entries[i as int].key() == (
                    term@,
                    language@,
                ),
                None => forall|i: int|
                    0 <= i < self.entries.len() ==> self.entries[i].key() != (term@, language@),
            },
    {
        let mut i: usize = 0;
        while i < self.entries.len()
            invariant
                i <= self.entries.len(),
                forall|j: int| 0 <= j < i ==> self.entries[j].key() != (term@, language@),
            decreases self.entries.len() - i,
        {
            let e = &self.entries[i];
            if same_bytes(e.term.as_slice(), term) && same_bytes(e.language.as_slice(), language) {
                return Some(i);
            }
            i += 1;
        }
        None
    }

    /// The translation stored for `term` in `language`: `Some` exactly when
    /// the pair has one, and then the translation last written for it.
    pub fn get(&self, term: &[u8], language: &[u8]) -> (r: Option<&Vec<u8>>)
        ensures
            r is Some <==> self@.contains_key((term@, language@)),
            r matches Some(translation) ==> translation@ == self@[(term@, language@)],
    {
        proof {
            use_type_invariant(self);
        }
        match self.slot_of(term, language) {
            Some(i) => {
                proof {
                    lemma_slot(self.keys(), self.translations(), i as int);
                }
                Some(&self.entries[i].translation)
            },
            None => {
                proof {
                    lemma_absent(self.keys(), self.translations(), (term@, language@));
                }
                None
            },
        }
    }

    /// Stores `translation` for `term` in `language`, replacing the
    /// translation the pair had, if any. No other pair's translation changes.
    pub fn insert(&mut self, term: Vec<u8>, language: Vec<u8>, translation: Vec<u8>)
        ensures
            final(self)@ == old(self)@.insert((term@, language@), translation@),
    {
        proof {
            use_type_invariant(&*self);
        }
        let ghost before = *self;
        let slot = self.slot_of(term.as_slice(), language.as_slice());
        // The list is taken out while it changes, so that `self` is whole at
        // every step.
        let mut entries = Vec::new();
        core::mem::swap(&mut self.entries, &mut entries);
        match slot {
            Some(i) => {
                entries[i].translation = translation;
                self.entries = entries;
                proof {
                    lemma_overwrite(before.keys(), before.translations(), i as int, translation@);
                    assert(self.keys() =~= before.keys());
                    assert(self.translations() =~= before.translations().update(
                        i as int,
                        translation@,
                    ));
                }
            },
            None => {
                entries.push(Entry { term, language, translation });
                self.entries = entries;
                proof {
                    lemma_push(
                        before.keys(),
                        before.translations(),
                        (term@, language@),
                        translation@,
                    );
                    assert(self.keys() =~= before.keys().push((term@, language@)));
                    assert(self.translations() =~= before.translations().push(translation@));
                }
            },
        }
    }
}

} // verus!
