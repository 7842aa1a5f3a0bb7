//! The pallet itself: the two stores and the event log behind the write
//! gateway.

use crate::directory::Directory;
use crate::gateway::{authenticate, signer, Error, Origin};
use crate::model::{Notification, State};
use crate::registry::Registry;
use sp_std::vec::Vec;
use vstd::laws_eq::obeys_concrete_eq;
use vstd::prelude::*;

verus! {

/// What a host supplies to the pallet.
pub trait Config {
    /// How the host names an account. Two accounts are the same account
    /// exactly when `==` says so.
    type AccountId: Copy + PartialEq;
}

/// A record of one accepted write.
#[derive(Clone, Debug, PartialEq, Eq)]
pub enum Event<T: Config> {
    /// This name was stored for this account.
    NameStored(Vec<u8>, T::AccountId),
    /// This translation was stored, on a call signed by this account.
    TranslationStored(Vec<u8>, T::AccountId),
}

impl<T: Config> View for Event<T> {
    type V = Notification<T::AccountId>;

    open spec fn view(&self) -> Notification<T::AccountId> {
        match *self {
            Event::NameStored(name, who) => Notification::NameStored(name@, who),
            Event::TranslationStored(translation, who) => Notification::TranslationStored(
                translation@,
                who,
            ),
        }
    }
}

/// The pallet's state: names by account, translations by (term, language),
/// and the log of accepted writes.
///
/// `self@` is that state as a `State`; every method says what it does to it.
pub struct Pallet<T: Config> {
    nicks: Registry<T::AccountId>,
    directory: Directory,
    events: Vec<Event<T>>,
}

impl<T: Config> View for Pallet<T> {
    type V = State<T::AccountId>;

    closed spec fn view(&self) -> State<T::AccountId> {
        State {
            nicks: self.nicks@,
            translations: self.directory@,
            events: self.events@.map_values(|e: Event<T>| e@),
        }
    }
}

impl<T: Config> Pallet<T> {
    /// A pallet that nobody has written to.
    pub fn new() -> (r: Self)
        ensures
            r@ == State::<T::AccountId>::empty(),
    {
        let r = Pallet { nicks: Registry::new(), directory: Directory::new(), events: Vec::new() };
        assert(r@.events =~= Seq::<Notification<T::AccountId>>::empty());
        r
    }

    /// Registers `name` for the account `who` and logs `NameStored(name, who)`.
    ///
    /// Never fails. The account's earlier name, if any, is gone; no other
    /// name and no translation changes.
    pub fn set_name(&mut self, who: T::AccountId, name: Vec<u8>) -> (r: Result<(), Error>)
        requires
            obeys_concrete_eq::<T::AccountId>(),
        ensures
            r is Ok,
            final(self)@ == old(self)@.set_name(who, name@),
    {
        let ghost before = self@;
        let stored = name.clone();
        assert(stored@ =~= name@);
        self.nicks.insert(who, stored);
        self.events.push(Event::NameStored(name, who));
        assert(self@.events =~= before.events.push(Notification::NameStored(name@, who)));
        Ok(())
    }

    /// Stores `translation` for `term` in `language` and logs
    /// `TranslationStored(translation, who)`.
    ///
    /// Never fails. The pair's earlier translation, if any, is gone; no other
    /// translation and no name changes. Neither `who` nor `ordinal` is part of
    /// the key or of what is stored.
    pub fn set_translation(
        &mut self,
        who: T::AccountId,
        ordinal: u32,
        term: Vec<u8>,
        language: Vec<u8>,
        translation: Vec<u8>,
    ) -> (r: Result<(), Error>)
        ensures
            r is Ok,
            final(self)@ == old(self)@.set_translation(
                who,
                ordinal,
                term@,
                language@,
                translation@,
            ),
    {
        let ghost before = self@;
        let stored = translation.clone();
        assert(stored@ =~= translation@);
        self.directory.insert(term, language, stored);
        self.events.push(Event::TranslationStored(translation, who));
        assert(self@.events =~= before.events.push(
            Notification::TranslationStored(translation@, who),
        ));
        Ok(())
    }

    /// The gateway to `set_name`: registers `name` for the account that
    /// signed `origin`.
    ///
    /// Fails with `Error::Unauthenticated`, and leaves the pallet as it was,
    /// exactly when the origin is not signed.
    pub fn add_entry_to_directory(
        &mut self,
        origin: Origin<T::AccountId>,
        name: Vec<u8>,
    ) -> (r: Result<(), Error>)
        requires
            obeys_concrete_eq::<T::AccountId>(),
        ensures
            match signer(origin) {
                Some(_) => r is Ok,
                None => r == Err::<(), Error>(Error::Unauthenticated) && final(self)@ == old(self)@,
            },
            final(self)@ == old(self)@.add_entry_to_directory(origin, name@),
    {
        match authenticate(origin) {
            Ok(who) => self.set_name(who, name),
            Err(e) => Err(e),
        }
    }

    /// The gateway to `set_translation`: stores `target_language_name` as the
    /// translation of `english_name` into `target_language`, on behalf of the
    /// account that signed `origin`.
    ///
    /// Fails with `Error::Unauthenticated`, and leaves the pallet as it was,
    /// exactly when the origin is not signed. `some_number` is accepted and
    /// dropped.
    pub fn add_entry(
        &mut self,
        origin: Origin<T::AccountId>,
        some_number: u32,
        english_name: Vec<u8>,
        target_language: Vec<u8>,
        target_language_name: Vec<u8>,
    ) -> (r: Result<(), Error>)
        ensures
            match signer(origin) {
                Some(_) => r is Ok,
                None => r == Err::<(), Error>(Error::Unauthenticated) && final(self)@ == old(self)@,
            },
            final(self)@ == old(self)@.add_entry(
                origin,
                some_number,
                english_name@,
                target_language@,
                target_language_name@,
            ),
    {
        match authenticate(origin) {
            Ok(who) => self.set_translation(
                who,
                some_number,
                english_name,
                target_language,
                target_language_name,
            ),
            Err(e) => Err(e),
        }
    }

    /// The name registered for `who`: `Some` exactly when the account has
    /// one.
    pub fn name_of(&self, who: &T::AccountId) -> (r: Option<&Vec<u8>>)
        requires
            obeys_concrete_eq::<T::AccountId>(),
        ensures
            r is Some <==> self@.nicks.contains_key(*who),
            r matches Some(name) ==> name@ == self@.nicks[*who],
    {
        self.nicks.get(who)
    }

    /// The translation stored for `term` in `language`: `Some` exactly when
    /// the pair has one.
    pub fn translation_of(&self, term: &[u8], language: &[u8]) -> (r: Option<&Vec<u8>>)
        ensures
            r is Some <==> self@.translations.contains_key((term@, language@)),
            r matches Some(translation) ==> translation@ == self@.translations[(term@, language@)],
    {
        self.directory.get(term, language)
    }

    /// The log of accepted writes, oldest first.
    pub fn events(&self) -> (r: &Vec<Event<T>>)
        ensures
            r@.map_values(|e: Event<T>| e@) == self@.events,
    {
        &self.events
    }
}

} // verus!
