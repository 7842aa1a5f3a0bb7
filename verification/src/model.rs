//! The pallet's state as mathematics: two maps and a log, and what each write
//! does to them. Every contract of the executable pallet is stated over this
//! model.

use crate::gateway::{signer, Origin};
use vstd::prelude::*;

verus! {

/// One record of the event log, by content.
pub enum Notification<AccountId> {
    /// A name was stored for the account.
    NameStored(Seq<u8>, AccountId),
    /// A translation was stored on behalf of the account.
    TranslationStored(Seq<u8>, AccountId),
}

/// Everything the pallet holds.
#[verifier::reject_recursive_types(AccountId)]
pub struct State<AccountId> {
    /// The name registered for each account that has one.
    pub nicks: Map<AccountId, Seq<u8>>,
    /// The translation stored for each (term, language) pair that has one.
    pub translations: Map<(Seq<u8>, Seq<u8>), Seq<u8>>,
    /// The events recorded so far, oldest first.
    pub events: Seq<Notification<AccountId>>,
}

impl<AccountId> State<AccountId> {
    /// The state of a pallet that nobody has written to.
    pub open spec fn empty() -> Self {
        State { nicks: Map::empty(), translations: Map::empty(), events: Seq::empty() }
    }

    /// `who` registers `name`: the account's entry is created or replaced, and
    /// the write is logged.
    pub open spec fn set_name(self, who: AccountId, name: Seq<u8>) -> Self {
        State {
            nicks: self.nicks.insert(who, name),
            translations: self.translations,
            events: self.events.push(Notification::NameStored(name, who)),
        }
    }

    /// `who` stores `translation` for `term` in `language`: the pair's entry is
    /// created or replaced, and the write is logged. The ordinal is part of the
    /// call and of nothing else.
    pub open spec fn set_translation(
        self,
        who: AccountId,
        ordinal: u32,
        term: Seq<u8>,
        language: Seq<u8>,
        translation: Seq<u8>,
    ) -> Self {
        State {
            nicks: self.nicks,
            translations: self.translations.insert((term, language), translation),
            events: self.events.push(Notification::TranslationStored(translation, who)),
        }
    }

    /// A name write arriving at the gateway: applied for the signer, dropped
    /// whole for any other origin.
    pub open spec fn add_entry_to_directory(self, origin: Origin<AccountId>, name: Seq<u8>) -> Self {
        match signer(origin) {
            Some(who) => self.set_name(who, name),
            None => self,
        }
    }

    /// A translation write arriving at the gateway: applied for the signer,
    /// dropped whole for any other origin.
    pub open spec fn add_entry(
        self,
        origin: Origin<AccountId>,
        some_number: u32,
        english_name: Seq<u8>,
        target_language: Seq<u8>,
        target_language_name: Seq<u8>,
    ) -> Self {
        match signer(origin) {
            Some(who) => self.set_translation(
                who,
                some_number,
                english_name,
                target_language,
                target_language_name,
            ),
            None => self,
        }
    }
}

} // verus!
