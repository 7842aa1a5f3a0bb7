//! What holds of every sequence of writes, proved over the model that the
//! pallet's contracts are stated in.

use crate::gateway::{signer, Origin};
use crate::model::{Notification, State};
use vstd::prelude::*;

verus! {

/// Last write wins in the registry: after two names written for one account,
/// the account has the second, and the registry is what it would have been
/// had the first never been written.
pub proof fn lemma_last_name_wins<AccountId>(
    s: State<AccountId>,
    who: AccountId,
    first: Seq<u8>,
    second: Seq<u8>,
)
    ensures
        s.set_name(who, first).set_name(who, second).nicks.contains_key(who),
        s.set_name(who, first).set_name(who, second).nicks[who] == second,
        s.set_name(who, first).set_name(who, second).nicks == s.set_name(who, second).nicks,
{
    assert(s.set_name(who, first).set_name(who, second).nicks =~= s.set_name(who, second).nicks);
}

/// Writing the same name again changes nothing in the registry.
pub proof fn lemma_same_name_again<AccountId>(s: State<AccountId>, who: AccountId, name: Seq<u8>)
    ensures
        s.set_name(who, name).set_name(who, name).nicks == s.set_name(who, name).nicks,
        s.set_name(who, name).set_name(who, name).translations == s.set_name(
            who,
            name,
        ).translations,
{
    lemma_last_name_wins(s, who, name, name);
}

/// Accounts do not interfere: a name written for one account leaves every
/// other account's entry, present or absent, as it was, and leaves the
/// translations alone.
pub proof fn lemma_names_are_independent<AccountId>(
    s: State<AccountId>,
    who: AccountId,
    name: Seq<u8>,
    other: AccountId,
)
    requires
        who != other,
    ensures
        s.set_name(who, name).nicks.contains_key(other) == s.nicks.contains_key(other),
        s.set_name(who, name).nicks[other] == s.nicks[other],
        s.set_name(who, name).translations == s.translations,
{
}

/// Both parts of the key count: translations written for two different
/// (term, language) pairs are both there afterwards, each under its own pair,
/// in whichever part the pairs differ.
pub proof fn lemma_pairs_coexist<AccountId>(
    s: State<AccountId>,
    who1: AccountId,
    ordinal1: u32,
    term1: Seq<u8>,
    language1: Seq<u8>,
    translation1: Seq<u8>,
    who2: AccountId,
    ordinal2: u32,
    term2: Seq<u8>,
    language2: Seq<u8>,
    translation2: Seq<u8>,
)
    requires
        term1 != term2 || language1 != language2,
    ensures
        ({
            let t = s.set_translation(
                who1,
                ordinal1,
                term1,
                language1,
                translation1,
            ).set_translation(who2, ordinal2, term2, language2, translation2);
            &&& t.translations.contains_key((term1, language1))
            &&& t.translations[(term1, language1)] == translation1
            &&& t.translations.contains_key((term2, language2))
            &&& t.translations[(term2, language2)] == translation2
        }),
{
}

/// A translation written for one pair leaves every other pair's entry,
/// present or absent, as it was, and leaves the names alone.
pub proof fn lemma_translations_are_independent<AccountId>(
    s: State<AccountId>,
    who: AccountId,
    ordinal: u32,
    term: Seq<u8>,
    language: Seq<u8>,
    translation: Seq<u8>,
    other: (Seq<u8>, Seq<u8>),
)
    requires
        other != (term, language),
    ensures
        ({
            let t = s.set_translation(who, ordinal, term, language, translation);
            &&& t.translations.contains_key(other) == s.translations.contains_key(other)
            &&& t.translations[other] == s.translations[other]
            &&& t.nicks == s.nicks
        }),
{
}

/// A write that does not come from a signed origin changes nothing: not the
/// names, not the translations, not the log.
pub proof fn lemma_unsigned_write_changes_nothing<AccountId>(
    s: State<AccountId>,
    origin: Origin<AccountId>,
    name: Seq<u8>,
    ordinal: u32,
    term: Seq<u8>,
    language: Seq<u8>,
    translation: Seq<u8>,
)
    requires
        signer(origin) is None,
    ensures
        s.add_entry_to_directory(origin, name) == s,
        s.add_entry(origin, ordinal, term, language, translation) == s,
{
}

/// A name write logs exactly one event, at the end of the log, and that event
/// carries the name now stored and the account it is stored for.
pub proof fn lemma_name_write_is_logged<AccountId>(
    s: State<AccountId>,
    who: AccountId,
    name: Seq<u8>,
)
    ensures
        ({
            let t = s.set_name(who, name);
            &&& t.events.len() == s.events.len() + 1
            &&& t.events.drop_last() == s.events
            &&& t.events.last() == Notification::NameStored(t.nicks[who], who)
        }),
{
    let t = s.set_name(who, name);
    assert(t.events.drop_last() =~= s.events);
}

/// A translation write logs exactly one event, at the end of the log, and that
/// event carries the translation now stored and the account that signed.
pub proof fn lemma_translation_write_is_logged<AccountId>(
    s: State<AccountId>,
    who: AccountId,
    ordinal: u32,
    term: Seq<u8>,
    language: Seq<u8>,
    translation: Seq<u8>,
)
    ensures
        ({
            let t = s.set_translation(who, ordinal, term, language, translation);
            &&& t.events.len() == s.events.len() + 1
            &&& t.events.drop_last() == s.events
            &&& t.events.last() == Notification::TranslationStored(
                t.translations[(term, language)],
                who,
            )
        }),
{
    let t = s.set_translation(who, ordinal, term, language, translation);
    assert(t.events.drop_last() =~= s.events);
}

/// Through the gateway, a signed write is the write of its signer: one event
/// more, carrying what was written and the signer's account.
pub proof fn lemma_signed_write_is_logged<AccountId>(
    s: State<AccountId>,
    who: AccountId,
    name: Seq<u8>,
    ordinal: u32,
    term: Seq<u8>,
    language: Seq<u8>,
    translation: Seq<u8>,
)
    ensures
        s.add_entry_to_directory(Origin::Signed(who), name) == s.set_name(who, name),
        s.add_entry_to_directory(Origin::Signed(who), name).events == s.events.push(
            Notification::NameStored(name, who),
        ),
        s.add_entry(Origin::Signed(who), ordinal, term, language, translation)
            == s.set_translation(who, ordinal, term, language, translation),
        s.add_entry(Origin::Signed(who), ordinal, term, language, translation).events
            == s.events.push(Notification::TranslationStored(translation, who)),
{
}

/// The ordinal leaves no trace: two writes that differ only in their ordinal
/// lead to the same state.
pub proof fn lemma_ordinal_is_discarded<AccountId>(
    s: State<AccountId>,
    who: AccountId,
    ordinal1: u32,
    ordinal2: u32,
    term: Seq<u8>,
    language: Seq<u8>,
    translation: Seq<u8>,
)
    ensures
        s.set_translation(who, ordinal1, term, language, translation) == s.set_translation(
            who,
            ordinal2,
            term,
            language,
            translation,
        ),
{
}

/// Last write wins in the directory, whatever the ordinals and whoever
/// signed: after two translations written for one pair, the pair has the
/// second, and the directory is what it would have been had the first never
/// been written.
pub proof fn lemma_last_translation_wins<AccountId>(
    s: State<AccountId>,
    who1: AccountId,
    ordinal1: u32,
    first: Seq<u8>,
    who2: AccountId,
    ordinal2: u32,
    second: Seq<u8>,
    term: Seq<u8>,
    language: Seq<u8>,
)
    ensures
        ({
            let t = s.set_translation(who1, ordinal1, term, language, first).set_translation(
                who2,
                ordinal2,
                term,
                language,
                second,
            );
            &&& t.translations.contains_key((term, language))
            &&& t.translations[(term, language)] == second
            &&& t.translations == s.set_translation(
                who2,
                ordinal2,
                term,
                language,
                second,
            ).translations
            &&& t.nicks == s.nicks
        }),
{
    let t = s.set_translation(who1, ordinal1, term, language, first).set_translation(
        who2,
        ordinal2,
        term,
        language,
        second,
    );
    assert(t.translations =~= s.set_translation(
        who2,
        ordinal2,
        term,
        language,
        second,
    ).translations);
}

} // verus!
