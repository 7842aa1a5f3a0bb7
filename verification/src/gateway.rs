//! The write gateway: the one place where a caller's origin is checked.
//!
//! The check itself is `frame_system::ensure_signed`. What this module adds is
//! an origin type that can be handed to it, and the pallet's own error in place
//! of the runtime's.

use frame_support::dispatch::RawOrigin;
use frame_support::sp_runtime::traits::BadOrigin;
use vstd::prelude::*;
use vstd::std_specs::convert::FromSpecImpl;
use vstd::std_specs::convert::IntoSpec;

verus! {

/// `frame_support::dispatch::RawOrigin`, the runtime's own origin, declared
/// with its variants so that contracts can tell a signed origin from the rest.
#[verifier::external_type_specification]
#[verifier::reject_recursive_types(AccountId)]
pub struct ExRawOrigin<AccountId>(RawOrigin<AccountId>);

/// `sp_runtime::traits::BadOrigin`, the unit error of the runtime's origin
/// checks. Nothing is read from it.
#[verifier::external_type_specification]
#[verifier::external_body]
pub struct ExBadOrigin(BadOrigin);

/// `frame_system::ensure_signed` turns its argument into a `RawOrigin` with
/// `into`, gives back the account of a `Signed` origin, and fails with
/// `BadOrigin` on any other outcome of the conversion. The contract says this
/// of every origin type whose conversion has a stated meaning.
pub assume_specification<OuterOrigin, AccountId>[ frame_system::ensure_signed::<
    OuterOrigin,
    AccountId,
> ](o: OuterOrigin) -> (r: Result<AccountId, BadOrigin>) where
    OuterOrigin: Into<Result<RawOrigin<AccountId>, OuterOrigin>>,

    ensures
        OuterOrigin::obeys_into_spec() ==> (match o.into_spec() {
            Ok(RawOrigin::Signed(who)) => r == Ok::<AccountId, BadOrigin>(who),
            _ => r is Err,
        }),
;

/// Where a call comes from, as the host hands it to the pallet.
#[derive(Debug, PartialEq, Eq)]
pub enum Origin<AccountId> {
    /// The system itself.
    Root,
    /// A transaction signed by this account.
    Signed(AccountId),
    /// Nobody: an unsigned or otherwise unverifiable call.
    Unsigned,
}

/// Why a write was refused.
///
/// Only `Unauthenticated` is ever returned. The other two are kept for hosts
/// that bound the size of names or of the maps; nothing here raises them.
#[derive(Clone, Copy, Debug, PartialEq, Eq, Structural)]
pub enum Error {
    /// The origin does not resolve to a signed account.
    Unauthenticated,
    /// A value that must be present is missing.
    MissingValue,
    /// A bound on stored data would be exceeded.
    Overflow,
}

/// An `Origin` as the runtime's `RawOrigin`, variant for variant. The
/// conversion never fails; it has the shape of a `Result` because that is what
/// `frame_system::ensure_signed` asks of an origin.
impl<AccountId> From<Origin<AccountId>> for Result<RawOrigin<AccountId>, Origin<AccountId>> {
    fn from(origin: Origin<AccountId>) -> (r: Self) {
        match origin {
            Origin::Root => Ok(RawOrigin::Root),
            Origin::Signed(who) => Ok(RawOrigin::Signed(who)),
            Origin::Unsigned => Ok(RawOrigin::None),
        }
    }
}

impl<AccountId> FromSpecImpl<Origin<AccountId>> for Result<RawOrigin<AccountId>, Origin<AccountId>> {
    open spec fn obeys_from_spec() -> bool {
        true
    }

    open spec fn from_spec(origin: Origin<AccountId>) -> Self {
        match origin {
            Origin::Root => Ok(RawOrigin::Root),
            Origin::Signed(who) => Ok(RawOrigin::Signed(who)),
            Origin::Unsigned => Ok(RawOrigin::None),
        }
    }
}

/// The account that an origin resolves to, if it is signed.
pub open spec fn signer<AccountId>(origin: Origin<AccountId>) -> Option<AccountId> {
    match origin {
        Origin::Signed(who) => Some(who),
        _ => None,
    }
}

/// Resolves an origin to the account that signed it.
///
/// Succeeds exactly on `Origin::Signed`, with that account; every other
/// origin is `Error::Unauthenticated`.
pub fn authenticate<AccountId>(origin: Origin<AccountId>) -> (r: Result<AccountId, Error>)
    ensures
        r == match signer(origin) {
            Some(who) => Ok::<AccountId, Error>(who),
            None => Err::<AccountId, Error>(Error::Unauthenticated),
        },
{
    match frame_system::ensure_signed(origin) {
        Ok(who) => Ok(who),
        Err(_) => Err(Error::Unauthenticated),
    }
}

} // verus!
