//! Where a command comes from, as the host resolved it.

use vstd::prelude::*;

use crate::error::Error;

verus! {

/// The origin of a command: the account whose signature the host verified,
/// or nobody.
#[derive(Debug, PartialEq, Eq)]
pub enum Origin<A> {
    /// The host verified the signature of this account.
    Signed(A),
    /// No account signed the command.
    Unsigned,
}

impl<A> Origin<A> {
    /// The origin of a command signed by `who`.
    pub fn signed(who: A) -> (origin: Self)
        ensures
            origin == Origin::Signed(who),
    {
        Origin::Signed(who)
    }

    /// The origin of a command that nobody signed.
    pub fn unsigned() -> (origin: Self)
        ensures
            origin == Origin::<A>::Unsigned,
    {
        Origin::Unsigned
    }
}

/// The account that signed, or `BadOrigin` where nobody did.
pub open spec fn signer<A>(origin: Origin<A>) -> Result<A, Error> {
    match origin {
        Origin::Signed(who) => Ok(who),
        Origin::Unsigned => Err(Error::BadOrigin),
    }
}

/// Resolves the submitter of a command: the signing account, or `BadOrigin`
/// for an unsigned command.
pub fn ensure_signed<A>(origin: Origin<A>) -> (submitter: Result<A, Error>)
    ensures
        submitter == signer(origin),
{
    match origin {
        Origin::Signed(who) => Ok(who),
        Origin::Unsigned => Err(Error::BadOrigin),
    }
}

} // verus!
