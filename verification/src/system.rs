//! Where a call comes from, and the two checks made on it.
use vstd::prelude::*;
use crate::error::Error;
use crate::primitives::AccountId;

verus! {

/// The origin of a call.
#[derive(Clone, Copy, Debug, PartialEq, Eq, Structural)]
pub enum Origin {
    /// The administrator.
    Root,
    /// An account that signed the call.
    Signed(AccountId),
    /// A call that nobody signed.
    Unsigned,
}

impl Origin {
    /// What [`ensure_root`] answers.
    pub open spec fn root_check(self) -> Result<(), Error> {
        if self is Root {
            Ok(())
        } else {
            Err(Error::RequireRootOrigin)
        }
    }

    /// What [`ensure_signed`] answers.
    pub open spec fn signed_check(self) -> Result<AccountId, Error> {
        match self {
            Origin::Signed(who) => Ok(who),
            _ => Err(Error::RequireSignedOrigin),
        }
    }

    /// The origin of a call signed by `who`.
    pub fn signed(who: AccountId) -> (o: Origin)
        ensures
            o == Origin::Signed(who),
    {
        Origin::Signed(who)
    }
}

/// Passes the root origin and no other.
pub fn ensure_root(origin: Origin) -> (r: Result<(), Error>)
    ensures
        r == origin.root_check(),
{
    match origin {
        Origin::Root => Ok(()),
        _ => Err(Error::RequireRootOrigin),
    }
}

/// Hands out the account of a signed origin, and turns the others down.
pub fn ensure_signed(origin: Origin) -> (r: Result<AccountId, Error>)
    ensures
        r == origin.signed_check(),
{
    match origin {
        Origin::Signed(who) => Ok(who),
        _ => Err(Error::RequireSignedOrigin),
    }
}

} // verus!
