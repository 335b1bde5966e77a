//! The part of `tokio_util` that a server stops its background tasks with.

use tokio_util::sync::CancellationToken;
use vstd::prelude::*;

use self::owned::OwnedToken;

mod owned;

verus! {

/// `tokio_util::sync::CancellationToken`: a handle through which tasks learn that they are to stop.
/// Two handles are equal if they are clones of one token. Handles are shared, so nothing is said of
/// a handle by itself on whether its token is canceled: see [`StopToken`].
#[verifier::external_type_specification]
#[verifier::external_body]
pub struct ExCancellationToken(CancellationToken);

/// `CancellationToken::clone` gives another handle to the same token: to cancel the one is to
/// cancel the other.
pub assume_specification[ <CancellationToken as Clone>::clone ](
    token: &CancellationToken,
) -> (handle: CancellationToken)
    ensures
        handle == *token,
;

/// Compares two handles with `==`, which tells whether they are clones of one token.
#[verifier::external_body]
fn same_token(token: &CancellationToken, other: &CancellationToken) -> (same: bool)
    ensures
        same == (*token == *other),
{
    token == other
}

/// A token with its owner's record of whether it has been canceled. This library cancels a token
/// only through its owner. Whoever was given a handle can cancel the token too, and that is not on
/// record.
pub struct StopToken {
    owned: OwnedToken,
}

/// The mathematical content of a [`StopToken`].
pub struct StopView {
    /// The token that tasks watch.
    pub token: CancellationToken,
    /// Whether the owner has canceled it.
    pub canceled: bool,
}

impl View for StopToken {
    type V = StopView;

    closed spec fn view(&self) -> StopView {
        self.owned@
    }
}

impl StopToken {
    /// A token that is not canceled.
    pub(crate) fn new() -> (stop: StopToken)
        ensures
            !stop@.canceled,
    {
        StopToken { owned: OwnedToken::new(None) }
    }

    /// A token that is not canceled, and that is not canceled along with `other`.
    pub(crate) fn apart_from(other: &StopToken) -> (stop: StopToken)
        ensures
            !stop@.canceled,
            stop@.token != other@.token,
    {
        StopToken { owned: OwnedToken::new(Some(&other.owned)) }
    }

    /// A handle to the token, for a task to watch.
    pub(crate) fn handle(&self) -> (handle: CancellationToken)
        ensures
            handle == self@.token,
    {
        self.owned.token().clone()
    }

    /// Tells whether `handle` is a handle to this token.
    pub(crate) fn has_handle(&self, handle: &CancellationToken) -> (has: bool)
        ensures
            has == (self@.token == *handle),
    {
        same_token(self.owned.token(), handle)
    }

    /// Cancels the token. One that is canceled already stays so.
    pub(crate) fn cancel(&mut self)
        ensures
            final(self)@ == (StopView { canceled: true, ..old(self)@ }),
    {
        self.owned.cancel();
    }
}

} // verus!
