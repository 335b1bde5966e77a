//! Tokens that are canceled through their owner alone.

use tokio_util::sync::CancellationToken;
use vstd::prelude::*;

use crate::token::StopView;

verus! {

/// A token together with the record of whether it was canceled through this value. The record is
/// kept where the token is made and where it is canceled, and nowhere else.
pub struct OwnedToken {
    token: CancellationToken,
    canceled: Ghost<bool>,
}

impl View for OwnedToken {
    type V = StopView;

    closed spec fn view(&self) -> StopView {
        StopView { token: self.token, canceled: self.canceled@ }
    }
}

impl OwnedToken {
    /// Calls `CancellationToken::new`, which makes a token that is not canceled and is no clone of
    /// any other: in particular not of `other`, if one is given.
    #[verifier::external_body]
    pub(crate) fn new(other: Option<&OwnedToken>) -> (owned: OwnedToken)
        ensures
            !owned@.canceled,
            other matches Some(other) ==> owned@.token != other@.token,
    {
        OwnedToken { token: CancellationToken::new(), canceled: Ghost(false) }
    }

    /// Calls `CancellationToken::cancel`, which wakes the tasks that wait for the token and lets
    /// every later look at it find it canceled. The token stays the same, and is on record as
    /// canceled.
    #[verifier::external_body]
    pub(crate) fn cancel(&mut self)
        ensures
            final(self)@ == (StopView { canceled: true, ..old(self)@ }),
    {
        self.token.cancel();
        self.canceled = Ghost(true);
    }

    /// The token.
    pub(crate) fn token(&self) -> (token: &CancellationToken)
        ensures
            *token == self@.token,
    {
        &self.token
    }
}

} // verus!
