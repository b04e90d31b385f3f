use vstd::prelude::*;

use crate::minting::{
    admin_outcome, after_change_metadata, after_mint, after_set_limit_per_account,
    after_set_max_supply, as_token_id, change_metadata_outcome, mint_outcome, state_wf,
    stored_metadata, MintingState,
};
use crate::types::{Error, Id};

verus! {

/// Operations of the minting controller.
///
/// `caller_is_admin` is the answer of the access-control check for the caller;
/// `to_balance` and `has_owner` are the ledger's answers for the recipient and the
/// token. An operation refused for want of the role changes nothing.
pub trait PinkMint {
    /// The controller's state as a mathematical value.
    spec fn state(&self) -> MintingState;

    /// Mints one token to a recipient who holds `to_balance` tokens and stores its
    /// metadata. Returns the newly allocated identity; the ledger records its owner.
    fn mint(&mut self, caller_is_admin: bool, to_balance: u32, metadata: String) -> (r: Result<
        Id,
        Error,
    >)
        ensures
            r == as_token_id(mint_outcome(old(self).state(), caller_is_admin, to_balance)),
            final(self).state() == after_mint(
                old(self).state(),
                caller_is_admin,
                to_balance,
                metadata,
            ),
            r is Ok ==> match final(self).state().max_supply {
                Some(cap) => final(self).state().last_token_id <= cap,
                None => true,
            },
            r is Ok && final(self).state().limit_per_account > 0 ==> to_balance + 1
                <= final(self).state().limit_per_account,
            state_wf(old(self).state()) ==> state_wf(final(self).state()),
    ;

    /// Replaces the metadata of a token minted through this controller.
    fn change_metadata(&mut self, caller_is_admin: bool, token: Id, metadata: String) -> (r: Result<
        (),
        Error,
    >)
        ensures
            r == change_metadata_outcome(old(self).state(), caller_is_admin, token),
            final(self).state() == after_change_metadata(
                old(self).state(),
                caller_is_admin,
                token,
                metadata,
            ),
            state_wf(old(self).state()) ==> state_wf(final(self).state()),
    ;

    /// Sets the maximum supply; `None` removes the cap.
    fn set_max_supply(&mut self, caller_is_admin: bool, max_supply: Option<u64>) -> (r: Result<
        (),
        Error,
    >)
        ensures
            r == admin_outcome(caller_is_admin),
            final(self).state() == after_set_max_supply(
                old(self).state(),
                caller_is_admin,
                max_supply,
            ),
            state_wf(old(self).state()) ==> state_wf(final(self).state()),
    ;

    /// Sets how many tokens one account may hold; `0` removes the limit.
    fn set_limit_per_account(&mut self, caller_is_admin: bool, limit: u32) -> (r: Result<
        (),
        Error,
    >)
        ensures
            r == admin_outcome(caller_is_admin),
            final(self).state() == after_set_limit_per_account(
                old(self).state(),
                caller_is_admin,
                limit,
            ),
            state_wf(old(self).state()) ==> state_wf(final(self).state()),
    ;

    /// How many tokens one account may hold; `0` is unlimited.
    fn limit_per_account(&self) -> (r: u32)
        ensures
            r == self.state().limit_per_account,
    ;

    /// The maximum supply, if one is set.
    fn max_supply(&self) -> (r: Option<u64>)
        ensures
            r == self.state().max_supply,
    ;

    /// The per-token part of the URI of token `token_id`, which the ledger reports
    /// as owned (`has_owner`) or not.
    fn token_uri(&self, token_id: u64, has_owner: bool) -> (r: Result<String, Error>)
        ensures
            match r {
                Ok(u) => has_owner && u@ == stored_metadata(self.state(), token_id),
                Err(e) => !has_owner && e == Error::TokenNotFound,
            },
    ;
}

} // verus!
