use std::collections::HashMap;
use vstd::prelude::*;

use crate::traits::PinkMint;
use crate::types::{Error, Id};

verus! {

broadcast use vstd::std_specs::hash::group_hash_axioms;

/// Mathematical model of the controller's state.
pub struct MintingState {
    /// The last identity allocated; also the number of tokens minted so far.
    pub last_token_id: u64,
    /// Maximum number of tokens that may ever be minted; `None` is unlimited.
    pub max_supply: Option<u64>,
    /// Maximum number of tokens one account may hold; `0` is unlimited.
    pub limit_per_account: u32,
    /// Metadata of each token minted through the controller, by numeric identity.
    pub metadata: Map<u64, String>,
}

/// Every metadata entry belongs to an identity that the controller allocated.
pub open spec fn state_wf(s: MintingState) -> bool {
    forall|k: u64| #[trigger] s.metadata.contains_key(k) ==> 1 <= k && k <= s.last_token_id
}

/// Whether one more token fits under the supply cap, where one is set.
pub open spec fn supply_allows(s: MintingState) -> bool {
    match s.max_supply {
        Some(cap) => s.last_token_id < cap,
        None => true,
    }
}

/// Whether the counter can advance to a fresh identity.
pub open spec fn identity_available(s: MintingState) -> bool {
    s.last_token_id < u64::MAX
}

/// Whether an account holding `balance` tokens may receive one more.
pub open spec fn account_allows(s: MintingState, balance: u32) -> bool {
    s.limit_per_account == 0 || balance < s.limit_per_account
}

/// What a mint decides: the numeric identity to allocate, or why it is refused.
/// The role check comes first, then the supply cap, then the recipient's limit,
/// then the allocation of the next identity.
pub open spec fn mint_outcome(s: MintingState, caller_is_admin: bool, to_balance: u32) -> Result<
    u64,
    Error,
> {
    if !caller_is_admin {
        Err(Error::Unauthorized)
    } else if !supply_allows(s) {
        Err(Error::SupplyCapExceeded)
    } else if !account_allows(s, to_balance) {
        Err(Error::AccountLimitExceeded)
    } else if !identity_available(s) {
        Err(Error::IdentitiesExhausted)
    } else {
        Ok((s.last_token_id + 1) as u64)
    }
}

/// A numeric outcome as the ledger identity it stands for.
pub open spec fn as_token_id(r: Result<u64, Error>) -> Result<Id, Error> {
    match r {
        Ok(n) => Ok(Id::U64(n)),
        Err(e) => Err(e),
    }
}

/// The state after the identity `id` was allocated with `metadata`.
pub open spec fn minted(s: MintingState, id: u64, metadata: String) -> MintingState {
    MintingState { last_token_id: id, metadata: s.metadata.insert(id, metadata), ..s }
}

/// The state after a mint: changed only where the mint is admitted.
pub open spec fn after_mint(
    s: MintingState,
    caller_is_admin: bool,
    to_balance: u32,
    metadata: String,
) -> MintingState {
    match mint_outcome(s, caller_is_admin, to_balance) {
        Ok(id) => minted(s, id, metadata),
        Err(_) => s,
    }
}

/// The numeric key under which a token's metadata is kept, if it has one.
pub open spec fn metadata_key(token: Id) -> Option<u64> {
    match token {
        Id::U64(n) => Some(n),
        _ => None,
    }
}

/// Whether the controller holds metadata for `token`.
pub open spec fn has_metadata(s: MintingState, token: Id) -> bool {
    match metadata_key(token) {
        Some(n) => s.metadata.contains_key(n),
        None => false,
    }
}

/// What a metadata change returns.
pub open spec fn change_metadata_outcome(s: MintingState, caller_is_admin: bool, token: Id) -> Result<
    (),
    Error,
> {
    if !caller_is_admin {
        Err(Error::Unauthorized)
    } else if !has_metadata(s, token) {
        Err(Error::TokenNotFound)
    } else {
        Ok(())
    }
}

/// The state after a metadata change: the entry is overwritten where the change succeeds.
pub open spec fn after_change_metadata(
    s: MintingState,
    caller_is_admin: bool,
    token: Id,
    metadata: String,
) -> MintingState {
    match change_metadata_outcome(s, caller_is_admin, token) {
        Ok(_) => MintingState { metadata: s.metadata.insert(metadata_key(token)->0, metadata), ..s },
        Err(_) => s,
    }
}

/// The state after setting the supply cap.
pub open spec fn after_set_max_supply(
    s: MintingState,
    caller_is_admin: bool,
    max_supply: Option<u64>,
) -> MintingState {
    if caller_is_admin {
        MintingState { max_supply, ..s }
    } else {
        s
    }
}

/// The state after setting the per-account limit.
pub open spec fn after_set_limit_per_account(
    s: MintingState,
    caller_is_admin: bool,
    limit: u32,
) -> MintingState {
    if caller_is_admin {
        MintingState { limit_per_account: limit, ..s }
    } else {
        s
    }
}

/// What an admin-only setter returns.
pub open spec fn admin_outcome(caller_is_admin: bool) -> Result<(), Error> {
    if caller_is_admin {
        Ok(())
    } else {
        Err(Error::Unauthorized)
    }
}

/// The per-token part of a token's URI: its stored metadata, or nothing where the
/// controller holds none.
pub open spec fn stored_metadata(s: MintingState, token_id: u64) -> Seq<char> {
    if s.metadata.contains_key(token_id) {
        s.metadata[token_id]@
    } else {
        Seq::empty()
    }
}

/// Storage of the minting controller.
pub struct MintingData {
    pub last_token_id: u64,
    pub max_supply: Option<u64>,
    pub limit_per_account: u32,
    pub nft_metadata: HashMap<u64, String>,
}

impl View for MintingData {
    type V = MintingState;

    open spec fn view(&self) -> MintingState {
        MintingState {
            last_token_id: self.last_token_id,
            max_supply: self.max_supply,
            limit_per_account: self.limit_per_account,
            metadata: self.nft_metadata@,
        }
    }
}

impl MintingData {
    /// A controller with nothing minted yet and the given caps.
    pub fn new(max_supply: Option<u64>, limit_per_account: u32) -> (r: MintingData)
        ensures
            r@.last_token_id == 0,
            r@.max_supply == max_supply,
            r@.limit_per_account == limit_per_account,
            r@.metadata == Map::<u64, String>::empty(),
            state_wf(r@),
    {
        MintingData { last_token_id: 0, max_supply, limit_per_account, nft_metadata: HashMap::new() }
    }

    /// Decides a mint without performing it: the identity that the ledger is to
    /// record for the recipient, who holds `to_balance` tokens, or why not.
    pub fn check_mint(&self, caller_is_admin: bool, to_balance: u32) -> (r: Result<Id, Error>)
        ensures
            r == as_token_id(mint_outcome(self@, caller_is_admin, to_balance)),
    {
        match self.next_token_id(caller_is_admin, to_balance) {
            Ok(n) => Ok(Id::U64(n)),
            Err(e) => Err(e),
        }
    }

    fn next_token_id(&self, caller_is_admin: bool, to_balance: u32) -> (r: Result<u64, Error>)
        ensures
            r == mint_outcome(self@, caller_is_admin, to_balance),
    {
        if !caller_is_admin {
            return Err(Error::Unauthorized);
        }
        match self.max_supply {
            Some(cap) => {
                if self.last_token_id >= cap {
                    return Err(Error::SupplyCapExceeded);
                }
            },
            None => {},
        }
        if self.limit_per_account > 0 && to_balance >= self.limit_per_account {
            return Err(Error::AccountLimitExceeded);
        }
        if self.last_token_id == u64::MAX {
            return Err(Error::IdentitiesExhausted);
        }
        let next: u64 = self.last_token_id + 1;
        Ok(next)
    }
}

impl PinkMint for MintingData {
    open spec fn state(&self) -> MintingState {
        self@
    }

    fn mint(&mut self, caller_is_admin: bool, to_balance: u32, metadata: String) -> (r: Result<
        Id,
        Error,
    >) {
        match self.next_token_id(caller_is_admin, to_balance) {
            Ok(id) => {
                self.last_token_id = id;
                self.nft_metadata.insert(id, metadata);
                Ok(Id::U64(id))
            },
            Err(e) => Err(e),
        }
    }

    fn change_metadata(&mut self, caller_is_admin: bool, token: Id, metadata: String) -> (r: Result<
        (),
        Error,
    >) {
        if !caller_is_admin {
            return Err(Error::Unauthorized);
        }
        match token {
            Id::U64(n) => {
                if self.nft_metadata.contains_key(&n) {
                    self.nft_metadata.insert(n, metadata);
                    Ok(())
                } else {
                    Err(Error::TokenNotFound)
                }
            },
            _ => Err(Error::TokenNotFound),
        }
    }

    fn set_max_supply(&mut self, caller_is_admin: bool, max_supply: Option<u64>) -> (r: Result<
        (),
        Error,
    >) {
        if !caller_is_admin {
            return Err(Error::Unauthorized);
        }
        self.max_supply = max_supply;
        Ok(())
    }

    fn set_limit_per_account(&mut self, caller_is_admin: bool, limit: u32) -> (r: Result<
        (),
        Error,
    >) {
        if !caller_is_admin {
            return Err(Error::Unauthorized);
        }
        self.limit_per_account = limit;
        Ok(())
    }

    fn limit_per_account(&self) -> (r: u32) {
        self.limit_per_account
    }

    fn max_supply(&self) -> (r: Option<u64>) {
        self.max_supply
    }

    fn token_uri(&self, token_id: u64, has_owner: bool) -> (r: Result<String, Error>) {
        if !has_owner {
            return Err(Error::TokenNotFound);
        }
        match self.nft_metadata.get(&token_id) {
            Some(m) => Ok(m.clone()),
            None => Ok(String::new()),
        }
    }
}

} // verus!
