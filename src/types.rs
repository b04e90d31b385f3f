use vstd::prelude::*;

verus! {

/// Identity of a token in the ledger. The controller only ever allocates `U64`.
#[derive(Clone, Debug, PartialEq, Eq)]
pub enum Id {
    U8(u8),
    U16(u16),
    U32(u32),
    U64(u64),
    U128(u128),
    Bytes(Vec<u8>),
}

/// Failures reported by the minting controller.
#[derive(Clone, Copy, Debug, PartialEq, Eq, Structural)]
pub enum Error {
    /// The caller does not hold the administrative role.
    Unauthorized,
    /// One more token would exceed the collection's maximum supply.
    SupplyCapExceeded,
    /// The recipient already holds as many tokens as one account may hold.
    AccountLimitExceeded,
    /// The token has no entry in the table that the operation consults.
    TokenNotFound,
    /// Every identity has been allocated: the counter cannot advance.
    IdentitiesExhausted,
}

} // verus!
