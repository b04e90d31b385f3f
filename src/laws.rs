use vstd::prelude::*;

use crate::minting::{
    after_change_metadata, after_mint, after_set_limit_per_account, after_set_max_supply,
    admin_outcome,
    change_metadata_outcome, mint_outcome, stored_metadata, MintingState,
};
use crate::types::Id;

verus! {

/// The arguments of one call of `mint`.
pub struct MintCall {
    pub caller_is_admin: bool,
    pub to_balance: u32,
    pub metadata: String,
}

/// The state after the mints of `calls`, in order, starting from `s`.
pub open spec fn run_mints(s: MintingState, calls: Seq<MintCall>) -> MintingState
    decreases calls.len(),
{
    if calls.len() == 0 {
        s
    } else {
        let c = calls.last();
        after_mint(run_mints(s, calls.drop_last()), c.caller_is_admin, c.to_balance, c.metadata)
    }
}

/// Mints leave both caps as they were.
pub proof fn lemma_mints_keep_caps(s: MintingState, calls: Seq<MintCall>)
    ensures
        run_mints(s, calls).max_supply == s.max_supply,
        run_mints(s, calls).limit_per_account == s.limit_per_account,
    decreases calls.len(),
{
    if calls.len() > 0 {
        lemma_mints_keep_caps(s, calls.drop_last());
    }
}

/// In any sequence of mints, each one that succeeds leaves the number of tokens
/// minted at or below the supply cap, where one is set.
pub proof fn lemma_successful_mints_within_cap(s: MintingState, calls: Seq<MintCall>, i: int)
    requires
        0 <= i < calls.len(),
        mint_outcome(
            run_mints(s, calls.take(i)),
            calls[i].caller_is_admin,
            calls[i].to_balance,
        ) is Ok,
    ensures
        match s.max_supply {
            Some(cap) => run_mints(s, calls.take(i + 1)).last_token_id <= cap,
            None => true,
        },
{
    let before = calls.take(i);
    let upto = calls.take(i + 1);
    assert(upto.drop_last() =~= before);
    assert(upto.last() == calls[i]);
    lemma_mints_keep_caps(s, before);
}

/// A mint that succeeds leaves the recipient, who held `to_balance` tokens before
/// it and holds one more after it, within the per-account limit where one is set.
pub proof fn lemma_successful_mint_within_account_limit(
    s: MintingState,
    caller_is_admin: bool,
    to_balance: u32,
)
    requires
        mint_outcome(s, caller_is_admin, to_balance) is Ok,
    ensures
        s.limit_per_account > 0 ==> to_balance + 1 <= s.limit_per_account,
{
}

/// One call of an operation of the controller, with its arguments.
pub enum Op {
    Mint(MintCall),
    ChangeMetadata { caller_is_admin: bool, token: Id, metadata: String },
    SetMaxSupply { caller_is_admin: bool, max_supply: Option<u64> },
    SetLimitPerAccount { caller_is_admin: bool, limit: u32 },
    /// A read (`limit_per_account`, `max_supply`, `token_uri`): it changes nothing.
    Read,
}

/// The state after one operation.
pub open spec fn step(s: MintingState, op: Op) -> MintingState {
    match op {
        Op::Mint(c) => after_mint(s, c.caller_is_admin, c.to_balance, c.metadata),
        Op::ChangeMetadata { caller_is_admin, token, metadata } => after_change_metadata(
            s,
            caller_is_admin,
            token,
            metadata,
        ),
        Op::SetMaxSupply { caller_is_admin, max_supply } => after_set_max_supply(
            s,
            caller_is_admin,
            max_supply,
        ),
        Op::SetLimitPerAccount { caller_is_admin, limit } => after_set_limit_per_account(
            s,
            caller_is_admin,
            limit,
        ),
        Op::Read => s,
    }
}

/// The state after the operations of `ops`, in order, starting from `s`.
pub open spec fn run_ops(s: MintingState, ops: Seq<Op>) -> MintingState
    decreases ops.len(),
{
    if ops.len() == 0 {
        s
    } else {
        step(run_ops(s, ops.drop_last()), ops.last())
    }
}

/// Whether an operation is a successful `set_max_supply`.
pub open spec fn sets_max_supply(op: Op) -> bool {
    match op {
        Op::SetMaxSupply { caller_is_admin, .. } => admin_outcome(caller_is_admin) is Ok,
        _ => false,
    }
}

/// Whether an operation is a successful `set_limit_per_account`.
pub open spec fn sets_limit_per_account(op: Op) -> bool {
    match op {
        Op::SetLimitPerAccount { caller_is_admin, .. } => admin_outcome(caller_is_admin) is Ok,
        _ => false,
    }
}

/// After a successful `set_max_supply(v)`, and any operations after it of which
/// none is another successful `set_max_supply`, the cap read back is `v`.
pub proof fn lemma_max_supply_reads_last_set_over_ops(
    s: MintingState,
    caller_is_admin: bool,
    max_supply: Option<u64>,
    ops: Seq<Op>,
)
    requires
        admin_outcome(caller_is_admin) is Ok,
        forall|i: int| 0 <= i < ops.len() ==> !sets_max_supply(#[trigger] ops[i]),
    ensures
        run_ops(after_set_max_supply(s, caller_is_admin, max_supply), ops).max_supply
            == max_supply,
    decreases ops.len(),
{
    if ops.len() > 0 {
        let rest = ops.drop_last();
        assert forall|i: int| 0 <= i < rest.len() implies !sets_max_supply(#[trigger] rest[i]) by {
            assert(rest[i] == ops[i]);
        }
        lemma_max_supply_reads_last_set_over_ops(s, caller_is_admin, max_supply, rest);
        assert(!sets_max_supply(ops[ops.len() - 1]));
    }
}

/// After a successful `set_limit_per_account(v)`, and any operations after it of
/// which none is another successful `set_limit_per_account`, the limit read back
/// is `v`.
pub proof fn lemma_limit_reads_last_set_over_ops(
    s: MintingState,
    caller_is_admin: bool,
    limit: u32,
    ops: Seq<Op>,
)
    requires
        admin_outcome(caller_is_admin) is Ok,
        forall|i: int| 0 <= i < ops.len() ==> !sets_limit_per_account(#[trigger] ops[i]),
    ensures
        run_ops(after_set_limit_per_account(s, caller_is_admin, limit), ops).limit_per_account
            == limit,
    decreases ops.len(),
{
    if ops.len() > 0 {
        let rest = ops.drop_last();
        assert forall|i: int| 0 <= i < rest.len() implies !sets_limit_per_account(
            #[trigger] rest[i],
        ) by {
            assert(rest[i] == ops[i]);
        }
        lemma_limit_reads_last_set_over_ops(s, caller_is_admin, limit, rest);
        assert(!sets_limit_per_account(ops[ops.len() - 1]));
    }
}

/// After a mint returns identity `id`, the metadata looked up for `id` is the
/// metadata that was minted with it.
pub proof fn lemma_mint_metadata_round_trip(
    s: MintingState,
    caller_is_admin: bool,
    to_balance: u32,
    metadata: String,
)
    requires
        mint_outcome(s, caller_is_admin, to_balance) is Ok,
    ensures
        stored_metadata(
            after_mint(s, caller_is_admin, to_balance, metadata),
            mint_outcome(s, caller_is_admin, to_balance)->Ok_0,
        ) == metadata@,
{
}

/// After a metadata change of token `n` succeeds, the metadata looked up for `n`
/// is the new metadata.
pub proof fn lemma_changed_metadata_visible(
    s: MintingState,
    caller_is_admin: bool,
    n: u64,
    metadata: String,
)
    requires
        change_metadata_outcome(s, caller_is_admin, Id::U64(n)) is Ok,
    ensures
        stored_metadata(after_change_metadata(s, caller_is_admin, Id::U64(n), metadata), n)
            == metadata@,
{
}

} // verus!
