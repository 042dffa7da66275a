//! What holds over the adapter's life, whatever operations follow one another.

use soroban_sdk::Address;
use vstd::prelude::*;

use crate::accounting::{is_amount, usdc_value};
use crate::accrue::{refreshed, Accrual, Refresh};
use crate::adapter::MeridianBlendAdapter;
use crate::deposit::Deposit;
use crate::error::{Abort, ContractError};
use crate::host::{HostCall, HostReply, Progress};
use crate::laws::accrue::{
    accrual_calls, accrual_outcome, law_accrual_outcome, law_refresh_is_an_accrual, refresh_calls,
    refresh_outcome,
};
use crate::laws::deposit::{deposit_calls, deposit_outcome, law_deposit_outcome};
use crate::laws::rates::law_conversion_is_exact;
use crate::laws::withdraw::{
    law_withdrawal_outcome, quoted_amount, withdrawal_calls, withdrawal_outcome,
};
use crate::pool::{map_entries, Positions, Reserve};
use crate::withdraw::Withdrawal;

verus! {

/// Errors are told apart by their codes.
pub proof fn law_codes_are_distinct(a: ContractError, b: ContractError)
    ensures
        a.spec_code() == b.spec_code() ==> a == b,
{
}

/// `initialize` on an adapter with nothing stored sets up the state that the constructor sets up.
pub proof fn law_initialize_does_what_the_constructor_does(
    vault: Address,
    pool: Address,
    usdc: Address,
)
    ensures
        MeridianBlendAdapter::spec_fresh().spec_initialize(vault, pool, usdc) == (
            MeridianBlendAdapter::spec_linked(vault, pool, usdc),
            Ok::<(), ContractError>(()),
        ),
{
}

/// The codes that callers see on the ledger.
pub proof fn law_codes_on_the_ledger(e: ContractError)
    ensures
        e is AlreadyInitialized <==> e.spec_code() == 1,
        e is Overflow <==> e.spec_code() == 2,
        e is NotInitialized <==> e.spec_code() == 3,
{
}

/// The constructor, and `initialize` on an adapter without a vault, store the three links as given
/// and a total of zero. `initialize` on an adapter with a vault returns `AlreadyInitialized` and
/// stores nothing.
pub proof fn law_linking_stores_what_was_given(
    storage: MeridianBlendAdapter,
    vault: Address,
    pool: Address,
    usdc: Address,
)
    ensures
        ({
            let linked = MeridianBlendAdapter::spec_linked(vault, pool, usdc);
            &&& linked.vault == Some(vault)
            &&& linked.pool == Some(pool)
            &&& linked.usdc == Some(usdc)
            &&& linked.total == Some(0i128)
        }),
        ({
            let (later, result) = storage.spec_initialize(vault, pool, usdc);
            if storage.vault is None {
                &&& result is Ok
                &&& later.vault == Some(vault)
                &&& later.pool == Some(pool)
                &&& later.usdc == Some(usdc)
                &&& later.total == Some(0i128)
            } else {
                &&& result == Err::<(), ContractError>(ContractError::AlreadyInitialized)
                &&& later == storage
            }
        }),
{
}

/// The total that is reported is the one that is stored, and zero while none is.
pub proof fn law_reported_total_is_the_stored_one(storage: MeridianBlendAdapter)
    ensures
        storage.total matches Some(total) ==> storage.spec_total_assets() == total,
        storage.total is None ==> storage.spec_total_assets() == 0,
{
}

/// Whatever the index, the collateral of a position is what the pool's ledger holds at that very
/// index, and zero exactly where the ledger has no entry there or an entry of zero.
pub proof fn law_collateral_is_the_ledgers_entry(positions: Positions, index: u32)
    ensures
        map_entries(positions.collateral).contains_key(index) ==> positions.spec_collateral_at(index)
            == map_entries(positions.collateral)[index],
        !map_entries(positions.collateral).contains_key(index) ==> positions.spec_collateral_at(
            index,
        ) == Some(0i128),
{
}

/// Anything that can be done to an adapter, with the answers that the host gave along the way.
pub enum Operation {
    Initialize { vault: Address, pool: Address, usdc: Address },
    Deposit { adapter: Address, amount: i128, replies: Seq<HostReply> },
    Withdraw { adapter: Address, shares: i128, recipient: Address, replies: Seq<HostReply> },
    Accrue { adapter: Address, replies: Seq<HostReply> },
    Refresh { adapter: Address, replies: Seq<HostReply> },
}

/// The storage after an operation.
pub open spec fn storage_after_operation(
    storage: MeridianBlendAdapter,
    operation: Operation,
) -> MeridianBlendAdapter {
    match operation {
        Operation::Initialize { vault, pool, usdc } => storage.spec_initialize(
            vault,
            pool,
            usdc,
        ).0,
        Operation::Deposit { adapter, amount, replies } => deposit_outcome(
            storage.spec_deposit(adapter, amount),
            storage,
            replies,
        ).1,
        Operation::Withdraw { adapter, shares, recipient, replies } => withdrawal_outcome(
            storage.spec_withdraw(adapter, shares, recipient),
            storage,
            replies,
        ).1,
        Operation::Accrue { adapter, replies } => accrual_outcome(
            storage.spec_accrue(adapter),
            storage,
            replies,
        ).1,
        Operation::Refresh { adapter, replies } => refresh_outcome(
            refreshed(storage.spec_accrue(adapter)),
            storage,
            replies,
        ).1,
    }
}

/// The storage after a series of operations.
pub open spec fn storage_after_history(
    storage: MeridianBlendAdapter,
    history: Seq<Operation>,
) -> MeridianBlendAdapter
    decreases history.len(),
{
    if history.len() == 0 {
        storage
    } else {
        storage_after_operation(
            storage_after_history(storage, history.drop_last()),
            history.last(),
        )
    }
}

/// From any stage on, a deposit leaves the links alone.
proof fn lemma_deposit_keeps_links(
    progress: Progress<Deposit, i128>,
    storage: MeridianBlendAdapter,
    replies: Seq<HostReply>,
)
    ensures
        deposit_outcome(progress, storage, replies).1.vault == storage.vault,
        deposit_outcome(progress, storage, replies).1.pool == storage.pool,
        deposit_outcome(progress, storage, replies).1.usdc == storage.usdc,
    decreases replies.len(),
{
    match progress {
        Progress::Call(_, run) => if replies.len() > 0 {
            lemma_deposit_keeps_links(
                run.step(storage, replies[0]),
                run.storage_after(storage, replies[0]),
                replies.drop_first(),
            );
        },
        _ => {},
    }
}

/// From any stage on, a withdrawal leaves the links alone.
proof fn lemma_withdrawal_keeps_links(
    progress: Progress<Withdrawal, i128>,
    storage: MeridianBlendAdapter,
    replies: Seq<HostReply>,
)
    ensures
        withdrawal_outcome(progress, storage, replies).1.vault == storage.vault,
        withdrawal_outcome(progress, storage, replies).1.pool == storage.pool,
        withdrawal_outcome(progress, storage, replies).1.usdc == storage.usdc,
    decreases replies.len(),
{
    match progress {
        Progress::Call(_, run) => if replies.len() > 0 {
            lemma_withdrawal_keeps_links(
                run.step(storage, replies[0]),
                run.storage_after(storage, replies[0]),
                replies.drop_first(),
            );
        },
        _ => {},
    }
}

/// From any stage on, an accrual leaves the links alone.
proof fn lemma_accrual_keeps_links(
    progress: Progress<Accrual, Result<(), ContractError>>,
    storage: MeridianBlendAdapter,
    replies: Seq<HostReply>,
)
    ensures
        accrual_outcome(progress, storage, replies).1.vault == storage.vault,
        accrual_outcome(progress, storage, replies).1.pool == storage.pool,
        accrual_outcome(progress, storage, replies).1.usdc == storage.usdc,
    decreases replies.len(),
{
    match progress {
        Progress::Call(_, run) => if replies.len() > 0 {
            lemma_accrual_keeps_links(
                run.step(replies[0]),
                run.storage_after(storage, replies[0]),
                replies.drop_first(),
            );
        },
        _ => {},
    }
}

/// Once an adapter has a vault, no series of operations, whatever the host answers, changes its
/// vault, its pool or its token; and `initialize` is refused ever after. A freshly deployed
/// adapter cannot be taken over.
pub proof fn law_links_never_change(
    storage: MeridianBlendAdapter,
    history: Seq<Operation>,
    vault: Address,
    pool: Address,
    usdc: Address,
)
    requires
        storage.vault is Some,
    ensures
        ({
            let later = storage_after_history(storage, history);
            &&& later.vault == storage.vault
            &&& later.pool == storage.pool
            &&& later.usdc == storage.usdc
            &&& later.spec_initialize(vault, pool, usdc) == (
                later,
                Err::<(), ContractError>(ContractError::AlreadyInitialized),
            )
        }),
    decreases history.len(),
{
    if history.len() > 0 {
        law_links_never_change(storage, history.drop_last(), vault, pool, usdc);
        let before = storage_after_history(storage, history.drop_last());
        match history.last() {
            Operation::Initialize { .. } => {},
            Operation::Deposit { adapter, amount, replies } => {
                lemma_deposit_keeps_links(before.spec_deposit(adapter, amount), before, replies);
            },
            Operation::Withdraw { adapter, shares, recipient, replies } => {
                lemma_withdrawal_keeps_links(
                    before.spec_withdraw(adapter, shares, recipient),
                    before,
                    replies,
                );
            },
            Operation::Accrue { adapter, replies } => {
                lemma_accrual_keeps_links(before.spec_accrue(adapter), before, replies);
            },
            Operation::Refresh { adapter, replies } => {
                lemma_accrual_keeps_links(before.spec_accrue(adapter), before, replies);
                law_refresh_is_an_accrual(before.spec_accrue(adapter), before, replies);
            },
        }
    }
}

/// On an adapter that is not linked, a deposit and a withdrawal never reach the pool: they demand
/// at most the vault's authorization, they never return, and they write nothing. Without a vault,
/// and without a pool or a token once the vault has authorized the call, they stop with
/// `NotInitialized`.
pub proof fn law_unlinked_adapter_moves_nothing(
    storage: MeridianBlendAdapter,
    adapter: Address,
    amount: i128,
    recipient: Address,
    replies: Seq<HostReply>,
)
    requires
        storage.vault is None || storage.pool is None || storage.usdc is None,
    ensures
        ({
            let start = storage.spec_deposit(adapter, amount);
            let (end, after) = deposit_outcome(start, storage, replies);
            let not_initialized = Progress::<Deposit, i128>::Abort(
                Abort::Error(ContractError::NotInitialized),
            );
            &&& end !is Return
            &&& after == storage
            &&& deposit_calls(start, storage, replies) =~= match storage.vault {
                Some(vault) => seq![HostCall::RequireAuth { address: vault }],
                None => Seq::empty(),
            }
            &&& storage.vault is None ==> end == not_initialized
            &&& (replies.len() > 0 && replies[0] is Done) ==> end == not_initialized
        }),
        ({
            let start = storage.spec_withdraw(adapter, amount, recipient);
            let (end, after) = withdrawal_outcome(start, storage, replies);
            let not_initialized = Progress::<Withdrawal, i128>::Abort(
                Abort::Error(ContractError::NotInitialized),
            );
            &&& end !is Return
            &&& after == storage
            &&& withdrawal_calls(start, storage, replies) =~= match storage.vault {
                Some(vault) => seq![HostCall::RequireAuth { address: vault }],
                None => Seq::empty(),
            }
            &&& storage.vault is None ==> end == not_initialized
            &&& (replies.len() > 0 && replies[0] is Done) ==> end == not_initialized
        }),
{
    reveal_with_fuel(deposit_outcome, 3);
    reveal_with_fuel(deposit_calls, 3);
    reveal_with_fuel(withdrawal_outcome, 3);
    reveal_with_fuel(withdrawal_calls, 3);
}

/// An accrual asks the host for nothing, and writes nothing, unless the adapter has a pool and a
/// token. Without a pool it returns `NotInitialized`; with a pool but no token it aborts with it. A
/// refresh aborts with it either way.
pub proof fn law_accruing_needs_a_pool_and_a_token(
    storage: MeridianBlendAdapter,
    adapter: Address,
    replies: Seq<HostReply>,
)
    requires
        storage.pool is None || storage.usdc is None,
    ensures
        accrual_outcome(storage.spec_accrue(adapter), storage, replies) == (
            if storage.pool is None {
                Progress::<Accrual, Result<(), ContractError>>::Return(
                    Err(ContractError::NotInitialized),
                )
            } else {
                Progress::<Accrual, Result<(), ContractError>>::Abort(
                    Abort::Error(ContractError::NotInitialized),
                )
            },
            storage,
        ),
        accrual_calls(storage.spec_accrue(adapter), replies) =~= Seq::empty(),
        refresh_outcome(refreshed(storage.spec_accrue(adapter)), storage, replies) == (
            Progress::<Refresh, ()>::Abort(Abort::Error(ContractError::NotInitialized)),
            storage,
        ),
        refresh_calls(refreshed(storage.spec_accrue(adapter)), replies) =~= Seq::empty(),
{
}

/// Whether the pool answered an accrual with a rate and a collateral that are not negative.
pub open spec fn answers_are_nonnegative(replies: Seq<HostReply>) -> bool {
    replies.len() >= 2 ==> match (replies[0], replies[1]) {
        (HostReply::Reserve(reserve), HostReply::Positions(positions)) => {
            &&& reserve.data.b_rate >= 0
            &&& positions.spec_collateral_at(reserve.config.index) matches Some(b_tokens)
                ==> b_tokens >= 0
        },
        _ => true,
    }
}

/// An accrual on such answers leaves no negative total.
proof fn lemma_accrual_keeps_nonnegative(
    storage: MeridianBlendAdapter,
    adapter: Address,
    replies: Seq<HostReply>,
)
    requires
        storage.spec_total_assets() >= 0,
        answers_are_nonnegative(replies),
    ensures
        accrual_outcome(storage.spec_accrue(adapter), storage, replies).1.spec_total_assets() >= 0,
{
    reveal_with_fuel(accrual_outcome, 4);
    if replies.len() >= 2 {
        assert(replies.drop_first()[0] == replies[1]);
        match (replies[0], replies[1]) {
            (HostReply::Reserve(reserve), HostReply::Positions(positions)) => {
                match positions.spec_collateral_at(reserve.config.index) {
                    Some(b_tokens) => if is_amount(b_tokens * reserve.data.b_rate) {
                        law_conversion_is_exact(b_tokens, reserve.data.b_rate);
                    },
                    None => {},
                }
            },
            _ => {},
        }
    }
}

/// A total that is not negative stays so: whatever a withdrawal delivers, if no negative amount is
/// deposited, and if the pool reports no negative rate or collateral.
pub proof fn law_total_stays_nonnegative(storage: MeridianBlendAdapter, operation: Operation)
    requires
        storage.spec_total_assets() >= 0,
        operation matches Operation::Deposit { amount, .. } ==> amount >= 0,
        operation matches Operation::Accrue { replies, .. } ==> answers_are_nonnegative(replies),
        operation matches Operation::Refresh { replies, .. } ==> answers_are_nonnegative(replies),
    ensures
        storage_after_operation(storage, operation).spec_total_assets() >= 0,
{
    match operation {
        Operation::Initialize { .. } => {},
        Operation::Deposit { adapter, amount, replies } => if storage.is_linked() {
            law_deposit_outcome(storage, adapter, amount, replies);
        } else {
            law_unlinked_adapter_moves_nothing(storage, adapter, amount, adapter, replies);
        },
        Operation::Withdraw { adapter, shares, recipient, replies } => if storage.is_linked() {
            law_withdrawal_outcome(storage, adapter, shares, recipient, replies);
        } else {
            law_unlinked_adapter_moves_nothing(storage, adapter, shares, recipient, replies);
        },
        Operation::Accrue { adapter, replies } => {
            lemma_accrual_keeps_nonnegative(storage, adapter, replies);
        },
        Operation::Refresh { adapter, replies } => {
            lemma_accrual_keeps_nonnegative(storage, adapter, replies);
            law_refresh_is_an_accrual(storage.spec_accrue(adapter), storage, replies);
        },
    }
}

/// Withdrawing what was deposited leaves the total where it was.
pub proof fn law_withdrawal_undoes_a_deposit(
    storage: MeridianBlendAdapter,
    adapter: Address,
    amount: i128,
    shares: i128,
    recipient: Address,
    deposit_replies: Seq<HostReply>,
    withdrawal_replies: Seq<HostReply>,
)
    requires
        storage.spec_total_assets() >= 0,
    ensures
        ({
            let (deposited, between) = deposit_outcome(
                storage.spec_deposit(adapter, amount),
                storage,
                deposit_replies,
            );
            let (withdrawn, after) = withdrawal_outcome(
                between.spec_withdraw(adapter, shares, recipient),
                between,
                withdrawal_replies,
            );
            deposited is Return && withdrawn == Progress::<Withdrawal, i128>::Return(amount)
                ==> after.spec_total_assets() == storage.spec_total_assets()
        }),
{
    if storage.is_linked() {
        law_deposit_outcome(storage, adapter, amount, deposit_replies);
        let between = deposit_outcome(
            storage.spec_deposit(adapter, amount),
            storage,
            deposit_replies,
        ).1;
        law_withdrawal_outcome(between, adapter, shares, recipient, withdrawal_replies);
    } else {
        law_unlinked_adapter_moves_nothing(storage, adapter, amount, recipient, deposit_replies);
    }
}

/// An accrual and a withdrawal price a position alike: redeeming the whole collateral at the rate
/// of the last accrual requests the cached total, and once that is delivered, nothing is left. Of
/// the reserve that the pool reports at the withdrawal, only the rate has to be the same.
pub proof fn law_accrual_and_withdrawal_agree(
    storage: MeridianBlendAdapter,
    adapter: Address,
    recipient: Address,
    reserve: Reserve,
    positions: Positions,
    reserve_later: Reserve,
    shares: i128,
    accrual_replies: Seq<HostReply>,
    withdrawal_replies: Seq<HostReply>,
)
    requires
        storage.pool is Some,
        storage.usdc is Some,
        accrual_replies.len() >= 2,
        accrual_replies[0] == HostReply::Reserve(reserve),
        accrual_replies[1] == HostReply::Positions(positions),
        positions.spec_collateral_at(reserve.config.index) == Some(shares),
        is_amount(shares * reserve.data.b_rate),
        withdrawal_replies.len() >= 2,
        withdrawal_replies[1] == HostReply::Reserve(reserve_later),
        reserve_later.data.b_rate == reserve.data.b_rate,
    ensures
        ({
            let accrued = accrual_outcome(
                storage.spec_accrue(adapter),
                storage,
                accrual_replies,
            ).1;
            let (end, after) = withdrawal_outcome(
                accrued.spec_withdraw(adapter, shares, recipient),
                accrued,
                withdrawal_replies,
            );
            let requested = quoted_amount(shares, withdrawal_replies);
            &&& accrued.spec_total_assets() == usdc_value(shares as int, reserve.data.b_rate as int)
            &&& requested == accrued.spec_total_assets()
            &&& end == Progress::<Withdrawal, i128>::Return(requested)
                ==> after.spec_total_assets() == 0
        }),
{
    law_accrual_outcome(storage, adapter, accrual_replies);
    law_conversion_is_exact(shares, reserve.data.b_rate);
    let accrued = accrual_outcome(storage.spec_accrue(adapter), storage, accrual_replies).1;
    if accrued.is_linked() {
        law_withdrawal_outcome(accrued, adapter, shares, recipient, withdrawal_replies);
    } else {
        law_unlinked_adapter_moves_nothing(accrued, adapter, shares, recipient, withdrawal_replies);
    }
}

} // verus!
