//! What holds of accruals and refreshes, from the first call to the last.

use soroban_sdk::Address;
use vstd::prelude::*;

use crate::accounting::spec_b_tokens_to_usdc;
use crate::accrue::{refreshed, Accrual, Refresh};
use crate::adapter::MeridianBlendAdapter;
use crate::error::{Abort, ContractError};
use crate::host::{HostCall, HostReply, Progress};
use crate::laws::rates::law_conversion_in_plain_arithmetic;
use crate::pool::{map_entries, Positions, Reserve};

verus! {

/// The calls that an accrual makes from `progress` on, as the host answers with `replies`.
pub open spec fn accrual_calls(
    progress: Progress<Accrual, Result<(), ContractError>>,
    replies: Seq<HostReply>,
) -> Seq<HostCall>
    decreases replies.len(),
{
    match progress {
        Progress::Call(call, run) => if replies.len() == 0 {
            seq![call]
        } else {
            seq![call] + accrual_calls(run.step(replies[0]), replies.drop_first())
        },
        _ => Seq::empty(),
    }
}

/// Where an accrual stands, and the storage with it, once the host has answered with `replies`.
pub open spec fn accrual_outcome(
    progress: Progress<Accrual, Result<(), ContractError>>,
    storage: MeridianBlendAdapter,
    replies: Seq<HostReply>,
) -> (Progress<Accrual, Result<(), ContractError>>, MeridianBlendAdapter)
    decreases replies.len(),
{
    match progress {
        Progress::Call(_, run) => if replies.len() == 0 {
            (progress, storage)
        } else {
            accrual_outcome(
                run.step(replies[0]),
                run.storage_after(storage, replies[0]),
                replies.drop_first(),
            )
        },
        _ => (progress, storage),
    }
}

/// Everything that an accrual asks of the host, in order. No authorization is among it: anyone may
/// accrue.
pub open spec fn accrual_script(pool: Address, usdc: Address, adapter: Address) -> Seq<HostCall> {
    seq![
        HostCall::GetReserve { pool, asset: usdc },
        HostCall::GetPositions { pool, address: adapter },
    ]
}

/// Whatever the host answers, an accrual on an adapter with a pool and a token asks for the calls of
/// its script, in that order, and for nothing else.
pub proof fn law_accrual_follows_script(
    storage: MeridianBlendAdapter,
    adapter: Address,
    replies: Seq<HostReply>,
)
    requires
        storage.pool is Some,
        storage.usdc is Some,
    ensures
        accrual_calls(storage.spec_accrue(adapter), replies).is_prefix_of(
            accrual_script(storage.pool->0, storage.usdc->0, adapter),
        ),
        accrual_calls(storage.spec_accrue(adapter), replies).len() > 0,
{
    reveal_with_fuel(accrual_calls, 4);
    let script = accrual_script(storage.pool->0, storage.usdc->0, adapter);
    let calls = accrual_calls(storage.spec_accrue(adapter), replies);
    assert(calls =~= script.take(calls.len() as int));
}

/// What the host's answers make the position worth: the adapter's collateral in the USDC reserve, at
/// that reserve's rate. `None` where the two answers are not there, are not of the kind that was
/// asked for, or the collateral is no amount.
pub open spec fn answered_value(replies: Seq<HostReply>) -> Option<Result<i128, ContractError>> {
    if replies.len() >= 2 {
        match (replies[0], replies[1]) {
            (HostReply::Reserve(reserve), HostReply::Positions(positions)) => {
                match positions.spec_collateral_at(reserve.config.index) {
                    Some(b_tokens) => Some(spec_b_tokens_to_usdc(b_tokens, reserve.data.b_rate)),
                    None => None,
                }
            },
            _ => None,
        }
    } else {
        None
    }
}

/// An accrual on an adapter with a pool and a token succeeds exactly where the host's answers give
/// the position a value, and the total then is that value, whatever it was before. Where the value
/// overflows, that is the error that it returns, and it returns no other. Unless it succeeds,
/// nothing is written.
pub proof fn law_accrual_outcome(
    storage: MeridianBlendAdapter,
    adapter: Address,
    replies: Seq<HostReply>,
)
    requires
        storage.pool is Some,
        storage.usdc is Some,
    ensures
        ({
            let (end, after) = accrual_outcome(storage.spec_accrue(adapter), storage, replies);
            match answered_value(replies) {
                Some(Ok(value)) => {
                    &&& end == Progress::<Accrual, Result<(), ContractError>>::Return(Ok(()))
                    &&& after == storage.with_total(value)
                },
                Some(Err(e)) => {
                    &&& e == ContractError::Overflow
                    &&& end == Progress::<Accrual, Result<(), ContractError>>::Return(Err(e))
                    &&& after == storage
                },
                None => end !is Return && after == storage,
            }
        }),
{
    reveal_with_fuel(accrual_outcome, 4);
    let rest = replies.drop_first();
    if replies.len() >= 2 {
        assert(rest[0] == replies[1]);
    }
}

/// Whether two accruals got the same answers, as far as an accrual goes by them: the same reserve
/// index, the same rate, and the same collateral at that index. Answers that are the same
/// throughout agree too, complete or not.
pub open spec fn answers_agree(replies: Seq<HostReply>, again: Seq<HostReply>) -> bool {
    ||| replies == again
    ||| {
        &&& replies.len() >= 2
        &&& again.len() >= 2
        &&& replies[0] matches HostReply::Reserve(reserve)
        &&& again[0] matches HostReply::Reserve(reserve_again)
        &&& replies[1] matches HostReply::Positions(positions)
        &&& again[1] matches HostReply::Positions(positions_again)
        &&& reserve.config.index == reserve_again.config.index
        &&& reserve.data.b_rate == reserve_again.data.b_rate
        &&& positions.spec_collateral_at(reserve.config.index)
            == positions_again.spec_collateral_at(reserve.config.index)
    }
}

/// Accruing again at a stable rate, with the collateral unchanged, changes nothing and ends the
/// same way.
pub proof fn law_accrual_is_idempotent(
    storage: MeridianBlendAdapter,
    adapter: Address,
    replies: Seq<HostReply>,
    again: Seq<HostReply>,
)
    requires
        answers_agree(replies, again),
    ensures
        ({
            let (end, once) = accrual_outcome(storage.spec_accrue(adapter), storage, replies);
            accrual_outcome(once.spec_accrue(adapter), once, again) == (end, once)
        }),
{
    reveal_with_fuel(accrual_outcome, 4);
    if replies.len() >= 2 && again.len() >= 2 {
        assert(replies.drop_first()[0] == replies[1]);
        assert(again.drop_first()[0] == again[1]);
    }
}

/// Of the reserve, an accrual goes by the index and the rate alone; the reserve's `scalar` above
/// all has no say.
pub proof fn law_accrual_ignores_scalar(
    storage: MeridianBlendAdapter,
    adapter: Address,
    reserve: Reserve,
    other: Reserve,
    replies: Seq<HostReply>,
)
    requires
        reserve.config.index == other.config.index,
        reserve.data.b_rate == other.data.b_rate,
    ensures
        accrual_outcome(
            storage.spec_accrue(adapter),
            storage,
            seq![HostReply::Reserve(reserve)] + replies,
        ) == accrual_outcome(
            storage.spec_accrue(adapter),
            storage,
            seq![HostReply::Reserve(other)] + replies,
        ),
{
    assert((seq![HostReply::Reserve(reserve)] + replies).drop_first() =~= replies);
    assert((seq![HostReply::Reserve(other)] + replies).drop_first() =~= replies);
}

/// Where a refresh stands, and the storage with it, once the host has answered with `replies`.
pub open spec fn refresh_outcome(
    progress: Progress<Refresh, ()>,
    storage: MeridianBlendAdapter,
    replies: Seq<HostReply>,
) -> (Progress<Refresh, ()>, MeridianBlendAdapter)
    decreases replies.len(),
{
    match progress {
        Progress::Call(_, run) => if replies.len() == 0 {
            (progress, storage)
        } else {
            refresh_outcome(
                refreshed(run.accrual.step(replies[0])),
                run.accrual.storage_after(storage, replies[0]),
                replies.drop_first(),
            )
        },
        _ => (progress, storage),
    }
}

/// A refresh does what an accrual does, on the same storage and the same answers; only where the
/// accrual returns an error, the refresh aborts with it.
pub proof fn law_refresh_is_an_accrual(
    accrual: Progress<Accrual, Result<(), ContractError>>,
    storage: MeridianBlendAdapter,
    replies: Seq<HostReply>,
)
    ensures
        ({
            let (end, after) = accrual_outcome(accrual, storage, replies);
            refresh_outcome(refreshed(accrual), storage, replies) == (refreshed(end), after)
        }),
    decreases replies.len(),
{
    match accrual {
        Progress::Call(_, run) => if replies.len() > 0 {
            law_refresh_is_an_accrual(
                run.step(replies[0]),
                run.storage_after(storage, replies[0]),
                replies.drop_first(),
            );
        },
        _ => {},
    }
}

/// An accrual reads the USDC reserve and the adapter's own positions, in that order, and makes no
/// other call, whatever the host answers; it makes the second one exactly where the reserve came.
pub proof fn law_accrual_calls_in_full(
    storage: MeridianBlendAdapter,
    pool: Address,
    usdc: Address,
    adapter: Address,
    replies: Seq<HostReply>,
)
    requires
        storage.pool == Some(pool),
        storage.usdc == Some(usdc),
    ensures
        accrual_calls(storage.spec_accrue(adapter), replies) =~= if replies.len() >= 1
            && replies[0] is Reserve {
            seq![
                HostCall::GetReserve { pool, asset: usdc },
                HostCall::GetPositions { pool, address: adapter },
            ]
        } else {
            seq![HostCall::GetReserve { pool, asset: usdc }]
        },
{
    reveal_with_fuel(accrual_calls, 4);
}

/// Once the host has answered both, an accrual makes the total what the collateral that the pool's
/// ledger holds for the adapter, in the reserve of USDC, is worth at that reserve's rate: the product
/// of the two over ten to the twelfth, rounded towards zero. Nothing else is written. Where the
/// product does not fit in an amount, it returns `Overflow` and writes nothing.
pub proof fn law_accrual_values_what_the_pool_recorded(
    storage: MeridianBlendAdapter,
    pool: Address,
    usdc: Address,
    adapter: Address,
    reserve: Reserve,
    positions: Positions,
    b_tokens: i128,
    replies: Seq<HostReply>,
)
    requires
        storage.pool == Some(pool),
        storage.usdc == Some(usdc),
        replies.len() >= 2,
        replies[0] == HostReply::Reserve(reserve),
        replies[1] == HostReply::Positions(positions),
        if map_entries(positions.collateral).contains_key(reserve.config.index) {
            map_entries(positions.collateral)[reserve.config.index] == Some(b_tokens)
        } else {
            b_tokens == 0
        },
    ensures
        ({
            let (end, later) = accrual_outcome(storage.spec_accrue(adapter), storage, replies);
            if i128::MIN <= b_tokens * reserve.data.b_rate <= i128::MAX {
                &&& end == Progress::<Accrual, Result<(), ContractError>>::Return(Ok(()))
                &&& later.total matches Some(value)
                &&& b_tokens * reserve.data.b_rate >= 0 ==> value * 1_000_000_000_000 <= b_tokens
                    * reserve.data.b_rate < (value + 1) * 1_000_000_000_000
                &&& b_tokens * reserve.data.b_rate <= 0 ==> (value - 1) * 1_000_000_000_000
                    < b_tokens * reserve.data.b_rate <= value * 1_000_000_000_000
                &&& later.vault == storage.vault
                &&& later.pool == storage.pool
                &&& later.usdc == storage.usdc
            } else {
                &&& end == Progress::<Accrual, Result<(), ContractError>>::Return(
                    Err(ContractError::Overflow),
                )
                &&& later == storage
            }
        }),
{
    reveal_with_fuel(accrual_outcome, 4);
    if replies.len() >= 2 {
        assert(replies.drop_first()[0] == replies[1]);
    }
    law_conversion_in_plain_arithmetic(b_tokens, reserve.data.b_rate);
}

/// An accrual returns exactly after both answers, the reserve and the positions, with an amount or
/// nothing in the pool's ledger at the reserve's index. Unless it succeeds it writes nothing.
pub proof fn law_accrual_returns_on_full_answers_only(
    storage: MeridianBlendAdapter,
    pool: Address,
    usdc: Address,
    adapter: Address,
    replies: Seq<HostReply>,
)
    requires
        storage.pool == Some(pool),
        storage.usdc == Some(usdc),
    ensures
        ({
            let (end, later) = accrual_outcome(storage.spec_accrue(adapter), storage, replies);
            &&& end is Return <==> {
                &&& replies.len() >= 2
                &&& replies[0] matches HostReply::Reserve(reserve)
                &&& replies[1] matches HostReply::Positions(positions)
                &&& map_entries(positions.collateral).contains_key(reserve.config.index)
                    ==> map_entries(positions.collateral)[reserve.config.index] is Some
            }
            &&& end is Call ==> replies.len() < 2
            &&& end != Progress::<Accrual, Result<(), ContractError>>::Return(Ok(())) ==> later
                == storage
            &&& end matches Progress::Abort(abort) ==> abort == Abort::MalformedValue
            &&& end matches Progress::Return(Err(e)) ==> e == ContractError::Overflow
        }),
{
    reveal_with_fuel(accrual_outcome, 4);
    if replies.len() >= 2 {
        assert(replies.drop_first()[0] == replies[1]);
    }
}

/// The calls that a refresh makes from `progress` on, as the host answers with `replies`.
pub open spec fn refresh_calls(progress: Progress<Refresh, ()>, replies: Seq<HostReply>) -> Seq<
    HostCall,
>
    decreases replies.len(),
{
    match progress {
        Progress::Call(call, run) => if replies.len() == 0 {
            seq![call]
        } else {
            seq![call] + refresh_calls(
                refreshed(run.accrual.step(replies[0])),
                replies.drop_first(),
            )
        },
        _ => Seq::empty(),
    }
}

/// Whatever the host answers, a refresh makes exactly the calls that an accrual makes, in the same
/// order.
pub proof fn law_refresh_asks_what_an_accrual_asks(
    accrual: Progress<Accrual, Result<(), ContractError>>,
    replies: Seq<HostReply>,
)
    ensures
        refresh_calls(refreshed(accrual), replies) == accrual_calls(accrual, replies),
    decreases replies.len(),
{
    match accrual {
        Progress::Call(_, run) => if replies.len() > 0 {
            law_refresh_asks_what_an_accrual_asks(run.step(replies[0]), replies.drop_first());
        },
        _ => {},
    }
}

/// A refresh reads the USDC reserve and the adapter's own positions, in that order, and makes no
/// other call, whatever the host answers; it makes the second one exactly where the reserve came.
pub proof fn law_refresh_calls_in_full(
    storage: MeridianBlendAdapter,
    pool: Address,
    usdc: Address,
    adapter: Address,
    replies: Seq<HostReply>,
)
    requires
        storage.pool == Some(pool),
        storage.usdc == Some(usdc),
    ensures
        refresh_calls(refreshed(storage.spec_accrue(adapter)), replies) =~= if replies.len() >= 1
            && replies[0] is Reserve {
            seq![
                HostCall::GetReserve { pool, asset: usdc },
                HostCall::GetPositions { pool, address: adapter },
            ]
        } else {
            seq![HostCall::GetReserve { pool, asset: usdc }]
        },
{
    law_refresh_asks_what_an_accrual_asks(storage.spec_accrue(adapter), replies);
    law_accrual_calls_in_full(storage, pool, usdc, adapter, replies);
}

/// Once the host has answered both, a refresh makes the total what the collateral that the pool's
/// ledger holds for the adapter is worth, as an accrual does. Where the product does not fit in an
/// amount, it aborts with `Overflow` and writes nothing.
pub proof fn law_refresh_values_what_the_pool_recorded(
    storage: MeridianBlendAdapter,
    pool: Address,
    usdc: Address,
    adapter: Address,
    reserve: Reserve,
    positions: Positions,
    b_tokens: i128,
    replies: Seq<HostReply>,
)
    requires
        storage.pool == Some(pool),
        storage.usdc == Some(usdc),
        replies.len() >= 2,
        replies[0] == HostReply::Reserve(reserve),
        replies[1] == HostReply::Positions(positions),
        if map_entries(positions.collateral).contains_key(reserve.config.index) {
            map_entries(positions.collateral)[reserve.config.index] == Some(b_tokens)
        } else {
            b_tokens == 0
        },
    ensures
        ({
            let (end, later) = refresh_outcome(
                refreshed(storage.spec_accrue(adapter)),
                storage,
                replies,
            );
            if i128::MIN <= b_tokens * reserve.data.b_rate <= i128::MAX {
                &&& end == Progress::<Refresh, ()>::Return(())
                &&& later.total matches Some(value)
                &&& b_tokens * reserve.data.b_rate >= 0 ==> value * 1_000_000_000_000 <= b_tokens
                    * reserve.data.b_rate < (value + 1) * 1_000_000_000_000
                &&& b_tokens * reserve.data.b_rate <= 0 ==> (value - 1) * 1_000_000_000_000
                    < b_tokens * reserve.data.b_rate <= value * 1_000_000_000_000
                &&& later.vault == storage.vault
                &&& later.pool == storage.pool
                &&& later.usdc == storage.usdc
            } else {
                &&& end == Progress::<Refresh, ()>::Abort(Abort::Error(ContractError::Overflow))
                &&& later == storage
            }
        }),
{
    law_accrual_values_what_the_pool_recorded(
        storage,
        pool,
        usdc,
        adapter,
        reserve,
        positions,
        b_tokens,
        replies,
    );
    law_refresh_is_an_accrual(storage.spec_accrue(adapter), storage, replies);
}

/// A refresh returns, or aborts with `Overflow`, exactly after both answers, with an amount or
/// nothing in the pool's ledger at the reserve's index. Unless it returns it writes nothing.
pub proof fn law_refresh_returns_on_full_answers_only(
    storage: MeridianBlendAdapter,
    pool: Address,
    usdc: Address,
    adapter: Address,
    replies: Seq<HostReply>,
)
    requires
        storage.pool == Some(pool),
        storage.usdc == Some(usdc),
    ensures
        ({
            let (end, later) = refresh_outcome(
                refreshed(storage.spec_accrue(adapter)),
                storage,
                replies,
            );
            &&& end is Return || end == Progress::<Refresh, ()>::Abort(
                Abort::Error(ContractError::Overflow),
            ) <==> {
                &&& replies.len() >= 2
                &&& replies[0] matches HostReply::Reserve(reserve)
                &&& replies[1] matches HostReply::Positions(positions)
                &&& map_entries(positions.collateral).contains_key(reserve.config.index)
                    ==> map_entries(positions.collateral)[reserve.config.index] is Some
            }
            &&& end is Call ==> replies.len() < 2
            &&& end !is Return ==> later == storage
            &&& end matches Progress::Abort(abort) ==> abort == Abort::Error(ContractError::Overflow)
                || abort == Abort::MalformedValue
        }),
{
    law_accrual_returns_on_full_answers_only(storage, pool, usdc, adapter, replies);
    law_refresh_is_an_accrual(storage.spec_accrue(adapter), storage, replies);
    reveal_with_fuel(accrual_outcome, 4);
}

} // verus!
