//! What holds of deposits, from the first call to the last.

use soroban_sdk::Address;
use vstd::prelude::*;

use crate::accounting::is_amount;
use crate::adapter::MeridianBlendAdapter;
use crate::deposit::{Deposit, DepositStage};
use crate::error::Abort;
use crate::host::{AuthEntry, HostCall, HostReply, Progress, TransferArgs};
use crate::pool::{map_entries, Positions, Request, Reserve, REQUEST_SUPPLY};

verus! {

/// The calls that a deposit makes from `progress` on, as the host answers with `replies`.
pub open spec fn deposit_calls(
    progress: Progress<Deposit, i128>,
    storage: MeridianBlendAdapter,
    replies: Seq<HostReply>,
) -> Seq<HostCall>
    decreases replies.len(),
{
    match progress {
        Progress::Call(call, run) => if replies.len() == 0 {
            seq![call]
        } else {
            seq![call] + deposit_calls(
                run.step(storage, replies[0]),
                run.storage_after(storage, replies[0]),
                replies.drop_first(),
            )
        },
        _ => Seq::empty(),
    }
}

/// Where a deposit stands, and the storage with it, once the host has answered with `replies`.
pub open spec fn deposit_outcome(
    progress: Progress<Deposit, i128>,
    storage: MeridianBlendAdapter,
    replies: Seq<HostReply>,
) -> (Progress<Deposit, i128>, MeridianBlendAdapter)
    decreases replies.len(),
{
    match progress {
        Progress::Call(_, run) => if replies.len() == 0 {
            (progress, storage)
        } else {
            deposit_outcome(
                run.step(storage, replies[0]),
                run.storage_after(storage, replies[0]),
                replies.drop_first(),
            )
        },
        _ => (progress, storage),
    }
}

/// Everything that a deposit of `amount` asks of the host, in order.
pub open spec fn deposit_script(
    vault: Address,
    pool: Address,
    usdc: Address,
    adapter: Address,
    amount: i128,
) -> Seq<HostCall> {
    seq![
        HostCall::RequireAuth { address: vault },
        HostCall::GetReserve { pool, asset: usdc },
        HostCall::GetPositions { pool, address: adapter },
        HostCall::AuthorizeAsCurrentContract {
            entry: AuthEntry {
                contract: usdc,
                fn_name: "transfer",
                args: TransferArgs { from: adapter, to: pool, amount },
            },
        },
        HostCall::Submit {
            pool,
            from: adapter,
            spender: adapter,
            to: adapter,
            request: Request { request_type: REQUEST_SUPPLY, address: usdc, amount },
        },
        HostCall::GetPositions { pool, address: adapter },
    ]
}

/// How many calls of its script a deposit has had answered.
spec fn deposit_position(run: Deposit) -> int {
    match run.stage {
        DepositStage::VaultAuth { .. } => 0,
        DepositStage::Reserve { .. } => 1,
        DepositStage::PositionsBefore { .. } => 2,
        DepositStage::TransferAuth { .. } => 3,
        DepositStage::Submission { .. } => 4,
        DepositStage::PositionsAfter { .. } => 5,
    }
}

/// Whether a deposit holds these addresses and this amount.
spec fn deposit_holds(
    run: Deposit,
    vault: Address,
    pool: Address,
    usdc: Address,
    adapter: Address,
    amount: i128,
) -> bool {
    &&& run.adapter == adapter
    &&& run.amount == amount
    &&& match run.stage {
        DepositStage::VaultAuth { vault: v } => v == vault,
        DepositStage::Reserve { pool: p, usdc: u } => p == pool && u == usdc,
        DepositStage::PositionsBefore { pool: p, usdc: u, .. } => p == pool && u == usdc,
        DepositStage::TransferAuth { pool: p, usdc: u, .. } => p == pool && u == usdc,
        DepositStage::Submission { pool: p, usdc: u, .. } => p == pool && u == usdc,
        DepositStage::PositionsAfter { pool: p, .. } => p == pool,
    }
}

/// From any stage on, a deposit follows the rest of its script.
proof fn lemma_deposit_follows_script(
    run: Deposit,
    storage: MeridianBlendAdapter,
    replies: Seq<HostReply>,
    vault: Address,
    pool: Address,
    usdc: Address,
    adapter: Address,
    amount: i128,
)
    requires
        storage.pool == Some(pool),
        storage.usdc == Some(usdc),
        deposit_holds(run, vault, pool, usdc, adapter, amount),
    ensures
        deposit_calls(Progress::Call(run.spec_call(), run), storage, replies).is_prefix_of(
            deposit_script(vault, pool, usdc, adapter, amount).skip(deposit_position(run)),
        ),
    decreases replies.len(),
{
    let script = deposit_script(vault, pool, usdc, adapter, amount);
    let k = deposit_position(run);
    assert(script[k] == run.spec_call());
    let calls = deposit_calls(Progress::Call(run.spec_call(), run), storage, replies);
    if replies.len() > 0 {
        let rest = deposit_calls(
            run.step(storage, replies[0]),
            run.storage_after(storage, replies[0]),
            replies.drop_first(),
        );
        assert(calls == seq![run.spec_call()] + rest);
        match run.step(storage, replies[0]) {
            Progress::Call(call, next) => {
                lemma_deposit_follows_script(
                    next,
                    storage,
                    replies.drop_first(),
                    vault,
                    pool,
                    usdc,
                    adapter,
                    amount,
                );
                assert(deposit_position(next) == k + 1);
                assert(call == next.spec_call());
                assert(script.skip(k).drop_first() =~= script.skip(k + 1));
                assert(rest =~= script.skip(k + 1).take(rest.len() as int));
                assert(calls =~= script.skip(k).take(calls.len() as int));
            },
            _ => {
                assert(calls =~= script.skip(k).take(1));
            },
        }
    } else {
        assert(calls =~= script.skip(k).take(1));
    }
}

/// Whatever the host answers, a deposit on a linked adapter asks for the calls of its script, in
/// that order, and for nothing else. So the first thing that it demands is the vault's
/// authorization.
pub proof fn law_deposit_follows_script(
    storage: MeridianBlendAdapter,
    adapter: Address,
    amount: i128,
    replies: Seq<HostReply>,
)
    requires
        storage.is_linked(),
    ensures
        deposit_calls(storage.spec_deposit(adapter, amount), storage, replies).is_prefix_of(
            deposit_script(
                storage.vault->0,
                storage.pool->0,
                storage.usdc->0,
                adapter,
                amount,
            ),
        ),
        deposit_calls(storage.spec_deposit(adapter, amount), storage, replies).len() > 0,
{
    let script = deposit_script(
        storage.vault->0,
        storage.pool->0,
        storage.usdc->0,
        adapter,
        amount,
    );
    let run = Deposit {
        adapter,
        amount,
        stage: DepositStage::VaultAuth { vault: storage.vault->0 },
    };
    lemma_deposit_follows_script(
        run,
        storage,
        replies,
        storage.vault->0,
        storage.pool->0,
        storage.usdc->0,
        adapter,
        amount,
    );
    assert(script.skip(0) =~= script);
}

/// Every submission of a deposit comes directly after the authorization of the transfer that the
/// pool is going to make for it, of the same token and the same amount.
pub proof fn law_submission_follows_its_authorization(
    storage: MeridianBlendAdapter,
    adapter: Address,
    amount: i128,
    replies: Seq<HostReply>,
    i: int,
)
    requires
        storage.is_linked(),
        0 <= i < deposit_calls(storage.spec_deposit(adapter, amount), storage, replies).len(),
        deposit_calls(storage.spec_deposit(adapter, amount), storage, replies)[i] is Submit,
    ensures
        i > 0,
        ({
            let calls = deposit_calls(storage.spec_deposit(adapter, amount), storage, replies);
            &&& calls[i] matches HostCall::Submit { pool, from, spender, to, request }
            &&& from == adapter && spender == adapter && to == adapter
            &&& request.amount == amount
            &&& calls[i - 1] matches HostCall::AuthorizeAsCurrentContract { entry }
            &&& entry.contract == request.address
            &&& entry.fn_name@ == "transfer"@
            &&& entry.args == (TransferArgs { from, to: pool, amount: request.amount })
        }),
{
    law_deposit_follows_script(storage, adapter, amount, replies);
    let calls = deposit_calls(storage.spec_deposit(adapter, amount), storage, replies);
    let script = deposit_script(
        storage.vault->0,
        storage.pool->0,
        storage.usdc->0,
        adapter,
        amount,
    );
    assert(calls =~= script.take(calls.len() as int));
    assert(calls[i] == script[i]);
    assert(i == 4);
    assert(calls[i - 1] == script[i - 1]);
}

/// Whether the host's answers carry a deposit to its end: each of the kind that was asked for, and
/// with amounts that can be added up.
pub open spec fn deposit_completes(
    storage: MeridianBlendAdapter,
    amount: i128,
    replies: Seq<HostReply>,
) -> bool {
    &&& replies.len() >= 6
    &&& replies[0] is Done
    &&& replies[1] matches HostReply::Reserve(reserve)
    &&& replies[2] matches HostReply::Positions(positions_before)
    &&& replies[3] is Done
    &&& replies[4] is Done
    &&& replies[5] matches HostReply::Positions(positions_after)
    &&& positions_before.spec_collateral_at(reserve.config.index) matches Some(before)
    &&& positions_after.spec_collateral_at(reserve.config.index) matches Some(after)
    &&& is_amount(after - before)
    &&& is_amount(storage.spec_total_assets() + amount)
}

/// The bTokens by which the adapter's collateral grew between the two readings of a deposit.
pub open spec fn measured_credit(replies: Seq<HostReply>) -> int {
    let index = replies[1]->Reserve_0.config.index;
    let before = replies[2]->Positions_0.spec_collateral_at(index)->0;
    let after = replies[5]->Positions_0.spec_collateral_at(index)->0;
    after - before
}

/// A deposit on a linked adapter returns exactly where the host's answers carry it to its end. It
/// then returns the bTokens credited, as measured in the pool's own ledger, and the total has grown
/// by the amount. Where it does not return, nothing is written.
pub proof fn law_deposit_outcome(
    storage: MeridianBlendAdapter,
    adapter: Address,
    amount: i128,
    replies: Seq<HostReply>,
)
    requires
        storage.is_linked(),
    ensures
        ({
            let (end, after) = deposit_outcome(
                storage.spec_deposit(adapter, amount),
                storage,
                replies,
            );
            &&& end is Return <==> deposit_completes(storage, amount, replies)
            &&& end matches Progress::Return(credited) ==> {
                &&& credited == measured_credit(replies)
                &&& after == storage.with_total((storage.spec_total_assets() + amount) as i128)
                &&& after.spec_total_assets() == storage.spec_total_assets() + amount
            }
            &&& end !is Return ==> after == storage
        }),
{
    reveal_with_fuel(deposit_outcome, 8);
    let r1 = replies.drop_first();
    let r2 = r1.drop_first();
    let r3 = r2.drop_first();
    let r4 = r3.drop_first();
    let r5 = r4.drop_first();
    if replies.len() >= 6 {
        assert(r1[0] == replies[1]);
        assert(r2[0] == replies[2]);
        assert(r3[0] == replies[3]);
        assert(r4[0] == replies[4]);
        assert(r5[0] == replies[5]);
    }
}

/// A deposit demands the vault's authorization, reads the USDC reserve and the adapter's own
/// positions, authorizes the pool to take the amount from the adapter, supplies the amount, and
/// reads the adapter's positions again. Whatever the host answers, it makes no other call and none
/// out of turn. It authorizes the transfer exactly where the collateral before it could be read, and
/// makes all six calls exactly where each of the first five answers is as asked for.
pub proof fn law_deposit_calls_in_full(
    storage: MeridianBlendAdapter,
    vault: Address,
    pool: Address,
    usdc: Address,
    adapter: Address,
    amount: i128,
    replies: Seq<HostReply>,
)
    requires
        storage.vault == Some(vault),
        storage.pool == Some(pool),
        storage.usdc == Some(usdc),
    ensures
        ({
            let calls = deposit_calls(storage.spec_deposit(adapter, amount), storage, replies);
            let all = seq![
                HostCall::RequireAuth { address: vault },
                HostCall::GetReserve { pool, asset: usdc },
                HostCall::GetPositions { pool, address: adapter },
                HostCall::AuthorizeAsCurrentContract {
                    entry: AuthEntry {
                        contract: usdc,
                        fn_name: "transfer",
                        args: TransferArgs { from: adapter, to: pool, amount },
                    },
                },
                HostCall::Submit {
                    pool,
                    from: adapter,
                    spender: adapter,
                    to: adapter,
                    request: Request { request_type: 2u32, address: usdc, amount },
                },
                HostCall::GetPositions { pool, address: adapter },
            ];
            &&& 1 <= calls.len() <= 6
            &&& calls.len() <= replies.len() + 1
            &&& forall|i: int| 0 <= i < calls.len() ==> calls[i] == all[i]
            &&& {
                &&& replies.len() >= 5
                &&& replies[0] is Done
                &&& replies[1] matches HostReply::Reserve(reserve)
                &&& replies[2] matches HostReply::Positions(positions)
                &&& replies[3] is Done
                &&& replies[4] is Done
                &&& map_entries(positions.collateral).contains_key(reserve.config.index)
                    ==> map_entries(positions.collateral)[reserve.config.index] is Some
            } <==> calls.len() == 6
            &&& {
                &&& replies.len() >= 3
                &&& replies[0] is Done
                &&& replies[1] matches HostReply::Reserve(reserve)
                &&& replies[2] matches HostReply::Positions(positions)
                &&& map_entries(positions.collateral).contains_key(reserve.config.index)
                    ==> map_entries(positions.collateral)[reserve.config.index] is Some
            } <==> calls.len() >= 4
        }),
{
    law_deposit_follows_script(storage, adapter, amount, replies);
    let calls = deposit_calls(storage.spec_deposit(adapter, amount), storage, replies);
    let script = deposit_script(vault, pool, usdc, adapter, amount);
    assert(calls =~= script.take(calls.len() as int));
    assert forall|i: int| 0 <= i < calls.len() implies calls[i] == script[i] by {}
    reveal_with_fuel(deposit_calls, 8);
    let r1 = replies.drop_first();
    let r2 = r1.drop_first();
    let r3 = r2.drop_first();
    let r4 = r3.drop_first();
    if replies.len() >= 3 {
        assert(r1[0] == replies[1]);
        assert(r2[0] == replies[2]);
    }
    if replies.len() >= 5 {
        assert(r3[0] == replies[3]);
        assert(r4[0] == replies[4]);
    }
}

/// Once the host has answered throughout, a deposit returns by how much the collateral that the
/// pool's ledger holds for the adapter, in the reserve of USDC, has grown; the total has grown by
/// the amount, and nothing else is written. Where one of the two does not fit in an amount, the
/// deposit aborts and writes nothing.
pub proof fn law_deposit_credits_what_the_pool_recorded(
    storage: MeridianBlendAdapter,
    vault: Address,
    pool: Address,
    usdc: Address,
    total: i128,
    adapter: Address,
    amount: i128,
    reserve: Reserve,
    positions_before: Positions,
    before: i128,
    positions_after: Positions,
    after: i128,
    replies: Seq<HostReply>,
)
    requires
        storage.vault == Some(vault),
        storage.pool == Some(pool),
        storage.usdc == Some(usdc),
        storage.total matches Some(t) ==> total == t,
        storage.total is None ==> total == 0,
        replies.len() >= 6,
        replies[0] is Done,
        replies[1] == HostReply::Reserve(reserve),
        replies[2] == HostReply::Positions(positions_before),
        replies[3] is Done,
        replies[4] is Done,
        replies[5] == HostReply::Positions(positions_after),
        if map_entries(positions_before.collateral).contains_key(reserve.config.index) {
            map_entries(positions_before.collateral)[reserve.config.index] == Some(before)
        } else {
            before == 0
        },
        if map_entries(positions_after.collateral).contains_key(reserve.config.index) {
            map_entries(positions_after.collateral)[reserve.config.index] == Some(after)
        } else {
            after == 0
        },
    ensures
        ({
            let (end, later) = deposit_outcome(
                storage.spec_deposit(adapter, amount),
                storage,
                replies,
            );
            if i128::MIN <= after - before <= i128::MAX && i128::MIN <= total + amount
                <= i128::MAX {
                &&& end matches Progress::Return(credited)
                &&& credited == after - before
                &&& later.total matches Some(new_total)
                &&& new_total == total + amount
                &&& later.vault == Some(vault)
                &&& later.pool == Some(pool)
                &&& later.usdc == Some(usdc)
            } else {
                &&& end == Progress::<Deposit, i128>::Abort(Abort::Arithmetic)
                &&& later == storage
            }
        }),
{
    reveal_with_fuel(deposit_outcome, 8);
    let r1 = replies.drop_first();
    let r2 = r1.drop_first();
    let r3 = r2.drop_first();
    let r4 = r3.drop_first();
    let r5 = r4.drop_first();
    assert(r1[0] == replies[1]);
    assert(r2[0] == replies[2]);
    assert(r3[0] == replies[3]);
    assert(r4[0] == replies[4]);
    assert(r5[0] == replies[5]);
}

/// A deposit returns, or aborts for want of room, only after all six answers: the authorizations and the supply done, the
/// reserve, and twice the positions, with an amount or nothing in the pool's ledger at the
/// reserve's index. Until it returns it writes nothing, and it never stops with a typed error.
pub proof fn law_deposit_returns_on_full_answers_only(
    storage: MeridianBlendAdapter,
    vault: Address,
    pool: Address,
    usdc: Address,
    adapter: Address,
    amount: i128,
    replies: Seq<HostReply>,
)
    requires
        storage.vault == Some(vault),
        storage.pool == Some(pool),
        storage.usdc == Some(usdc),
    ensures
        ({
            let (end, later) = deposit_outcome(
                storage.spec_deposit(adapter, amount),
                storage,
                replies,
            );
            &&& end is Return || end == Progress::<Deposit, i128>::Abort(Abort::Arithmetic) ==> {
                &&& replies.len() >= 6
                &&& replies[0] is Done
                &&& replies[1] matches HostReply::Reserve(reserve)
                &&& replies[2] matches HostReply::Positions(earlier)
                &&& replies[3] is Done
                &&& replies[4] is Done
                &&& replies[5] matches HostReply::Positions(final_positions)
                &&& map_entries(earlier.collateral).contains_key(reserve.config.index)
                    ==> map_entries(earlier.collateral)[reserve.config.index] is Some
                &&& map_entries(final_positions.collateral).contains_key(reserve.config.index)
                    ==> map_entries(final_positions.collateral)[reserve.config.index] is Some
            }
            &&& end is Call ==> replies.len() < 6
            &&& end !is Return ==> later == storage
            &&& end matches Progress::Abort(abort) ==> abort == Abort::Arithmetic || abort
                == Abort::MalformedValue
        }),
{
    reveal_with_fuel(deposit_outcome, 8);
    let r1 = replies.drop_first();
    let r2 = r1.drop_first();
    let r3 = r2.drop_first();
    let r4 = r3.drop_first();
    let r5 = r4.drop_first();
    if replies.len() >= 6 {
        assert(r1[0] == replies[1]);
        assert(r2[0] == replies[2]);
        assert(r3[0] == replies[3]);
        assert(r4[0] == replies[4]);
        assert(r5[0] == replies[5]);
    }
}

} // verus!
