//! What holds of withdrawals, from the first call to the last.

use soroban_sdk::Address;
use vstd::prelude::*;

use crate::accounting::{is_amount, remaining_total, spec_b_tokens_to_usdc};
use crate::adapter::MeridianBlendAdapter;
use crate::error::{Abort, ContractError};
use crate::host::{HostCall, HostReply, Progress};
use crate::laws::rates::law_conversion_in_plain_arithmetic;
use crate::pool::{Request, Reserve, REQUEST_WITHDRAW};
use crate::withdraw::Withdrawal;

verus! {

/// The calls that a withdrawal makes from `progress` on, as the host answers with `replies`.
pub open spec fn withdrawal_calls(
    progress: Progress<Withdrawal, i128>,
    storage: MeridianBlendAdapter,
    replies: Seq<HostReply>,
) -> Seq<HostCall>
    decreases replies.len(),
{
    match progress {
        Progress::Call(call, run) => if replies.len() == 0 {
            seq![call]
        } else {
            seq![call] + withdrawal_calls(
                run.step(storage, replies[0]),
                run.storage_after(storage, replies[0]),
                replies.drop_first(),
            )
        },
        _ => Seq::empty(),
    }
}

/// Where a withdrawal stands, and the storage with it, once the host has answered with `replies`.
pub open spec fn withdrawal_outcome(
    progress: Progress<Withdrawal, i128>,
    storage: MeridianBlendAdapter,
    replies: Seq<HostReply>,
) -> (Progress<Withdrawal, i128>, MeridianBlendAdapter)
    decreases replies.len(),
{
    match progress {
        Progress::Call(_, run) => if replies.len() == 0 {
            (progress, storage)
        } else {
            withdrawal_outcome(
                run.step(storage, replies[0]),
                run.storage_after(storage, replies[0]),
                replies.drop_first(),
            )
        },
        _ => (progress, storage),
    }
}

/// Everything that a withdrawal asks of the host, in order, where `request_amount` is what its
/// shares are worth.
pub open spec fn withdrawal_script(
    vault: Address,
    pool: Address,
    usdc: Address,
    adapter: Address,
    recipient: Address,
    request_amount: i128,
) -> Seq<HostCall> {
    seq![
        HostCall::RequireAuth { address: vault },
        HostCall::GetReserve { pool, asset: usdc },
        HostCall::GetBalance { token: usdc, holder: recipient },
        HostCall::Submit {
            pool,
            from: adapter,
            spender: adapter,
            to: recipient,
            request: Request {
                request_type: REQUEST_WITHDRAW,
                address: usdc,
                amount: request_amount,
            },
        },
        HostCall::GetBalance { token: usdc, holder: recipient },
    ]
}

/// What `shares` are worth at the rate of the reserve that the host answered with; zero where no
/// such answer came or the value overflows.
pub open spec fn quoted_amount(shares: i128, replies: Seq<HostReply>) -> i128 {
    if replies.len() >= 2 {
        match replies[1] {
            HostReply::Reserve(reserve) => match spec_b_tokens_to_usdc(
                shares,
                reserve.data.b_rate,
            ) {
                Ok(value) => value,
                Err(_) => 0i128,
            },
            _ => 0i128,
        }
    } else {
        0i128
    }
}

/// Whatever the host answers, a withdrawal on a linked adapter asks for the calls of its script, in
/// that order, and for nothing else. So the first thing that it demands is the vault's
/// authorization, and what it requests of the pool is the value of the shares at the rate that the
/// pool has just reported.
pub proof fn law_withdrawal_follows_script(
    storage: MeridianBlendAdapter,
    adapter: Address,
    shares: i128,
    recipient: Address,
    replies: Seq<HostReply>,
)
    requires
        storage.is_linked(),
    ensures
        withdrawal_calls(
            storage.spec_withdraw(adapter, shares, recipient),
            storage,
            replies,
        ).is_prefix_of(
            withdrawal_script(
                storage.vault->0,
                storage.pool->0,
                storage.usdc->0,
                adapter,
                recipient,
                quoted_amount(shares, replies),
            ),
        ),
        withdrawal_calls(storage.spec_withdraw(adapter, shares, recipient), storage, replies).len()
            > 0,
{
    reveal_with_fuel(withdrawal_calls, 7);
    let script = withdrawal_script(
        storage.vault->0,
        storage.pool->0,
        storage.usdc->0,
        adapter,
        recipient,
        quoted_amount(shares, replies),
    );
    let calls = withdrawal_calls(
        storage.spec_withdraw(adapter, shares, recipient),
        storage,
        replies,
    );
    if replies.len() >= 2 {
        assert(replies.drop_first()[0] == replies[1]);
    }
    assert(calls =~= script.take(calls.len() as int));
}

/// Whether the host's answers carry a withdrawal to its end: each of the kind that was asked for,
/// and with amounts that can be reckoned with.
pub open spec fn withdrawal_completes(
    storage: MeridianBlendAdapter,
    shares: i128,
    replies: Seq<HostReply>,
) -> bool {
    &&& replies.len() >= 5
    &&& replies[0] is Done
    &&& replies[1] matches HostReply::Reserve(reserve)
    &&& replies[2] matches HostReply::Balance(before)
    &&& replies[3] is Done
    &&& replies[4] matches HostReply::Balance(after)
    &&& is_amount(shares * reserve.data.b_rate)
    &&& is_amount(after - before)
    &&& is_amount(remaining_total(storage.spec_total_assets() as int, after - before))
}

/// The USDC by which the recipient's balance grew between the two readings of a withdrawal.
pub open spec fn measured_delivery(replies: Seq<HostReply>) -> int {
    replies[4]->Balance_0 - replies[2]->Balance_0
}

/// A withdrawal on a linked adapter returns exactly where the host's answers carry it to its end.
/// It then returns the USDC delivered, as measured at the recipient, which has left the total; the
/// total does not fall below zero. Where it does not return, nothing is written; and where the
/// shares' value overflows, it stops with that error as soon as the rate is known.
pub proof fn law_withdrawal_outcome(
    storage: MeridianBlendAdapter,
    adapter: Address,
    shares: i128,
    recipient: Address,
    replies: Seq<HostReply>,
)
    requires
        storage.is_linked(),
    ensures
        ({
            let (end, after) = withdrawal_outcome(
                storage.spec_withdraw(adapter, shares, recipient),
                storage,
                replies,
            );
            &&& end is Return <==> withdrawal_completes(storage, shares, replies)
            &&& end matches Progress::Return(delivered) ==> {
                &&& delivered == measured_delivery(replies)
                &&& after == storage.with_total(after.spec_total_assets())
                &&& after.spec_total_assets() == remaining_total(
                    storage.spec_total_assets() as int,
                    delivered as int,
                )
            }
            &&& end !is Return ==> after == storage
            &&& (replies.len() >= 2 && replies[0] is Done && (replies[1] matches HostReply::Reserve(
                reserve,
            ) && !is_amount(shares * reserve.data.b_rate))) ==> end == Progress::<
                Withdrawal,
                i128,
            >::Abort(Abort::Error(ContractError::Overflow))
        }),
{
    reveal_with_fuel(withdrawal_outcome, 7);
    let r1 = replies.drop_first();
    let r2 = r1.drop_first();
    let r3 = r2.drop_first();
    let r4 = r3.drop_first();
    if replies.len() >= 2 {
        assert(r1[0] == replies[1]);
    }
    if replies.len() >= 5 {
        assert(r2[0] == replies[2]);
        assert(r3[0] == replies[3]);
        assert(r4[0] == replies[4]);
    }
}

/// A withdrawal demands the vault's authorization, reads the USDC reserve and the recipient's
/// balance, asks the pool to pay the recipient what the shares are worth at the rate just read,
/// rounded towards zero, and reads the recipient's balance again. Whatever the host answers from
/// there on, it makes no other call and none out of turn. It submits exactly where the balance before
/// is known, and makes all five calls exactly where each of the first four answers is as asked for.
pub proof fn law_withdrawal_calls_in_full(
    storage: MeridianBlendAdapter,
    vault: Address,
    pool: Address,
    usdc: Address,
    adapter: Address,
    shares: i128,
    recipient: Address,
    reserve: Reserve,
    requested: i128,
    replies: Seq<HostReply>,
)
    requires
        storage.vault == Some(vault),
        storage.pool == Some(pool),
        storage.usdc == Some(usdc),
        replies.len() >= 2,
        replies[1] == HostReply::Reserve(reserve),
        i128::MIN <= shares * reserve.data.b_rate <= i128::MAX,
        shares * reserve.data.b_rate >= 0 ==> requested * 1_000_000_000_000 <= shares
            * reserve.data.b_rate < (requested + 1) * 1_000_000_000_000,
        shares * reserve.data.b_rate <= 0 ==> (requested - 1) * 1_000_000_000_000 < shares
            * reserve.data.b_rate <= requested * 1_000_000_000_000,
    ensures
        ({
            let calls = withdrawal_calls(
                storage.spec_withdraw(adapter, shares, recipient),
                storage,
                replies,
            );
            let all = seq![
                HostCall::RequireAuth { address: vault },
                HostCall::GetReserve { pool, asset: usdc },
                HostCall::GetBalance { token: usdc, holder: recipient },
                HostCall::Submit {
                    pool,
                    from: adapter,
                    spender: adapter,
                    to: recipient,
                    request: Request { request_type: 3u32, address: usdc, amount: requested },
                },
                HostCall::GetBalance { token: usdc, holder: recipient },
            ];
            &&& 1 <= calls.len() <= 5
            &&& calls.len() <= replies.len() + 1
            &&& forall|i: int| 0 <= i < calls.len() ==> calls[i] == all[i]
            &&& replies.len() >= 4 && replies[0] is Done && replies[2] is Balance
                && replies[3] is Done <==> calls.len() == 5
            &&& replies.len() >= 3 && replies[0] is Done && replies[2] is Balance <==> calls.len()
                >= 4
        }),
{
    law_withdrawal_follows_script(storage, adapter, shares, recipient, replies);
    law_conversion_in_plain_arithmetic(shares, reserve.data.b_rate);
    let calls = withdrawal_calls(
        storage.spec_withdraw(adapter, shares, recipient),
        storage,
        replies,
    );
    let script = withdrawal_script(vault, pool, usdc, adapter, recipient, requested);
    assert(quoted_amount(shares, replies) == requested);
    assert(calls =~= script.take(calls.len() as int));
    assert forall|i: int| 0 <= i < calls.len() implies calls[i] == script[i] by {}
    reveal_with_fuel(withdrawal_calls, 7);
    let r1 = replies.drop_first();
    let r2 = r1.drop_first();
    let r3 = r2.drop_first();
    assert(r1[0] == replies[1]);
    if replies.len() >= 3 {
        assert(r2[0] == replies[2]);
    }
    if replies.len() >= 4 {
        assert(r3[0] == replies[3]);
    }
}

/// Before the reserve is known, a withdrawal asks for the vault's authorization and the reserve, and
/// for nothing else.
pub proof fn law_withdrawal_begins_with_authorization(
    storage: MeridianBlendAdapter,
    vault: Address,
    pool: Address,
    usdc: Address,
    adapter: Address,
    shares: i128,
    recipient: Address,
    replies: Seq<HostReply>,
)
    requires
        storage.vault == Some(vault),
        storage.pool == Some(pool),
        storage.usdc == Some(usdc),
    ensures
        ({
            let calls = withdrawal_calls(
                storage.spec_withdraw(adapter, shares, recipient),
                storage,
                replies,
            );
            &&& calls.len() >= 1
            &&& calls[0] == (HostCall::RequireAuth { address: vault })
            &&& calls.len() >= 2 <==> replies.len() >= 1 && replies[0] is Done
            &&& calls.len() >= 2 ==> calls[1] == (HostCall::GetReserve { pool, asset: usdc })
            &&& calls.len() >= 3 ==> replies.len() >= 2 && (replies[1] matches HostReply::Reserve(
                reserve,
            ) && i128::MIN <= shares * reserve.data.b_rate <= i128::MAX)
        }),
{
    reveal_with_fuel(withdrawal_calls, 7);
    if replies.len() >= 2 {
        assert(replies.drop_first()[0] == replies[1]);
    }
}

/// Once the host has answered throughout, a withdrawal returns by how much the recipient's balance
/// has grown. What was delivered leaves the total: less than the total leaves the difference, and
/// the total or more leaves exactly zero. Nothing else is written. Where one of the amounts does
/// not fit, the withdrawal aborts and writes nothing.
pub proof fn law_withdrawal_delivers_what_the_recipient_got(
    storage: MeridianBlendAdapter,
    vault: Address,
    pool: Address,
    usdc: Address,
    total: i128,
    adapter: Address,
    shares: i128,
    recipient: Address,
    reserve: Reserve,
    before: i128,
    after: i128,
    replies: Seq<HostReply>,
)
    requires
        storage.vault == Some(vault),
        storage.pool == Some(pool),
        storage.usdc == Some(usdc),
        storage.total matches Some(t) ==> total == t,
        storage.total is None ==> total == 0,
        replies.len() >= 5,
        replies[0] is Done,
        replies[1] == HostReply::Reserve(reserve),
        replies[2] == HostReply::Balance(before),
        replies[3] is Done,
        replies[4] == HostReply::Balance(after),
        i128::MIN <= shares * reserve.data.b_rate <= i128::MAX,
    ensures
        ({
            let (end, later) = withdrawal_outcome(
                storage.spec_withdraw(adapter, shares, recipient),
                storage,
                replies,
            );
            if i128::MIN <= after - before <= i128::MAX && (after - before < total ==> total - (after
                - before) <= i128::MAX) {
                &&& end matches Progress::Return(delivered)
                &&& delivered == after - before
                &&& later.total matches Some(new_total)
                &&& delivered < total ==> new_total == total - delivered
                &&& delivered >= total ==> new_total == 0
                &&& later.vault == Some(vault)
                &&& later.pool == Some(pool)
                &&& later.usdc == Some(usdc)
            } else {
                &&& end == Progress::<Withdrawal, i128>::Abort(Abort::Arithmetic)
                &&& later == storage
            }
        }),
{
    reveal_with_fuel(withdrawal_outcome, 7);
    let r1 = replies.drop_first();
    let r2 = r1.drop_first();
    let r3 = r2.drop_first();
    let r4 = r3.drop_first();
    assert(r1[0] == replies[1]);
    assert(r2[0] == replies[2]);
    assert(r3[0] == replies[3]);
    assert(r4[0] == replies[4]);
}

/// A withdrawal returns, or aborts for want of room, only after all five answers, with a value of the shares that does not
/// overflow. Where it does overflow, that is the error it stops with, as soon as the rate is known,
/// and it stops with no other. Until it returns it writes nothing.
pub proof fn law_withdrawal_returns_on_full_answers_only(
    storage: MeridianBlendAdapter,
    vault: Address,
    pool: Address,
    usdc: Address,
    adapter: Address,
    shares: i128,
    recipient: Address,
    replies: Seq<HostReply>,
)
    requires
        storage.vault == Some(vault),
        storage.pool == Some(pool),
        storage.usdc == Some(usdc),
    ensures
        ({
            let (end, later) = withdrawal_outcome(
                storage.spec_withdraw(adapter, shares, recipient),
                storage,
                replies,
            );
            &&& end is Return || end == Progress::<Withdrawal, i128>::Abort(Abort::Arithmetic) ==> {
                &&& replies.len() >= 5
                &&& replies[0] is Done
                &&& replies[1] matches HostReply::Reserve(reserve)
                &&& i128::MIN <= shares * reserve.data.b_rate <= i128::MAX
                &&& replies[2] is Balance
                &&& replies[3] is Done
                &&& replies[4] is Balance
            }
            &&& end is Call ==> replies.len() < 5
            &&& end !is Return ==> later == storage
            &&& {
                &&& replies.len() >= 2
                &&& replies[0] is Done
                &&& replies[1] matches HostReply::Reserve(reserve)
                &&& !(i128::MIN <= shares * reserve.data.b_rate <= i128::MAX)
            } <==> end == Progress::<Withdrawal, i128>::Abort(
                Abort::Error(ContractError::Overflow),
            )
            &&& end matches Progress::Abort(Abort::Error(e)) ==> e == ContractError::Overflow
        }),
{
    reveal_with_fuel(withdrawal_outcome, 7);
    let r1 = replies.drop_first();
    let r2 = r1.drop_first();
    let r3 = r2.drop_first();
    let r4 = r3.drop_first();
    if replies.len() >= 2 {
        assert(r1[0] == replies[1]);
    }
    if replies.len() >= 5 {
        assert(r2[0] == replies[2]);
        assert(r3[0] == replies[3]);
        assert(r4[0] == replies[4]);
    }
}

} // verus!
