//! Withdrawing: bTokens are redeemed at the pool for USDC that goes to a recipient.

use soroban_sdk::Address;
use vstd::prelude::*;

use crate::accounting::{
    b_tokens_to_usdc, remaining_total, settle_withdrawal, spec_b_tokens_to_usdc,
    spec_settle_withdrawal,
};
use crate::adapter::MeridianBlendAdapter;
use crate::adapter_common::{get_usdc, require_vault_auth};
use crate::error::{Abort, ContractError};
use crate::host::{HostCall, HostReply, Progress};
use crate::pool::{Request, REQUEST_WITHDRAW};

verus! {

/// How far a withdrawal has come: what it waits for, and what it has learnt so far.
pub enum WithdrawalStage {
    /// The vault's authorization.
    VaultAuth { vault: Address },
    /// The pool's reserve for USDC.
    Reserve { pool: Address, usdc: Address },
    /// The recipient's balance before the redemption.
    BalanceBefore { pool: Address, usdc: Address, request_amount: i128 },
    /// The redemption itself.
    Submission { pool: Address, usdc: Address, request_amount: i128, before: i128 },
    /// The recipient's balance after the redemption.
    BalanceAfter { usdc: Address, before: i128 },
}

/// A withdrawal under way.
pub struct Withdrawal {
    /// The adapter's own address.
    pub adapter: Address,
    /// The bTokens to redeem.
    pub shares: i128,
    /// Who receives the USDC.
    pub recipient: Address,
    pub stage: WithdrawalStage,
}

impl Withdrawal {
    /// The call whose answer the withdrawal waits for.
    pub open spec fn spec_call(self) -> HostCall {
        match self.stage {
            WithdrawalStage::VaultAuth { vault } => HostCall::RequireAuth { address: vault },
            WithdrawalStage::Reserve { pool, usdc } => HostCall::GetReserve { pool, asset: usdc },
            WithdrawalStage::BalanceBefore { usdc, .. } => HostCall::GetBalance {
                token: usdc,
                holder: self.recipient,
            },
            WithdrawalStage::Submission { pool, usdc, request_amount, .. } => HostCall::Submit {
                pool,
                from: self.adapter,
                spender: self.adapter,
                to: self.recipient,
                request: Request {
                    request_type: REQUEST_WITHDRAW,
                    address: usdc,
                    amount: request_amount,
                },
            },
            WithdrawalStage::BalanceAfter { usdc, .. } => HostCall::GetBalance {
                token: usdc,
                holder: self.recipient,
            },
        }
    }

    /// The withdrawal goes on at `stage`.
    pub open spec fn waits_at(self, stage: WithdrawalStage) -> Progress<Withdrawal, i128> {
        let run = Withdrawal { stage, ..self };
        Progress::Call(run.spec_call(), run)
    }

    /// What the withdrawal does when `reply` comes in. An answer of the wrong kind ends it.
    pub open spec fn step(self, storage: MeridianBlendAdapter, reply: HostReply) -> Progress<
        Withdrawal,
        i128,
    > {
        match (self.stage, reply) {
            (WithdrawalStage::VaultAuth { .. }, HostReply::Done) => match (
                storage.pool,
                storage.usdc,
            ) {
                (Some(pool), Some(usdc)) => self.waits_at(WithdrawalStage::Reserve { pool, usdc }),
                _ => Progress::Abort(Abort::Error(ContractError::NotInitialized)),
            },
            (WithdrawalStage::Reserve { pool, usdc }, HostReply::Reserve(reserve)) => match (
                spec_b_tokens_to_usdc(self.shares, reserve.data.b_rate)
            ) {
                Ok(request_amount) => self.waits_at(
                    WithdrawalStage::BalanceBefore { pool, usdc, request_amount },
                ),
                Err(e) => Progress::Abort(Abort::Error(e)),
            },
            (
                WithdrawalStage::BalanceBefore { pool, usdc, request_amount },
                HostReply::Balance(before),
            ) => self.waits_at(WithdrawalStage::Submission { pool, usdc, request_amount, before }),
            (WithdrawalStage::Submission { usdc, before, .. }, HostReply::Done) => self.waits_at(
                WithdrawalStage::BalanceAfter { usdc, before },
            ),
            (WithdrawalStage::BalanceAfter { before, .. }, HostReply::Balance(after)) => match (
                spec_settle_withdrawal(storage.spec_total_assets(), before, after)
            ) {
                Ok((delivered, _)) => Progress::Return(delivered),
                Err(abort) => Progress::Abort(abort),
            },
            _ => Progress::Abort(Abort::MalformedValue),
        }
    }

    /// The storage once `reply` has been dealt with: what was delivered leaves the total when the
    /// withdrawal returns, and until then nothing is written.
    pub open spec fn storage_after(
        self,
        storage: MeridianBlendAdapter,
        reply: HostReply,
    ) -> MeridianBlendAdapter {
        match self.step(storage, reply) {
            Progress::Return(delivered) => storage.with_total(
                remaining_total(storage.spec_total_assets() as int, delivered as int) as i128,
            ),
            _ => storage,
        }
    }

    /// The call whose answer the withdrawal waits for.
    pub fn call(&self) -> (call: HostCall)
        ensures
            call == self.spec_call(),
    {
        match &self.stage {
            WithdrawalStage::VaultAuth { vault } => HostCall::RequireAuth {
                address: vault.clone(),
            },
            WithdrawalStage::Reserve { pool, usdc } => HostCall::GetReserve {
                pool: pool.clone(),
                asset: usdc.clone(),
            },
            WithdrawalStage::BalanceBefore { usdc, .. } => HostCall::GetBalance {
                token: usdc.clone(),
                holder: self.recipient.clone(),
            },
            WithdrawalStage::Submission { pool, usdc, request_amount, .. } => HostCall::Submit {
                pool: pool.clone(),
                from: self.adapter.clone(),
                spender: self.adapter.clone(),
                to: self.recipient.clone(),
                request: Request {
                    request_type: REQUEST_WITHDRAW,
                    address: usdc.clone(),
                    amount: *request_amount,
                },
            },
            WithdrawalStage::BalanceAfter { usdc, .. } => HostCall::GetBalance {
                token: usdc.clone(),
                holder: self.recipient.clone(),
            },
        }
    }

    /// Hands the call out, and waits for the answer.
    fn wait(self) -> (progress: Progress<Withdrawal, i128>)
        ensures
            progress == Progress::<Withdrawal, i128>::Call(self.spec_call(), self),
    {
        let call = self.call();
        Progress::Call(call, self)
    }

    /// Goes on with the host's answer to the last call.
    pub fn resume(self, storage: &mut MeridianBlendAdapter, reply: HostReply) -> (progress:
        Progress<Withdrawal, i128>)
        ensures
            progress == self.step(*old(storage), reply),
            *final(storage) == self.storage_after(*old(storage), reply),
            final(storage).vault == old(storage).vault,
            final(storage).pool == old(storage).pool,
            final(storage).usdc == old(storage).usdc,
            progress !is Return ==> *final(storage) == *old(storage),
            progress matches Progress::Return(delivered) ==> {
                let total = match old(storage).total {
                    Some(t) => t as int,
                    None => 0,
                };
                &&& self.stage matches WithdrawalStage::BalanceAfter { before, .. }
                &&& reply matches HostReply::Balance(after)
                &&& delivered == after - before
                &&& final(storage).total matches Some(new_total)
                &&& delivered < total ==> new_total == total - delivered
                &&& delivered >= total ==> new_total == 0
            },
    {
        let Withdrawal { adapter, shares, recipient, stage } = self;
        match (stage, reply) {
            (WithdrawalStage::VaultAuth { .. }, HostReply::Done) => {
                match (storage.get_pool(), get_usdc(storage)) {
                    (Ok(pool), Ok(usdc)) => {
                        let stage = WithdrawalStage::Reserve { pool, usdc };
                        Withdrawal { adapter, shares, recipient, stage }.wait()
                    },
                    _ => Progress::Abort(Abort::Error(ContractError::NotInitialized)),
                }
            },
            (WithdrawalStage::Reserve { pool, usdc }, HostReply::Reserve(reserve)) => {
                match b_tokens_to_usdc(shares, reserve.data.b_rate) {
                    Ok(request_amount) => {
                        let stage = WithdrawalStage::BalanceBefore { pool, usdc, request_amount };
                        Withdrawal { adapter, shares, recipient, stage }.wait()
                    },
                    Err(e) => Progress::Abort(Abort::Error(e)),
                }
            },
            (
                WithdrawalStage::BalanceBefore { pool, usdc, request_amount },
                HostReply::Balance(before),
            ) => {
                let stage = WithdrawalStage::Submission { pool, usdc, request_amount, before };
                Withdrawal { adapter, shares, recipient, stage }.wait()
            },
            (WithdrawalStage::Submission { usdc, before, .. }, HostReply::Done) => {
                let stage = WithdrawalStage::BalanceAfter { usdc, before };
                Withdrawal { adapter, shares, recipient, stage }.wait()
            },
            (WithdrawalStage::BalanceAfter { before, .. }, HostReply::Balance(after)) => {
                match settle_withdrawal(storage.total_assets(), before, after) {
                    Ok((delivered, remaining)) => {
                        storage.total = Some(remaining);
                        Progress::Return(delivered)
                    },
                    Err(abort) => Progress::Abort(abort),
                }
            },
            _ => Progress::Abort(Abort::MalformedValue),
        }
    }
}

impl MeridianBlendAdapter {
    /// How a withdrawal begins: with the demand that the stored vault has authorized it.
    pub open spec fn spec_withdraw(
        self,
        adapter: Address,
        shares: i128,
        recipient: Address,
    ) -> Progress<Withdrawal, i128> {
        match self.vault {
            Some(vault) => {
                let stage = WithdrawalStage::VaultAuth { vault };
                let run = Withdrawal { adapter, shares, recipient, stage };
                Progress::Call(run.spec_call(), run)
            },
            None => Progress::Abort(Abort::Error(ContractError::NotInitialized)),
        }
    }

    /// Called by the vault to redeem `shares` bTokens from the Blend pool; `adapter` is the
    /// adapter's own address. Blend's withdraw request is in underlying USDC, so `shares` is
    /// converted at the current `b_rate` before it is submitted. Returns the USDC delivered to
    /// `recipient`, measured rather than assumed to equal the request.
    pub fn withdraw(&self, adapter: Address, shares: i128, recipient: Address) -> (progress:
        Progress<Withdrawal, i128>)
        ensures
            progress == self.spec_withdraw(adapter, shares, recipient),
            self.vault is None ==> progress == Progress::<Withdrawal, i128>::Abort(
                Abort::Error(ContractError::NotInitialized),
            ),
            self.vault matches Some(vault) ==> {
                &&& progress matches Progress::Call(call, run)
                &&& call == (HostCall::RequireAuth { address: vault })
                &&& run.adapter == adapter
                &&& run.shares == shares
                &&& run.recipient == recipient
            },
    {
        match require_vault_auth(self) {
            Ok(vault) => {
                let stage = WithdrawalStage::VaultAuth { vault };
                Withdrawal { adapter, shares, recipient, stage }.wait()
            },
            Err(e) => Progress::Abort(Abort::Error(e)),
        }
    }
}

} // verus!
