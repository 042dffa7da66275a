//! Depositing: the USDC that the vault has sent to the adapter goes to the pool as collateral.

use soroban_sdk::Address;
use vstd::prelude::*;

use crate::accounting::{settle_deposit, spec_settle_deposit};
use crate::adapter::MeridianBlendAdapter;
use crate::adapter_common::{get_usdc, require_vault_auth};
use crate::error::{Abort, ContractError};
use crate::host::{AuthEntry, HostCall, HostReply, Progress, TransferArgs};
use crate::pool::{map_entries, Request, REQUEST_SUPPLY};

verus! {

/// How far a deposit has come: what it waits for, and what it has learnt so far.
pub enum DepositStage {
    /// The vault's authorization.
    VaultAuth { vault: Address },
    /// The pool's reserve for USDC.
    Reserve { pool: Address, usdc: Address },
    /// The positions before the supply.
    PositionsBefore { pool: Address, usdc: Address, index: u32 },
    /// The authorization of the pool's own transfer.
    TransferAuth { pool: Address, usdc: Address, index: u32, before: i128 },
    /// The supply itself.
    Submission { pool: Address, usdc: Address, index: u32, before: i128 },
    /// The positions after the supply.
    PositionsAfter { pool: Address, index: u32, before: i128 },
}

/// A deposit under way.
pub struct Deposit {
    /// The adapter's own address.
    pub adapter: Address,
    /// The USDC to supply.
    pub amount: i128,
    pub stage: DepositStage,
}

impl Deposit {
    /// The call whose answer the deposit waits for.
    pub open spec fn spec_call(self) -> HostCall {
        match self.stage {
            DepositStage::VaultAuth { vault } => HostCall::RequireAuth { address: vault },
            DepositStage::Reserve { pool, usdc } => HostCall::GetReserve { pool, asset: usdc },
            DepositStage::PositionsBefore { pool, .. } => HostCall::GetPositions {
                pool,
                address: self.adapter,
            },
            DepositStage::TransferAuth { pool, usdc, .. } => HostCall::AuthorizeAsCurrentContract {
                entry: AuthEntry {
                    contract: usdc,
                    fn_name: "transfer",
                    args: TransferArgs { from: self.adapter, to: pool, amount: self.amount },
                },
            },
            DepositStage::Submission { pool, usdc, .. } => HostCall::Submit {
                pool,
                from: self.adapter,
                spender: self.adapter,
                to: self.adapter,
                request: Request {
                    request_type: REQUEST_SUPPLY,
                    address: usdc,
                    amount: self.amount,
                },
            },
            DepositStage::PositionsAfter { pool, .. } => HostCall::GetPositions {
                pool,
                address: self.adapter,
            },
        }
    }

    /// The deposit goes on at `stage`.
    pub open spec fn waits_at(self, stage: DepositStage) -> Progress<Deposit, i128> {
        let run = Deposit { stage, ..self };
        Progress::Call(run.spec_call(), run)
    }

    /// What the deposit does when `reply` comes in. An answer of the wrong kind ends it.
    pub open spec fn step(self, storage: MeridianBlendAdapter, reply: HostReply) -> Progress<
        Deposit,
        i128,
    > {
        match (self.stage, reply) {
            (DepositStage::VaultAuth { .. }, HostReply::Done) => match (
                storage.pool,
                storage.usdc,
            ) {
                (Some(pool), Some(usdc)) => self.waits_at(DepositStage::Reserve { pool, usdc }),
                _ => Progress::Abort(Abort::Error(ContractError::NotInitialized)),
            },
            (DepositStage::Reserve { pool, usdc }, HostReply::Reserve(reserve)) => self.waits_at(
                DepositStage::PositionsBefore { pool, usdc, index: reserve.config.index },
            ),
            (
                DepositStage::PositionsBefore { pool, usdc, index },
                HostReply::Positions(positions),
            ) => match positions.spec_collateral_at(index) {
                Some(before) => self.waits_at(
                    DepositStage::TransferAuth { pool, usdc, index, before },
                ),
                None => Progress::Abort(Abort::MalformedValue),
            },
            (DepositStage::TransferAuth { pool, usdc, index, before }, HostReply::Done) => {
                self.waits_at(DepositStage::Submission { pool, usdc, index, before })
            },
            (DepositStage::Submission { pool, index, before, .. }, HostReply::Done) => {
                self.waits_at(DepositStage::PositionsAfter { pool, index, before })
            },
            (
                DepositStage::PositionsAfter { index, before, .. },
                HostReply::Positions(positions),
            ) => match positions.spec_collateral_at(index) {
                Some(after) => match spec_settle_deposit(
                    storage.spec_total_assets(),
                    self.amount,
                    before,
                    after,
                ) {
                    Ok((credited, _)) => Progress::Return(credited),
                    Err(abort) => Progress::Abort(abort),
                },
                None => Progress::Abort(Abort::MalformedValue),
            },
            _ => Progress::Abort(Abort::MalformedValue),
        }
    }

    /// The storage once `reply` has been dealt with: the amount is added to the total when the
    /// deposit returns, and until then nothing is written.
    pub open spec fn storage_after(
        self,
        storage: MeridianBlendAdapter,
        reply: HostReply,
    ) -> MeridianBlendAdapter {
        if self.step(storage, reply) is Return {
            storage.with_total((storage.spec_total_assets() + self.amount) as i128)
        } else {
            storage
        }
    }

    /// The call whose answer the deposit waits for.
    pub fn call(&self) -> (call: HostCall)
        ensures
            call == self.spec_call(),
    {
        match &self.stage {
            DepositStage::VaultAuth { vault } => HostCall::RequireAuth { address: vault.clone() },
            DepositStage::Reserve { pool, usdc } => HostCall::GetReserve {
                pool: pool.clone(),
                asset: usdc.clone(),
            },
            DepositStage::PositionsBefore { pool, .. } => HostCall::GetPositions {
                pool: pool.clone(),
                address: self.adapter.clone(),
            },
            // The pool pulls the USDC by a transfer of its own, several frames down. The adapter's
            // direct calls are authorized by themselves; this one has to be authorized explicitly,
            // and the authorization is gone as soon as any other call returns.
            DepositStage::TransferAuth { pool, usdc, .. } => HostCall::AuthorizeAsCurrentContract {
                entry: AuthEntry {
                    contract: usdc.clone(),
                    fn_name: "transfer",
                    args: TransferArgs {
                        from: self.adapter.clone(),
                        to: pool.clone(),
                        amount: self.amount,
                    },
                },
            },
            DepositStage::Submission { pool, usdc, .. } => HostCall::Submit {
                pool: pool.clone(),
                from: self.adapter.clone(),
                spender: self.adapter.clone(),
                to: self.adapter.clone(),
                request: Request {
                    request_type: REQUEST_SUPPLY,
                    address: usdc.clone(),
                    amount: self.amount,
                },
            },
            DepositStage::PositionsAfter { pool, .. } => HostCall::GetPositions {
                pool: pool.clone(),
                address: self.adapter.clone(),
            },
        }
    }

    /// Hands the call out, and waits for the answer.
    fn wait(self) -> (progress: Progress<Deposit, i128>)
        ensures
            progress == Progress::<Deposit, i128>::Call(self.spec_call(), self),
    {
        let call = self.call();
        Progress::Call(call, self)
    }

    /// Goes on with the host's answer to the last call.
    pub fn resume(self, storage: &mut MeridianBlendAdapter, reply: HostReply) -> (progress:
        Progress<Deposit, i128>)
        ensures
            progress == self.step(*old(storage), reply),
            *final(storage) == self.storage_after(*old(storage), reply),
            final(storage).vault == old(storage).vault,
            final(storage).pool == old(storage).pool,
            final(storage).usdc == old(storage).usdc,
            progress !is Return ==> *final(storage) == *old(storage),
            progress matches Progress::Return(credited) ==> {
                &&& self.stage matches DepositStage::PositionsAfter { index, before, .. }
                &&& reply matches HostReply::Positions(positions)
                &&& if map_entries(positions.collateral).contains_key(index) {
                    map_entries(positions.collateral)[index] matches Some(after) && credited
                        == after - before
                } else {
                    credited == 0 - before
                }
                &&& final(storage).total matches Some(new_total)
                &&& new_total == self.amount + match old(storage).total {
                    Some(total) => total as int,
                    None => 0,
                }
            },
    {
        let Deposit { adapter, amount, stage } = self;
        match (stage, reply) {
            (DepositStage::VaultAuth { .. }, HostReply::Done) => {
                match (storage.get_pool(), get_usdc(storage)) {
                    (Ok(pool), Ok(usdc)) => {
                        let stage = DepositStage::Reserve { pool, usdc };
                        Deposit { adapter, amount, stage }.wait()
                    },
                    _ => Progress::Abort(Abort::Error(ContractError::NotInitialized)),
                }
            },
            (DepositStage::Reserve { pool, usdc }, HostReply::Reserve(reserve)) => {
                let index: u32 = reserve.config.index;
                let stage = DepositStage::PositionsBefore { pool, usdc, index };
                Deposit { adapter, amount, stage }.wait()
            },
            (
                DepositStage::PositionsBefore { pool, usdc, index },
                HostReply::Positions(positions),
            ) => match positions.collateral_at(index) {
                Ok(before) => {
                    let stage = DepositStage::TransferAuth { pool, usdc, index, before };
                    Deposit { adapter, amount, stage }.wait()
                },
                Err(abort) => Progress::Abort(abort),
            },
            (DepositStage::TransferAuth { pool, usdc, index, before }, HostReply::Done) => {
                let stage = DepositStage::Submission { pool, usdc, index, before };
                Deposit { adapter, amount, stage }.wait()
            },
            (DepositStage::Submission { pool, index, before, .. }, HostReply::Done) => {
                let stage = DepositStage::PositionsAfter { pool, index, before };
                Deposit { adapter, amount, stage }.wait()
            },
            (
                DepositStage::PositionsAfter { index, before, .. },
                HostReply::Positions(positions),
            ) => match positions.collateral_at(index) {
                Ok(after) => match settle_deposit(storage.total_assets(), amount, before, after) {
                    Ok((credited, new_total)) => {
                        storage.total = Some(new_total);
                        Progress::Return(credited)
                    },
                    Err(abort) => Progress::Abort(abort),
                },
                Err(abort) => Progress::Abort(abort),
            },
            _ => Progress::Abort(Abort::MalformedValue),
        }
    }
}

impl MeridianBlendAdapter {
    /// How a deposit begins: with the demand that the stored vault has authorized it.
    pub open spec fn spec_deposit(self, adapter: Address, amount: i128) -> Progress<Deposit, i128> {
        match self.vault {
            Some(vault) => {
                let run = Deposit { adapter, amount, stage: DepositStage::VaultAuth { vault } };
                Progress::Call(run.spec_call(), run)
            },
            None => Progress::Abort(Abort::Error(ContractError::NotInitialized)),
        }
    }

    /// Called by the vault after transferring `amount` USDC to this adapter, whose own address is
    /// `adapter`. Supplies the USDC to the Blend lending pool as collateral and returns the bTokens
    /// credited, measured from Blend's own ledger rather than assumed one to one.
    pub fn deposit(&self, adapter: Address, amount: i128) -> (progress: Progress<Deposit, i128>)
        ensures
            progress == self.spec_deposit(adapter, amount),
            self.vault is None ==> progress == Progress::<Deposit, i128>::Abort(
                Abort::Error(ContractError::NotInitialized),
            ),
            self.vault matches Some(vault) ==> {
                &&& progress matches Progress::Call(call, run)
                &&& call == (HostCall::RequireAuth { address: vault })
                &&& run.adapter == adapter
                &&& run.amount == amount
            },
    {
        match require_vault_auth(self) {
            Ok(vault) => {
                let stage = DepositStage::VaultAuth { vault };
                Deposit { adapter, amount, stage }.wait()
            },
            Err(e) => Progress::Abort(Abort::Error(e)),
        }
    }
}

} // verus!
