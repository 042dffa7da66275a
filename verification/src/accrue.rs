//! Accruing: the cached total is brought up to what the position is worth now.

use soroban_sdk::Address;
use vstd::prelude::*;

use crate::accounting::{b_tokens_to_usdc, spec_b_tokens_to_usdc};
use crate::adapter::MeridianBlendAdapter;
use crate::adapter_common::get_usdc;
use crate::error::{Abort, ContractError};
use crate::host::{HostCall, HostReply, Progress};
use crate::pool::map_entries;

verus! {

/// How far an accrual has come: what it waits for, and what it has learnt so far.
pub enum AccrualStage {
    /// The pool's reserve for USDC.
    Reserve { pool: Address, usdc: Address },
    /// The adapter's positions.
    Positions { pool: Address, index: u32, b_rate: i128 },
}

/// An accrual under way.
pub struct Accrual {
    /// The adapter's own address.
    pub adapter: Address,
    pub stage: AccrualStage,
}

impl Accrual {
    /// The call whose answer the accrual waits for.
    pub open spec fn spec_call(self) -> HostCall {
        match self.stage {
            AccrualStage::Reserve { pool, usdc } => HostCall::GetReserve { pool, asset: usdc },
            AccrualStage::Positions { pool, .. } => HostCall::GetPositions {
                pool,
                address: self.adapter,
            },
        }
    }

    /// What the position is worth, once the positions are known.
    pub open spec fn position_value(self, reply: HostReply) -> Option<Result<i128, ContractError>> {
        match (self.stage, reply) {
            (AccrualStage::Positions { index, b_rate, .. }, HostReply::Positions(positions)) => {
                match positions.spec_collateral_at(index) {
                    Some(b_tokens) => Some(spec_b_tokens_to_usdc(b_tokens, b_rate)),
                    None => None,
                }
            },
            _ => None,
        }
    }

    /// What the accrual does when `reply` comes in. An answer of the wrong kind ends it.
    pub open spec fn step(self, reply: HostReply) -> Progress<Accrual, Result<(), ContractError>> {
        match (self.stage, reply) {
            (AccrualStage::Reserve { pool, .. }, HostReply::Reserve(reserve)) => {
                let stage = AccrualStage::Positions {
                    pool,
                    index: reserve.config.index,
                    b_rate: reserve.data.b_rate,
                };
                let run = Accrual { stage, ..self };
                Progress::Call(run.spec_call(), run)
            },
            _ => match self.position_value(reply) {
                Some(Ok(_)) => Progress::Return(Ok(())),
                Some(Err(e)) => Progress::Return(Err(e)),
                None => Progress::Abort(Abort::MalformedValue),
            },
        }
    }

    /// The storage once `reply` has been dealt with: the value becomes the total when the accrual
    /// succeeds, and otherwise nothing is written.
    pub open spec fn storage_after(
        self,
        storage: MeridianBlendAdapter,
        reply: HostReply,
    ) -> MeridianBlendAdapter {
        match self.position_value(reply) {
            Some(Ok(value)) => storage.with_total(value),
            _ => storage,
        }
    }

    /// The call whose answer the accrual waits for.
    pub fn call(&self) -> (call: HostCall)
        ensures
            call == self.spec_call(),
    {
        match &self.stage {
            AccrualStage::Reserve { pool, usdc } => HostCall::GetReserve {
                pool: pool.clone(),
                asset: usdc.clone(),
            },
            AccrualStage::Positions { pool, .. } => HostCall::GetPositions {
                pool: pool.clone(),
                address: self.adapter.clone(),
            },
        }
    }

    /// Goes on with the host's answer to the last call.
    pub fn resume(self, storage: &mut MeridianBlendAdapter, reply: HostReply) -> (progress:
        Progress<Accrual, Result<(), ContractError>>)
        ensures
            progress == self.step(reply),
            *final(storage) == self.storage_after(*old(storage), reply),
            final(storage).vault == old(storage).vault,
            final(storage).pool == old(storage).pool,
            final(storage).usdc == old(storage).usdc,
            progress matches Progress::Return(Err(e)) ==> e == ContractError::Overflow,
            progress matches Progress::Call(call, run) ==> {
                &&& self.stage matches AccrualStage::Reserve { pool, .. }
                &&& reply is Reserve
                &&& call == (HostCall::GetPositions { pool, address: self.adapter })
                &&& run.adapter == self.adapter
            },
            progress matches Progress::Abort(abort) ==> abort == Abort::MalformedValue,
            progress != Progress::<Accrual, Result<(), ContractError>>::Return(Ok(()))
                ==> *final(storage) == *old(storage),
            progress == Progress::<Accrual, Result<(), ContractError>>::Return(Ok(())) ==> {
                &&& self.stage matches AccrualStage::Positions { index, b_rate, .. }
                &&& reply matches HostReply::Positions(positions)
                &&& final(storage).total matches Some(value)
                &&& if map_entries(positions.collateral).contains_key(index) {
                    &&& map_entries(positions.collateral)[index] matches Some(b_tokens)
                    &&& b_tokens * b_rate >= 0 ==> value * 1_000_000_000_000 <= b_tokens * b_rate < (
                    value + 1) * 1_000_000_000_000
                    &&& b_tokens * b_rate <= 0 ==> (value - 1) * 1_000_000_000_000 < b_tokens
                        * b_rate <= value * 1_000_000_000_000
                } else {
                    value == 0
                }
            },
    {
        let Accrual { adapter, stage } = self;
        match (stage, reply) {
            (AccrualStage::Reserve { pool, .. }, HostReply::Reserve(reserve)) => {
                let stage = AccrualStage::Positions {
                    pool,
                    index: reserve.config.index,
                    b_rate: reserve.data.b_rate,
                };
                let run = Accrual { adapter, stage };
                let call = run.call();
                Progress::Call(call, run)
            },
            (AccrualStage::Positions { index, b_rate, .. }, HostReply::Positions(positions)) => {
                match positions.collateral_at(index) {
                    Ok(b_tokens) => match b_tokens_to_usdc(b_tokens, b_rate) {
                        Ok(value) => {
                            storage.total = Some(value);
                            Progress::Return(Ok(()))
                        },
                        Err(e) => Progress::Return(Err(e)),
                    },
                    Err(abort) => Progress::Abort(abort),
                }
            },
            _ => Progress::Abort(Abort::MalformedValue),
        }
    }
}

/// What a refresh makes of an accrual: it has no error to return, so where the accrual fails, it
/// aborts with the accrual's error.
pub open spec fn refreshed(progress: Progress<Accrual, Result<(), ContractError>>) -> Progress<
    Refresh,
    (),
> {
    match progress {
        Progress::Call(call, accrual) => Progress::Call(call, Refresh { accrual }),
        Progress::Return(Ok(_)) => Progress::Return(()),
        Progress::Return(Err(e)) => Progress::Abort(Abort::Error(e)),
        Progress::Abort(abort) => Progress::Abort(abort),
    }
}

/// Turns an accrual's progress into a refresh's.
fn to_refresh(progress: Progress<Accrual, Result<(), ContractError>>) -> (r: Progress<Refresh, ()>)
    ensures
        r == refreshed(progress),
{
    match progress {
        Progress::Call(call, accrual) => Progress::Call(call, Refresh { accrual }),
        Progress::Return(Ok(_)) => Progress::Return(()),
        Progress::Return(Err(e)) => Progress::Abort(Abort::Error(e)),
        Progress::Abort(abort) => Progress::Abort(abort),
    }
}

/// A refresh under way.
pub struct Refresh {
    pub accrual: Accrual,
}

impl Refresh {
    /// Goes on with the host's answer to the last call.
    pub fn resume(self, storage: &mut MeridianBlendAdapter, reply: HostReply) -> (progress:
        Progress<Refresh, ()>)
        ensures
            progress == refreshed(self.accrual.step(reply)),
            *final(storage) == self.accrual.storage_after(*old(storage), reply),
            final(storage).vault == old(storage).vault,
            final(storage).pool == old(storage).pool,
            final(storage).usdc == old(storage).usdc,
            progress !is Return ==> *final(storage) == *old(storage),
            progress matches Progress::Call(call, run) ==> {
                &&& self.accrual.stage matches AccrualStage::Reserve { pool, .. }
                &&& reply is Reserve
                &&& call == (HostCall::GetPositions { pool, address: self.accrual.adapter })
                &&& run.accrual.adapter == self.accrual.adapter
            },
            progress matches Progress::Abort(abort) ==> abort == Abort::Error(
                ContractError::Overflow,
            ) || abort == Abort::MalformedValue,
            progress is Return ==> {
                &&& self.accrual.stage matches AccrualStage::Positions { index, b_rate, .. }
                &&& reply matches HostReply::Positions(positions)
                &&& final(storage).total matches Some(value)
                &&& if map_entries(positions.collateral).contains_key(index) {
                    &&& map_entries(positions.collateral)[index] matches Some(b_tokens)
                    &&& b_tokens * b_rate >= 0 ==> value * 1_000_000_000_000 <= b_tokens * b_rate < (
                    value + 1) * 1_000_000_000_000
                    &&& b_tokens * b_rate <= 0 ==> (value - 1) * 1_000_000_000_000 < b_tokens
                        * b_rate <= value * 1_000_000_000_000
                } else {
                    value == 0
                }
            },
    {
        to_refresh(self.accrual.resume(storage, reply))
    }
}

impl MeridianBlendAdapter {
    /// How an accrual begins: by asking the pool for its USDC reserve. An adapter without a pool
    /// has nothing to ask, which is an error to return; one without a token aborts.
    pub open spec fn spec_accrue(self, adapter: Address) -> Progress<
        Accrual,
        Result<(), ContractError>,
    > {
        match (self.pool, self.usdc) {
            (Some(pool), Some(usdc)) => {
                let run = Accrual { adapter, stage: AccrualStage::Reserve { pool, usdc } };
                Progress::Call(run.spec_call(), run)
            },
            (None, _) => Progress::Return(Err(ContractError::NotInitialized)),
            (Some(_), None) => Progress::Abort(Abort::Error(ContractError::NotInitialized)),
        }
    }

    /// Refreshes the cached USDC value of the adapter's Blend position to hold the yield accrued
    /// since the last call; `adapter` is the adapter's own address. Anyone may call it.
    ///
    /// The bToken balance is read from Blend's own ledger, so the total cannot drift from Blend's
    /// accounting.
    pub fn accrue(&self, adapter: Address) -> (progress: Progress<
        Accrual,
        Result<(), ContractError>,
    >)
        ensures
            progress == self.spec_accrue(adapter),
            self.pool is None ==> progress == Progress::<Accrual, Result<(), ContractError>>::Return(
                Err(ContractError::NotInitialized),
            ),
            self.pool is Some && self.usdc is None ==> progress == Progress::<
                Accrual,
                Result<(), ContractError>,
            >::Abort(Abort::Error(ContractError::NotInitialized)),
            self.pool is Some && self.usdc is Some ==> {
                &&& progress matches Progress::Call(call, run)
                &&& call == (HostCall::GetReserve { pool: self.pool->0, asset: self.usdc->0 })
                &&& run.adapter == adapter
            },
    {
        match self.get_pool() {
            Ok(pool) => match get_usdc(self) {
                Ok(usdc) => {
                    let run = Accrual { adapter, stage: AccrualStage::Reserve { pool, usdc } };
                    let call = run.call();
                    Progress::Call(call, run)
                },
                Err(e) => Progress::Abort(Abort::Error(e)),
            },
            Err(e) => Progress::Return(Err(e)),
        }
    }

    /// Accrues, and aborts where `accrue` returns an error: the interface that all adapters share
    /// has no error to return here, and a failure must not pass for a success.
    pub fn refresh(&self, adapter: Address) -> (progress: Progress<Refresh, ()>)
        ensures
            progress == refreshed(self.spec_accrue(adapter)),
            self.pool is None || self.usdc is None ==> progress == Progress::<Refresh, ()>::Abort(
                Abort::Error(ContractError::NotInitialized),
            ),
            self.pool is Some && self.usdc is Some ==> {
                &&& progress matches Progress::Call(call, run)
                &&& call == (HostCall::GetReserve { pool: self.pool->0, asset: self.usdc->0 })
                &&& run.accrual.adapter == adapter
            },
    {
        to_refresh(self.accrue(adapter))
    }
}

} // verus!
