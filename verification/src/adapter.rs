//! The adapter's storage, how it is set up, and what can be read of it.

use soroban_sdk::Address;
use vstd::prelude::*;

use crate::adapter_common::{
    copy_of, get_or_not_initialized, require_not_initialized, store_vault_and_usdc,
};
use crate::error::ContractError;

verus! {

/// The adapter, as the entries of its instance storage. An entry that was never written is `None`.
pub struct MeridianBlendAdapter {
    /// The only party that may move funds.
    pub vault: Option<Address>,
    /// The USDC token.
    pub usdc: Option<Address>,
    /// The Blend pool.
    pub pool: Option<Address>,
    /// The cached USDC value of the position.
    pub total: Option<i128>,
}

impl Default for MeridianBlendAdapter {
    /// An adapter with nothing stored.
    fn default() -> (fresh: Self)
        ensures
            fresh == MeridianBlendAdapter::spec_fresh(),
            fresh.vault is None,
            fresh.usdc is None,
            fresh.pool is None,
            fresh.total is None,
    {
        MeridianBlendAdapter { vault: None, usdc: None, pool: None, total: None }
    }
}

impl MeridianBlendAdapter {
    /// An adapter with nothing stored.
    pub open spec fn spec_fresh() -> Self {
        MeridianBlendAdapter { vault: None, usdc: None, pool: None, total: None }
    }

    /// An adapter just linked to its vault, pool and token.
    pub open spec fn spec_linked(vault: Address, pool: Address, usdc: Address) -> Self {
        MeridianBlendAdapter {
            vault: Some(vault),
            usdc: Some(usdc),
            pool: Some(pool),
            total: Some(0i128),
        }
    }

    /// Whether the adapter knows its vault, its pool and its token.
    pub open spec fn is_linked(self) -> bool {
        self.vault is Some && self.usdc is Some && self.pool is Some
    }

    /// The cached total; zero where it was never written.
    pub open spec fn spec_total_assets(self) -> i128 {
        match self.total {
            Some(total) => total,
            None => 0i128,
        }
    }

    /// The same adapter with another cached total.
    pub open spec fn with_total(self, total: i128) -> Self {
        MeridianBlendAdapter { total: Some(total), ..self }
    }

    /// What `initialize` makes of the adapter, and what it returns: an adapter without a vault is
    /// linked afresh, and one with a vault stays as it is.
    pub open spec fn spec_initialize(self, vault: Address, pool: Address, usdc: Address) -> (
        Self,
        Result<(), ContractError>,
    ) {
        if self.vault is None {
            (Self::spec_linked(vault, pool, usdc), Ok(()))
        } else {
            (self, Err(ContractError::AlreadyInitialized))
        }
    }

    /// Links the adapter to its vault, Blend pool, and USDC token.
    ///
    /// The host runs this in the transaction that deploys the adapter, so no adapter is ever seen
    /// that is not linked.
    pub fn __constructor(&mut self, vault: Address, pool: Address, usdc: Address)
        ensures
            *final(self) == Self::spec_linked(vault, pool, usdc),
            final(self).vault == Some(vault),
            final(self).pool == Some(pool),
            final(self).usdc == Some(usdc),
            final(self).total == Some(0i128),
    {
        self.init_state(&vault, &pool, &usdc);
    }

    /// Links an adapter that was deployed without a constructor. On any other it fails and changes
    /// nothing.
    pub fn initialize(&mut self, vault: Address, pool: Address, usdc: Address) -> (r: Result<
        (),
        ContractError,
    >)
        ensures
            (*final(self), r) == old(self).spec_initialize(vault, pool, usdc),
            old(self).vault is None ==> {
                &&& r == Ok::<(), ContractError>(())
                &&& final(self).vault == Some(vault)
                &&& final(self).pool == Some(pool)
                &&& final(self).usdc == Some(usdc)
                &&& final(self).total == Some(0i128)
            },
            old(self).vault is Some ==> r == Err::<(), ContractError>(
                ContractError::AlreadyInitialized,
            ) && *final(self) == *old(self),
    {
        match require_not_initialized(self) {
            Ok(_) => {
                self.init_state(&vault, &pool, &usdc);
                Ok(())
            },
            Err(e) => Err(ContractError::from(e)),
        }
    }

    /// The write half of initialization, shared by `__constructor` and `initialize`, so that the
    /// two never set up different state.
    fn init_state(&mut self, vault: &Address, pool: &Address, usdc: &Address)
        ensures
            *final(self) == Self::spec_linked(*vault, *pool, *usdc),
            final(self).vault == Some(*vault),
            final(self).pool == Some(*pool),
            final(self).usdc == Some(*usdc),
            final(self).total == Some(0i128),
    {
        store_vault_and_usdc(self, vault, usdc);
        self.pool = Some(pool.clone());
        self.total = Some(0);
    }

    /// Returns the cached USDC value of the position. It reflects yield only as of the last
    /// `accrue`.
    pub fn total_assets(&self) -> (total: i128)
        ensures
            total == self.spec_total_assets(),
            self.total matches Some(t) ==> total == t,
            self.total is None ==> total == 0,
    {
        self.total.unwrap_or(0)
    }

    /// Returns the Blend pool that this adapter supplies to.
    pub fn get_pool(&self) -> (pool: Result<Address, ContractError>)
        ensures
            pool == match self.pool {
                Some(p) => Ok::<Address, ContractError>(p),
                None => Err(ContractError::NotInitialized),
            },
    {
        get_or_not_initialized(copy_of(&self.pool))
    }

    /// Returns "blend", identifying which protocol this adapter wraps.
    pub fn get_protocol() -> (name: &'static str)
        ensures
            name@ == "blend"@,
    {
        "blend"
    }
}

} // verus!
