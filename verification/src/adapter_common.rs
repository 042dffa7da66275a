//! What every yield adapter shares: its vault, its USDC token, and being initialized once.

use soroban_sdk::Address;
use vstd::prelude::*;

use crate::adapter::MeridianBlendAdapter;
use crate::error::ContractError;

verus! {

/// The errors of the shared part.
#[derive(Copy, Clone, Debug, PartialEq, Eq, Structural)]
pub enum AdapterError {
    /// The adapter already has a vault set.
    AlreadyInitialized,
}

impl From<AdapterError> for ContractError {
    fn from(err: AdapterError) -> (e: Self) {
        match err {
            AdapterError::AlreadyInitialized => ContractError::AlreadyInitialized,
        }
    }
}

impl vstd::std_specs::convert::FromSpecImpl<AdapterError> for ContractError {
    open spec fn obeys_from_spec() -> bool {
        true
    }

    open spec fn from_spec(err: AdapterError) -> Self {
        match err {
            AdapterError::AlreadyInitialized => ContractError::AlreadyInitialized,
        }
    }
}

/// An error type that can say that the adapter is not initialized.
pub trait NotInitializedError: Sized {
    /// The error that says so.
    spec fn spec_not_initialized() -> Self;

    /// The error that says so.
    fn not_initialized() -> (e: Self)
        ensures
            e == Self::spec_not_initialized(),
    ;
}

impl NotInitializedError for ContractError {
    open spec fn spec_not_initialized() -> Self {
        ContractError::NotInitialized
    }

    fn not_initialized() -> (e: Self) {
        ContractError::NotInitialized
    }
}

/// The stored value, or the error that says that nothing was stored.
pub fn get_or_not_initialized<T, E: NotInitializedError>(stored: Option<T>) -> (value: Result<T, E>)
    ensures
        value == match stored {
            Some(t) => Ok::<T, E>(t),
            None => Err(E::spec_not_initialized()),
        },
{
    match stored {
        Some(t) => Ok(t),
        None => Err(E::not_initialized()),
    }
}

/// A copy of an optional address.
pub(crate) fn copy_of(address: &Option<Address>) -> (copy: Option<Address>)
    ensures
        copy == *address,
{
    match address {
        Some(a) => Some(a.clone()),
        None => None,
    }
}

/// The vault that the adapter serves, if it is linked to one.
pub fn get_vault(storage: &MeridianBlendAdapter) -> (vault: Option<Address>)
    ensures
        vault == storage.vault,
{
    copy_of(&storage.vault)
}

/// The USDC token, or `NotInitialized`.
pub fn get_usdc(storage: &MeridianBlendAdapter) -> (usdc: Result<Address, ContractError>)
    ensures
        usdc == match storage.usdc {
            Some(u) => Ok::<Address, ContractError>(u),
            None => Err(ContractError::NotInitialized),
        },
{
    get_or_not_initialized(copy_of(&storage.usdc))
}

/// Succeeds only while no vault is set.
pub fn require_not_initialized(storage: &MeridianBlendAdapter) -> (r: Result<(), AdapterError>)
    ensures
        r == if storage.vault is None {
            Ok::<(), AdapterError>(())
        } else {
            Err(AdapterError::AlreadyInitialized)
        },
{
    match storage.vault {
        None => Ok(()),
        Some(_) => Err(AdapterError::AlreadyInitialized),
    }
}

/// The vault, whose authorization is to be demanded, or `NotInitialized`.
pub fn require_vault_auth(storage: &MeridianBlendAdapter) -> (vault: Result<Address, ContractError>)
    ensures
        vault == match storage.vault {
            Some(v) => Ok::<Address, ContractError>(v),
            None => Err(ContractError::NotInitialized),
        },
{
    get_or_not_initialized(get_vault(storage))
}

/// Stores the vault and the USDC token, and nothing else.
pub fn store_vault_and_usdc(storage: &mut MeridianBlendAdapter, vault: &Address, usdc: &Address)
    ensures
        *final(storage) == (MeridianBlendAdapter {
            vault: Some(*vault),
            usdc: Some(*usdc),
            ..*old(storage)
        }),
{
    storage.vault = Some(vault.clone());
    storage.usdc = Some(usdc.clone());
}

} // verus!
