//! The Blend pool's interface types, and reading a position out of them.

use soroban_sdk::Address;
use vstd::prelude::*;

use crate::error::Abort;

verus! {

/// Blend's request type for supplying an asset.
pub const REQUEST_SUPPLY: u32 = 2;

/// Blend's request type for withdrawing an asset.
pub const REQUEST_WITHDRAW: u32 = 3;

/// `soroban_sdk::Address`, the handle of an account or a contract. It is carried through and never
/// looked into.
#[verifier::external_type_specification]
#[verifier::external_body]
pub struct ExAddress(soroban_sdk::Address);

/// `soroban_sdk::Map`, the host's ordered dictionary.
#[verifier::external_type_specification]
#[verifier::external_body]
#[verifier::reject_recursive_types(K)]
#[verifier::reject_recursive_types(V)]
pub struct ExMap<K, V>(soroban_sdk::Map<K, V>);

/// `soroban_sdk::Error`, what a failed conversion of a host value gives.
#[verifier::external_type_specification]
#[verifier::external_body]
pub struct ExError(soroban_sdk::Error);

/// `<soroban_sdk::Address as Clone>::clone`: a copy of the handle, of the same address on the same
/// host.
pub assume_specification[ <soroban_sdk::Address as Clone>::clone ](
    address: &soroban_sdk::Address,
) -> (copy: soroban_sdk::Address)
    ensures
        copy == *address,
;

/// The entries of a host map from `u32` to `i128`. The host does not hold a map to its declared
/// types: an entry whose value is no `i128` is `None` here.
pub uninterp spec fn map_entries(map: soroban_sdk::Map<u32, i128>) -> Map<u32, Option<i128>>;

/// `soroban_sdk::Map::try_get`: nothing for a key that the map does not hold, the value of one that
/// it holds, and an error where the value is no `i128`. Nothing is said of which error it is, nor of
/// the host's metering, which may unwind the whole invocation in place of an answer.
#[verifier::external_body]
fn map_try_get(map: &soroban_sdk::Map<u32, i128>, key: u32) -> (found: Result<
    Option<i128>,
    soroban_sdk::Error,
>)
    ensures
        match found {
            Ok(None) => !map_entries(*map).contains_key(key),
            Ok(Some(value)) => map_entries(*map).contains_key(key) && map_entries(*map)[key]
                == Some(value),
            Err(_) => map_entries(*map).contains_key(key) && map_entries(*map)[key] is None,
        },
{
    map.try_get(key)
}

/// One operation that is submitted to the pool.
#[derive(Clone)]
pub struct Request {
    pub request_type: u32,
    pub address: Address,
    pub amount: i128,
}

/// An account's positions in the pool, by reserve index.
pub struct Positions {
    pub liabilities: soroban_sdk::Map<u32, i128>,
    pub collateral: soroban_sdk::Map<u32, i128>,
    pub supply: soroban_sdk::Map<u32, i128>,
}

/// The configuration of one of the pool's reserves.
pub struct ReserveConfig {
    pub index: u32,
    pub decimals: u32,
    pub c_factor: u32,
    pub l_factor: u32,
    pub util: u32,
    pub max_util: u32,
    pub r_base: u32,
    pub r_one: u32,
    pub r_two: u32,
    pub r_three: u32,
    pub reactivity: u32,
    pub supply_cap: i128,
    pub enabled: bool,
}

/// The state of one of the pool's reserves. `b_rate` is the bToken-to-underlying exchange rate, in
/// units of [`crate::accounting::RATE_SCALAR`].
pub struct ReserveData {
    pub d_rate: i128,
    pub b_rate: i128,
    pub ir_mod: i128,
    pub b_supply: i128,
    pub d_supply: i128,
    pub backstop_credit: i128,
    pub last_time: u64,
}

/// One of the pool's reserves. `scalar` is `10^decimals` of the asset and has nothing to do with
/// the base of `b_rate`.
pub struct Reserve {
    pub asset: Address,
    pub config: ReserveConfig,
    pub data: ReserveData,
    pub scalar: i128,
}

impl Positions {
    /// The bTokens held as collateral in the reserve at `index`: zero where there is no entry,
    /// `None` where the entry is no amount.
    pub open spec fn spec_collateral_at(self, index: u32) -> Option<i128> {
        let entries = map_entries(self.collateral);
        if entries.contains_key(index) {
            entries[index]
        } else {
            Some(0i128)
        }
    }

    /// Reads the bTokens held as collateral in the reserve at `index`.
    pub fn collateral_at(&self, index: u32) -> (b_tokens: Result<i128, Abort>)
        ensures
            b_tokens == match self.spec_collateral_at(index) {
                Some(amount) => Ok::<i128, Abort>(amount),
                None => Err(Abort::MalformedValue),
            },
            !map_entries(self.collateral).contains_key(index) ==> b_tokens == Ok::<i128, Abort>(
                0i128,
            ),
            map_entries(self.collateral).contains_key(index) ==> match map_entries(
                self.collateral,
            )[index] {
                Some(amount) => b_tokens == Ok::<i128, Abort>(amount),
                None => b_tokens == Err::<i128, Abort>(Abort::MalformedValue),
            },
    {
        match map_try_get(&self.collateral, index) {
            Ok(found) => Ok(found.unwrap_or(0)),
            Err(_) => Err(Abort::MalformedValue),
        }
    }
}

} // verus!
