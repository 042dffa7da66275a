//! The adapter as a contract on a real Soroban host, next to a minimal Blend pool and a real asset
//! contract.

use blend_adapter::host::{HostCall, HostReply, Progress};
use blend_adapter::{
    Abort, ContractError, MeridianBlendAdapter, Positions, Reserve, ReserveConfig, ReserveData,
    RATE_SCALAR,
};
use blend_adapter::pool::{REQUEST_SUPPLY, REQUEST_WITHDRAW};
use soroban_sdk::auth::{ContractContext, InvokerContractAuthEntry, SubContractInvocation};
use soroban_sdk::testutils::{
    Address as AddressTestUtils, ContractFunctionSet, EnvTestConfig, MockAuth, MockAuthInvoke,
};
use soroban_sdk::token::{StellarAssetClient, TokenClient};
use soroban_sdk::{Address, Env, Error, IntoVal, InvokeError, Symbol, TryFromVal, Val};

fn arg<T: TryFromVal<Env, Val>>(env: &Env, args: &[Val], i: usize) -> T {
    match T::try_from_val(env, &args[i]) {
        Ok(value) => value,
        Err(_) => panic!("argument {} is of another type", i),
    }
}

fn entry<T: TryFromVal<Env, Val>>(env: &Env, key: &str) -> Option<T> {
    env.storage().instance().get(&Symbol::new(env, key))
}

fn set_entry<T: IntoVal<Env, Val>>(env: &Env, key: &str, value: &T) {
    env.storage().instance().set(&Symbol::new(env, key), value);
}

// ---------------------------------------------------------------------------
// The pool: one reserve's exchange rate, and the adapter's collateral in it.
// ---------------------------------------------------------------------------

struct MockBlendPool;

impl ContractFunctionSet for MockBlendPool {
    fn call(&self, func: &str, env: Env, args: &[Val]) -> Option<Val> {
        match func {
            "__constructor" => Some(().into_val(&env)),
            "initialize" => {
                let scalar: i128 = arg(&env, args, 0);
                let index: u32 = arg(&env, args, 1);
                set_entry(&env, "M_RATE", &scalar);
                set_entry(&env, "M_SCALAR", &scalar);
                set_entry(&env, "M_INDEX", &index);
                set_entry(&env, "M_COLLAT", &0_i128);
                Some(().into_val(&env))
            }
            "set_rate" => {
                let rate: i128 = arg(&env, args, 0);
                set_entry(&env, "M_RATE", &rate);
                Some(().into_val(&env))
            }
            "set_reported_scalar" => {
                let scalar: i128 = arg(&env, args, 0);
                set_entry(&env, "M_REPSCL", &scalar);
                Some(().into_val(&env))
            }
            "submit" => {
                let from: Address = arg(&env, args, 0);
                let to: Address = arg(&env, args, 2);
                let request_type: u32 = arg(&env, args, 3);
                let address: Address = arg(&env, args, 4);
                let amount: i128 = arg(&env, args, 5);
                let scalar: i128 = entry(&env, "M_SCALAR").unwrap();
                let rate: i128 = entry(&env, "M_RATE").unwrap();
                let mut collateral: i128 = entry(&env, "M_COLLAT").unwrap_or(0);
                let pool = env.current_contract_address();
                if request_type == REQUEST_SUPPLY {
                    TokenClient::new(&env, &address).transfer(&from, &pool, &amount);
                    collateral += amount * scalar / rate;
                } else if request_type == REQUEST_WITHDRAW {
                    collateral -= amount * scalar / rate;
                    TokenClient::new(&env, &address).transfer(&pool, &to, &amount);
                }
                set_entry(&env, "M_COLLAT", &collateral);
                Some(().into_val(&env))
            }
            "get_reserve" => {
                let internal: i128 = entry(&env, "M_SCALAR").unwrap();
                let scalar: i128 = entry(&env, "M_REPSCL").unwrap_or(internal);
                let rate: i128 = entry(&env, "M_RATE").unwrap();
                let index: u32 = entry(&env, "M_INDEX").unwrap();
                Some((index, rate, scalar).into_val(&env))
            }
            "get_positions" => {
                let index: u32 = entry(&env, "M_INDEX").unwrap();
                let collateral: i128 = entry(&env, "M_COLLAT").unwrap_or(0);
                let mut map: soroban_sdk::Map<u32, i128> = soroban_sdk::Map::new(&env);
                map.set(index, collateral);
                Some(map.into_val(&env))
            }
            _ => None,
        }
    }
}

// ---------------------------------------------------------------------------
// The adapter
// ---------------------------------------------------------------------------

fn load(env: &Env) -> MeridianBlendAdapter {
    MeridianBlendAdapter {
        vault: entry(env, "VAULT"),
        usdc: entry(env, "USDC"),
        pool: entry(env, "POOL"),
        total: entry(env, "TOTAL"),
    }
}

fn save(env: &Env, storage: &MeridianBlendAdapter) {
    if let Some(vault) = &storage.vault {
        set_entry(env, "VAULT", vault);
    }
    if let Some(usdc) = &storage.usdc {
        set_entry(env, "USDC", usdc);
    }
    if let Some(pool) = &storage.pool {
        set_entry(env, "POOL", pool);
    }
    if let Some(total) = &storage.total {
        set_entry(env, "TOTAL", total);
    }
}

fn perform(env: &Env, call: HostCall) -> HostReply {
    match call {
        HostCall::RequireAuth { address } => {
            address.require_auth();
            HostReply::Done
        }
        HostCall::GetReserve { pool, asset } => {
            let (index, rate, scalar): (u32, i128, i128) = env.invoke_contract(
                &pool,
                &Symbol::new(env, "get_reserve"),
                (asset.clone(),).into_val(env),
            );
            HostReply::Reserve(Reserve {
                asset,
                config: ReserveConfig {
                    index,
                    decimals: 7,
                    c_factor: 0,
                    l_factor: 0,
                    util: 0,
                    max_util: 0,
                    r_base: 0,
                    r_one: 0,
                    r_two: 0,
                    r_three: 0,
                    reactivity: 0,
                    supply_cap: 0,
                    enabled: true,
                },
                data: ReserveData {
                    d_rate: rate,
                    b_rate: rate,
                    ir_mod: 0,
                    b_supply: 0,
                    d_supply: 0,
                    backstop_credit: 0,
                    last_time: 0,
                },
                scalar,
            })
        }
        HostCall::GetPositions { pool, address } => HostReply::Positions(Positions {
            liabilities: soroban_sdk::Map::new(env),
            collateral: env.invoke_contract(
                &pool,
                &Symbol::new(env, "get_positions"),
                (address,).into_val(env),
            ),
            supply: soroban_sdk::Map::new(env),
        }),
        HostCall::GetBalance { token, holder } => {
            HostReply::Balance(TokenClient::new(env, &token).balance(&holder))
        }
        HostCall::AuthorizeAsCurrentContract { entry } => {
            env.authorize_as_current_contract(soroban_sdk::Vec::from_array(
                env,
                [InvokerContractAuthEntry::Contract(SubContractInvocation {
                    context: ContractContext {
                        contract: entry.contract,
                        fn_name: Symbol::new(env, entry.fn_name),
                        args: (entry.args.from, entry.args.to, entry.args.amount).into_val(env),
                    },
                    sub_invocations: soroban_sdk::Vec::new(env),
                })],
            ));
            HostReply::Done
        }
        HostCall::Submit { pool, from, spender, to, request } => {
            let () = env.invoke_contract(
                &pool,
                &Symbol::new(env, "submit"),
                (from, spender, to, request.request_type, request.address, request.amount)
                    .into_val(env),
            );
            HostReply::Done
        }
    }
}

fn failure(env: &Env, error: ContractError) -> Val {
    Error::from_contract_error(error.code()).into_val(env)
}

fn aborted(env: &Env, abort: Abort) -> Val {
    match abort {
        Abort::Error(error) => failure(env, error),
        other => panic!("{:?}", other),
    }
}

struct AdapterContract;

impl ContractFunctionSet for AdapterContract {
    fn call(&self, func: &str, env: Env, args: &[Val]) -> Option<Val> {
        let me = env.current_contract_address();
        match func {
            "__constructor" => {
                let mut storage = load(&env);
                storage.__constructor(arg(&env, args, 0), arg(&env, args, 1), arg(&env, args, 2));
                save(&env, &storage);
                Some(().into_val(&env))
            }
            "initialize" => {
                let mut storage = load(&env);
                let result =
                    storage.initialize(arg(&env, args, 0), arg(&env, args, 1), arg(&env, args, 2));
                save(&env, &storage);
                Some(match result {
                    Ok(()) => ().into_val(&env),
                    Err(error) => failure(&env, error),
                })
            }
            "deposit" => {
                let mut progress = load(&env).deposit(me, arg(&env, args, 0));
                loop {
                    match progress {
                        Progress::Call(call, run) => {
                            let reply = perform(&env, call);
                            let mut storage = load(&env);
                            progress = run.resume(&mut storage, reply);
                            save(&env, &storage);
                        }
                        Progress::Return(credited) => return Some(credited.into_val(&env)),
                        Progress::Abort(abort) => return Some(aborted(&env, abort)),
                    }
                }
            }
            "withdraw" => {
                let mut progress =
                    load(&env).withdraw(me, arg(&env, args, 0), arg(&env, args, 1));
                loop {
                    match progress {
                        Progress::Call(call, run) => {
                            let reply = perform(&env, call);
                            let mut storage = load(&env);
                            progress = run.resume(&mut storage, reply);
                            save(&env, &storage);
                        }
                        Progress::Return(delivered) => return Some(delivered.into_val(&env)),
                        Progress::Abort(abort) => return Some(aborted(&env, abort)),
                    }
                }
            }
            "accrue" => {
                let mut progress = load(&env).accrue(me);
                loop {
                    match progress {
                        Progress::Call(call, run) => {
                            let reply = perform(&env, call);
                            let mut storage = load(&env);
                            progress = run.resume(&mut storage, reply);
                            save(&env, &storage);
                        }
                        Progress::Return(Ok(())) => return Some(().into_val(&env)),
                        Progress::Return(Err(error)) => return Some(failure(&env, error)),
                        Progress::Abort(abort) => return Some(aborted(&env, abort)),
                    }
                }
            }
            "refresh" => {
                let mut progress = load(&env).refresh(me);
                loop {
                    match progress {
                        Progress::Call(call, run) => {
                            let reply = perform(&env, call);
                            let mut storage = load(&env);
                            progress = run.resume(&mut storage, reply);
                            save(&env, &storage);
                        }
                        Progress::Return(()) => return Some(().into_val(&env)),
                        Progress::Abort(abort) => return Some(aborted(&env, abort)),
                    }
                }
            }
            "total_assets" => Some(load(&env).total_assets().into_val(&env)),
            "get_pool" => Some(match load(&env).get_pool() {
                Ok(pool) => pool.into_val(&env),
                Err(error) => failure(&env, error),
            }),
            "get_protocol" => {
                Some(Symbol::new(&env, MeridianBlendAdapter::get_protocol()).into_val(&env))
            }
            _ => None,
        }
    }
}

struct AdapterClient {
    env: Env,
    address: Address,
}

impl AdapterClient {
    fn invoke<T: TryFromVal<Env, Val>>(&self, func: &str, args: soroban_sdk::Vec<Val>) -> T {
        self.env.invoke_contract(&self.address, &Symbol::new(&self.env, func), args)
    }

    fn try_invoke(&self, func: &str, args: soroban_sdk::Vec<Val>) -> Result<(), u32> {
        let result: Result<Result<(), _>, Result<Error, InvokeError>> =
            self.env.try_invoke_contract(&self.address, &Symbol::new(&self.env, func), args);
        match result {
            Ok(Ok(())) => Ok(()),
            Err(Ok(error)) => Err(error.get_code()),
            _ => panic!("the call failed without a typed error"),
        }
    }

    fn deposit(&self, amount: &i128) -> i128 {
        self.invoke("deposit", (*amount,).into_val(&self.env))
    }

    fn withdraw(&self, shares: &i128, recipient: &Address) -> i128 {
        self.invoke("withdraw", (*shares, recipient.clone()).into_val(&self.env))
    }

    fn try_accrue(&self) -> Result<(), u32> {
        self.try_invoke("accrue", soroban_sdk::Vec::new(&self.env))
    }

    fn try_initialize(&self, vault: &Address, pool: &Address, usdc: &Address) -> Result<(), u32> {
        self.try_invoke(
            "initialize",
            (vault.clone(), pool.clone(), usdc.clone()).into_val(&self.env),
        )
    }

    fn refresh(&self) {
        self.invoke("refresh", soroban_sdk::Vec::new(&self.env))
    }

    fn total_assets(&self) -> i128 {
        self.invoke("total_assets", soroban_sdk::Vec::new(&self.env))
    }

    fn get_pool(&self) -> Address {
        self.invoke("get_pool", soroban_sdk::Vec::new(&self.env))
    }

    fn get_protocol(&self) -> Symbol {
        self.invoke("get_protocol", soroban_sdk::Vec::new(&self.env))
    }

    fn stored(&self) -> MeridianBlendAdapter {
        self.env.as_contract(&self.address, || load(&self.env))
    }

    fn remove_pool(&self) {
        self.env.as_contract(&self.address, || {
            self.env.storage().instance().remove(&Symbol::new(&self.env, "POOL"));
        });
    }
}

struct PoolClient {
    env: Env,
    address: Address,
}

impl PoolClient {
    fn invoke(&self, func: &str, args: soroban_sdk::Vec<Val>) {
        let () = self.env.invoke_contract(&self.address, &Symbol::new(&self.env, func), args);
    }

    fn initialize(&self, scalar: &i128, index: &u32) {
        self.invoke("initialize", (*scalar, *index).into_val(&self.env));
    }

    fn set_rate(&self, rate: &i128) {
        self.invoke("set_rate", (*rate,).into_val(&self.env));
    }

    fn set_reported_scalar(&self, scalar: &i128) {
        self.invoke("set_reported_scalar", (*scalar,).into_val(&self.env));
    }
}

const SCALAR: i128 = RATE_SCALAR;
const RESERVE_INDEX: u32 = 0;

fn new_env() -> Env {
    Env::new_with_config(EnvTestConfig { capture_snapshot_at_drop: false })
}

/// The asset's administrator, the vault, the asset, the adapter, the pool.
fn deploy(env: &Env) -> (Address, Address, Address, AdapterClient, PoolClient) {
    let admin = Address::generate(env);
    let vault = Address::generate(env);
    let usdc_id = env.register_stellar_asset_contract_v2(admin.clone()).address();
    let pool_id = env.register(MockBlendPool, ());
    let pool = PoolClient { env: env.clone(), address: pool_id.clone() };
    pool.initialize(&SCALAR, &RESERVE_INDEX);
    let adapter_id =
        env.register(AdapterContract, (vault.clone(), pool_id.clone(), usdc_id.clone()));
    let adapter = AdapterClient { env: env.clone(), address: adapter_id };
    (admin, vault, usdc_id, adapter, pool)
}

fn setup() -> (Env, Address, Address, AdapterClient, PoolClient) {
    let env = new_env();
    env.mock_all_auths_allowing_non_root_auth();
    let (_admin, vault, usdc_id, adapter, pool) = deploy(&env);
    StellarAssetClient::new(&env, &usdc_id).mint(&vault, &10_000_000_000_i128);
    (env, vault, usdc_id, adapter, pool)
}

#[test]
fn deposit_supplies_to_pool_and_tracks_total() {
    let (env, vault, usdc_id, adapter, _pool) = setup();
    let amount = 100_0000000_i128;

    TokenClient::new(&env, &usdc_id).transfer(&vault, &adapter.address, &amount);
    let shares = adapter.deposit(&amount);

    assert_eq!(shares, amount);
    assert_eq!(adapter.total_assets(), amount);
}

// Here only the two signer-facing invocations are mocked. Everything that the deposit triggers
// underneath runs against the host's enforcing authorization check, the pool's own nested transfer
// among it.
#[test]
fn deposit_authorization_tree_matches_the_real_pool_call_shape() {
    let env = new_env();
    let (admin, vault, usdc_id, adapter, _pool) = deploy(&env);

    let mint_amount = 10_000_000_000_i128;
    env.mock_auths(&[MockAuth {
        address: &admin,
        invoke: &MockAuthInvoke {
            contract: &usdc_id,
            fn_name: "mint",
            args: (vault.clone(), mint_amount).into_val(&env),
            sub_invokes: &[],
        },
    }]);
    StellarAssetClient::new(&env, &usdc_id).mint(&vault, &mint_amount);

    let amount = 100_0000000_i128;

    env.mock_auths(&[MockAuth {
        address: &vault,
        invoke: &MockAuthInvoke {
            contract: &usdc_id,
            fn_name: "transfer",
            args: (vault.clone(), adapter.address.clone(), amount).into_val(&env),
            sub_invokes: &[],
        },
    }]);
    TokenClient::new(&env, &usdc_id).transfer(&vault, &adapter.address, &amount);

    env.mock_auths(&[MockAuth {
        address: &vault,
        invoke: &MockAuthInvoke {
            contract: &adapter.address,
            fn_name: "deposit",
            args: (amount,).into_val(&env),
            sub_invokes: &[],
        },
    }]);
    let shares = adapter.deposit(&amount);

    assert_eq!(shares, amount);
}

#[test]
fn get_pool_returns_the_configured_pool() {
    let (_env, _vault, _usdc, adapter, pool) = setup();
    assert_eq!(adapter.get_pool(), pool.address);
}

#[test]
fn get_protocol_returns_blend() {
    let (env, _vault, _usdc, adapter, _pool) = setup();
    assert_eq!(adapter.get_protocol(), Symbol::new(&env, "blend"));
}

#[test]
fn accrue_reflects_yield_from_a_rate_increase() {
    let (env, vault, usdc_id, adapter, pool) = setup();
    let amount = 100_0000000_i128;

    TokenClient::new(&env, &usdc_id).transfer(&vault, &adapter.address, &amount);
    adapter.deposit(&amount);
    assert_eq!(adapter.total_assets(), amount);

    // Ten per cent of yield: bTokens are now worth ten per cent more USDC each.
    let new_rate = SCALAR + SCALAR / 10;
    pool.set_rate(&new_rate);

    // The total is a cache; it must not move until accrue() is called.
    assert_eq!(adapter.total_assets(), amount);

    assert_eq!(adapter.try_accrue(), Ok(()));
    assert_eq!(adapter.total_assets(), amount + amount / 10);
}

#[test]
fn accrue_returns_typed_error_when_pool_key_is_unset() {
    let (_env, _vault, _usdc, adapter, _pool) = setup();
    adapter.remove_pool();

    assert_eq!(adapter.try_accrue(), Err(ContractError::NotInitialized.code()));
}

#[test]
#[should_panic]
fn refresh_panics_when_pool_key_is_unset() {
    let (_env, _vault, _usdc, adapter, _pool) = setup();
    adapter.remove_pool();

    adapter.refresh();
}

#[test]
fn accrue_ignores_reserve_scalar_and_uses_the_real_rate_base() {
    let (env, vault, usdc_id, adapter, pool) = setup();
    let amount = 100_0000000_i128;

    TokenClient::new(&env, &usdc_id).transfer(&vault, &adapter.address, &amount);
    adapter.deposit(&amount);

    // A scalar by the asset's decimals, far from the rate's base.
    pool.set_reported_scalar(&10_000_000_i128);

    let new_rate = SCALAR + SCALAR / 10;
    pool.set_rate(&new_rate);
    assert_eq!(adapter.try_accrue(), Ok(()));

    assert_eq!(adapter.total_assets(), amount + amount / 10);
}

#[test]
fn accrue_is_idempotent_at_a_stable_rate() {
    let (env, vault, usdc_id, adapter, _pool) = setup();
    let amount = 100_0000000_i128;

    TokenClient::new(&env, &usdc_id).transfer(&vault, &adapter.address, &amount);
    adapter.deposit(&amount);

    assert_eq!(adapter.try_accrue(), Ok(()));
    let after_first = adapter.total_assets();
    assert_eq!(adapter.try_accrue(), Ok(()));
    let after_second = adapter.total_assets();

    assert_eq!(after_first, amount);
    assert_eq!(after_second, amount);
}

#[test]
fn accrue_returns_typed_error_on_overflow() {
    let (env, vault, usdc_id, adapter, pool) = setup();
    let amount = 2_i128;

    TokenClient::new(&env, &usdc_id).transfer(&vault, &adapter.address, &amount);
    adapter.deposit(&amount);

    pool.set_rate(&i128::MAX);
    let result = adapter.try_accrue();

    assert_eq!(result, Err(ContractError::Overflow.code()));
}

#[test]
#[should_panic]
fn refresh_panics_on_accrue_overflow() {
    let (env, vault, usdc_id, adapter, pool) = setup();
    let amount = 2_i128;

    TokenClient::new(&env, &usdc_id).transfer(&vault, &adapter.address, &amount);
    adapter.deposit(&amount);

    pool.set_rate(&i128::MAX);
    adapter.refresh();
}

#[test]
fn withdraw_returns_usdc_and_reduces_total() {
    let (env, vault, usdc_id, adapter, _pool) = setup();
    let amount = 100_0000000_i128;

    TokenClient::new(&env, &usdc_id).transfer(&vault, &adapter.address, &amount);
    adapter.deposit(&amount);

    let recipient = Address::generate(&env);
    let usdc_out = adapter.withdraw(&amount, &recipient);

    assert_eq!(usdc_out, amount);
    assert_eq!(adapter.total_assets(), 0);
    assert_eq!(TokenClient::new(&env, &usdc_id).balance(&recipient), amount);
}

#[test]
fn withdraw_after_accrue_pays_out_appreciated_value() {
    let (env, vault, usdc_id, adapter, pool) = setup();
    let amount = 100_0000000_i128;

    TokenClient::new(&env, &usdc_id).transfer(&vault, &adapter.address, &amount);
    let b_tokens = adapter.deposit(&amount);
    assert_eq!(b_tokens, amount); // par rate at deposit time

    let new_rate = SCALAR + SCALAR / 10;
    pool.set_rate(&new_rate);
    assert_eq!(adapter.try_accrue(), Ok(()));
    assert_eq!(adapter.total_assets(), amount + amount / 10);

    // Fund the pool so that it can pay out the appreciated amount.
    StellarAssetClient::new(&env, &usdc_id).mint(&pool.address, &(amount / 10));

    let recipient = Address::generate(&env);
    let usdc_out = adapter.withdraw(&b_tokens, &recipient);

    assert_eq!(usdc_out, amount + amount / 10);
    assert_eq!(adapter.total_assets(), 0);
}

#[test]
fn reinitializing_fails() {
    let (_env, vault, usdc_id, adapter, pool) = setup();
    let result = adapter.try_initialize(&vault, &pool.address, &usdc_id);
    assert_eq!(result, Err(ContractError::AlreadyInitialized.code()));
}

#[test]
fn constructor_sets_vault_pool_and_usdc() {
    let (_env, vault, usdc_id, adapter, pool) = setup();

    assert_eq!(adapter.get_pool(), pool.address);
    let stored = adapter.stored();
    assert_eq!(blend_adapter::adapter_common::get_vault(&stored), Some(vault));
    assert_eq!(blend_adapter::adapter_common::get_usdc(&stored), Ok(usdc_id));
    assert_eq!(adapter.total_assets(), 0);
}

#[test]
fn initialize_cannot_hijack_a_constructor_deployed_adapter() {
    let (env, vault, usdc_id, adapter, pool) = setup();
    let attacker = Address::generate(&env);

    let result = adapter.try_initialize(&attacker, &pool.address, &usdc_id);
    assert_eq!(result, Err(ContractError::AlreadyInitialized.code()));

    assert_eq!(blend_adapter::adapter_common::get_vault(&adapter.stored()), Some(vault));
}

#[test]
#[should_panic]
fn deposit_requires_vault_auth() {
    // Nothing has authorized the stored vault's address.
    let env = new_env();
    let (_admin, _vault, _usdc_id, adapter, _pool) = deploy(&env);

    adapter.deposit(&100_0000000_i128);
}

#[test]
#[should_panic]
fn withdraw_requires_vault_auth() {
    let env = new_env();
    let (_admin, _vault, _usdc_id, adapter, _pool) = deploy(&env);

    let recipient = Address::generate(&env);
    adapter.withdraw(&100_0000000_i128, &recipient);
}
