//! A yield adapter that supplies a vault's USDC to a Blend lending pool.
//!
//! The adapter keeps four storage entries and decides, call by call, what to ask of the host: whose
//! authorization to demand, what to read from the pool, what to submit to it. A host drives it: it
//! performs each [`host::HostCall`] and hands the [`host::HostReply`] back.

pub mod accounting;
pub mod adapter;
pub mod adapter_common;
pub mod accrue;
pub mod deposit;
pub mod error;
pub mod host;
pub mod laws;
pub mod pool;
pub mod withdraw;

pub use accounting::{b_tokens_to_usdc, RATE_SCALAR};
pub use adapter::MeridianBlendAdapter;
pub use error::{Abort, ContractError};
pub use pool::{Positions, Request, Reserve, ReserveConfig, ReserveData};
