//! What holds of the adapter as a whole: of every run of an operation, and of operations that follow
//! one another.

pub mod accrue;
pub mod deposit;
pub mod lifecycle;
pub mod rates;
pub mod withdraw;
