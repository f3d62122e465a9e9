//! An arena-owned intermediate representation of compile-time values:
//! structurally interned types, non-deduplicated value handles, and a tagged
//! constant model with context-aware equality.

pub mod command;
pub mod constant;
pub mod context;
pub mod irtype;
pub mod u256;
pub mod value;

pub use command::Command;
pub use constant::{Constant, ConstantValue, B256};
pub use context::Context;
pub use irtype::{Type, TypeContent};
pub use u256::U256;
pub use value::{Value, ValueDatum};
