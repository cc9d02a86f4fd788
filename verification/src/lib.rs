//! Construction, canonical packing, hashing and relay-client support for
//! account-abstraction user operations.
pub mod abi;
pub mod address;
pub mod bytesnat;
pub mod classify;
pub mod consts;
pub mod decimal;
pub mod errors;
pub mod fees;
pub mod h256;
pub mod hex;
pub mod keccak;
pub mod packing;
pub mod simple_account;
pub mod types;
pub mod u256;
pub mod uo_builder;
pub mod user_operation;
pub mod userop_middleware;
