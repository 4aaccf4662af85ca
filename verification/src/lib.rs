//! Decision logic of an echo ledger module: writing caller-supplied bytes into
//! fixed-capacity buffers, either freely, gated by an authority, or paid per byte.

pub mod error;
pub mod buffer;
pub mod address;
pub mod config;
pub mod account;
pub mod instruction;
pub mod payment;
pub mod guard;
pub mod processor;
