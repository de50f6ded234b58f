//! A write-once string store and its installer, over an explicit model of the
//! host: a named-key registry, a storage allocator and a contract registry.

pub mod error;
pub mod keys;
pub mod args;
pub mod entry_points;
pub mod context;
pub mod contract;
pub mod laws;
