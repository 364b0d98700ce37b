//! The six instructions of the pool and the account helpers they share.
pub mod helpers;
pub mod crank_split;
pub mod initialize;
pub mod crank_initialize_reserve;
pub mod crank_merge_reserve;
pub mod deposit;
pub mod withdraw;
