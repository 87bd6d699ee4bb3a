//! Proxy handlers that check an account set against a declared schema and
//! build the call that forwards it, unchanged, to the Whirlpool program.

pub mod account;
pub mod encoding;
pub mod constraint;
pub mod whirlpool;
pub mod proxy_initialize_pool;
pub mod proxy_initialize_tick_array;
pub mod proxy_open_position;
pub mod proxy_swap;
pub mod proxy_update_fees_and_rewards;
