//! Pools: their state, the pricing engine, and the operations on them.

pub mod buy;
pub mod create_pool;
pub mod event;
pub mod sell;
pub mod state;
pub mod waiting_room;
pub mod withdraw;
pub mod laws;
