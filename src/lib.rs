//! Block production core: assembles candidate blocks from a requested height,
//! the previous block, the relayer's finalized DA height and the pending pool.

pub mod db;
pub mod gossip;
pub mod lifecycle;
pub mod model;
pub mod producer;
pub mod pagination;
