//! A small proof-of-work ledger: blocks chained by hash reference, mined by
//! varying a nonce until the block's digest meets a difficulty target.

pub mod block;
pub mod chain;
pub mod digest;
pub mod encoding;

pub use block::Block;
pub use block::MineOutcome;
pub use chain::Blockchain;
pub use encoding::to_hex;
pub use encoding::u64_to_string;
