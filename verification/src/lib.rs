//! Replay of transactions with the fees that were committed for them.
pub mod balance;
pub mod balance_laws;
pub mod block_laws;
pub mod felt;
pub mod receipt;
pub mod replay;
pub mod replay_laws;
pub mod sequences;
pub mod setting;
pub mod text;
pub mod trace;
pub mod trace_laws;
