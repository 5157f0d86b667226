//! A threshold-governed proposal engine: a closed group of members proposes
//! actions and votes on them, and a proposal that reaches the threshold of
//! approvals authorizes one downstream action, a call into another contract
//! or a message for another chain.
//!
//! Every operation is a function on a mathematical state (`model`), the
//! executable engine (`engine`) is proved to compute exactly that function,
//! and `laws` states what follows for sequences of operations.

pub mod account;
pub mod call;
pub mod codec;
pub mod dispatch;
pub mod engine;
pub mod error;
pub mod laws;
pub mod model;
pub mod nomination_pools;
pub mod seq_util;
pub mod tally;
pub mod traits;

pub use account::AccountId;
pub use call::{Call, ChainCall, ContractCall, Proposal};
pub use engine::Superdao;
pub use error::Error;
pub use tally::Vote;
pub use traits::{SuperDao, SuperDaoQuery};
