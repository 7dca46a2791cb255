//! VoteChain: on-chain governance, a governance token, a marketplace and the
//! off-chain indexer that mirrors governance events, as verified state machines.

pub mod address;
pub mod seqs;
pub mod indexer;
pub mod gov_types;
pub mod token;
pub mod governance;
pub mod marketplace;
pub mod gov_laws;
pub mod decimal;
pub mod poller;
