//! Escrow and prize-distribution engine for competitive events on a
//! programmable ledger.
//!
//! Participants deposit an entry stake into a collectively owned pool; a
//! tenth of each stake is diverted to an operator treasury, and at
//! settlement the pool is split among ranked winners by fixed percentages.
//! A second mode skims a share of treasury inflow and redistributes it to a
//! fixed-size leaderboard on a recurring cycle.
//!
//! The ledger platform itself (atomic transaction execution, signer
//! authentication, custodial address derivation, and the value-transfer
//! primitive) is an external collaborator: every operation here is pure
//! accounting that decides whether the transaction may proceed and, if so,
//! which transfers the platform must execute. The surrounding program shell
//! performs those transfers.

pub mod entries;
pub mod errors;
pub mod ids;
pub mod recurring;
pub mod registry;
pub mod settlement;
pub mod split;
pub mod tournament;
