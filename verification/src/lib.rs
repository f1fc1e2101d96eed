//! Consensus parameters of a proof-of-work chain and of its test networks.
//!
//! Each supported [`network::Network`] has one frozen record of consensus
//! constants, a [`params::Params`]: when rule changes become active, how
//! rule-change signalling is counted, and how often the difficulty is
//! recomputed. The records are plain immutable data, selected by the network
//! alone, and every statement made about them here is machine-checked.

pub mod laws;
pub mod network;
pub mod params;
pub mod pow;
