//! The supervisor service as the execution core meets it: the requests
//! that its API takes and the transactions that they lead to.

use vstd::prelude::*;
use crate::crypto::PublicKey;
use crate::events::Height;
use crate::runtime::ArtifactSpec;

pub mod api;

verus! {

/// Asks the network to deploy an artifact.
#[derive(Debug, Clone, PartialEq, Eq)]
pub struct DeployRequest {
    /// The artifact to deploy.
    pub artifact: ArtifactSpec,
    /// The height until which the deployment must be confirmed.
    pub deadline_height: Height,
}

/// Proposes a change of configuration.
#[derive(Debug, Clone, PartialEq, Eq)]
pub struct ConfigPropose {
    /// The height from which the change is in force.
    pub actual_from: Height,
    /// The changes, in the encoding of the supervisor.
    pub changes: Vec<u8>,
    /// The number of configurations that were processed when the proposal
    /// was made.
    pub configuration_number: u64,
}

/// Confirms a proposed change of configuration.
#[derive(Debug, Clone, PartialEq, Eq)]
pub struct ConfigVote {
    /// Hash of the proposal.
    pub propose_hash: crate::crypto::Hash,
}

/// A pending proposal with its hash.
#[derive(Debug, Clone, PartialEq, Eq)]
pub struct ConfigProposalWithHash {
    pub config_propose: ConfigPropose,
    pub propose_hash: crate::crypto::Hash,
}

/// How the supervisor takes its decisions.
#[derive(Debug, Clone, Copy, PartialEq, Eq, Structural)]
pub enum Mode {
    /// One validator decides.
    Simple,
    /// A majority of the validators decides.
    Decentralized,
}

/// Configuration of the supervisor.
#[derive(Debug, Clone, Copy, PartialEq, Eq, Structural)]
pub struct SupervisorConfig {
    pub mode: Mode,
}

/// Configuration of the consensus algorithm.
#[derive(Debug, Clone, PartialEq, Eq)]
pub struct ConsensusConfig {
    /// Keys of the validators.
    pub validator_keys: Vec<PublicKey>,
}

/// A transaction of the supervisor.
#[derive(Debug, Clone, PartialEq, Eq)]
pub enum SupervisorTx {
    DeployArtifact(DeployRequest),
    ProposeConfig(ConfigPropose),
    ConfirmConfig(ConfigVote),
}

} // verus!
