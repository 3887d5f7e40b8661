//! The private and the public API of the supervisor service.
//!
//! The private API turns the requests of the node's administrator into
//! transactions that the node signs and broadcasts, and reads the
//! supervisor's own state. The public API reads the configuration of the
//! network. Signing and broadcasting is the node's work: a handler hands out
//! the transaction and the key it is to be signed for.

use vstd::prelude::*;
use crate::api::ServiceApiBuilder;
use crate::crypto::PublicKey;
use crate::bytes::{copy_bytes, copy_items};
use super::{
    ConfigProposalWithHash, ConfigPropose, ConfigVote, ConsensusConfig, DeployRequest, SupervisorConfig,
    SupervisorTx,
};

verus! {

/// Why a request was turned down.
#[derive(Debug, Clone, PartialEq, Eq)]
pub enum ApiError {
    /// The request cannot be served as it stands.
    BadRequest(String),
    /// The node failed to serve the request.
    InternalError(String),
}

/// Signs transactions with the node's service key and broadcasts them. Only
/// a validator has one.
#[derive(Debug, Clone, Copy, PartialEq, Eq)]
pub struct Broadcaster {
    /// The node's service key.
    pub service_key: PublicKey,
}

/// A transaction that the node is to sign and to broadcast.
#[derive(Debug, Clone, PartialEq, Eq)]
pub struct Broadcast {
    /// The key that the transaction is signed for.
    pub author: PublicKey,
    /// The transaction.
    pub transaction: SupervisorTx,
}

/// What a handler sees of the node and of the supervisor's state.
pub struct ServiceApiState {
    /// The broadcaster, if the node is a validator.
    pub broadcaster: Option<Broadcaster>,
    /// Number of configurations that the supervisor has processed.
    pub configuration_number: u64,
    /// Configuration of the supervisor.
    pub supervisor_config: SupervisorConfig,
    /// Configuration of the consensus algorithm.
    pub consensus_config: ConsensusConfig,
    /// The proposal that waits for votes, if there is one.
    pub pending_proposal: Option<ConfigProposalWithHash>,
}

/// Private API specification of the supervisor service.
pub trait PrivateApi {
    /// Error type for the current API implementation.
    type Error;

    /// Makes the `DeployArtifact` transaction that the current node is to
    /// sign and to broadcast.
    fn deploy_artifact(&self, artifact: DeployRequest) -> Result<Broadcast, Self::Error>;

    /// Makes the `ConfigPropose` transaction that the current node is to
    /// sign and to broadcast.
    fn propose_config(&self, proposal: ConfigPropose) -> Result<Broadcast, Self::Error>;

    /// Makes the `ConfigVote` transaction that the current node is to sign
    /// and to broadcast.
    fn confirm_config(&self, vote: ConfigVote) -> Result<Broadcast, Self::Error>;

    /// Returns the number of processed configurations.
    fn configuration_number(&self) -> Result<u64, Self::Error>;

    /// Returns an actual supervisor config.
    fn supervisor_config(&self) -> Result<SupervisorConfig, Self::Error>;
}

/// Public API specification of the supervisor service.
pub trait PublicApi {
    /// Error type for the current API implementation.
    type Error;

    /// Returns an actual consensus configuration of the blockchain.
    fn consensus_config(&self) -> Result<ConsensusConfig, Self::Error>;

    /// Returns a pending propose config change.
    fn config_proposal(&self) -> Result<Option<ConfigProposalWithHash>, Self::Error>;
}

/// The API of the supervisor over the state that a handler sees.
pub struct ApiImpl<'a>(pub &'a ServiceApiState);

/// Whether `error` is the answer to a request for a broadcast on a node that
/// is not a validator.
pub open spec fn is_not_a_validator(error: ApiError) -> bool {
    error matches ApiError::BadRequest(text) && text@ == "Node is not a validator"@
}

/// What a request for the broadcast of `transaction` leads to on a node with
/// the given broadcaster: the transaction with the broadcaster's key, or a
/// refusal when the node has no broadcaster.
pub open spec fn broadcast_of(broadcaster: Option<Broadcaster>, transaction: SupervisorTx, res: Result<
    Broadcast,
    ApiError,
>) -> bool {
    match broadcaster {
        Some(broadcaster) => res == Ok::<Broadcast, ApiError>(
            Broadcast { author: broadcaster.service_key, transaction },
        ),
        None => res matches Err(error) && is_not_a_validator(error),
    }
}

impl<'a> ApiImpl<'a> {
    /// The node's broadcaster. A node that is not a validator has none.
    pub fn broadcaster(&self) -> (res: Result<Broadcaster, ApiError>)
        ensures
            match self.0.broadcaster {
                Some(broadcaster) => res == Ok::<Broadcaster, ApiError>(broadcaster),
                None => res matches Err(error) && is_not_a_validator(error),
            },
    {
        match self.0.broadcaster {
            Some(broadcaster) => Ok(broadcaster),
            None => Err(ApiError::BadRequest("Node is not a validator".to_owned())),
        }
    }

    /// The transaction with the key of the node's broadcaster.
    fn broadcast(&self, transaction: SupervisorTx) -> (res: Result<Broadcast, ApiError>)
        ensures
            broadcast_of(self.0.broadcaster, transaction, res),
    {
        match self.broadcaster() {
            Ok(broadcaster) => Ok(Broadcast { author: broadcaster.service_key, transaction }),
            Err(error) => Err(error),
        }
    }
}

impl<'a> PrivateApi for ApiImpl<'a> {
    type Error = ApiError;

    fn deploy_artifact(&self, artifact: DeployRequest) -> (res: Result<Broadcast, ApiError>)
        ensures
            broadcast_of(self.0.broadcaster, SupervisorTx::DeployArtifact(artifact), res),
    {
        self.broadcast(SupervisorTx::DeployArtifact(artifact))
    }

    fn propose_config(&self, proposal: ConfigPropose) -> (res: Result<Broadcast, ApiError>)
        ensures
            broadcast_of(self.0.broadcaster, SupervisorTx::ProposeConfig(proposal), res),
    {
        self.broadcast(SupervisorTx::ProposeConfig(proposal))
    }

    fn confirm_config(&self, vote: ConfigVote) -> (res: Result<Broadcast, ApiError>)
        ensures
            broadcast_of(self.0.broadcaster, SupervisorTx::ConfirmConfig(vote), res),
    {
        self.broadcast(SupervisorTx::ConfirmConfig(vote))
    }

    fn configuration_number(&self) -> (res: Result<u64, ApiError>)
        ensures
            res == Ok::<u64, ApiError>(self.0.configuration_number),
    {
        Ok(self.0.configuration_number)
    }

    fn supervisor_config(&self) -> (res: Result<SupervisorConfig, ApiError>)
        ensures
            res == Ok::<SupervisorConfig, ApiError>(self.0.supervisor_config),
    {
        Ok(self.0.supervisor_config)
    }
}

/// Whether `copy` holds what `proposal` holds.
pub open spec fn same_proposal(copy: ConfigProposalWithHash, proposal: ConfigProposalWithHash) -> bool {
    &&& copy.propose_hash == proposal.propose_hash
    &&& copy.config_propose.actual_from == proposal.config_propose.actual_from
    &&& copy.config_propose.configuration_number == proposal.config_propose.configuration_number
    &&& copy.config_propose.changes@ == proposal.config_propose.changes@
}

impl<'a> PublicApi for ApiImpl<'a> {
    type Error = ApiError;

    fn consensus_config(&self) -> (res: Result<ConsensusConfig, ApiError>)
        ensures
            res matches Ok(config) && config.validator_keys@ == self.0.consensus_config.validator_keys@,
    {
        Ok(ConsensusConfig { validator_keys: copy_items(&self.0.consensus_config.validator_keys) })
    }

    fn config_proposal(&self) -> (res: Result<Option<ConfigProposalWithHash>, ApiError>)
        ensures
            res matches Ok(pending) && match self.0.pending_proposal {
                Some(proposal) => pending matches Some(copy) && same_proposal(copy, proposal),
                None => pending is None,
            },
    {
        match &self.0.pending_proposal {
            Some(proposal) => Ok(
                Some(
                    ConfigProposalWithHash {
                        config_propose: ConfigPropose {
                            actual_from: proposal.config_propose.actual_from,
                            changes: copy_bytes(&proposal.config_propose.changes),
                            configuration_number: proposal.config_propose.configuration_number,
                        },
                        propose_hash: proposal.propose_hash,
                    },
                ),
            ),
            None => Ok(None),
        }
    }
}

/// What the node answers once it has tried to broadcast a transaction: the
/// hash of the transaction, or an internal error with the reason for which
/// the transaction could not be sent.
pub fn broadcast_reply(sent: Result<crate::crypto::Hash, String>) -> (res: Result<crate::crypto::Hash, ApiError>)
    ensures
        match sent {
            Ok(hash) => res == Ok::<crate::crypto::Hash, ApiError>(hash),
            Err(reason) => res == Err::<crate::crypto::Hash, ApiError>(ApiError::InternalError(reason)),
        },
{
    match sent {
        Ok(hash) => Ok(hash),
        Err(reason) => Err(ApiError::InternalError(reason)),
    }
}

/// The handlers of the supervisor's API: one for each method of
/// `PrivateApi` and `PublicApi`.
#[derive(Debug, Clone, Copy, PartialEq, Eq, Structural)]
pub enum Handler {
    DeployArtifact,
    ProposeConfig,
    ConfirmConfig,
    ConfigurationNumber,
    SupervisorConfig,
    ConsensusConfig,
    ConfigProposal,
}

impl Handler {
    /// The number under which the handler is declared.
    pub open spec fn spec_id(self) -> u16 {
        match self {
            Handler::DeployArtifact => 0,
            Handler::ProposeConfig => 1,
            Handler::ConfirmConfig => 2,
            Handler::ConfigurationNumber => 3,
            Handler::SupervisorConfig => 4,
            Handler::ConsensusConfig => 5,
            Handler::ConfigProposal => 6,
        }
    }

    /// The number under which the handler is declared.
    pub fn id(self) -> (id: u16)
        ensures
            id == self.spec_id(),
    {
        match self {
            Handler::DeployArtifact => 0,
            Handler::ProposeConfig => 1,
            Handler::ConfirmConfig => 2,
            Handler::ConfigurationNumber => 3,
            Handler::SupervisorConfig => 4,
            Handler::ConsensusConfig => 5,
            Handler::ConfigProposal => 6,
        }
    }

    /// The handler that is declared under the number `id`, if there is
    /// one.
    pub fn from_id(id: u16) -> (handler: Option<Handler>)
        ensures
            match handler {
                Some(handler) => handler.spec_id() == id,
                None => forall|other: Handler| other.spec_id() != id,
            },
    {
        if id == 0 {
            Some(Handler::DeployArtifact)
        } else if id == 1 {
            Some(Handler::ProposeConfig)
        } else if id == 2 {
            Some(Handler::ConfirmConfig)
        } else if id == 3 {
            Some(Handler::ConfigurationNumber)
        } else if id == 4 {
            Some(Handler::SupervisorConfig)
        } else if id == 5 {
            Some(Handler::ConsensusConfig)
        } else if id == 6 {
            Some(Handler::ConfigProposal)
        } else {
            None
        }
    }

    /// Whether the handler leads to a broadcast, and so may change state.
    pub open spec fn broadcasts(self) -> bool {
        self is DeployArtifact || self is ProposeConfig || self is ConfirmConfig
    }

    /// Whether the handler belongs to the private API.
    pub open spec fn is_private(self) -> bool {
        !(self is ConsensusConfig || self is ConfigProposal)
    }
}

/// The endpoints of the private scope, each with whether it may change
/// state and with its handler.
pub open spec fn private_endpoints() -> Seq<(Seq<char>, bool, u16)> {
    seq![
        ("deploy-artifact"@, true, Handler::DeployArtifact.spec_id()),
        ("propose-config"@, true, Handler::ProposeConfig.spec_id()),
        ("confirm-config"@, true, Handler::ConfirmConfig.spec_id()),
        ("configuration-number"@, false, Handler::ConfigurationNumber.spec_id()),
        ("supervisor-config"@, false, Handler::SupervisorConfig.spec_id()),
    ]
}

/// The endpoints of the public scope, each with whether it may change
/// state and with its handler.
pub open spec fn public_endpoints() -> Seq<(Seq<char>, bool, u16)> {
    seq![
        ("consensus-config"@, false, Handler::ConsensusConfig.spec_id()),
        ("config-proposal"@, false, Handler::ConfigProposal.spec_id()),
    ]
}

/// Every handler is declared once, in the scope it belongs to, and an
/// endpoint may change state exactly when its handler leads to a broadcast.
pub proof fn lemma_every_handler_is_wired(handler: Handler)
    ensures
        handler.is_private() ==> exists|i: int|
            0 <= i < private_endpoints().len() && (#[trigger] private_endpoints()[i]).2 == handler.spec_id()
                && private_endpoints()[i].1 == handler.broadcasts(),
        !handler.is_private() ==> exists|i: int|
            0 <= i < public_endpoints().len() && (#[trigger] public_endpoints()[i]).2 == handler.spec_id()
                && public_endpoints()[i].1 == handler.broadcasts(),
{
    match handler {
        Handler::DeployArtifact => assert(private_endpoints()[0].2 == handler.spec_id()),
        Handler::ProposeConfig => assert(private_endpoints()[1].2 == handler.spec_id()),
        Handler::ConfirmConfig => assert(private_endpoints()[2].2 == handler.spec_id()),
        Handler::ConfigurationNumber => assert(private_endpoints()[3].2 == handler.spec_id()),
        Handler::SupervisorConfig => assert(private_endpoints()[4].2 == handler.spec_id()),
        Handler::ConsensusConfig => assert(public_endpoints()[0].2 == handler.spec_id()),
        Handler::ConfigProposal => assert(public_endpoints()[1].2 == handler.spec_id()),
    }
}

/// Declares the endpoints of the supervisor, each with the handler that
/// serves it: the three that lead to a broadcast and the two that read the
/// supervisor's state in the private scope, the two that read the network's
/// configuration in the public scope. What the builder held before stays in
/// front.
pub fn wire(builder: &mut ServiceApiBuilder)
    ensures
        final(builder).private_scope.declared() == old(builder).private_scope.declared() + private_endpoints(),
        final(builder).public_scope.declared() == old(builder).public_scope.declared() + public_endpoints(),
{
    builder.private_scope.endpoint_mut("deploy-artifact", Handler::DeployArtifact.id());
    builder.private_scope.endpoint_mut("propose-config", Handler::ProposeConfig.id());
    builder.private_scope.endpoint_mut("confirm-config", Handler::ConfirmConfig.id());
    builder.private_scope.endpoint("configuration-number", Handler::ConfigurationNumber.id());
    builder.private_scope.endpoint("supervisor-config", Handler::SupervisorConfig.id());
    builder.public_scope.endpoint("consensus-config", Handler::ConsensusConfig.id());
    builder.public_scope.endpoint("config-proposal", Handler::ConfigProposal.id());
    proof {
        assert(builder.private_scope.declared() =~= old(builder).private_scope.declared() + private_endpoints());
        assert(builder.public_scope.declared() =~= old(builder).public_scope.declared() + public_endpoints());
    }
}

} // verus!
