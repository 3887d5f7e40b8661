//! Runtimes and the dispatcher that routes requests to them.

use vstd::prelude::*;
use crate::api::ServiceApiBuilder;
use crate::crypto::PublicKey;
use crate::messages::CallInfo;
use crate::storage::{Fork, Snapshot};
use self::dispatcher::Action;
use self::error::{DeployError, ExecutionError, InitError};

pub mod dispatcher;
pub mod error;
pub mod rust;

verus! {

/// Identifies a deployable unit of code within one runtime.
#[derive(Debug, Clone, PartialEq, Eq)]
pub struct ArtifactSpec {
    /// The runtime that the artifact is written for.
    pub runtime_id: u32,
    /// What the artifact is, in that runtime's own encoding.
    pub raw_spec: Vec<u8>,
}

/// How far the deployment of an artifact has come.
#[derive(Debug, Clone, Copy, PartialEq, Eq, Structural)]
pub enum DeployStatus {
    /// The runtime is still preparing the artifact.
    Pending,
    /// The artifact is ready for services to be started from it.
    Deployed,
    /// The runtime gave up on the artifact.
    Failed,
}

/// What a service instance is started with.
#[derive(Debug, Clone, PartialEq, Eq)]
pub struct ServiceConstructor {
    /// Identifier that the new instance answers to.
    pub instance_id: u32,
    /// Arguments of the service's constructor.
    pub data: Vec<u8>,
}

/// The state that one execution works on: the fork it writes to, who sent
/// the transaction, and the actions it leaves for the dispatcher.
pub struct RuntimeContext<'a> {
    /// The storage view that the execution writes to.
    pub fork: &'a mut Fork,
    /// Author of the transaction that is being executed.
    pub author: PublicKey,
    /// Hash of the transaction that is being executed.
    pub tx_hash: crate::crypto::Hash,
    /// The actions that wait for the dispatcher, oldest first.
    pub dispatcher_actions: Vec<Action>,
}

/// What a context holds at one moment: the fork as it is written so far, who
/// sent the transaction, and the actions that wait for the dispatcher.
pub struct ContextView {
    pub fork: Fork,
    pub author: PublicKey,
    pub tx_hash: crate::crypto::Hash,
    pub actions: Seq<Action>,
}

impl<'a> View for RuntimeContext<'a> {
    type V = ContextView;

    open spec fn view(&self) -> ContextView {
        ContextView {
            fork: *self.fork,
            author: self.author,
            tx_hash: self.tx_hash,
            actions: self.dispatcher_actions@,
        }
    }
}

impl ContextView {
    /// The same context with `actions` waiting for the dispatcher.
    pub open spec fn with_actions(self, actions: Seq<Action>) -> ContextView {
        ContextView { fork: self.fork, author: self.author, tx_hash: self.tx_hash, actions }
    }

    /// The same context with no action waiting for the dispatcher.
    pub open spec fn without_actions(self) -> ContextView {
        self.with_actions(Seq::<Action>::empty())
    }
}

impl<'a> RuntimeContext<'a> {
    /// The actions that wait for the dispatcher, oldest first.
    pub open spec fn actions(&self) -> Seq<Action> {
        self.dispatcher_actions@
    }

    /// A context for one execution, with no action waiting.
    pub fn new(fork: &'a mut Fork, author: PublicKey, tx_hash: crate::crypto::Hash) -> (context: RuntimeContext<'a>)
        ensures
            *context.fork == *old(fork),
            *final(context.fork) == *final(fork),
            context.author == author,
            context.tx_hash == tx_hash,
            context.actions() == Seq::<Action>::empty(),
    {
        RuntimeContext { fork, author, tx_hash, dispatcher_actions: Vec::new() }
    }

    /// Leaves `action` for the dispatcher, behind the actions that wait
    /// already.
    pub fn dispatch_action(&mut self, action: Action)
        ensures
            final(self).actions() == old(self).actions().push(action),
            final(self).fork == old(self).fork,
            final(self).author == old(self).author,
            final(self).tx_hash == old(self).tx_hash,
    {
        self.dispatcher_actions.push(action);
    }

    /// Puts `actions` in the place of the actions that wait and hands out
    /// those that waited, oldest first.
    pub fn replace_dispatcher_actions(&mut self, actions: Vec<Action>) -> (waiting: Vec<Action>)
        ensures
            waiting@ == old(self).actions(),
            final(self).actions() == actions@,
            final(self).fork == old(self).fork,
            final(self).author == old(self).author,
            final(self).tx_hash == old(self).tx_hash,
    {
        let mut actions = actions;
        std::mem::swap(&mut actions, &mut self.dispatcher_actions);
        actions
    }

    /// Hands out the waiting actions, oldest first, and leaves none behind.
    pub fn take_dispatcher_actions(&mut self) -> (actions: Vec<Action>)
        ensures
            actions@ == old(self).actions(),
            final(self).actions() == Seq::<Action>::empty(),
            final(self).fork == old(self).fork,
            final(self).author == old(self).author,
            final(self).tx_hash == old(self).tx_hash,
    {
        let mut actions: Vec<Action> = Vec::new();
        std::mem::swap(&mut actions, &mut self.dispatcher_actions);
        actions
    }
}

/// An execution backend: deploys artifacts, starts service instances from
/// them and runs their methods.
///
/// What a runtime answers is its own matter. Each request comes with a
/// relation that says which answers are the runtime's; the dispatcher's
/// contracts hand these relations on. A runtime that says nothing of itself
/// leaves them as they are: every answer is then one of its answers.
pub trait Runtime {
    /// Whether `res` is an answer of this runtime to the request to deploy
    /// `artifact`.
    open spec fn deploy_answers(&self, artifact: ArtifactSpec, res: Result<(), DeployError>) -> bool {
        true
    }

    /// Whether `res` is an answer of this runtime to the question how far
    /// the deployment of `artifact` has come.
    open spec fn status_answers(
        &self,
        artifact: ArtifactSpec,
        cancel_if_not_complete: bool,
        res: Result<DeployStatus, DeployError>,
    ) -> bool {
        true
    }

    /// Whether this runtime may answer the request to start, in the context
    /// `before`, the service of `constructor` from `artifact` with `res`, and
    /// leave the context as `after`.
    open spec fn init_answers(
        &self,
        before: ContextView,
        artifact: ArtifactSpec,
        constructor: ServiceConstructor,
        after: ContextView,
        res: Result<(), InitError>,
    ) -> bool {
        true
    }

    /// Whether this runtime may answer the call `call_info` with `payload`,
    /// made in the context `before`, with `res`, and leave the context as
    /// `after`.
    open spec fn execute_answers(
        &self,
        before: ContextView,
        call_info: CallInfo,
        payload: Seq<u8>,
        after: ContextView,
        res: Result<(), ExecutionError>,
    ) -> bool {
        true
    }

    /// Whether `hashes` are content hashes that this runtime gives for
    /// `snapshot`.
    open spec fn hashes_answer(&self, snapshot: Snapshot, hashes: Seq<(u32, Vec<crate::crypto::Hash>)>) -> bool {
        true
    }

    /// Whether this runtime's hook before a commit turns the fork `before`
    /// into the fork `after`.
    open spec fn commit_answers(&self, before: Fork, after: Fork) -> bool {
        true
    }

    /// Whether `api` is the API surface that this runtime gives for its
    /// service instances.
    open spec fn api_answers(&self, api: Seq<(String, ServiceApiBuilder)>) -> bool {
        true
    }

    /// Begins to prepare an artifact.
    fn start_deploy(&mut self, artifact: ArtifactSpec) -> (res: Result<(), DeployError>)
        ensures
            old(self).deploy_answers(artifact, res),
    ;

    /// Reports how far the deployment of an artifact has come, without
    /// waiting for it. With `cancel_if_not_complete` the runtime gives up a
    /// deployment that has not finished.
    fn check_deploy_status(&self, artifact: ArtifactSpec, cancel_if_not_complete: bool) -> (res: Result<
        DeployStatus,
        DeployError,
    >)
        ensures
            self.status_answers(artifact, cancel_if_not_complete, res),
    ;

    /// Starts a service instance from a deployed artifact.
    fn init_service(
        &mut self,
        context: &mut RuntimeContext,
        artifact: ArtifactSpec,
        constructor: &ServiceConstructor,
    ) -> (res: Result<(), InitError>)
        ensures
            old(self).init_answers(old(context)@, artifact, *constructor, final(context)@, res),
    ;

    /// Runs one method of a service instance.
    fn execute(&self, context: &mut RuntimeContext, call_info: CallInfo, payload: &[u8]) -> (res: Result<
        (),
        ExecutionError,
    >)
        ensures
            self.execute_answers(old(context)@, call_info, payload@, final(context)@, res),
    ;

    /// Content hashes of the runtime's service instances.
    fn state_hashes(&self, snapshot: &Snapshot) -> (hashes: Vec<(u32, Vec<crate::crypto::Hash>)>)
        ensures
            self.hashes_answer(*snapshot, hashes@),
    ;

    /// Called once per block before the block is committed.
    fn before_commit(&self, fork: &mut Fork)
        ensures
            self.commit_answers(*old(fork), *final(fork)),
    ;

    /// Called once per block after the block was committed.
    fn after_commit(&self, fork: &Fork);

    /// The API surface of the runtime's service instances, each with the
    /// instance's name. A runtime without one answers with the empty
    /// surface.
    fn services_api(&self) -> (api: Vec<(String, ServiceApiBuilder)>)
        ensures
            self.api_answers(api@),
    ;
}

} // verus!
