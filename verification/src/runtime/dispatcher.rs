//! The dispatcher: registry of runtimes and routing table of services.

use std::collections::HashMap;
use futures::sync::mpsc::Sender;
use vstd::prelude::*;
use crate::events::InternalRequest;
use super::error::{DeployError, ExecutionError, InitError, WRONG_RUNTIME};
use super::rust::{
    gained_factories, gained_factory, lemma_gains_one_more, BoxedFactory, BuiltinService, RustRuntime,
};
use crate::api::ServiceApiBuilder;
use crate::messages::CallInfo;
use crate::storage::{Fork, Snapshot};
use super::{ArtifactSpec, ContextView, DeployStatus, Runtime, RuntimeContext, ServiceConstructor};

verus! {

broadcast use vstd::std_specs::hash::group_hash_axioms;

/// A side effect on the dispatcher that an execution asks for. It is applied
/// after the execution has returned.
#[derive(Debug)]
pub enum Action {
    /// Begin to deploy an artifact.
    StartDeploy { artifact: ArtifactSpec },
    /// Start a service instance.
    InitService { artifact: ArtifactSpec, constructor: ServiceConstructor },
}

impl Action {
    /// Identifier of the runtime that the action is addressed to.
    pub open spec fn runtime_id(self) -> u32 {
        match self {
            Action::StartDeploy { artifact } => artifact.runtime_id,
            Action::InitService { artifact, .. } => artifact.runtime_id,
        }
    }

    /// The routing table after the action was applied with success to a
    /// dispatcher whose routing table was `lookup`.
    pub open spec fn lookup_effect(self, lookup: Map<u32, u32>) -> Map<u32, u32> {
        match self {
            Action::StartDeploy { .. } => lookup,
            Action::InitService { artifact, constructor } => lookup.insert(
                constructor.instance_id,
                artifact.runtime_id,
            ),
        }
    }
}

impl Action {
    /// Applies the action to the dispatcher: hands the artifact, and for a
    /// service the constructor, to the runtime that the artifact is written
    /// for, and turns a failure into the error that is recorded for it.
    ///
    /// Without a runtime registered under the artifact's runtime identifier
    /// the action fails with the wrong-runtime error and nothing changes.
    /// Otherwise the outcome is the runtime's. Only the start of a service
    /// that succeeds changes the routing table. The actions that wait in the
    /// context are left as they are: applying an action queues no other.
    pub fn execute(self, dispatcher: &mut Dispatcher, context: &mut RuntimeContext) -> (res: Result<
        (),
        ExecutionError,
    >)
        requires
            old(dispatcher).wf(),
        ensures
            action_applied(*old(dispatcher), *final(dispatcher), old(context)@, final(context)@, self, res),
            final(context).actions() == old(context).actions(),
            self is StartDeploy || !old(dispatcher).is_registered(self.runtime_id()) ==> *final(context) == *old(
                context,
            ),
    {
        match self {
            Action::StartDeploy { artifact } => {
                let answer = dispatcher.start_deploy(artifact);
                let res = match answer {
                    Ok(()) => Ok(()),
                    Err(error) => Err(ExecutionError::from_deploy_error(error)),
                };
                proof {
                    assert(deploy_started(*old(dispatcher), *dispatcher, artifact, answer) && deploy_recorded(
                        answer,
                        res,
                    ));
                }
                res
            },
            Action::InitService { artifact, constructor } => {
                let answer = dispatcher.init_service(context, artifact, &constructor);
                let ghost given = answer;
                let res = match answer {
                    Ok(()) => Ok(()),
                    Err(error) => Err(ExecutionError::from_init_error(error)),
                };
                proof {
                    assert(service_started(
                        *old(dispatcher),
                        *dispatcher,
                        old(context)@,
                        context@,
                        artifact,
                        constructor,
                        given,
                    ) && init_recorded(given, res));
                }
                res
            },
        }
    }
}

/// Whether `res` is the outcome that is recorded for the answer `answer` to
/// a request to deploy: success for success, and for a failure the execution
/// error that stands for it.
pub open spec fn deploy_recorded(answer: Result<(), DeployError>, res: Result<(), ExecutionError>) -> bool {
    match answer {
        Ok(_) => res == Ok::<(), ExecutionError>(()),
        Err(failure) => res matches Err(error) && error.records_deploy_error(failure),
    }
}

/// Whether `res` is the outcome that is recorded for the answer `answer` to
/// a request to start a service.
pub open spec fn init_recorded(answer: Result<(), InitError>, res: Result<(), ExecutionError>) -> bool {
    match answer {
        Ok(_) => res == Ok::<(), ExecutionError>(()),
        Err(failure) => res matches Err(error) && error.records_init_error(failure),
    }
}

/// What `Action::execute` leaves behind: `after` is the dispatcher and
/// `last` the context that came of applying `action` to the dispatcher
/// `before` in the context `first`, with the outcome `res`. The request that the action stands for was made of `before` as
/// `Dispatcher::start_deploy` or `Dispatcher::init_service` makes it, and
/// `res` is the outcome recorded for its answer.
pub open spec fn action_applied(
    before: Dispatcher,
    after: Dispatcher,
    first: ContextView,
    last: ContextView,
    action: Action,
    res: Result<(), ExecutionError>,
) -> bool {
    match action {
        Action::StartDeploy { artifact } => last == first && exists|answer: Result<(), DeployError>|
            (#[trigger] deploy_started(before, after, artifact, answer)) && deploy_recorded(answer, res),
        Action::InitService { artifact, constructor } => exists|answer: Result<(), InitError>|
            (#[trigger] service_started(before, after, first, last, artifact, constructor, answer)) && init_recorded(
                answer,
                res,
            ),
    }
}

/// The number of actions that were handed to a runtime when applying
/// `actions` ended with `res`: all of them, or those up to the one that
/// failed.
pub open spec fn attempted(actions: Seq<Action>, res: Result<(), FailedAction>) -> int {
    match res {
        Ok(_) => actions.len() as int,
        Err(failed) => failed.index + 1,
    }
}

/// The outcome of the `j`-th action when applying the actions ended with
/// `res`: the error of the action that failed, and success for those before
/// it.
pub open spec fn step_outcome(res: Result<(), FailedAction>, j: int) -> Result<(), ExecutionError> {
    match res {
        Ok(_) => Ok(()),
        Err(failed) => if j == failed.index {
            Err(failed.error)
        } else {
            Ok(())
        },
    }
}

/// Whether `states` are the dispatchers and `contexts` the contexts that
/// applying `actions` went through: it starts as `before` in the context
/// `first`, each action is applied to the dispatcher and in the context as
/// the action before it has left them, and the last are `after` and `last`. Every
/// action but the last succeeds; with `Err` the last is the action that
/// failed, and no action behind it is applied.
pub open spec fn applied_in_order(
    states: Seq<Dispatcher>,
    contexts: Seq<ContextView>,
    before: Dispatcher,
    after: Dispatcher,
    first: ContextView,
    last: ContextView,
    actions: Seq<Action>,
    res: Result<(), FailedAction>,
) -> bool {
    &&& 0 <= attempted(actions, res) <= actions.len()
    &&& states.len() == attempted(actions, res) + 1
    &&& contexts.len() == attempted(actions, res) + 1
    &&& states[0] == before
    &&& contexts[0] == first
    &&& states[attempted(actions, res)] == after
    &&& contexts[attempted(actions, res)] == last
    &&& forall|j: int|
        0 <= j < attempted(actions, res) ==> action_applied(
            #[trigger] states[j],
            states[j + 1],
            contexts[j],
            contexts[j + 1],
            actions[j],
            step_outcome(res, j),
        )
}

/// What follows for the dispatcher as a whole when `actions` were applied
/// in their order: the registry keeps its identifiers, the routing table
/// holds the effect of the actions that succeeded and of no other, and a
/// runtime that none of the attempted actions names is as it was.
pub open spec fn actions_summary(
    before: Dispatcher,
    after: Dispatcher,
    actions: Seq<Action>,
    res: Result<(), FailedAction>,
) -> bool {
    &&& after.wf()
    &&& after.runtime_ids() == before.runtime_ids()
    &&& after.runtimes().dom() == before.runtimes().dom()
    &&& before.routes_resolve() ==> after.routes_resolve()
    &&& match res {
        Ok(_) => {
            &&& after.lookup() == lookup_after(before.lookup(), actions, actions.len())
            &&& forall|j: int| 0 <= j < actions.len() ==> before.is_registered((#[trigger] actions[j]).runtime_id())
            &&& forall|id: u32|
                before.is_registered(id) && untouched_by(actions, actions.len() as int, id) ==> after.runtimes()[id]
                    == before.runtimes()[id]
        },
        Err(failed) => {
            &&& failed.index < actions.len()
            &&& after.lookup() == lookup_after(before.lookup(), actions, failed.index as nat)
            &&& forall|j: int| 0 <= j < failed.index ==> before.is_registered((#[trigger] actions[j]).runtime_id())
            &&& !before.is_registered(actions[failed.index as int].runtime_id()) ==> failed.error.is_wrong_runtime()
            &&& forall|id: u32|
                before.is_registered(id) && untouched_by(actions, failed.index + 1, id) ==> after.runtimes()[id]
                    == before.runtimes()[id]
        },
    }
}

/// What `Dispatcher::apply_actions` leaves behind: `after` is the
/// dispatcher and `last` the context that came of applying `actions` to the
/// dispatcher `before` in the context `first`, with the outcome `res`.
pub open spec fn actions_applied(
    before: Dispatcher,
    after: Dispatcher,
    first: ContextView,
    last: ContextView,
    actions: Seq<Action>,
    res: Result<(), FailedAction>,
) -> bool {
    &&& exists|states: Seq<Dispatcher>, contexts: Seq<ContextView>| #[trigger]
        applied_in_order(states, contexts, before, after, first, last, actions, res)
    &&& actions_summary(before, after, actions, res)
    &&& last.actions == first.actions
}

/// The outcome of a call whose actions were applied with `applied`: success
/// when all succeeded, else the error of the action that failed.
pub open spec fn queue_outcome(applied: Result<(), FailedAction>) -> Result<(), ExecutionError> {
    match applied {
        Ok(_) => Ok(()),
        Err(failed) => Err(failed.error),
    }
}

/// What `Dispatcher::finish_call` leaves behind: `after` is the dispatcher
/// and `last` the context that came of finishing, in the dispatcher `before`
/// and the context `left`, a call that the runtime answered with `answer`;
/// `res` is the outcome of the call.
///
/// When the runtime has failed, its error is the outcome and nothing
/// changes: the actions stay in the context. When it has succeeded, the
/// actions that waited in the context are applied in their order and none is
/// left in it; the call succeeds when all of them succeed, and fails with
/// the error of the first that fails.
pub open spec fn call_finished(
    before: Dispatcher,
    after: Dispatcher,
    left: ContextView,
    last: ContextView,
    answer: Result<(), ExecutionError>,
    res: Result<(), ExecutionError>,
) -> bool {
    match answer {
        Err(_) => res == answer && after == before && last == left,
        Ok(_) => {
            &&& last.actions == Seq::<Action>::empty()
            &&& exists|applied: Result<(), FailedAction>|
                (#[trigger] actions_applied(before, after, left.without_actions(), last, left.actions, applied))
                    && res == queue_outcome(applied)
        },
    }
}

/// What `Dispatcher::execute` leaves behind: `after` is the dispatcher and
/// `last` the context that came of making the call `call_info` with
/// `payload` in the dispatcher `before` and the context `first`; `res` is the
/// outcome of the call.
///
/// A call to an instance that is not routed to a registered runtime fails
/// with the wrong-runtime error and changes nothing. Every other call is
/// handed, with the context as it is, to the runtime that the instance is
/// routed to, and finished with that runtime's answer and the context as
/// that runtime has left it, as `call_finished` says.
pub open spec fn call_routed(
    before: Dispatcher,
    after: Dispatcher,
    first: ContextView,
    last: ContextView,
    call_info: CallInfo,
    payload: Seq<u8>,
    res: Result<(), ExecutionError>,
) -> bool {
    if before.resolves(call_info.instance_id) {
        exists|answer: Result<(), ExecutionError>, left: ContextView|
            {
                &&& before.runtimes()[before.lookup()[call_info.instance_id]].execute_answers(
                    first,
                    call_info,
                    payload,
                    left,
                    answer,
                )
                &&& #[trigger] call_finished(before, after, left, last, answer, res)
            }
    } else {
        (res matches Err(error) && error.is_wrong_runtime()) && after == before && last == first
    }
}

/// Whether none of the first `n` of `actions` is addressed to the runtime
/// `runtime_id`.
pub open spec fn untouched_by(actions: Seq<Action>, n: int, runtime_id: u32) -> bool {
    forall|j: int| 0 <= j < n && j < actions.len() ==> (#[trigger] actions[j]).runtime_id() != runtime_id
}

/// An action that could not be applied.
#[derive(Debug)]
pub struct FailedAction {
    /// Place of the action among the actions that were to be applied.
    pub index: usize,
    /// Why it could not be applied.
    pub error: ExecutionError,
}

/// The routing table after the first `n` of `actions` were applied with
/// success, one after the other, to a dispatcher whose routing table was
/// `lookup`.
pub open spec fn lookup_after(lookup: Map<u32, u32>, actions: Seq<Action>, n: nat) -> Map<u32, u32>
    decreases n,
{
    if n == 0 {
        lookup
    } else {
        actions[n - 1].lookup_effect(lookup_after(lookup, actions, (n - 1) as nat))
    }
}

/// The parts as sequences, in their order.
pub open spec fn part_views<T>(parts: Seq<Vec<T>>) -> Seq<Seq<T>> {
    parts.map_values(|part: Vec<T>| part@)
}

/// Joins the parts in their order. Nothing is merged, dropped or moved.
pub fn join_parts<T>(parts: Vec<Vec<T>>) -> (all: Vec<T>)
    ensures
        all@ == part_views(parts@).flatten(),
{
    let ghost views = part_views(parts@);
    let count: usize = parts.len();
    let mut index: usize = 0;
    let mut all: Vec<T> = Vec::new();
    for part in iter: parts
        invariant
            index == iter.index(),
            part_views(iter.seq()) == views,
            iter.seq().len() == count,
            all@ == views.take(index as int).flatten(),
    {
        let mut part = part;
        proof {
            assert(views.take(index + 1) =~= views.take(index as int).push(part@));
            views.take(index as int).lemma_flatten_push(part@);
        }
        all.append(&mut part);
        index += 1;
    }
    proof {
        assert(views.take(count as int) =~= views);
    }
    all
}

/// A runtime as the dispatcher holds it: the native runtime, or a runtime
/// of which the dispatcher knows the interface only.
pub enum RuntimeInstance {
    /// The native runtime.
    Rust(RustRuntime),
    /// Any other runtime.
    External(Box<dyn Runtime>),
}

impl RuntimeInstance {
    /// The native runtime, if this is one.
    pub open spec fn native(self) -> Option<RustRuntime> {
        match self {
            RuntimeInstance::Rust(runtime) => Some(runtime),
            RuntimeInstance::External(_) => None,
        }
    }

    /// Whether `res` is an answer of the runtime to the request to deploy
    /// `artifact`.
    pub open spec fn deploy_answers(self, artifact: ArtifactSpec, res: Result<(), DeployError>) -> bool {
        match self {
            RuntimeInstance::Rust(runtime) => runtime.deploy_answers(artifact, res),
            RuntimeInstance::External(runtime) => runtime.deploy_answers(artifact, res),
        }
    }

    /// Whether `res` is an answer of the runtime to the question how far
    /// the deployment of `artifact` has come.
    pub open spec fn status_answers(
        self,
        artifact: ArtifactSpec,
        cancel_if_not_complete: bool,
        res: Result<DeployStatus, DeployError>,
    ) -> bool {
        match self {
            RuntimeInstance::Rust(runtime) => runtime.status_answers(artifact, cancel_if_not_complete, res),
            RuntimeInstance::External(runtime) => runtime.status_answers(artifact, cancel_if_not_complete, res),
        }
    }

    /// Whether the runtime may answer the request to start, in the context
    /// `before`, the service of `constructor` from `artifact` with `res`, and
    /// leave the context as `after`.
    pub open spec fn init_answers(
        self,
        before: ContextView,
        artifact: ArtifactSpec,
        constructor: ServiceConstructor,
        after: ContextView,
        res: Result<(), InitError>,
    ) -> bool {
        match self {
            RuntimeInstance::Rust(runtime) => runtime.init_answers(before, artifact, constructor, after, res),
            RuntimeInstance::External(runtime) => runtime.init_answers(before, artifact, constructor, after, res),
        }
    }

    /// Whether the runtime may answer the call `call_info` with `payload`,
    /// made in the context `before`, with `res`, and leave the context as
    /// `after`.
    pub open spec fn execute_answers(
        self,
        before: ContextView,
        call_info: CallInfo,
        payload: Seq<u8>,
        after: ContextView,
        res: Result<(), ExecutionError>,
    ) -> bool {
        match self {
            RuntimeInstance::Rust(runtime) => runtime.execute_answers(before, call_info, payload, after, res),
            RuntimeInstance::External(runtime) => runtime.execute_answers(before, call_info, payload, after, res),
        }
    }

    /// Whether `hashes` are content hashes that the runtime gives for
    /// `snapshot`.
    pub open spec fn hashes_answer(self, snapshot: Snapshot, hashes: Seq<(u32, Vec<crate::crypto::Hash>)>) -> bool {
        match self {
            RuntimeInstance::Rust(runtime) => runtime.hashes_answer(snapshot, hashes),
            RuntimeInstance::External(runtime) => runtime.hashes_answer(snapshot, hashes),
        }
    }

    /// Whether the runtime's hook before a commit turns the fork `before`
    /// into the fork `after`.
    pub open spec fn commit_answers(self, before: Fork, after: Fork) -> bool {
        match self {
            RuntimeInstance::Rust(runtime) => runtime.commit_answers(before, after),
            RuntimeInstance::External(runtime) => runtime.commit_answers(before, after),
        }
    }

    /// Whether `api` is the API surface that the runtime gives for its
    /// service instances.
    pub open spec fn api_answers(self, api: Seq<(String, ServiceApiBuilder)>) -> bool {
        match self {
            RuntimeInstance::Rust(runtime) => runtime.api_answers(api),
            RuntimeInstance::External(runtime) => runtime.api_answers(api),
        }
    }

    fn start_deploy(&mut self, artifact: ArtifactSpec) -> (res: Result<(), DeployError>)
        ensures
            old(self).deploy_answers(artifact, res),
            old(self).native() matches Some(before) ==> final(self).native() matches Some(after)
                && RustRuntime::deployed(before, after, artifact, res),
    {
        match self {
            RuntimeInstance::Rust(runtime) => runtime.start_deploy(artifact),
            RuntimeInstance::External(runtime) => runtime.start_deploy(artifact),
        }
    }

    fn check_deploy_status(&self, artifact: ArtifactSpec, cancel_if_not_complete: bool) -> (res: Result<
        DeployStatus,
        DeployError,
    >)
        ensures
            self.status_answers(artifact, cancel_if_not_complete, res),
    {
        match self {
            RuntimeInstance::Rust(runtime) => runtime.check_deploy_status(artifact, cancel_if_not_complete),
            RuntimeInstance::External(runtime) => runtime.check_deploy_status(artifact, cancel_if_not_complete),
        }
    }

    fn init_service(
        &mut self,
        context: &mut RuntimeContext,
        artifact: ArtifactSpec,
        constructor: &ServiceConstructor,
    ) -> (res: Result<(), InitError>)
        ensures
            answered_start(*old(self), *final(self), old(context)@, final(context)@, artifact, *constructor, res),
    {
        match self {
            RuntimeInstance::Rust(runtime) => runtime.init_service(context, artifact, constructor),
            RuntimeInstance::External(runtime) => runtime.init_service(context, artifact, constructor),
        }
    }

    fn execute(&self, context: &mut RuntimeContext, call_info: CallInfo, payload: &[u8]) -> (res: Result<
        (),
        ExecutionError,
    >)
        ensures
            self.execute_answers(old(context)@, call_info, payload@, final(context)@, res),
    {
        match self {
            RuntimeInstance::Rust(runtime) => runtime.execute(context, call_info, payload),
            RuntimeInstance::External(runtime) => runtime.execute(context, call_info, payload),
        }
    }

    fn state_hashes(&self, snapshot: &Snapshot) -> (hashes: Vec<(u32, Vec<crate::crypto::Hash>)>)
        ensures
            self.hashes_answer(*snapshot, hashes@),
    {
        match self {
            RuntimeInstance::Rust(runtime) => runtime.state_hashes(snapshot),
            RuntimeInstance::External(runtime) => runtime.state_hashes(snapshot),
        }
    }

    fn before_commit(&self, fork: &mut Fork)
        ensures
            self.commit_answers(*old(fork), *final(fork)),
    {
        match self {
            RuntimeInstance::Rust(runtime) => runtime.before_commit(fork),
            RuntimeInstance::External(runtime) => runtime.before_commit(fork),
        }
    }

    fn after_commit(&self, fork: &Fork) {
        match self {
            RuntimeInstance::Rust(runtime) => runtime.after_commit(fork),
            RuntimeInstance::External(runtime) => runtime.after_commit(fork),
        }
    }

    /// The API surface that the runtime gives for its service instances.
    fn services_api(&self) -> (api: Vec<(String, ServiceApiBuilder)>)
        ensures
            self.api_answers(api@),
    {
        match self {
            RuntimeInstance::Rust(runtime) => runtime.services_api(),
            RuntimeInstance::External(runtime) => runtime.services_api(),
        }
    }
}

/// A runtime with the identifier it is registered under.
pub struct RuntimeEntry {
    pub id: u32,
    pub runtime: RuntimeInstance,
}

/// The identifiers of the given entries, in their order.
pub open spec fn entry_ids(entries: Seq<RuntimeEntry>) -> Seq<u32> {
    entries.map_values(|entry: RuntimeEntry| entry.id)
}

/// The identifiers after a runtime was registered under `id`: a new
/// identifier goes to the end, a known one keeps its place.
pub open spec fn registered_ids(ids: Seq<u32>, id: u32) -> Seq<u32> {
    if ids.contains(id) {
        ids
    } else {
        ids.push(id)
    }
}

/// The identifiers after the first `n` of `added` were registered, one after
/// the other, in a registry that held `ids`.
pub open spec fn ids_after(ids: Seq<u32>, added: Seq<(u32, RuntimeInstance)>, n: nat) -> Seq<u32>
    decreases n,
{
    if n == 0 {
        ids
    } else {
        registered_ids(ids_after(ids, added, (n - 1) as nat), added[n - 1].0)
    }
}

/// The registry after the first `n` of `added` were registered, one after
/// the other, in the registry `runtimes`. Of two runtimes with one
/// identifier the later stays.
pub open spec fn registry_after(
    runtimes: Map<u32, RuntimeInstance>,
    added: Seq<(u32, RuntimeInstance)>,
    n: nat,
) -> Map<u32, RuntimeInstance>
    decreases n,
{
    if n == 0 {
        runtimes
    } else {
        registry_after(runtimes, added, (n - 1) as nat).insert(added[n - 1].0, added[n - 1].1)
    }
}

/// Whether the registry `after` holds the same identifiers as `before` and
/// the same runtime under each of them, but possibly under `runtime_id`.
pub open spec fn same_except(
    before: Map<u32, RuntimeInstance>,
    after: Map<u32, RuntimeInstance>,
    runtime_id: u32,
) -> bool {
    &&& after.dom() == before.dom()
    &&& forall|id: u32| id != runtime_id && before.contains_key(id) ==> after[id] == before[id]
}

/// Routes deployment, initialization and execution requests to the runtimes
/// and keeps track of which runtime owns which service instance.
pub struct Dispatcher {
    runtimes: Vec<RuntimeEntry>,
    runtime_lookup: HashMap<u32, u32>,
    inner_requests_tx: Sender<InternalRequest>,
}

impl Dispatcher {
    /// Identifiers of the registered runtimes, in the order in which they
    /// were first registered. Hooks and aggregations visit the runtimes in
    /// this order.
    pub closed spec fn runtime_ids(&self) -> Seq<u32> {
        entry_ids(self.runtimes@)
    }

    /// The registry: each registered identifier with its runtime.
    pub closed spec fn runtimes(&self) -> Map<u32, RuntimeInstance> {
        Map::new(
            |id: u32| self.runtime_ids().contains(id),
            |id: u32| self.runtimes@[self.runtime_ids().index_of(id)].runtime,
        )
    }

    /// The routing table: each started service instance with the identifier
    /// of the runtime that owns it.
    pub closed spec fn lookup(&self) -> Map<u32, u32> {
        self.runtime_lookup@
    }

    /// Whether a runtime is registered under `runtime_id`.
    pub open spec fn is_registered(&self, runtime_id: u32) -> bool {
        self.runtimes().contains_key(runtime_id)
    }

    /// The native runtime, if it is the runtime registered under
    /// `runtime_id`.
    pub open spec fn native(&self, runtime_id: u32) -> Option<RustRuntime> {
        if self.is_registered(runtime_id) {
            self.runtimes()[runtime_id].native()
        } else {
            None
        }
    }

    /// The runtime identifier that calls to `instance_id` are routed to.
    pub open spec fn route(&self, instance_id: u32) -> Option<u32> {
        if self.lookup().contains_key(instance_id) {
            Some(self.lookup()[instance_id])
        } else {
            None
        }
    }

    /// Whether calls to `instance_id` reach a registered runtime.
    pub open spec fn resolves(&self, instance_id: u32) -> bool {
        self.lookup().contains_key(instance_id) && self.is_registered(self.lookup()[instance_id])
    }

    /// No identifier is registered twice, and the registry holds exactly
    /// the identifiers of `runtime_ids`.
    pub open spec fn wf(&self) -> bool {
        &&& self.runtime_ids().no_duplicates()
        &&& forall|id: u32| self.is_registered(id) <==> self.runtime_ids().contains(id)
    }

    /// Every service instance of the routing table is owned by a registered
    /// runtime.
    pub open spec fn routes_resolve(&self) -> bool {
        forall|instance_id: u32| self.lookup().contains_key(instance_id) ==> self.is_registered(self.lookup()[instance_id])
    }

    /// The runtime registered under the `i`-th identifier is the `i`-th
    /// runtime.
    proof fn lemma_runtime_at(&self, i: int)
        requires
            self.wf(),
            0 <= i < self.runtimes@.len(),
        ensures
            self.runtime_ids()[i] == self.runtimes@[i].id,
            self.is_registered(self.runtime_ids()[i]),
            self.runtimes()[self.runtime_ids()[i]] == self.runtimes@[i].runtime,
    {
        let ids = self.runtime_ids();
        let id = ids[i];
        assert(ids.contains(id));
        let k = ids.index_of(id);
        assert(0 <= k < ids.len() && ids[k] == id);
        assert(k == i);
    }

    /// Routes that resolved keep resolving when no runtime leaves the
    /// registry and the routing table gains at most routes to registered
    /// runtimes.
    proof fn lemma_routes_kept(before: Dispatcher, after: Dispatcher)
        requires
            before.routes_resolve(),
            forall|id: u32| before.is_registered(id) ==> after.is_registered(id),
            forall|instance_id: u32| #[trigger]
                after.lookup().contains_key(instance_id) ==> (before.lookup().contains_key(instance_id)
                    && before.lookup()[instance_id] == after.lookup()[instance_id]) || after.is_registered(
                    after.lookup()[instance_id],
                ),
        ensures
            after.routes_resolve(),
    {
        assert forall|instance_id: u32| after.lookup().contains_key(instance_id) implies after.is_registered(
            after.lookup()[instance_id],
        ) by {
            if before.lookup().contains_key(instance_id) && before.lookup()[instance_id] == after.lookup()[instance_id] {
                assert(before.is_registered(before.lookup()[instance_id]));
            }
        }
    }

    /// A dispatcher without runtimes and without services. Requests to the
    /// node's scheduler go out through `inner_requests_tx`.
    pub fn new(inner_requests_tx: Sender<InternalRequest>) -> (dispatcher: Dispatcher)
        ensures
            dispatcher.wf(),
            dispatcher.routes_resolve(),
            dispatcher.runtime_ids() == Seq::<u32>::empty(),
            dispatcher.runtimes() == Map::<u32, RuntimeInstance>::empty(),
            dispatcher.lookup() == Map::<u32, u32>::empty(),
    {
        let dispatcher = Dispatcher {
            runtimes: Vec::new(),
            runtime_lookup: HashMap::new(),
            inner_requests_tx,
        };
        assert(dispatcher.runtime_ids() =~= Seq::<u32>::empty());
        assert(dispatcher.runtimes() =~= Map::<u32, RuntimeInstance>::empty());
        dispatcher
    }

    /// A dispatcher that holds the given runtimes, registered in their
    /// order, and no services.
    pub fn with_runtimes(runtimes: Vec<(u32, RuntimeInstance)>, inner_requests_tx: Sender<InternalRequest>) -> (dispatcher:
        Dispatcher)
        ensures
            dispatcher.wf(),
            dispatcher.routes_resolve(),
            dispatcher.runtime_ids() == ids_after(Seq::<u32>::empty(), runtimes@, runtimes@.len()),
            dispatcher.runtimes() == registry_after(
                Map::<u32, RuntimeInstance>::empty(),
                runtimes@,
                runtimes@.len(),
            ),
            dispatcher.lookup() == Map::<u32, u32>::empty(),
    {
        let ghost added = runtimes@;
        let count: usize = runtimes.len();
        let mut index: usize = 0;
        let mut dispatcher = Dispatcher::new(inner_requests_tx);
        for entry in iter: runtimes
            invariant
                index == iter.index(),
                iter.seq() == added,
                added.len() == count,
                dispatcher.wf(),
                dispatcher.routes_resolve(),
                dispatcher.runtime_ids() == ids_after(Seq::<u32>::empty(), added, index as nat),
                dispatcher.runtimes() == registry_after(Map::<u32, RuntimeInstance>::empty(), added, index as nat),
                dispatcher.lookup() == Map::<u32, u32>::empty(),
        {
            dispatcher.add_runtime(entry.0, entry.1);
            index += 1;
        }
        dispatcher
    }

    /// Index of the entry registered under `id`.
    fn position(&self, id: u32) -> (res: Option<usize>)
        requires
            self.wf(),
        ensures
            match res {
                Some(i) => {
                    &&& i < self.runtimes@.len()
                    &&& self.runtimes@[i as int].id == id
                    &&& self.runtime_ids().index_of(id) == i
                    &&& self.is_registered(id)
                },
                None => !self.is_registered(id),
            },
    {
        let mut i: usize = 0;
        while i < self.runtimes.len()
            invariant
                self.wf(),
                i <= self.runtimes@.len(),
                forall|j: int| 0 <= j < i ==> self.runtimes@[j].id != id,
            decreases self.runtimes@.len() - i,
        {
            if self.runtimes[i].id == id {
                proof {
                    let ids = self.runtime_ids();
                    assert(ids[i as int] == id);
                    assert(ids.contains(id));
                    let k = ids.index_of(id);
                    assert(0 <= k < ids.len() && ids[k] == id);
                    assert(k == i);
                }
                return Some(i);
            }
            i += 1;
        }
        proof {
            let ids = self.runtime_ids();
            assert forall|j: int| 0 <= j < ids.len() implies ids[j] != id by {
                assert(ids[j] == self.runtimes@[j].id);
            }
            assert(!ids.contains(id));
        }
        None
    }

    /// Whether a runtime is registered under `runtime_id`.
    pub fn has_runtime(&self, runtime_id: u32) -> (res: bool)
        requires
            self.wf(),
        ensures
            res == self.is_registered(runtime_id),
    {
        self.position(runtime_id).is_some()
    }

    /// Registers `runtime` under `id`. A runtime that was registered under
    /// `id` before is replaced and the identifier keeps its place in the
    /// order of the registry.
    pub fn add_runtime(&mut self, id: u32, runtime: RuntimeInstance)
        requires
            old(self).wf(),
        ensures
            final(self).wf(),
            final(self).runtime_ids() == registered_ids(old(self).runtime_ids(), id),
            final(self).runtimes() == old(self).runtimes().insert(id, runtime),
            final(self).lookup() == old(self).lookup(),
            old(self).routes_resolve() ==> final(self).routes_resolve(),
    {
        match self.position(id) {
            Some(i) => {
                self.runtimes[i] = RuntimeEntry { id, runtime };
                proof {
                    assert(self.runtime_ids() =~= old(self).runtime_ids());
                    assert(self.runtimes() =~= old(self).runtimes().insert(id, runtime));
                }
            },
            None => {
                let entry = RuntimeEntry { id, runtime };
                self.runtimes.push(entry);
                proof {
                    let before = old(self).runtime_ids();
                    let after = self.runtime_ids();
                    assert(after =~= before.push(id));
                    assert(after.no_duplicates()) by {
                        assert forall|a: int, b: int| 0 <= a < after.len() && 0 <= b < after.len() && a != b implies after[a] != after[b] by {
                            if a < before.len() && b < before.len() {
                                assert(before[a] != before[b]);
                            } else if a < before.len() {
                                assert(before.contains(before[a]));
                            } else {
                                assert(before.contains(before[b]));
                            }
                        }
                    }
                    assert forall|other: u32| after.contains(other) <==> (before.contains(other) || other == id) by {
                        if after.contains(other) {
                            let j = after.index_of(other);
                            assert(0 <= j < after.len() && after[j] == other);
                            if j < before.len() {
                                assert(before[j] == other);
                            }
                        }
                        if before.contains(other) {
                            let j = before.index_of(other);
                            assert(after[j] == other);
                        }
                        assert(after[before.len() as int] == id);
                    }
                    assert(after.index_of(id) == before.len()) by {
                        assert(after[before.len() as int] == id);
                        let k = after.index_of(id);
                        assert(0 <= k < after.len() && after[k] == id);
                    }
                    assert forall|other: u32| before.contains(other) implies after.index_of(other)
                        == before.index_of(other) by {
                        let k = before.index_of(other);
                        assert(after[k] == other);
                        let m = after.index_of(other);
                        assert(0 <= m < after.len() && after[m] == other);
                    }
                    assert(self.runtimes() =~= old(self).runtimes().insert(id, runtime));
                }
            },
        }
        proof {
            if old(self).routes_resolve() {
                Self::lemma_routes_kept(*old(self), *self);
            }
        }
    }

    /// Records that the service instance `service_id` was started from
    /// `artifact` and is owned by the artifact's runtime.
    pub(crate) fn notify_service_started(&mut self, service_id: u32, artifact: ArtifactSpec)
        ensures
            final(self).lookup() == old(self).lookup().insert(service_id, artifact.runtime_id),
            final(self).runtime_ids() == old(self).runtime_ids(),
            final(self).runtimes() == old(self).runtimes(),
    {
        self.runtime_lookup.insert(service_id, artifact.runtime_id);
    }

    /// Hands the artifact to the runtime it is written for, which begins
    /// to deploy it.
    ///
    /// Without a runtime registered under the artifact's runtime identifier
    /// the request fails with `WrongRuntime` and nothing changes. Otherwise
    /// the answer is the runtime's, and no other runtime and no route is
    /// touched.
    pub fn start_deploy(&mut self, artifact: ArtifactSpec) -> (res: Result<(), DeployError>)
        requires
            old(self).wf(),
        ensures
            deploy_started(*old(self), *final(self), artifact, res),
    {
        match self.position(artifact.runtime_id) {
            Some(i) => {
                let res = self.runtimes[i].runtime.start_deploy(artifact);
                proof {
                    assert(self.runtime_ids() =~= old(self).runtime_ids());
                    assert(self.runtimes().dom() =~= old(self).runtimes().dom());
                    if old(self).routes_resolve() {
                        Self::lemma_routes_kept(*old(self), *self);
                    }
                }
                res
            },
            None => Err(DeployError::WrongRuntime),
        }
    }

    /// Asks the runtime that the artifact is written for how far its
    /// deployment has come.
    ///
    /// Without a runtime registered under the artifact's runtime identifier
    /// the request fails with `WrongRuntime`. Otherwise the answer is the
    /// runtime's.
    pub fn check_deploy_status(&self, artifact: ArtifactSpec, cancel_if_not_complete: bool) -> (res: Result<
        DeployStatus,
        DeployError,
    >)
        requires
            self.wf(),
        ensures
            !self.is_registered(artifact.runtime_id) ==> res == Err::<DeployStatus, DeployError>(
                DeployError::WrongRuntime,
            ),
            self.is_registered(artifact.runtime_id) ==> self.runtimes()[artifact.runtime_id].status_answers(
                artifact,
                cancel_if_not_complete,
                res,
            ),
    {
        match self.position(artifact.runtime_id) {
            Some(i) => self.runtimes[i].runtime.check_deploy_status(artifact, cancel_if_not_complete),
            None => Err(DeployError::WrongRuntime),
        }
    }

    /// Finishes the initialization of a service instance with the answer
    /// that the runtime `runtime_id` gave: on success the instance is routed
    /// to the runtime from now on, on failure nothing is recorded. The answer
    /// is handed back as it came.
    pub fn record_init_result(
        &mut self,
        instance_id: u32,
        runtime_id: u32,
        result: Result<(), InitError>,
    ) -> (res: Result<(), InitError>)
        ensures
            res == result,
            final(self).lookup() == (if result is Ok {
                old(self).lookup().insert(instance_id, runtime_id)
            } else {
                old(self).lookup()
            }),
            final(self).runtime_ids() == old(self).runtime_ids(),
            final(self).runtimes() == old(self).runtimes(),
            old(self).routes_resolve() && old(self).is_registered(runtime_id) ==> final(self).routes_resolve(),
    {
        if result.is_ok() {
            self.runtime_lookup.insert(instance_id, runtime_id);
        }
        proof {
            if old(self).routes_resolve() && old(self).is_registered(runtime_id) {
                Self::lemma_routes_kept(*old(self), *self);
            }
        }
        result
    }

    /// Asks the node to rebuild the API surface of its services. The
    /// request is lost when the channel does not take it.
    fn request_api_restart(&mut self)
        ensures
            final(self).lookup() == old(self).lookup(),
            final(self).runtime_ids() == old(self).runtime_ids(),
            final(self).runtimes() == old(self).runtimes(),
    {
        let _ = self.inner_requests_tx.try_send(InternalRequest::RestartApi);
    }

    /// Starts a service instance in the runtime that the artifact is written
    /// for.
    ///
    /// Without a runtime registered under the artifact's runtime identifier
    /// the request fails with `WrongRuntime` and nothing changes. Otherwise
    /// the answer is the runtime's. On success the instance is routed to that
    /// runtime from now on; on failure no route is recorded. Either way the
    /// node is asked to rebuild its API surface.
    ///
    /// The actions that wait in the context are kept from the runtime and
    /// wait as before when it has answered. An action that the runtime leaves
    /// in the context while it starts the service is dropped: the start of a
    /// service queues no action.
    pub fn init_service(
        &mut self,
        context: &mut RuntimeContext,
        artifact: ArtifactSpec,
        constructor: &ServiceConstructor,
    ) -> (res: Result<(), InitError>)
        requires
            old(self).wf(),
        ensures
            service_started(*old(self), *final(self), old(context)@, final(context)@, artifact, *constructor, res),
            final(context).actions() == old(context).actions(),
            !old(self).is_registered(artifact.runtime_id) ==> *final(context) == *old(context),
    {
        let runtime_id: u32 = artifact.runtime_id;
        match self.position(runtime_id) {
            Some(i) => {
                let waiting = context.take_dispatcher_actions();
                let ghost given = context@;
                let result = self.runtimes[i].runtime.init_service(context, artifact, constructor);
                let ghost left = context@;
                let ghost answer = result;
                let _ = context.replace_dispatcher_actions(waiting);
                proof {
                    assert(self.runtime_ids() =~= old(self).runtime_ids());
                    assert(self.runtimes().dom() =~= old(self).runtimes().dom());
                }
                let result = self.record_init_result(constructor.instance_id, runtime_id, result);
                self.request_api_restart();
                proof {
                    if old(self).routes_resolve() {
                        Self::lemma_routes_kept(*old(self), *self);
                    }
                    assert(given == old(context)@.without_actions());
                    assert(context@ == left.with_actions(old(context)@.actions));
                    assert(answered_start(
                        old(self).runtimes()[runtime_id],
                        self.runtimes()[runtime_id],
                        old(context)@.without_actions(),
                        left,
                        artifact,
                        *constructor,
                        answer,
                    ));
                }
                result
            },
            None => Err(InitError::WrongRuntime),
        }
    }

    /// Applies `actions` one after the other, in their order, and stops at
    /// the first that fails. Each action is applied to the dispatcher as the
    /// action before it has left it.
    ///
    /// When all succeed, the routing table holds the effect of each of
    /// them. When one fails, the answer names it and carries its error; the
    /// routing table holds the effect of the actions before it and of no
    /// other, and no action behind it was handed to a runtime. An action
    /// addressed to a runtime that is not registered fails with the
    /// wrong-runtime error. The actions that wait in the context are left as
    /// they are.
    pub fn apply_actions(&mut self, actions: Vec<Action>, context: &mut RuntimeContext) -> (res: Result<
        (),
        FailedAction,
    >)
        requires
            old(self).wf(),
        ensures
            actions_applied(*old(self), *final(self), old(context)@, final(context)@, actions@, res),
            final(context).actions() == old(context).actions(),
            actions@.len() == 0 ==> *final(context) == *old(context),
    {
        let ghost all = actions@;
        let ghost mut states: Seq<Dispatcher> = seq![*self];
        let ghost mut contexts: Seq<ContextView> = seq![context@];
        let count: usize = actions.len();
        let mut index: usize = 0;
        for action in iter: actions
            invariant
                index == iter.index(),
                iter.seq() == all,
                all.len() == count,
                self.wf(),
                self.runtime_ids() == old(self).runtime_ids(),
                self.runtimes().dom() == old(self).runtimes().dom(),
                old(self).routes_resolve() ==> self.routes_resolve(),
                self.lookup() == lookup_after(old(self).lookup(), all, index as nat),
                forall|j: int| 0 <= j < index ==> old(self).is_registered((#[trigger] all[j]).runtime_id()),
                forall|id: u32| old(self).is_registered(id) && untouched_by(all, index as int, id)
                    ==> self.runtimes()[id] == old(self).runtimes()[id],
                states.len() == index + 1,
                contexts.len() == index + 1,
                states[0] == *old(self),
                contexts[0] == old(context)@,
                states[index as int] == *self,
                contexts[index as int] == context@,
                forall|j: int|
                    0 <= j < index ==> action_applied(
                        #[trigger] states[j],
                        states[j + 1],
                        contexts[j],
                        contexts[j + 1],
                        all[j],
                        Ok::<(), ExecutionError>(()),
                    ),
                context.actions() == old(context).actions(),
                index == 0 ==> *context == *old(context),
        {
            let ghost found = *self;
            let ghost given = context@;
            let outcome = action.execute(self, context);
            proof {
                states = states.push(*self);
                contexts = contexts.push(context@);
                assert(action_applied(found, *self, given, context@, all[index as int], outcome));
                lemma_action_applied_summary(found, *self, given, context@, all[index as int], outcome);
            }
            match outcome {
                Ok(()) => {},
                Err(error) => {
                    let failed = FailedAction { index, error };
                    proof {
                        assert(step_outcome(Err(failed), index as int) == outcome);
                        assert forall|j: int| 0 <= j < index + 1 implies action_applied(
                            #[trigger] states[j],
                            states[j + 1],
                            contexts[j],
                            contexts[j + 1],
                            all[j],
                            step_outcome(Err(failed), j),
                        ) by {
                            if j < index {
                                assert(step_outcome(Err(failed), j) == Ok::<(), ExecutionError>(()));
                            }
                        }
                        assert(applied_in_order(
                            states,
                            contexts,
                            *old(self),
                            *self,
                            old(context)@,
                            context@,
                            all,
                            Err(failed),
                        ));
                    }
                    return Err(failed);
                },
            }
            index += 1;
        }
        proof {
            assert(applied_in_order(states, contexts, *old(self), *self, old(context)@, context@, all, Ok(())));
        }
        Ok(())
    }

    /// Finishes a call that the runtime has answered with `answer`. The
    /// runtime's error is handed on and the actions stay in the context. After
    /// its success the actions that wait in the context are taken out of it
    /// and applied as `apply_actions` says: the call succeeds when all of them
    /// succeed, and fails with the error of the first that fails.
    pub fn finish_call(&mut self, answer: Result<(), ExecutionError>, context: &mut RuntimeContext) -> (res: Result<
        (),
        ExecutionError,
    >)
        requires
            old(self).wf(),
        ensures
            final(self).wf(),
            call_finished(*old(self), *final(self), old(context)@, final(context)@, answer, res),
            answer is Err ==> *final(context) == *old(context),
            final(self).runtime_ids() == old(self).runtime_ids(),
            final(self).runtimes().dom() == old(self).runtimes().dom(),
            old(self).routes_resolve() ==> final(self).routes_resolve(),
    {
        match answer {
            Err(error) => Err(error),
            Ok(()) => {
                let actions = context.take_dispatcher_actions();
                let ghost waiting = actions@;
                let ghost emptied = context@;
                let applied = self.apply_actions(actions, context);
                let ghost outcome = applied;
                let res = match applied {
                    Ok(()) => Ok(()),
                    Err(failed) => Err(failed.error),
                };
                proof {
                    assert(waiting == old(context)@.actions);
                    assert(emptied == old(context)@.without_actions());
                    assert(actions_applied(
                        *old(self),
                        *self,
                        old(context)@.without_actions(),
                        context@,
                        old(context)@.actions,
                        outcome,
                    ) && res == queue_outcome(outcome));
                }
                res
            },
        }
    }

    /// Runs one method of a service instance in the runtime that owns the
    /// instance, then applies the actions that wait in the context, in the
    /// order in which they were left there.
    ///
    /// A call to an instance that was not started, or whose runtime is not
    /// registered, fails with the wrong-runtime error and changes nothing.
    /// Otherwise the runtime decides: when it fails, its error is handed on
    /// and the actions stay in the context. When it succeeds, the actions
    /// are taken out of the context and applied as `apply_actions` says; the
    /// call succeeds when all of them succeed, and the first that fails ends
    /// the call with its error.
    pub fn execute(&mut self, context: &mut RuntimeContext, call_info: CallInfo, payload: &[u8]) -> (res:
        Result<(), ExecutionError>)
        requires
            old(self).wf(),
        ensures
            final(self).wf(),
            call_routed(*old(self), *final(self), old(context)@, final(context)@, call_info, payload@, res),
            !old(self).resolves(call_info.instance_id) ==> *final(context) == *old(context),
            final(self).runtime_ids() == old(self).runtime_ids(),
            final(self).runtimes().dom() == old(self).runtimes().dom(),
            old(self).routes_resolve() ==> final(self).routes_resolve(),
    {
        let runtime_id: u32 = match self.runtime_for(call_info.instance_id) {
            Some(runtime_id) => runtime_id,
            None => {
                return Err(ExecutionError::with_description(WRONG_RUNTIME, "Wrong runtime"));
            },
        };
        match self.position(runtime_id) {
            Some(i) => {
                let answer = self.runtimes[i].runtime.execute(context, call_info, payload);
                let ghost left = context@;
                let ghost given = answer;
                let res = self.finish_call(answer, context);
                proof {
                    assert(old(self).runtimes()[runtime_id].execute_answers(
                        old(context)@,
                        call_info,
                        payload@,
                        left,
                        given,
                    ));
                    assert(call_finished(*old(self), *self, left, context@, given, res));
                }
                res
            },
            None => Err(ExecutionError::with_description(WRONG_RUNTIME, "Wrong runtime")),
        }
    }

    /// The content hashes of the service instances of every runtime: what
    /// each runtime answers, joined in the order of the registry.
    pub fn state_hashes(&self, snapshot: &Snapshot) -> (hashes: Vec<(u32, Vec<crate::crypto::Hash>)>)
        requires
            self.wf(),
        ensures
            exists|parts: Seq<Seq<(u32, Vec<crate::crypto::Hash>)>>|
                {
                    &&& parts.len() == self.runtime_ids().len()
                    &&& forall|i: int|
                        0 <= i < parts.len() ==> self.runtimes()[self.runtime_ids()[i]].hashes_answer(
                            *snapshot,
                            #[trigger] parts[i],
                        )
                    &&& hashes@ == #[trigger] parts.flatten()
                },
    {
        let mut parts: Vec<Vec<(u32, Vec<crate::crypto::Hash>)>> = Vec::new();
        let mut i: usize = 0;
        while i < self.runtimes.len()
            invariant
                self.wf(),
                i <= self.runtimes@.len(),
                parts@.len() == i,
                forall|j: int| 0 <= j < i ==> self.runtimes@[j].runtime.hashes_answer(*snapshot, (#[trigger] parts@[j])@),
            decreases self.runtimes@.len() - i,
        {
            let part = self.runtimes[i].runtime.state_hashes(snapshot);
            parts.push(part);
            i += 1;
        }
        let ghost views = part_views(parts@);
        let hashes = join_parts(parts);
        proof {
            assert(views.len() == self.runtime_ids().len());
            assert forall|k: int| 0 <= k < views.len() implies self.runtimes()[self.runtime_ids()[k]].hashes_answer(
                *snapshot,
                #[trigger] views[k],
            ) by {
                self.lemma_runtime_at(k);
                assert(views[k] == parts@[k]@);
            }
        }
        hashes
    }

    /// Calls the hook of every runtime that runs before a block is
    /// committed, in the order of the registry: each runtime gets the fork
    /// as the runtime before it has left it. Without runtimes the fork stays
    /// as it is.
    pub fn before_commit(&self, fork: &mut Fork)
        requires
            self.wf(),
        ensures
            exists|forks: Seq<Fork>|
                {
                    &&& forks.len() == self.runtime_ids().len() + 1
                    &&& forks[0] == *old(fork)
                    &&& #[trigger] forks[self.runtime_ids().len() as int] == *final(fork)
                    &&& forall|i: int|
                        0 <= i < self.runtime_ids().len() ==> self.runtimes()[self.runtime_ids()[i]].commit_answers(
                            #[trigger] forks[i],
                            forks[i + 1],
                        )
                },
            self.runtime_ids().len() == 0 ==> *final(fork) == *old(fork),
    {
        let ghost mut forks: Seq<Fork> = seq![*fork];
        let mut i: usize = 0;
        while i < self.runtimes.len()
            invariant
                self.wf(),
                i <= self.runtimes@.len(),
                forks.len() == i + 1,
                forks[0] == *old(fork),
                forks[i as int] == *fork,
                forall|j: int| 0 <= j < i ==> self.runtimes@[j].runtime.commit_answers(#[trigger] forks[j], forks[j + 1]),
            decreases self.runtimes@.len() - i,
        {
            self.runtimes[i].runtime.before_commit(fork);
            proof {
                forks = forks.push(*fork);
            }
            i += 1;
        }
        proof {
            assert(forks.len() == self.runtime_ids().len() + 1);
            assert forall|k: int| 0 <= k < self.runtime_ids().len() implies self.runtimes()[self.runtime_ids()[k]].commit_answers(
                #[trigger] forks[k],
                forks[k + 1],
            ) by {
                self.lemma_runtime_at(k);
            }
        }
    }

    /// Calls the hook of every runtime that runs after a block was
    /// committed, in the order of the registry.
    pub fn after_commit(&self, fork: &Fork) {
        let mut i: usize = 0;
        while i < self.runtimes.len()
            invariant
                i <= self.runtimes@.len(),
            decreases self.runtimes@.len() - i,
        {
            self.runtimes[i].runtime.after_commit(fork);
            i += 1;
        }
    }

    /// The API surface of the service instances of every runtime: what
    /// each runtime answers, joined in the order of the registry.
    pub fn services_api(&self) -> (api: Vec<(String, ServiceApiBuilder)>)
        requires
            self.wf(),
        ensures
            exists|parts: Seq<Seq<(String, ServiceApiBuilder)>>|
                {
                    &&& parts.len() == self.runtime_ids().len()
                    &&& forall|i: int|
                        0 <= i < parts.len() ==> self.runtimes()[self.runtime_ids()[i]].api_answers(
                            #[trigger] parts[i],
                        )
                    &&& api@ == #[trigger] parts.flatten()
                },
    {
        let mut parts: Vec<Vec<(String, ServiceApiBuilder)>> = Vec::new();
        let mut i: usize = 0;
        while i < self.runtimes.len()
            invariant
                self.wf(),
                i <= self.runtimes@.len(),
                parts@.len() == i,
                forall|j: int| 0 <= j < i ==> self.runtimes@[j].runtime.api_answers((#[trigger] parts@[j])@),
            decreases self.runtimes@.len() - i,
        {
            let part = self.runtimes[i].runtime.services_api();
            parts.push(part);
            i += 1;
        }
        let ghost views = part_views(parts@);
        let api = join_parts(parts);
        proof {
            assert(views.len() == self.runtime_ids().len());
            assert forall|k: int| 0 <= k < views.len() implies self.runtimes()[self.runtime_ids()[k]].api_answers(
                #[trigger] views[k],
            ) by {
                self.lemma_runtime_at(k);
                assert(views[k] == parts@[k]@);
            }
        }
        api
    }

    /// The identifiers of the registered runtimes in the order in which
    /// hooks and aggregations visit them.
    pub fn runtime_order(&self) -> (order: Vec<u32>)
        ensures
            order@ == self.runtime_ids(),
    {
        let mut order: Vec<u32> = Vec::new();
        let mut i: usize = 0;
        while i < self.runtimes.len()
            invariant
                i <= self.runtimes@.len(),
                order@ == self.runtime_ids().take(i as int),
            decreases self.runtimes@.len() - i,
        {
            order.push(self.runtimes[i].id);
            proof {
                assert(self.runtime_ids().take(i + 1) =~= self.runtime_ids().take(i as int).push(self.runtimes@[i as int].id));
            }
            i += 1;
        }
        proof {
            assert(self.runtime_ids().take(i as int) =~= self.runtime_ids());
        }
        order
    }

    /// The identifier of the runtime that owns `instance_id`, if the
    /// instance was started.
    pub fn runtime_for(&self, instance_id: u32) -> (res: Option<u32>)
        ensures
            res == self.route(instance_id),
    {
        match self.runtime_lookup.get(&instance_id) {
            Some(runtime_id) => Some(*runtime_id),
            None => None,
        }
    }
}

/// What `Dispatcher::start_deploy` leaves behind: `after` is the dispatcher
/// that answered `res` when it was asked, as `before`, to deploy `artifact`.
pub open spec fn deploy_started(
    before: Dispatcher,
    after: Dispatcher,
    artifact: ArtifactSpec,
    res: Result<(), DeployError>,
) -> bool {
    &&& after.wf()
    &&& !before.is_registered(artifact.runtime_id) ==> res == Err::<(), DeployError>(DeployError::WrongRuntime) && after
        == before
    &&& before.is_registered(artifact.runtime_id) ==> before.runtimes()[artifact.runtime_id].deploy_answers(
        artifact,
        res,
    )
    &&& after.runtime_ids() == before.runtime_ids()
    &&& same_except(before.runtimes(), after.runtimes(), artifact.runtime_id)
    &&& after.lookup() == before.lookup()
    &&& before.routes_resolve() ==> after.routes_resolve()
    &&& before.native(artifact.runtime_id) matches Some(runtime) ==> after.native(artifact.runtime_id) matches Some(
        deployed,
    ) && RustRuntime::deployed(runtime, deployed, artifact, res)
}

/// What `Dispatcher::init_service` leaves behind in the registry and in the
/// routing table: `after` is the dispatcher that answered `res` when it was
/// asked, as `before`, to start the service of `constructor` from `artifact`.
pub open spec fn service_initialized(
    before: Dispatcher,
    after: Dispatcher,
    artifact: ArtifactSpec,
    constructor: ServiceConstructor,
    res: Result<(), InitError>,
) -> bool {
    &&& after.wf()
    &&& !before.is_registered(artifact.runtime_id) ==> res == Err::<(), InitError>(InitError::WrongRuntime) && after
        == before
    &&& after.runtime_ids() == before.runtime_ids()
    &&& same_except(before.runtimes(), after.runtimes(), artifact.runtime_id)
    &&& after.lookup() == (if res is Ok {
        before.lookup().insert(constructor.instance_id, artifact.runtime_id)
    } else {
        before.lookup()
    })
    &&& before.routes_resolve() ==> after.routes_resolve()
}

/// Whether the runtime `runtime` may answer the request to start, in the
/// context `given`, the service of `constructor` from `artifact` with `res`,
/// leave the context as `left` and be `started` afterwards. For the native
/// runtime the answer and what it leaves behind are as
/// `RustRuntime::initialized` says.
pub open spec fn answered_start(
    runtime: RuntimeInstance,
    started: RuntimeInstance,
    given: ContextView,
    left: ContextView,
    artifact: ArtifactSpec,
    constructor: ServiceConstructor,
    res: Result<(), InitError>,
) -> bool {
    &&& runtime.init_answers(given, artifact, constructor, left, res)
    &&& runtime.native() matches Some(before) ==> started.native() matches Some(after) && RustRuntime::initialized(
        before,
        after,
        given,
        left,
        artifact,
        constructor,
        res,
    )
}

/// What `Dispatcher::init_service` leaves behind, the context included:
/// `after` is the dispatcher and `last` the context that came of the request
/// to start, in the dispatcher `before` and the context `first`, the service
/// of `constructor` from `artifact`; `res` is the answer.
///
/// The routing is as `service_initialized` says. The runtime of the
/// artifact gets the context without the actions that wait, and answers.
/// Afterwards the actions wait as before; what the runtime has left in their
/// place is dropped, and all else in the context is as the runtime has left
/// it.
pub open spec fn service_started(
    before: Dispatcher,
    after: Dispatcher,
    first: ContextView,
    last: ContextView,
    artifact: ArtifactSpec,
    constructor: ServiceConstructor,
    res: Result<(), InitError>,
) -> bool {
    &&& service_initialized(before, after, artifact, constructor, res)
    &&& if before.is_registered(artifact.runtime_id) {
        exists|left: ContextView|
            (#[trigger] answered_start(
                before.runtimes()[artifact.runtime_id],
                after.runtimes()[artifact.runtime_id],
                first.without_actions(),
                left,
                artifact,
                constructor,
                res,
            )) && last == left.with_actions(first.actions)
    } else {
        last == first
    }
}

/// A service that was started with success is routed to the runtime of its
/// artifact, and that runtime is registered: a call to the instance is not
/// turned away by the dispatcher. The routes of all other instances are as
/// they were.
pub proof fn lemma_started_service_is_routed(
    before: Dispatcher,
    after: Dispatcher,
    artifact: ArtifactSpec,
    constructor: ServiceConstructor,
)
    requires
        before.wf(),
        service_initialized(before, after, artifact, constructor, Ok(())),
    ensures
        after.route(constructor.instance_id) == Some(artifact.runtime_id),
        after.is_registered(artifact.runtime_id),
        after.resolves(constructor.instance_id),
        forall|other: u32| other != constructor.instance_id ==> after.route(other) == before.route(other),
{
    assert(before.is_registered(artifact.runtime_id));
    assert(after.runtimes().dom().contains(artifact.runtime_id));
}

/// A call to a service that was started with success is handed to the
/// runtime of the service's artifact and finished with that runtime's answer.
pub proof fn lemma_call_reaches_the_runtime_of_the_artifact(
    before: Dispatcher,
    started: Dispatcher,
    after: Dispatcher,
    artifact: ArtifactSpec,
    constructor: ServiceConstructor,
    first: ContextView,
    last: ContextView,
    call_info: CallInfo,
    payload: Seq<u8>,
    res: Result<(), ExecutionError>,
)
    requires
        before.wf(),
        service_initialized(before, started, artifact, constructor, Ok(())),
        call_info.instance_id == constructor.instance_id,
        call_routed(started, after, first, last, call_info, payload, res),
    ensures
        exists|answer: Result<(), ExecutionError>, left: ContextView|
            {
                &&& started.runtimes()[artifact.runtime_id].execute_answers(first, call_info, payload, left, answer)
                &&& #[trigger] call_finished(started, after, left, last, answer, res)
            },
{
    lemma_started_service_is_routed(before, started, artifact, constructor);
}

/// A call to an instance that was never started fails with the
/// wrong-runtime error, whatever the runtimes are, and changes nothing.
pub proof fn lemma_call_to_unknown_instance_fails(
    before: Dispatcher,
    after: Dispatcher,
    first: ContextView,
    last: ContextView,
    call_info: CallInfo,
    payload: Seq<u8>,
    res: Result<(), ExecutionError>,
)
    requires
        before.route(call_info.instance_id) is None,
        call_routed(before, after, first, last, call_info, payload, res),
    ensures
        res matches Err(error) && error.is_wrong_runtime(),
        after == before,
        last == first,
{
}

/// A call that the runtime answers with success and that leaves no action
/// in the context succeeds and leaves the dispatcher as it was.
pub proof fn lemma_call_without_actions_succeeds(
    before: Dispatcher,
    after: Dispatcher,
    left: ContextView,
    last: ContextView,
    res: Result<(), ExecutionError>,
)
    requires
        left.actions.len() == 0,
        call_finished(before, after, left, last, Ok(()), res),
    ensures
        res == Ok::<(), ExecutionError>(()),
        after == before,
        last == left,
{
    let applied = choose|applied: Result<(), FailedAction>|
        (#[trigger] actions_applied(before, after, left.without_actions(), last, left.actions, applied)) && res
            == queue_outcome(applied);
    let (states, contexts) = choose|states: Seq<Dispatcher>, contexts: Seq<ContextView>| #[trigger]
        applied_in_order(states, contexts, before, after, left.without_actions(), last, left.actions, applied);
    assert(applied is Ok);
    assert(states[0] == after);
    assert(contexts[0] == last);
    assert(left.actions =~= Seq::<Action>::empty());
    assert(left.without_actions() == left);
}

/// A call whose runtime succeeds ends with success exactly when every
/// action that waited was applied with success, and else with the error of
/// the first action that failed.
pub proof fn lemma_call_succeeds_with_its_actions(
    before: Dispatcher,
    after: Dispatcher,
    left: ContextView,
    last: ContextView,
    applied: Result<(), FailedAction>,
    res: Result<(), ExecutionError>,
)
    requires
        actions_applied(before, after, left.without_actions(), last, left.actions, applied),
        res == queue_outcome(applied),
    ensures
        call_finished(before, after, left, last, Ok(()), res),
        res is Ok <==> applied is Ok,
        applied matches Err(failed) ==> res == Err::<(), ExecutionError>(failed.error) && failed.index
            < left.actions.len() && after.lookup() == lookup_after(
            before.lookup(),
            left.actions,
            failed.index as nat,
        ),
        applied is Ok ==> after.lookup() == lookup_after(before.lookup(), left.actions, left.actions.len()),
{
}

/// What one action leaves behind, seen from the dispatcher as a whole: the
/// registry keeps its identifiers and every runtime but the one that the
/// action names, and the routing table gains the action's effect when the
/// action succeeds and stays as it was when it fails.
pub proof fn lemma_action_applied_summary(
    before: Dispatcher,
    after: Dispatcher,
    first: ContextView,
    last: ContextView,
    action: Action,
    res: Result<(), ExecutionError>,
)
    requires
        action_applied(before, after, first, last, action, res),
    ensures
        after.wf(),
        after.runtime_ids() == before.runtime_ids(),
        same_except(before.runtimes(), after.runtimes(), action.runtime_id()),
        after.lookup() == (if res is Ok {
            action.lookup_effect(before.lookup())
        } else {
            before.lookup()
        }),
        before.routes_resolve() ==> after.routes_resolve(),
        !before.is_registered(action.runtime_id()) ==> (res matches Err(error) && error.is_wrong_runtime()) && after
            == before,
        res is Ok ==> before.is_registered(action.runtime_id()),
        last.actions == first.actions,
        action is StartDeploy || !before.is_registered(action.runtime_id()) ==> last == first,
{
    match action {
        Action::StartDeploy { artifact } => {
            let answer = choose|answer: Result<(), DeployError>|
                (#[trigger] deploy_started(before, after, artifact, answer)) && deploy_recorded(answer, res);
            assert(deploy_started(before, after, artifact, answer));
        },
        Action::InitService { artifact, constructor } => {
            let answer = choose|answer: Result<(), InitError>|
                (#[trigger] service_started(before, after, first, last, artifact, constructor, answer))
                    && init_recorded(answer, res);
            assert(service_initialized(before, after, artifact, constructor, answer));
        },
    }
}

/// A service whose start failed leaves every route as it was.
pub proof fn lemma_failed_start_leaves_routes(
    before: Dispatcher,
    after: Dispatcher,
    artifact: ArtifactSpec,
    constructor: ServiceConstructor,
    error: InitError,
)
    requires
        before.wf(),
        service_initialized(before, after, artifact, constructor, Err(error)),
    ensures
        forall|instance_id: u32| after.route(instance_id) == before.route(instance_id),
{
}

/// Applying one action more adds the effect of that action to the effect
/// of the actions before it: the actions take effect in their order.
pub proof fn lemma_actions_take_effect_in_order(lookup: Map<u32, u32>, actions: Seq<Action>, n: nat)
    requires
        n < actions.len(),
    ensures
        lookup_after(lookup, actions, n + 1) == actions[n as int].lookup_effect(lookup_after(lookup, actions, n)),
        lookup_after(lookup, actions, 0) == lookup,
{
}

/// Which actions come behind the first `n` has no part in what the first
/// `n` leave behind: an action that fails, and the actions behind it, leave
/// the effects of the actions before it as they are.
pub proof fn lemma_later_actions_have_no_effect(
    lookup: Map<u32, u32>,
    actions: Seq<Action>,
    others: Seq<Action>,
    n: nat,
)
    requires
        n <= actions.len(),
        n <= others.len(),
        actions.take(n as int) == others.take(n as int),
    ensures
        lookup_after(lookup, actions, n) == lookup_after(lookup, others, n),
    decreases n,
{
    if n > 0 {
        assert(actions.take(n as int)[n - 1] == actions[n - 1]);
        assert(others.take(n as int)[n - 1] == others[n - 1]);
        assert(actions.take((n - 1) as int) =~= actions.take(n as int).take((n - 1) as int));
        assert(others.take((n - 1) as int) =~= others.take(n as int).take((n - 1) as int));
        lemma_later_actions_have_no_effect(lookup, actions, others, (n - 1) as nat);
    }
}

/// A service that one of the first `n` actions started is routed after
/// these actions, and it is routed to the runtime of that action's artifact
/// unless a later one of them started a service under the same identifier.
pub proof fn lemma_applied_start_is_routed(lookup: Map<u32, u32>, actions: Seq<Action>, n: nat, i: int)
    requires
        0 <= i < n <= actions.len(),
        actions[i] is InitService,
    ensures
        lookup_after(lookup, actions, n).contains_key(actions[i]->InitService_constructor.instance_id),
        (forall|j: int|
            i < j < n && actions[j] is InitService ==> (#[trigger] actions[j])->InitService_constructor.instance_id
                != actions[i]->InitService_constructor.instance_id) ==> lookup_after(lookup, actions, n)[actions[i]->InitService_constructor.instance_id]
            == actions[i].runtime_id(),
    decreases n,
{
    if i < n - 1 {
        lemma_applied_start_is_routed(lookup, actions, (n - 1) as nat, i);
    }
}

/// Builds a dispatcher in two phases: first runtimes, service factories and
/// built-in services are collected, then `finalize` registers the native
/// runtime and hands out the dispatcher.
pub struct DispatcherBuilder {
    builtin_runtime: RustRuntime,
    dispatcher: Dispatcher,
}

impl DispatcherBuilder {
    /// The dispatcher as it is built so far. The native runtime is not yet
    /// in its registry.
    pub closed spec fn dispatcher(&self) -> Dispatcher {
        self.dispatcher
    }

    /// The native runtime as it is built so far.
    pub closed spec fn builtin_runtime(&self) -> RustRuntime {
        self.builtin_runtime
    }

    /// Every service instance of the routing table is owned by a registered
    /// runtime or by the native runtime, which `finalize` registers.
    pub open spec fn wf(&self) -> bool {
        &&& self.dispatcher().wf()
        &&& forall|instance_id: u32| #[trigger]
            self.dispatcher().lookup().contains_key(instance_id) ==> self.dispatcher().is_registered(
                self.dispatcher().lookup()[instance_id],
            ) || self.dispatcher().lookup()[instance_id] == RustRuntime::ID
    }

    /// A builder without runtimes, factories and services.
    pub fn new(requests: Sender<InternalRequest>) -> (builder: DispatcherBuilder)
        ensures
            builder.wf(),
            builder.dispatcher().runtime_ids() == Seq::<u32>::empty(),
            builder.dispatcher().runtimes() == Map::<u32, RuntimeInstance>::empty(),
            builder.dispatcher().lookup() == Map::<u32, u32>::empty(),
            builder.builtin_runtime().artifacts() == Seq::<Seq<u8>>::empty(),
            builder.builtin_runtime().deployed_artifacts() == Seq::<Seq<u8>>::empty(),
            builder.builtin_runtime().instance_ids() == Seq::<u32>::empty(),
    {
        DispatcherBuilder { dispatcher: Dispatcher::new(requests), builtin_runtime: RustRuntime::new() }
    }

    /// Adds a service that is part of the node from the first block on.
    /// The native runtime holds its instance and the dispatcher routes the
    /// instance to the native runtime. The service's constructor is not run.
    pub fn with_builtin_service(self, service: BuiltinService) -> (builder: DispatcherBuilder)
        requires
            self.wf(),
        ensures
            builder.wf(),
            builder.dispatcher().lookup() == self.dispatcher().lookup().insert(service.instance_id, RustRuntime::ID),
            builder.dispatcher().runtime_ids() == self.dispatcher().runtime_ids(),
            builder.dispatcher().runtimes() == self.dispatcher().runtimes(),
            builder.builtin_runtime().has_instance(service.instance_id),
            builder.builtin_runtime().instance_ids() == (if self.builtin_runtime().has_instance(
                service.instance_id,
            ) {
                self.builtin_runtime().instance_ids()
            } else {
                self.builtin_runtime().instance_ids().push(service.instance_id)
            }),
    {
        let mut builder = self;
        let instance_id: u32 = service.instance_id;
        let artifact = builder.builtin_runtime.add_builtin_service(service);
        builder.dispatcher.notify_service_started(instance_id, artifact);
        builder
    }

    /// Adds a service factory to the native runtime.
    pub fn with_service_factory(self, service_factory: BoxedFactory) -> (builder: DispatcherBuilder)
        requires
            self.wf(),
        ensures
            builder.wf(),
            builder.dispatcher() == self.dispatcher(),
            gained_factory(self.builtin_runtime(), builder.builtin_runtime(), service_factory),
            builder.builtin_runtime().deployed_artifacts() == self.builtin_runtime().deployed_artifacts(),
            builder.builtin_runtime().instance_ids() == self.builtin_runtime().instance_ids(),
    {
        let mut builder = self;
        builder.builtin_runtime.add_service_factory(service_factory);
        builder
    }

    /// Adds the given service factories to the native runtime, in their
    /// order.
    pub fn with_service_factories(self, service_factories: Vec<BoxedFactory>) -> (builder: DispatcherBuilder)
        requires
            self.wf(),
        ensures
            builder.wf(),
            builder.dispatcher() == self.dispatcher(),
            gained_factories(
                self.builtin_runtime(),
                builder.builtin_runtime(),
                service_factories@,
                service_factories@.len(),
            ),
            builder.builtin_runtime().deployed_artifacts() == self.builtin_runtime().deployed_artifacts(),
            builder.builtin_runtime().instance_ids() == self.builtin_runtime().instance_ids(),
    {
        let mut builder = self;
        let ghost all = service_factories@;
        let count: usize = service_factories.len();
        let mut index: usize = 0;
        for factory in iter: service_factories
            invariant
                index == iter.index(),
                iter.seq().len() == count,
                builder.wf(),
                builder.dispatcher() == self.dispatcher(),
                gained_factories(self.builtin_runtime(), builder.builtin_runtime(), all, index as nat),
                iter.seq() == all,
                builder.builtin_runtime().deployed_artifacts() == self.builtin_runtime().deployed_artifacts(),
                builder.builtin_runtime().instance_ids() == self.builtin_runtime().instance_ids(),
        {
            let ghost before = builder.builtin_runtime;
            builder.builtin_runtime.add_service_factory(factory);
            proof {
                lemma_gains_one_more(self.builtin_runtime(), before, builder.builtin_runtime(), all, index as nat);
            }
            index += 1;
        }
        builder
    }

    /// Registers a runtime besides the native one.
    pub fn with_runtime(self, id: u32, runtime: RuntimeInstance) -> (builder: DispatcherBuilder)
        requires
            self.wf(),
        ensures
            builder.wf(),
            builder.dispatcher().runtime_ids() == registered_ids(self.dispatcher().runtime_ids(), id),
            builder.dispatcher().runtimes() == self.dispatcher().runtimes().insert(id, runtime),
            builder.dispatcher().lookup() == self.dispatcher().lookup(),
            builder.builtin_runtime() == self.builtin_runtime(),
    {
        let mut builder = self;
        builder.dispatcher.add_runtime(id, runtime);
        builder
    }

    /// Registers the native runtime under its identifier and hands out the
    /// dispatcher. A runtime that was registered under that identifier
    /// before is replaced.
    pub fn finalize(self) -> (dispatcher: Dispatcher)
        requires
            self.wf(),
        ensures
            dispatcher.wf(),
            dispatcher.routes_resolve(),
            dispatcher.is_registered(RustRuntime::ID),
            dispatcher.runtime_ids() == registered_ids(self.dispatcher().runtime_ids(), RustRuntime::ID),
            dispatcher.runtimes() == self.dispatcher().runtimes().insert(
                RustRuntime::ID,
                RuntimeInstance::Rust(self.builtin_runtime()),
            ),
            dispatcher.lookup() == self.dispatcher().lookup(),
    {
        let mut dispatcher = self.dispatcher;
        dispatcher.add_runtime(RustRuntime::ID, RuntimeInstance::Rust(self.builtin_runtime));
        dispatcher
    }
}

} // verus!
