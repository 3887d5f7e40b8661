//! The native runtime: services that are linked into the node.
//!
//! A service factory names an artifact and makes instances of its service.
//! The runtime deploys an artifact when a factory for it is at hand, starts
//! instances from deployed artifacts and hands calls to the instance they
//! are addressed to.

use vstd::prelude::*;
use crate::api::ServiceApiBuilder;
use crate::bytes::{copy_bytes, same_bytes};
use crate::messages::CallInfo;
use crate::storage::{Fork, Snapshot};
use super::error::{DeployError, ExecutionError, InitError};
use super::{ArtifactSpec, ContextView, DeployStatus, Runtime, RuntimeContext, ServiceConstructor};

verus! {

/// Code of the error reported for a call to an instance that the native
/// runtime has not started.
pub const UNKNOWN_INSTANCE: u8 = 4;

/// The code of a service: its constructor, its methods and its hooks.
///
/// What a service does is its own matter. Each of its entry points comes
/// with a relation that says which answers are the service's; the native
/// runtime's contracts hand these relations on. A service that says nothing
/// of itself leaves them as they are: every answer is then one of its
/// answers.
pub trait Service {
    /// Whether the constructor of this service, run in the context `before`
    /// with the arguments `data`, may answer `res` and leave the context as
    /// `after`.
    open spec fn initialize_answers(
        &self,
        before: ContextView,
        data: Seq<u8>,
        after: ContextView,
        res: Result<(), ExecutionError>,
    ) -> bool {
        true
    }

    /// Whether the method `method_id` of this service, run in the context
    /// `before` with `payload`, may answer `res` and leave the context as
    /// `after`.
    open spec fn call_answers(
        &self,
        before: ContextView,
        method_id: u16,
        payload: Seq<u8>,
        after: ContextView,
        res: Result<(), ExecutionError>,
    ) -> bool {
        true
    }

    /// Whether `hashes` are content hashes that this service gives for
    /// `snapshot`.
    open spec fn hashes_answer(&self, snapshot: Snapshot, hashes: Seq<crate::crypto::Hash>) -> bool {
        true
    }

    /// Whether this service's hook before a commit turns the fork `before`
    /// into the fork `after`.
    open spec fn commit_answers(&self, before: Fork, after: Fork) -> bool {
        true
    }

    /// Whether this service turns the builder `before` into the builder
    /// `after` when it declares its endpoints.
    open spec fn api_answers(&self, before: ServiceApiBuilder, after: ServiceApiBuilder) -> bool {
        true
    }

    /// Runs the constructor with the given arguments.
    fn initialize(&mut self, context: &mut RuntimeContext, data: &[u8]) -> (res: Result<(), ExecutionError>)
        ensures
            old(self).initialize_answers(old(context)@, data@, final(context)@, res),
    ;

    /// Runs the method `method_id` with the given payload.
    fn call(&self, context: &mut RuntimeContext, method_id: u16, payload: &[u8]) -> (res: Result<
        (),
        ExecutionError,
    >)
        ensures
            self.call_answers(old(context)@, method_id, payload@, final(context)@, res),
    ;

    /// Content hashes of the service's state.
    fn state_hashes(&self, snapshot: &Snapshot) -> (hashes: Vec<crate::crypto::Hash>)
        ensures
            self.hashes_answer(*snapshot, hashes@),
    ;

    /// Called once per block before the block is committed.
    fn before_commit(&self, fork: &mut Fork)
        ensures
            self.commit_answers(*old(fork), *final(fork)),
    ;

    /// Called once per block after the block was committed.
    fn after_commit(&self, fork: &Fork) {
    }

    /// Declares the endpoints of the service.
    fn wire_api(&self, builder: &mut ServiceApiBuilder)
        ensures
            self.api_answers(*old(builder), *final(builder)),
    ;
}

/// A service of any kind, as the runtime holds it.
pub struct BoxedService {
    pub inner: Box<dyn Service>,
}

/// Makes instances of one service.
///
/// As with a service, what a factory answers is its own matter, and each of
/// its two entry points comes with a relation that says which answers are
/// the factory's.
pub trait ServiceFactory {
    /// Whether `artifact` is the artifact that this factory answers for.
    open spec fn names(&self, artifact: Seq<u8>) -> bool {
        true
    }

    /// Whether `service` is an instance that this factory makes.
    open spec fn makes(&self, service: BoxedService) -> bool {
        true
    }

    /// The artifact that this factory answers for, in the native runtime's
    /// encoding.
    fn artifact(&self) -> (artifact: Vec<u8>)
        ensures
            self.names(artifact@),
    ;

    /// A fresh instance of the service.
    fn new_instance(&self) -> (service: BoxedService)
        ensures
            self.makes(service),
    ;
}

/// A service factory of any kind, as the runtime holds it.
pub struct BoxedFactory {
    pub inner: Box<dyn ServiceFactory>,
}

/// A service that is part of the node from the first block on.
pub struct BuiltinService {
    /// Makes the instance.
    pub factory: BoxedFactory,
    /// Identifier that the instance answers to.
    pub instance_id: u32,
    /// Name under which the instance's API is served.
    pub instance_name: String,
}

/// A factory with the artifact it answers for.
pub struct FactoryEntry {
    pub artifact: Vec<u8>,
    pub factory: BoxedFactory,
}

/// A started service instance.
pub struct InstanceEntry {
    pub id: u32,
    pub name: String,
    pub service: BoxedService,
}

/// The artifacts of the given entries, in their order.
pub open spec fn entry_artifacts(entries: Seq<FactoryEntry>) -> Seq<Seq<u8>> {
    entries.map_values(|entry: FactoryEntry| entry.artifact@)
}

/// The given byte strings as sequences, in their order.
pub open spec fn byte_views(strings: Seq<Vec<u8>>) -> Seq<Seq<u8>> {
    strings.map_values(|bytes: Vec<u8>| bytes@)
}

/// The names of the given instances, in their order.
pub open spec fn entry_names(entries: Seq<InstanceEntry>) -> Seq<Seq<char>> {
    entries.map_values(|entry: InstanceEntry| entry.name@)
}

/// The identifiers of the given instances, in their order.
pub open spec fn entry_instances(entries: Seq<InstanceEntry>) -> Seq<u32> {
    entries.map_values(|entry: InstanceEntry| entry.id)
}

/// The factories of the given entries, in their order.
pub open spec fn entry_factories(entries: Seq<FactoryEntry>) -> Seq<BoxedFactory> {
    entries.map_values(|entry: FactoryEntry| entry.factory)
}

/// The services of the given instances, in their order.
pub open spec fn entry_services(entries: Seq<InstanceEntry>) -> Seq<BoxedService> {
    entries.map_values(|entry: InstanceEntry| entry.service)
}

/// Whether `i` is the first place at which `item` stands in `items`.
pub open spec fn is_first_index<T>(items: Seq<T>, item: T, i: int) -> bool {
    &&& 0 <= i < items.len()
    &&& items[i] == item
    &&& forall|j: int| 0 <= j < i ==> items[j] != item
}

/// The first place at which `item` stands in `items`.
pub open spec fn first_index<T>(items: Seq<T>, item: T) -> int {
    choose|i: int| is_first_index(items, item, i)
}

/// An item that stands in a sequence has a first place there.
pub proof fn lemma_first_index_exists<T>(items: Seq<T>, item: T, i: int)
    requires
        0 <= i < items.len(),
        items[i] == item,
    ensures
        is_first_index(items, item, first_index(items, item)),
        first_index(items, item) <= i,
    decreases i,
{
    if exists|j: int| 0 <= j < i && items[j] == item {
        let j = choose|j: int| 0 <= j < i && items[j] == item;
        lemma_first_index_exists(items, item, j);
    } else {
        assert(is_first_index(items, item, i));
        lemma_first_index(items, item, i);
    }
}

/// There is one first place at most.
pub proof fn lemma_first_index<T>(items: Seq<T>, item: T, i: int)
    requires
        is_first_index(items, item, i),
    ensures
        first_index(items, item) == i,
{
    let k = first_index(items, item);
    assert(is_first_index(items, item, k));
    if k < i {
        assert(items[k] != item);
    }
    if i < k {
        assert(items[i] != item);
    }
}

/// A builder that holds no endpoint.
pub open spec fn is_empty_builder(builder: ServiceApiBuilder) -> bool {
    builder.public_scope.declared().len() == 0 && builder.private_scope.declared().len() == 0
}

/// Whether `builder` is what `service` makes of a builder without
/// endpoints when it declares its own.
pub open spec fn wired_by(service: BoxedService, builder: ServiceApiBuilder) -> bool {
    exists|fresh: ServiceApiBuilder| is_empty_builder(fresh) && #[trigger] service.inner.api_answers(fresh, builder)
}

/// Whether `after` is `before` with `factory` added under the artifact that
/// the factory names: a factory for an artifact that `before` had none for
/// comes behind the others, a factory for a known artifact takes the place of
/// the one before. The factories of the other artifacts, the deployed
/// artifacts and the instances are as they were.
pub open spec fn gained_factory(before: RustRuntime, after: RustRuntime, factory: BoxedFactory) -> bool {
    exists|artifact: Seq<u8>| #[trigger] added_for(before, after, artifact, factory) && factory.inner.names(artifact)
}

/// Whether `after` is `before` with `factory` added under `artifact`.
pub open spec fn added_for(before: RustRuntime, after: RustRuntime, artifact: Seq<u8>, factory: BoxedFactory) -> bool {
    &&& after.knows(artifact)
    &&& after.factory_of(artifact) == factory
    &&& after.artifacts() == (if before.knows(artifact) {
        before.artifacts()
    } else {
        before.artifacts().push(artifact)
    })
    &&& forall|other: Seq<u8>|
        other != artifact && before.knows(other) ==> #[trigger] after.factory_of(other) == before.factory_of(other)
    &&& after.deployed_artifacts() == before.deployed_artifacts()
    &&& after.instance_ids() == before.instance_ids()
    &&& after.instance_names() == before.instance_names()
    &&& after.services() == before.services()
}

/// Whether `after` is `before` with the first `n` of `factories` added, one
/// after the other.
pub open spec fn gained_factories(
    before: RustRuntime,
    after: RustRuntime,
    factories: Seq<BoxedFactory>,
    n: nat,
) -> bool
    decreases n,
{
    if n == 0 {
        after == before
    } else {
        exists|between: RustRuntime|
            gained_factories(before, between, factories, (n - 1) as nat) && #[trigger] gained_factory(
                between,
                after,
                factories[n - 1],
            )
    }
}

/// A runtime that gains one factory more has gained one more.
pub proof fn lemma_gains_one_more(
    before: RustRuntime,
    between: RustRuntime,
    after: RustRuntime,
    factories: Seq<BoxedFactory>,
    n: nat,
)
    requires
        gained_factories(before, between, factories, n),
        gained_factory(between, after, factories[n as int]),
    ensures
        gained_factories(before, after, factories, n + 1),
{
    assert(gained_factories(before, between, factories, ((n + 1) - 1) as nat) && gained_factory(
        between,
        after,
        factories[(n + 1) - 1],
    ));
}

/// The answer to a request to start a service whose constructor has
/// answered `outcome`: success for success, and for a failure the failure of
/// the constructor.
pub open spec fn start_outcome(outcome: Result<(), ExecutionError>) -> Result<(), InitError> {
    match outcome {
        Ok(_) => Ok(()),
        Err(error) => Err(InitError::ExecutionError(error)),
    }
}

/// Whether `service` is an instance that `factory` makes and whose
/// constructor, run in the context `first` with the arguments `data`, may
/// answer `outcome` and leave the context as `last`.
pub open spec fn constructed(
    factory: BoxedFactory,
    service: BoxedService,
    first: ContextView,
    data: Seq<u8>,
    last: ContextView,
    outcome: Result<(), ExecutionError>,
) -> bool {
    factory.inner.makes(service) && service.inner.initialize_answers(first, data, last, outcome)
}

/// The native runtime.
pub struct RustRuntime {
    factories: Vec<FactoryEntry>,
    deployed: Vec<Vec<u8>>,
    instances: Vec<InstanceEntry>,
}

impl RustRuntime {
    /// Identifier under which the native runtime is registered. It is the
    /// last of all identifiers, so that those counted up from zero stay free
    /// for other runtimes.
    pub const ID: u32 = 0xffff_ffff;

    /// The artifacts that a factory is at hand for, in the order in which
    /// the factories were added.
    pub closed spec fn artifacts(&self) -> Seq<Seq<u8>> {
        entry_artifacts(self.factories@)
    }

    /// Whether a factory is at hand for `artifact`.
    pub open spec fn knows(&self, artifact: Seq<u8>) -> bool {
        self.artifacts().contains(artifact)
    }

    /// The deployed artifacts, in the order in which they were deployed.
    pub closed spec fn deployed_artifacts(&self) -> Seq<Seq<u8>> {
        byte_views(self.deployed@)
    }

    /// Whether `artifact` is deployed.
    pub open spec fn is_deployed(&self, artifact: Seq<u8>) -> bool {
        self.deployed_artifacts().contains(artifact)
    }

    /// Names of the started instances, in the order in which they were
    /// started.
    pub closed spec fn instance_names(&self) -> Seq<Seq<char>> {
        entry_names(self.instances@)
    }

    /// Identifiers of the started instances, in the order in which they
    /// were started.
    pub closed spec fn instance_ids(&self) -> Seq<u32> {
        entry_instances(self.instances@)
    }

    /// The factories, in the order in which they were added.
    pub closed spec fn factories(&self) -> Seq<BoxedFactory> {
        entry_factories(self.factories@)
    }

    /// The factory that answers for `artifact`: that of the first entry
    /// with this artifact.
    pub open spec fn factory_of(&self, artifact: Seq<u8>) -> BoxedFactory {
        self.factories()[first_index(self.artifacts(), artifact)]
    }

    /// The services of the started instances, in the order in which the
    /// instances were started.
    pub closed spec fn services(&self) -> Seq<BoxedService> {
        entry_services(self.instances@)
    }

    /// The service that answers for the instance `instance_id`: that of the
    /// first instance with this identifier.
    pub open spec fn service_of(&self, instance_id: u32) -> BoxedService {
        self.services()[first_index(self.instance_ids(), instance_id)]
    }

    /// Every instance has its service.
    pub proof fn lemma_one_service_per_instance(&self)
        ensures
            self.services().len() == self.instance_ids().len(),
            self.instance_names().len() == self.instance_ids().len(),
    {
    }

    /// Whether the instance `instance_id` was started.
    pub open spec fn has_instance(&self, instance_id: u32) -> bool {
        self.instance_ids().contains(instance_id)
    }

    /// What the runtime answers when it is asked to deploy `artifact`: an
    /// artifact of another runtime is turned away, an artifact without a
    /// factory is not known, every other artifact is deployed.
    pub open spec fn deploy_answer(&self, artifact: ArtifactSpec) -> Result<(), DeployError> {
        if artifact.runtime_id != Self::ID {
            Err(DeployError::WrongRuntime)
        } else if !self.knows(artifact.raw_spec@) {
            Err(DeployError::WrongArtifact)
        } else {
            Ok(())
        }
    }

    /// What `start_deploy` leaves behind: `after` is the runtime that
    /// answered `res` when it was asked, as `before`, to deploy `artifact`.
    /// A failure changes nothing. Success adds the artifact to the deployed
    /// ones unless it is among them.
    pub open spec fn deployed(before: RustRuntime, after: RustRuntime, artifact: ArtifactSpec, res: Result<
        (),
        DeployError,
    >) -> bool {
        &&& res == before.deploy_answer(artifact)
        &&& res is Err ==> after == before
        &&& res is Ok ==> after.is_deployed(artifact.raw_spec@)
        &&& after.deployed_artifacts() == (if res is Ok && !before.is_deployed(artifact.raw_spec@) {
            before.deployed_artifacts().push(artifact.raw_spec@)
        } else {
            before.deployed_artifacts()
        })
        &&& after.artifacts() == before.artifacts()
        &&& after.factories() == before.factories()
        &&& after.instance_ids() == before.instance_ids()
        &&& after.services() == before.services()
    }

    /// What the runtime answers when it is asked for the state of
    /// `artifact`.
    pub open spec fn status_answer(&self, artifact: ArtifactSpec) -> Result<DeployStatus, DeployError> {
        if artifact.runtime_id != Self::ID {
            Err(DeployError::WrongRuntime)
        } else if !self.knows(artifact.raw_spec@) {
            Err(DeployError::WrongArtifact)
        } else if self.is_deployed(artifact.raw_spec@) {
            Ok(DeployStatus::Deployed)
        } else {
            Err(DeployError::FailedToDeploy)
        }
    }

    /// Whether the runtime starts a service of `constructor` from
    /// `artifact` as far as it is up to the runtime: the artifact is its
    /// own and deployed, and the identifier is free. The service's
    /// constructor has the last word.
    pub open spec fn can_start(&self, artifact: ArtifactSpec, constructor: ServiceConstructor) -> bool {
        &&& artifact.runtime_id == Self::ID
        &&& self.knows(artifact.raw_spec@)
        &&& self.is_deployed(artifact.raw_spec@)
        &&& !self.has_instance(constructor.instance_id)
    }

    /// The failure with which the runtime turns a start away before the
    /// service's constructor is run.
    pub open spec fn start_refusal(&self, artifact: ArtifactSpec, constructor: ServiceConstructor) -> InitError {
        if artifact.runtime_id != Self::ID {
            InitError::WrongRuntime
        } else if !(self.knows(artifact.raw_spec@) && self.is_deployed(artifact.raw_spec@)) {
            InitError::NotDeployed
        } else {
            InitError::ServiceIdExists
        }
    }

    /// Whether `res` is an answer of the runtime to the request to start,
    /// in the context `first`, the service of `constructor` from `artifact`,
    /// with the context left as `last`. A start that the runtime turns away
    /// fails with the refusal and leaves the context. Every other start makes
    /// an instance with the factory of the artifact and runs its constructor
    /// in the context with the constructor's arguments: the answer is success
    /// when the constructor succeeds, and else the constructor's failure.
    pub open spec fn init_answers_in(
        &self,
        first: ContextView,
        last: ContextView,
        artifact: ArtifactSpec,
        constructor: ServiceConstructor,
        res: Result<(), InitError>,
    ) -> bool {
        if self.can_start(artifact, constructor) {
            exists|service: BoxedService, outcome: Result<(), ExecutionError>| #[trigger]
                constructed(self.factory_of(artifact.raw_spec@), service, first, constructor.data@, last, outcome)
                    && res == start_outcome(outcome)
        } else {
            res == Err::<(), InitError>(self.start_refusal(artifact, constructor)) && last == first
        }
    }

    /// What `init_service` leaves behind: `after` is the runtime that
    /// answered `res` when it was asked, as `before` and in the context
    /// `first`, to start the service of `constructor` from `artifact`, and
    /// `last` is the context as it was left. A start that the runtime turns away
    /// fails with the refusal. Otherwise it succeeds unless the service's
    /// constructor fails. A failure changes nothing. Success adds the
    /// instance behind the others.
    pub open spec fn initialized(
        before: RustRuntime,
        after: RustRuntime,
        first: ContextView,
        last: ContextView,
        artifact: ArtifactSpec,
        constructor: ServiceConstructor,
        res: Result<(), InitError>,
    ) -> bool {
        &&& before.init_answers_in(first, last, artifact, constructor, res)
        &&& !before.can_start(artifact, constructor) ==> res == Err::<(), InitError>(
            before.start_refusal(artifact, constructor),
        )
        &&& before.can_start(artifact, constructor) ==> (res is Ok || (res matches Err(error) && error is ExecutionError))
        &&& res is Err ==> after == before
        &&& res is Ok ==> {
            &&& after.instance_ids() == before.instance_ids().push(constructor.instance_id)
            &&& after.services().len() == before.services().len() + 1
            &&& after.services().take(before.services().len() as int) == before.services()
        }
        &&& after.artifacts() == before.artifacts()
        &&& after.factories() == before.factories()
        &&& after.deployed_artifacts() == before.deployed_artifacts()
    }

    /// Whether `error` is the failure of a call to an instance that was not
    /// started.
    pub open spec fn is_unknown_instance(error: ExecutionError) -> bool {
        error.is(UNKNOWN_INSTANCE, "Unknown service instance"@)
    }

    /// A runtime without factories, deployed artifacts and instances.
    pub fn new() -> (runtime: RustRuntime)
        ensures
            runtime.artifacts() == Seq::<Seq<u8>>::empty(),
            runtime.deployed_artifacts() == Seq::<Seq<u8>>::empty(),
            runtime.instance_ids() == Seq::<u32>::empty(),
            runtime.instance_names() == Seq::<Seq<char>>::empty(),
    {
        let runtime = RustRuntime { factories: Vec::new(), deployed: Vec::new(), instances: Vec::new() };
        assert(runtime.artifacts() =~= Seq::<Seq<u8>>::empty());
        assert(runtime.deployed_artifacts() =~= Seq::<Seq<u8>>::empty());
        assert(runtime.instance_ids() =~= Seq::<u32>::empty());
        assert(runtime.instance_names() =~= Seq::<Seq<char>>::empty());
        runtime
    }

    /// Whether `artifact` is among the deployed artifacts.
    fn deployed_contains(&self, artifact: &Vec<u8>) -> (res: bool)
        ensures
            res == self.is_deployed(artifact@),
    {
        let mut i: usize = 0;
        while i < self.deployed.len()
            invariant
                i <= self.deployed@.len(),
                forall|j: int| 0 <= j < i ==> self.deployed@[j]@ != artifact@,
            decreases self.deployed@.len() - i,
        {
            if same_bytes(&self.deployed[i], artifact) {
                proof {
                    assert(self.deployed_artifacts()[i as int] == artifact@);
                }
                return true;
            }
            i += 1;
        }
        proof {
            let deployed = self.deployed_artifacts();
            assert forall|j: int| 0 <= j < deployed.len() implies deployed[j] != artifact@ by {
                assert(deployed[j] == self.deployed@[j]@);
            }
        }
        false
    }

    /// Adds `factory` as the factory for `artifact`. It takes the place of
    /// a factory that was added for the artifact before.
    pub fn add_factory_for(&mut self, artifact: Vec<u8>, factory: BoxedFactory)
        ensures
            added_for(*old(self), *final(self), artifact@, factory),
    {
        match self.factory_position(&artifact) {
            Some(i) => {
                self.factories[i] = FactoryEntry { artifact, factory };
                proof {
                    assert(self.artifacts() =~= old(self).artifacts());
                    lemma_first_index(self.artifacts(), artifact@, i as int);
                    assert forall|other: Seq<u8>| other != artifact@ && old(self).knows(other) implies #[trigger]
                        self.factory_of(other) == old(self).factory_of(other) by {
                        let k = old(self).artifacts().index_of(other);
                        lemma_first_index_exists(old(self).artifacts(), other, k);
                    }
                }
            },
            None => {
                let entry = FactoryEntry { artifact, factory };
                self.factories.push(entry);
                proof {
                    let before = old(self).artifacts();
                    let after = self.artifacts();
                    assert(after =~= before.push(artifact@));
                    assert(after[before.len() as int] == artifact@);
                    assert(is_first_index(after, artifact@, before.len() as int)) by {
                        assert forall|j: int| 0 <= j < before.len() implies after[j] != artifact@ by {
                            if after[j] == artifact@ {
                                assert(before[j] == artifact@);
                                assert(before.contains(artifact@));
                            }
                        }
                    }
                    lemma_first_index(after, artifact@, before.len() as int);
                    assert forall|other: Seq<u8>| other != artifact@ && old(self).knows(other) implies #[trigger]
                        self.factory_of(other) == old(self).factory_of(other) by {
                        let k = before.index_of(other);
                        lemma_first_index_exists(before, other, k);
                        let first = first_index(before, other);
                        assert(is_first_index(after, other, first)) by {
                            assert(after[first] == before[first]);
                            assert forall|j: int| 0 <= j < first implies after[j] != other by {
                                assert(after[j] == before[j]);
                            }
                        }
                        lemma_first_index(after, other, first);
                    }
                }
            },
        }
    }

    /// Adds `factory` as the factory for the artifact that it names.
    pub fn add_service_factory(&mut self, factory: BoxedFactory)
        ensures
            gained_factory(*old(self), *final(self), factory),
            final(self).deployed_artifacts() == old(self).deployed_artifacts(),
            final(self).instance_ids() == old(self).instance_ids(),
            final(self).instance_names() == old(self).instance_names(),
    {
        let artifact = factory.inner.artifact();
        let ghost named = artifact@;
        self.add_factory_for(artifact, factory);
        proof {
            assert(added_for(*old(self), *self, named, factory) && factory.inner.names(named));
        }
    }

    /// Finishes the start of the instance `instance_id` with the answer of
    /// its constructor: after success the instance is kept, behind the
    /// others; after a failure it is dropped and the runtime is as it was.
    /// The answer is handed on as `start_outcome` says.
    pub fn finish_start(&mut self, instance_id: u32, service: BoxedService, outcome: Result<(), ExecutionError>) -> (res:
        Result<(), InitError>)
        ensures
            res == start_outcome(outcome),
            outcome is Err ==> *final(self) == *old(self),
            outcome is Ok ==> {
                &&& final(self).instance_ids() == old(self).instance_ids().push(instance_id)
                &&& final(self).services() == old(self).services().push(service)
                &&& final(self).instance_names() == old(self).instance_names().push(Seq::<char>::empty())
            },
            final(self).artifacts() == old(self).artifacts(),
            final(self).factories() == old(self).factories(),
            final(self).deployed_artifacts() == old(self).deployed_artifacts(),
    {
        match outcome {
            Ok(()) => {
                let entry = InstanceEntry { id: instance_id, name: String::new(), service };
                self.instances.push(entry);
                proof {
                    assert(self.instance_ids() =~= old(self).instance_ids().push(instance_id));
                    assert(self.services() =~= old(self).services().push(service));
                    assert(self.instance_names() =~= old(self).instance_names().push(Seq::<char>::empty()));
                }
                Ok(())
            },
            Err(error) => Err(InitError::ExecutionError(error)),
        }
    }

    /// Marks `artifact` as deployed.
    fn mark_deployed(&mut self, artifact: Vec<u8>)
        ensures
            final(self).deployed_artifacts() == (if old(self).is_deployed(artifact@) {
                old(self).deployed_artifacts()
            } else {
                old(self).deployed_artifacts().push(artifact@)
            }),
            final(self).is_deployed(artifact@),
            final(self).artifacts() == old(self).artifacts(),
            final(self).factories() == old(self).factories(),
            final(self).instance_ids() == old(self).instance_ids(),
            final(self).instance_names() == old(self).instance_names(),
            final(self).services() == old(self).services(),
    {
        if !self.deployed_contains(&artifact) {
            self.deployed.push(artifact);
            proof {
                assert(self.deployed_artifacts() =~= old(self).deployed_artifacts().push(artifact@));
                assert(self.deployed_artifacts()[old(self).deployed_artifacts().len() as int] == artifact@);
            }
        }
    }

    /// Adds a service that is part of the node from the first block on: a
    /// factory for its artifact, the artifact as deployed, and an instance
    /// whose constructor is not run. An instance that answered to the same
    /// identifier before is replaced. Hands back the artifact.
    pub fn add_builtin_service(&mut self, service: BuiltinService) -> (artifact: ArtifactSpec)
        ensures
            artifact.runtime_id == Self::ID,
            final(self).knows(artifact.raw_spec@),
            final(self).is_deployed(artifact.raw_spec@),
            final(self).artifacts() == (if old(self).knows(artifact.raw_spec@) {
                old(self).artifacts()
            } else {
                old(self).artifacts().push(artifact.raw_spec@)
            }),
            final(self).deployed_artifacts() == (if old(self).is_deployed(artifact.raw_spec@) {
                old(self).deployed_artifacts()
            } else {
                old(self).deployed_artifacts().push(artifact.raw_spec@)
            }),
            final(self).has_instance(service.instance_id),
            final(self).instance_ids() == (if old(self).has_instance(service.instance_id) {
                old(self).instance_ids()
            } else {
                old(self).instance_ids().push(service.instance_id)
            }),
            service.factory.inner.names(artifact.raw_spec@),
            final(self).factory_of(artifact.raw_spec@) == service.factory,
            service.factory.inner.makes(final(self).service_of(service.instance_id)),
    {
        let raw_spec = service.factory.inner.artifact();
        let instance = service.factory.inner.new_instance();
        let for_factory = copy_bytes(&raw_spec);
        let for_deployed = copy_bytes(&raw_spec);
        self.add_factory_for(for_factory, service.factory);
        self.mark_deployed(for_deployed);
        let entry = InstanceEntry { id: service.instance_id, name: service.instance_name, service: instance };
        match self.instance_position(service.instance_id) {
            Some(i) => {
                self.instances[i] = entry;
                proof {
                    assert(self.instance_ids() =~= old(self).instance_ids());
                    lemma_first_index(self.instance_ids(), service.instance_id, i as int);
                }
            },
            None => {
                self.instances.push(entry);
                proof {
                    let before = old(self).instance_ids();
                    let after = self.instance_ids();
                    assert(after =~= before.push(service.instance_id));
                    assert(after[before.len() as int] == service.instance_id);
                    assert(is_first_index(after, service.instance_id, before.len() as int)) by {
                        assert forall|j: int| 0 <= j < before.len() implies after[j] != service.instance_id by {
                            if after[j] == service.instance_id {
                                assert(before[j] == service.instance_id);
                                assert(before.contains(service.instance_id));
                            }
                        }
                    }
                    lemma_first_index(after, service.instance_id, before.len() as int);
                }
            },
        }
        ArtifactSpec { runtime_id: Self::ID, raw_spec }
    }

    /// Index of the factory for `artifact`.
    fn factory_position(&self, artifact: &Vec<u8>) -> (res: Option<usize>)
        ensures
            match res {
                Some(i) => i < self.factories@.len() && self.factories@[i as int].artifact@ == artifact@
                    && self.knows(artifact@) && is_first_index(self.artifacts(), artifact@, i as int)
                    && self.factory_of(artifact@) == self.factories@[i as int].factory,
                None => !self.knows(artifact@),
            },
    {
        let mut i: usize = 0;
        while i < self.factories.len()
            invariant
                i <= self.factories@.len(),
                forall|j: int| 0 <= j < i ==> self.factories@[j].artifact@ != artifact@,
            decreases self.factories@.len() - i,
        {
            if same_bytes(&self.factories[i].artifact, artifact) {
                proof {
                    let artifacts = self.artifacts();
                    assert(artifacts[i as int] == artifact@);
                    assert forall|j: int| 0 <= j < i implies artifacts[j] != artifact@ by {
                        assert(artifacts[j] == self.factories@[j].artifact@);
                    }
                    lemma_first_index(artifacts, artifact@, i as int);
                }
                return Some(i);
            }
            i += 1;
        }
        proof {
            let artifacts = self.artifacts();
            assert forall|j: int| 0 <= j < artifacts.len() implies artifacts[j] != artifact@ by {
                assert(artifacts[j] == self.factories@[j].artifact@);
            }
        }
        None
    }

    /// Index of the instance `instance_id`.
    fn instance_position(&self, instance_id: u32) -> (res: Option<usize>)
        ensures
            match res {
                Some(i) => i < self.instances@.len() && self.instances@[i as int].id == instance_id
                    && self.has_instance(instance_id) && is_first_index(
                    self.instance_ids(),
                    instance_id,
                    i as int,
                ) && self.service_of(instance_id) == self.instances@[i as int].service,
                None => !self.has_instance(instance_id),
            },
    {
        let mut i: usize = 0;
        while i < self.instances.len()
            invariant
                i <= self.instances@.len(),
                forall|j: int| 0 <= j < i ==> self.instances@[j].id != instance_id,
            decreases self.instances@.len() - i,
        {
            if self.instances[i].id == instance_id {
                proof {
                    let ids = self.instance_ids();
                    assert(ids[i as int] == instance_id);
                    assert forall|j: int| 0 <= j < i implies ids[j] != instance_id by {
                        assert(ids[j] == self.instances@[j].id);
                    }
                    lemma_first_index(ids, instance_id, i as int);
                }
                return Some(i);
            }
            i += 1;
        }
        proof {
            let ids = self.instance_ids();
            assert forall|j: int| 0 <= j < ids.len() implies ids[j] != instance_id by {
                assert(ids[j] == self.instances@[j].id);
            }
        }
        None
    }
}

impl Runtime for RustRuntime {
    open spec fn deploy_answers(&self, artifact: ArtifactSpec, res: Result<(), DeployError>) -> bool {
        res == self.deploy_answer(artifact)
    }

    open spec fn status_answers(
        &self,
        artifact: ArtifactSpec,
        cancel_if_not_complete: bool,
        res: Result<DeployStatus, DeployError>,
    ) -> bool {
        res == self.status_answer(artifact)
    }

    open spec fn init_answers(
        &self,
        before: ContextView,
        artifact: ArtifactSpec,
        constructor: ServiceConstructor,
        after: ContextView,
        res: Result<(), InitError>,
    ) -> bool {
        self.init_answers_in(before, after, artifact, constructor, res)
    }

    open spec fn execute_answers(
        &self,
        before: ContextView,
        call_info: CallInfo,
        payload: Seq<u8>,
        after: ContextView,
        res: Result<(), ExecutionError>,
    ) -> bool {
        if self.has_instance(call_info.instance_id) {
            self.service_of(call_info.instance_id).inner.call_answers(
                before,
                call_info.method_id,
                payload,
                after,
                res,
            )
        } else {
            (res matches Err(error) && Self::is_unknown_instance(error)) && after == before
        }
    }

    open spec fn hashes_answer(&self, snapshot: Snapshot, hashes: Seq<(u32, Vec<crate::crypto::Hash>)>) -> bool {
        &&& hashes.len() == self.instance_ids().len()
        &&& hashes.len() == self.services().len()
        &&& forall|i: int|
            0 <= i < hashes.len() ==> (#[trigger] hashes[i]).0 == self.instance_ids()[i]
                && self.services()[i].inner.hashes_answer(snapshot, hashes[i].1@)
    }

    open spec fn commit_answers(&self, before: Fork, after: Fork) -> bool {
        exists|forks: Seq<Fork>|
            {
                &&& forks.len() == self.services().len() + 1
                &&& forks[0] == before
                &&& #[trigger] forks[self.services().len() as int] == after
                &&& forall|i: int|
                    0 <= i < self.services().len() ==> self.services()[i].inner.commit_answers(
                        #[trigger] forks[i],
                        forks[i + 1],
                    )
            }
    }

    open spec fn api_answers(&self, api: Seq<(String, ServiceApiBuilder)>) -> bool {
        &&& api.len() == self.instance_ids().len()
        &&& api.len() == self.services().len()
        &&& forall|i: int|
            0 <= i < api.len() ==> (#[trigger] api[i]).0@ == self.instance_names()[i] && wired_by(
                self.services()[i],
                api[i].1,
            )
    }

    /// Deploys an artifact that a factory is at hand for. Deploying it
    /// again changes nothing.
    fn start_deploy(&mut self, artifact: ArtifactSpec) -> (res: Result<(), DeployError>)
        ensures
            Self::deployed(*old(self), *final(self), artifact, res),
    {
        if artifact.runtime_id != Self::ID {
            return Err(DeployError::WrongRuntime);
        }
        match self.factory_position(&artifact.raw_spec) {
            Some(_) => {
                self.mark_deployed(artifact.raw_spec);
                Ok(())
            },
            None => Err(DeployError::WrongArtifact),
        }
    }

    /// A deployed artifact is reported as deployed. An artifact that a
    /// factory is at hand for but that was not deployed is reported with
    /// `FailedToDeploy`: the native runtime deploys at once or not at all.
    fn check_deploy_status(&self, artifact: ArtifactSpec, cancel_if_not_complete: bool) -> (res: Result<
        DeployStatus,
        DeployError,
    >)
        ensures
            res == self.status_answer(artifact),
    {
        if artifact.runtime_id != Self::ID {
            return Err(DeployError::WrongRuntime);
        }
        match self.factory_position(&artifact.raw_spec) {
            Some(_) => {
                if self.deployed_contains(&artifact.raw_spec) {
                    Ok(DeployStatus::Deployed)
                } else {
                    Err(DeployError::FailedToDeploy)
                }
            },
            None => Err(DeployError::WrongArtifact),
        }
    }

    /// Starts an instance of a deployed artifact under an identifier that
    /// is free, and runs its constructor. When the constructor fails, the
    /// instance is dropped and the runtime is as it was.
    fn init_service(
        &mut self,
        context: &mut RuntimeContext,
        artifact: ArtifactSpec,
        constructor: &ServiceConstructor,
    ) -> (res: Result<(), InitError>)
        ensures
            Self::initialized(*old(self), *final(self), old(context)@, final(context)@, artifact, *constructor, res),
            !old(self).can_start(artifact, *constructor) ==> *final(context) == *old(context),
    {
        if artifact.runtime_id != Self::ID {
            proof {
                assert(self.init_answers_in(context@, context@, artifact, *constructor, Err(InitError::WrongRuntime)));
            }
            return Err(InitError::WrongRuntime);
        }
        let position = match self.factory_position(&artifact.raw_spec) {
            Some(i) => i,
            None => {
                proof {
                    assert(self.init_answers_in(context@, context@, artifact, *constructor, Err(InitError::NotDeployed)));
                }
                return Err(InitError::NotDeployed);
            },
        };
        if !self.deployed_contains(&artifact.raw_spec) {
            proof {
                assert(self.init_answers_in(context@, context@, artifact, *constructor, Err(InitError::NotDeployed)));
            }
            return Err(InitError::NotDeployed);
        }
        if self.instance_position(constructor.instance_id).is_some() {
            proof {
                assert(self.init_answers_in(
                    context@,
                    context@,
                    artifact,
                    *constructor,
                    Err(InitError::ServiceIdExists),
                ));
            }
            return Err(InitError::ServiceIdExists);
        }
        let mut service = self.factories[position].factory.inner.new_instance();
        let ghost made = service;
        let outcome = service.inner.initialize(context, constructor.data.as_slice());
        let ghost answered = outcome;
        let res = self.finish_start(constructor.instance_id, service, outcome);
        proof {
            assert(constructed(
                old(self).factory_of(artifact.raw_spec@),
                made,
                old(context)@,
                constructor.data@,
                context@,
                answered,
            ) && res == start_outcome(answered));
            assert(old(self).init_answers_in(old(context)@, context@, artifact, *constructor, res));
            if res is Ok {
                assert(self.services().take(old(self).services().len() as int) =~= old(self).services());
            }
        }
        res
    }

    /// Hands the call to the instance it is addressed to. A call to an
    /// instance that was not started fails and changes nothing.
    fn execute(&self, context: &mut RuntimeContext, call_info: CallInfo, payload: &[u8]) -> (res: Result<
        (),
        ExecutionError,
    >)
        ensures
            !self.has_instance(call_info.instance_id) ==> *final(context) == *old(context),
    {
        match self.instance_position(call_info.instance_id) {
            Some(i) => self.instances[i].service.inner.call(context, call_info.method_id, payload),
            None => Err(ExecutionError::with_description(UNKNOWN_INSTANCE, "Unknown service instance")),
        }
    }

    /// The content hashes of every instance under the instance's
    /// identifier, in the order in which the instances were started.
    fn state_hashes(&self, snapshot: &Snapshot) -> (hashes: Vec<(u32, Vec<crate::crypto::Hash>)>)
        ensures
            hashes@.len() == self.instance_ids().len(),
            forall|i: int| 0 <= i < hashes@.len() ==> (#[trigger] hashes@[i]).0 == self.instance_ids()[i],
    {
        let mut hashes: Vec<(u32, Vec<crate::crypto::Hash>)> = Vec::new();
        let mut i: usize = 0;
        while i < self.instances.len()
            invariant
                i <= self.instances@.len(),
                hashes@.len() == i,
                forall|j: int|
                    0 <= j < i ==> (#[trigger] hashes@[j]).0 == self.instances@[j].id
                        && self.instances@[j].service.inner.hashes_answer(*snapshot, hashes@[j].1@),
            decreases self.instances@.len() - i,
        {
            let of_instance = self.instances[i].service.inner.state_hashes(snapshot);
            let id: u32 = self.instances[i].id;
            hashes.push((id, of_instance));
            i += 1;
        }
        hashes
    }

    /// Calls the hook of every instance, in the order in which the
    /// instances were started: each gets the fork as the hook before it has
    /// left it. Without instances the fork stays as it is.
    fn before_commit(&self, fork: &mut Fork)
        ensures
            self.instance_ids().len() == 0 ==> *final(fork) == *old(fork),
    {
        let ghost mut forks: Seq<Fork> = seq![*fork];
        let mut i: usize = 0;
        while i < self.instances.len()
            invariant
                i <= self.instances@.len(),
                self.instances@.len() == 0 ==> *fork == *old(fork),
                forks.len() == i + 1,
                forks[0] == *old(fork),
                forks[i as int] == *fork,
                forall|j: int|
                    0 <= j < i ==> self.instances@[j].service.inner.commit_answers(#[trigger] forks[j], forks[j + 1]),
            decreases self.instances@.len() - i,
        {
            self.instances[i].service.inner.before_commit(fork);
            proof {
                forks = forks.push(*fork);
            }
            i += 1;
        }
        proof {
            assert(forks.len() == self.services().len() + 1);
            assert(forks[self.services().len() as int] == *fork);
            assert forall|k: int| 0 <= k < self.services().len() implies self.services()[k].inner.commit_answers(
                #[trigger] forks[k],
                forks[k + 1],
            ) by {
                assert(self.services()[k] == self.instances@[k].service);
            }
        }
    }

    /// Calls the hook of every instance, in the order in which the
    /// instances were started.
    fn after_commit(&self, fork: &Fork) {
        let mut i: usize = 0;
        while i < self.instances.len()
            invariant
                i <= self.instances@.len(),
            decreases self.instances@.len() - i,
        {
            self.instances[i].service.inner.after_commit(fork);
            i += 1;
        }
    }

    /// The endpoints that every instance declares, under the instance's
    /// name, in the order in which the instances were started.
    fn services_api(&self) -> (api: Vec<(String, ServiceApiBuilder)>)
        ensures
            self.api_answers(api@),
    {
        let mut api: Vec<(String, ServiceApiBuilder)> = Vec::new();
        let mut i: usize = 0;
        while i < self.instances.len()
            invariant
                i <= self.instances@.len(),
                api@.len() == i,
                forall|j: int|
                    0 <= j < i ==> (#[trigger] api@[j]).0@ == self.instances@[j].name@ && wired_by(
                        self.instances@[j].service,
                        api@[j].1,
                    ),
            decreases self.instances@.len() - i,
        {
            let mut builder = ServiceApiBuilder::new();
            let ghost fresh = builder;
            self.instances[i].service.inner.wire_api(&mut builder);
            proof {
                assert(is_empty_builder(fresh) && self.instances@[i as int].service.inner.api_answers(fresh, builder));
                assert(wired_by(self.instances@[i as int].service, builder));
            }
            let name = self.instances[i].name.clone();
            api.push((name, builder));
            i += 1;
        }
        api
    }
}

} // verus!
