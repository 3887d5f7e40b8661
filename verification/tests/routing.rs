use exonum_dispatch::api::ServiceApiBuilder;
use exonum_dispatch::crypto::PublicKey;
use exonum_dispatch::events::InternalRequest;
use exonum_dispatch::messages::CallInfo;
use exonum_dispatch::runtime::dispatcher::{join_parts, Action, Dispatcher, RuntimeInstance};
use exonum_dispatch::runtime::error::{
    DeployError, ExecutionError, InitError, DEPLOY_ERROR, INIT_ERROR, WRONG_RUNTIME,
};
use exonum_dispatch::runtime::{
    ArtifactSpec, DeployStatus, Runtime, RuntimeContext, ServiceConstructor,
};
use exonum_dispatch::storage::{Fork, Snapshot};
use futures::sync::mpsc;
use futures::Stream;
use std::cell::RefCell;
use std::rc::Rc;

type Log = Rc<RefCell<Vec<String>>>;

/// A runtime that writes down what it is asked and answers as it was told.
struct Recorder {
    name: &'static str,
    log: Log,
    fail_deploy_of: Option<Vec<u8>>,
    fail_init_of: Option<u32>,
    enqueue_on_execute: RefCell<Vec<Action>>,
}

impl Recorder {
    fn new(name: &'static str, log: &Log) -> Self {
        Recorder {
            name,
            log: log.clone(),
            fail_deploy_of: None,
            fail_init_of: None,
            enqueue_on_execute: RefCell::new(Vec::new()),
        }
    }

    fn note(&self, what: String) {
        self.log.borrow_mut().push(format!("{}:{}", self.name, what));
    }
}

impl Runtime for Recorder {
    fn start_deploy(&mut self, artifact: ArtifactSpec) -> Result<(), DeployError> {
        self.note(format!("deploy{:?}", artifact.raw_spec));
        if self.fail_deploy_of.as_ref() == Some(&artifact.raw_spec) {
            Err(DeployError::FailedToDeploy)
        } else {
            Ok(())
        }
    }

    fn check_deploy_status(
        &self,
        artifact: ArtifactSpec,
        cancel: bool,
    ) -> Result<DeployStatus, DeployError> {
        self.note(format!("status{:?}{}", artifact.raw_spec, cancel));
        Ok(DeployStatus::Pending)
    }

    fn init_service(
        &mut self,
        _: &mut RuntimeContext,
        artifact: ArtifactSpec,
        constructor: &ServiceConstructor,
    ) -> Result<(), InitError> {
        self.note(format!("init{:?}#{}", artifact.raw_spec, constructor.instance_id));
        if self.fail_init_of == Some(constructor.instance_id) {
            Err(InitError::NotDeployed)
        } else {
            Ok(())
        }
    }

    fn execute(
        &self,
        context: &mut RuntimeContext,
        call_info: CallInfo,
        payload: &[u8],
    ) -> Result<(), ExecutionError> {
        self.note(format!("call#{}.{}{:?}", call_info.instance_id, call_info.method_id, payload));
        if call_info.method_id == 99 {
            return Err(ExecutionError::with_description(42, "no such method"));
        }
        for action in self.enqueue_on_execute.borrow_mut().drain(..) {
            context.dispatch_action(action);
        }
        Ok(())
    }

    fn state_hashes(&self, _: &Snapshot) -> Vec<(u32, Vec<exonum_dispatch::crypto::Hash>)> {
        self.note("hashes".to_owned());
        let mut bytes = [0u8; 32];
        bytes[0] = self.name.as_bytes()[0];
        vec![(u32::from(self.name.as_bytes()[0]), vec![exonum_dispatch::crypto::Hash::new(bytes)])]
    }

    fn before_commit(&self, fork: &mut Fork) {
        self.note("before".to_owned());
        fork.put(self.name.as_bytes().to_vec(), vec![1]);
    }

    fn after_commit(&self, fork: &Fork) {
        self.note(format!("after{}", fork.len()));
    }

    fn services_api(&self) -> Vec<(String, ServiceApiBuilder)> {
        self.note("api".to_owned());
        if self.name == "b" {
            return vec![];
        }
        let mut first = ServiceApiBuilder::new();
        first.public_scope.endpoint("info", 0);
        vec![(format!("{}-one", self.name), first), (format!("{}-two", self.name), ServiceApiBuilder::new())]
    }
}

fn sender() -> mpsc::Sender<InternalRequest> {
    mpsc::channel::<InternalRequest>(0).0
}

fn artifact(runtime_id: u32, raw: &[u8]) -> ArtifactSpec {
    ArtifactSpec { runtime_id, raw_spec: raw.to_vec() }
}

fn constructor(instance_id: u32) -> ServiceConstructor {
    ServiceConstructor { instance_id, data: vec![] }
}

fn external(recorder: Recorder) -> RuntimeInstance {
    RuntimeInstance::External(Box::new(recorder))
}

fn two_runtimes(log: &Log) -> Dispatcher {
    let mut dispatcher = Dispatcher::new(sender());
    dispatcher.add_runtime(5, external(Recorder::new("a", log)));
    dispatcher.add_runtime(2, external(Recorder::new("b", log)));
    dispatcher
}

fn taken(log: &Log) -> Vec<String> {
    log.borrow_mut().drain(..).collect()
}

#[test]
fn new_dispatcher_is_empty() {
    let dispatcher = Dispatcher::new(sender());
    assert_eq!(dispatcher.runtime_order(), Vec::<u32>::new());
    assert!(!dispatcher.has_runtime(0));
    assert_eq!(dispatcher.runtime_for(0), None);
}

#[test]
fn runtimes_keep_registration_order() {
    let log = Log::default();
    let mut dispatcher = two_runtimes(&log);
    assert_eq!(dispatcher.runtime_order(), vec![5, 2]);
    dispatcher.add_runtime(9, external(Recorder::new("c", &log)));
    assert_eq!(dispatcher.runtime_order(), vec![5, 2, 9]);
}

#[test]
fn replaced_runtime_keeps_its_place() {
    let log = Log::default();
    let mut dispatcher = two_runtimes(&log);
    dispatcher.add_runtime(5, external(Recorder::new("z", &log)));
    assert_eq!(dispatcher.runtime_order(), vec![5, 2]);
    dispatcher.start_deploy(artifact(5, &[1])).unwrap();
    assert_eq!(taken(&log), vec!["z:deploy[1]"]);
}

#[test]
fn with_runtimes_registers_in_order() {
    let log = Log::default();
    let dispatcher = Dispatcher::with_runtimes(
        vec![
            (3, external(Recorder::new("a", &log))),
            (1, external(Recorder::new("b", &log))),
            (3, external(Recorder::new("c", &log))),
        ],
        sender(),
    );
    assert_eq!(dispatcher.runtime_order(), vec![3, 1]);
    dispatcher.check_deploy_status(artifact(3, &[]), true).unwrap();
    assert_eq!(taken(&log), vec!["c:status[]true"]);
}

#[test]
fn requests_without_runtime_change_nothing() {
    let log = Log::default();
    let mut dispatcher = two_runtimes(&log);
    let mut fork = Fork::new();
    let mut context = RuntimeContext::new(&mut fork, PublicKey::zero(), exonum_dispatch::crypto::Hash::zero());

    assert_eq!(dispatcher.start_deploy(artifact(7, &[1])), Err(DeployError::WrongRuntime));
    assert_eq!(
        dispatcher.check_deploy_status(artifact(7, &[1]), false),
        Err(DeployError::WrongRuntime)
    );
    assert_eq!(
        dispatcher.init_service(&mut context, artifact(7, &[1]), &constructor(4)),
        Err(InitError::WrongRuntime)
    );
    assert!(taken(&log).is_empty());
    assert_eq!(dispatcher.runtime_order(), vec![5, 2]);
    assert_eq!(dispatcher.runtime_for(4), None);
    assert_eq!(context.take_dispatcher_actions().len(), 0);
}

#[test]
fn deploy_goes_to_the_runtime_of_the_artifact() {
    let log = Log::default();
    let mut dispatcher = two_runtimes(&log);
    assert_eq!(dispatcher.start_deploy(artifact(2, &[8])), Ok(()));
    assert_eq!(
        dispatcher.check_deploy_status(artifact(5, &[9]), false),
        Ok(DeployStatus::Pending)
    );
    assert_eq!(taken(&log), vec!["b:deploy[8]", "a:status[9]false"]);
}

#[test]
fn started_service_is_routed_to_its_runtime() {
    let log = Log::default();
    let mut dispatcher = two_runtimes(&log);
    let mut fork = Fork::new();
    let mut context = RuntimeContext::new(&mut fork, PublicKey::zero(), exonum_dispatch::crypto::Hash::zero());

    assert_eq!(dispatcher.init_service(&mut context, artifact(2, &[1]), &constructor(10)), Ok(()));
    assert_eq!(dispatcher.runtime_for(10), Some(2));
    assert_eq!(dispatcher.execute(&mut context, CallInfo::new(10, 3), &[7]), Ok(()));
    assert_eq!(taken(&log), vec!["b:init[1]#10", "b:call#10.3[7]"]);

    // A service that is started again under the same identifier moves.
    assert_eq!(dispatcher.init_service(&mut context, artifact(5, &[1]), &constructor(10)), Ok(()));
    assert_eq!(dispatcher.runtime_for(10), Some(5));
}

#[test]
fn failed_start_records_no_route() {
    let log = Log::default();
    let mut dispatcher = Dispatcher::new(sender());
    let mut recorder = Recorder::new("a", &log);
    recorder.fail_init_of = Some(10);
    dispatcher.add_runtime(5, external(recorder));
    let mut fork = Fork::new();
    let mut context = RuntimeContext::new(&mut fork, PublicKey::zero(), exonum_dispatch::crypto::Hash::zero());

    assert_eq!(
        dispatcher.init_service(&mut context, artifact(5, &[1]), &constructor(10)),
        Err(InitError::NotDeployed)
    );
    assert_eq!(dispatcher.runtime_for(10), None);
    let error = dispatcher.execute(&mut context, CallInfo::new(10, 0), &[]).unwrap_err();
    assert_eq!(error.code, WRONG_RUNTIME);
    assert_eq!(taken(&log), vec!["a:init[1]#10"]);
}

#[test]
fn record_init_result_follows_the_answer() {
    let mut dispatcher = Dispatcher::new(sender());
    assert_eq!(dispatcher.record_init_result(1, 2, Err(InitError::ServiceIdExists)), Err(InitError::ServiceIdExists));
    assert_eq!(dispatcher.runtime_for(1), None);
    assert_eq!(dispatcher.record_init_result(1, 2, Ok(())), Ok(()));
    assert_eq!(dispatcher.runtime_for(1), Some(2));
}

#[test]
fn init_service_asks_for_api_restart() {
    let log = Log::default();
    let (tx, rx) = mpsc::channel::<InternalRequest>(4);
    let mut dispatcher = Dispatcher::new(tx);
    dispatcher.add_runtime(5, external(Recorder::new("a", &log)));
    let mut fork = Fork::new();
    let mut context = RuntimeContext::new(&mut fork, PublicKey::zero(), exonum_dispatch::crypto::Hash::zero());

    // No runtime, no request.
    let _ = dispatcher.init_service(&mut context, artifact(6, &[]), &constructor(1));
    dispatcher.init_service(&mut context, artifact(5, &[]), &constructor(1)).unwrap();
    drop(dispatcher);
    let received: Vec<_> = rx.wait().map(|request| request.unwrap()).collect();
    assert_eq!(received, vec![InternalRequest::RestartApi]);
}

#[test]
fn runtime_error_is_handed_on_and_actions_stay() {
    let log = Log::default();
    let mut dispatcher = two_runtimes(&log);
    let mut fork = Fork::new();
    let mut context = RuntimeContext::new(&mut fork, PublicKey::zero(), exonum_dispatch::crypto::Hash::zero());
    dispatcher.init_service(&mut context, artifact(5, &[]), &constructor(1)).unwrap();
    context.dispatch_action(Action::StartDeploy { artifact: artifact(2, &[3]) });
    taken(&log);

    let error = dispatcher.execute(&mut context, CallInfo::new(1, 99), &[]).unwrap_err();
    assert_eq!(error, ExecutionError { code: 42, description: Some("no such method".to_owned()) });
    assert_eq!(taken(&log), vec!["a:call#1.99[]"]);
    assert_eq!(context.take_dispatcher_actions().len(), 1);
}

#[test]
fn actions_are_applied_in_order() {
    let log = Log::default();
    let mut dispatcher = Dispatcher::new(sender());
    let recorder = Recorder::new("a", &log);
    recorder.enqueue_on_execute.borrow_mut().extend(vec![
        Action::StartDeploy { artifact: artifact(2, &[1]) },
        Action::InitService { artifact: artifact(2, &[1]), constructor: constructor(20) },
        Action::StartDeploy { artifact: artifact(5, &[2]) },
        Action::InitService { artifact: artifact(5, &[2]), constructor: constructor(21) },
    ]);
    dispatcher.add_runtime(5, external(recorder));
    dispatcher.add_runtime(2, external(Recorder::new("b", &log)));
    let mut fork = Fork::new();
    let mut context = RuntimeContext::new(&mut fork, PublicKey::zero(), exonum_dispatch::crypto::Hash::zero());
    dispatcher.init_service(&mut context, artifact(5, &[]), &constructor(1)).unwrap();
    taken(&log);

    assert_eq!(dispatcher.execute(&mut context, CallInfo::new(1, 0), &[]), Ok(()));
    assert_eq!(
        taken(&log),
        vec!["a:call#1.0[]", "b:deploy[1]", "b:init[1]#20", "a:deploy[2]", "a:init[2]#21"]
    );
    assert_eq!(dispatcher.runtime_for(20), Some(2));
    assert_eq!(dispatcher.runtime_for(21), Some(5));
    assert_eq!(context.take_dispatcher_actions().len(), 0);
}

#[test]
fn failing_action_stops_the_rest() {
    let log = Log::default();
    let mut dispatcher = Dispatcher::new(sender());
    dispatcher.add_runtime(5, external(Recorder::new("a", &log)));
    let mut failing = Recorder::new("b", &log);
    failing.fail_deploy_of = Some(vec![9]);
    dispatcher.add_runtime(2, external(failing));
    let mut fork = Fork::new();
    let mut context = RuntimeContext::new(&mut fork, PublicKey::zero(), exonum_dispatch::crypto::Hash::zero());

    let actions = vec![
        Action::InitService { artifact: artifact(5, &[1]), constructor: constructor(30) },
        Action::StartDeploy { artifact: artifact(2, &[9]) },
        Action::InitService { artifact: artifact(5, &[1]), constructor: constructor(31) },
    ];
    let failed = dispatcher.apply_actions(actions, &mut context).unwrap_err();
    assert_eq!(failed.index, 1);
    assert_eq!(
        failed.error,
        ExecutionError { code: DEPLOY_ERROR, description: Some("Failed to deploy".to_owned()) }
    );
    assert_eq!(taken(&log), vec!["a:init[1]#30", "b:deploy[9]"]);
    assert_eq!(dispatcher.runtime_for(30), Some(5));
    assert_eq!(dispatcher.runtime_for(31), None);
}

#[test]
fn failing_action_ends_execute_with_its_error() {
    let log = Log::default();
    let mut dispatcher = Dispatcher::new(sender());
    let recorder = Recorder::new("a", &log);
    recorder.enqueue_on_execute.borrow_mut().extend(vec![
        Action::InitService { artifact: artifact(5, &[1]), constructor: constructor(40) },
        Action::InitService { artifact: artifact(8, &[1]), constructor: constructor(41) },
        Action::InitService { artifact: artifact(5, &[1]), constructor: constructor(42) },
    ]);
    dispatcher.add_runtime(5, external(recorder));
    let mut fork = Fork::new();
    let mut context = RuntimeContext::new(&mut fork, PublicKey::zero(), exonum_dispatch::crypto::Hash::zero());
    dispatcher.init_service(&mut context, artifact(5, &[]), &constructor(1)).unwrap();

    let error = dispatcher.execute(&mut context, CallInfo::new(1, 0), &[]).unwrap_err();
    assert_eq!(
        error,
        ExecutionError { code: WRONG_RUNTIME, description: Some("Wrong runtime".to_owned()) }
    );
    assert_eq!(dispatcher.runtime_for(40), Some(5));
    assert_eq!(dispatcher.runtime_for(41), None);
    assert_eq!(dispatcher.runtime_for(42), None);
}

#[test]
fn no_actions_no_change() {
    let mut dispatcher = Dispatcher::new(sender());
    let mut fork = Fork::new();
    let mut context = RuntimeContext::new(&mut fork, PublicKey::zero(), exonum_dispatch::crypto::Hash::zero());
    assert!(dispatcher.apply_actions(Vec::new(), &mut context).is_ok());
    assert_eq!(dispatcher.runtime_order(), Vec::<u32>::new());
}

#[test]
fn action_execute_turns_errors_into_execution_errors() {
    let log = Log::default();
    let mut dispatcher = Dispatcher::new(sender());
    let mut recorder = Recorder::new("a", &log);
    recorder.fail_init_of = Some(3);
    dispatcher.add_runtime(5, external(recorder));
    let mut fork = Fork::new();
    let mut context = RuntimeContext::new(&mut fork, PublicKey::zero(), exonum_dispatch::crypto::Hash::zero());

    let action = Action::InitService { artifact: artifact(5, &[]), constructor: constructor(3) };
    assert_eq!(
        action.execute(&mut dispatcher, &mut context),
        Err(ExecutionError { code: INIT_ERROR, description: Some("Artifact is not deployed".to_owned()) })
    );
    let action = Action::StartDeploy { artifact: artifact(5, &[]) };
    assert_eq!(action.execute(&mut dispatcher, &mut context), Ok(()));
    let action = Action::InitService { artifact: artifact(5, &[]), constructor: constructor(4) };
    assert_eq!(action.execute(&mut dispatcher, &mut context), Ok(()));
    assert_eq!(dispatcher.runtime_for(4), Some(5));
}

#[test]
fn error_conversions() {
    assert_eq!(
        ExecutionError::from_deploy_error(DeployError::WrongRuntime),
        ExecutionError { code: WRONG_RUNTIME, description: Some("Wrong runtime".to_owned()) }
    );
    assert_eq!(
        ExecutionError::from_deploy_error(DeployError::WrongArtifact),
        ExecutionError { code: DEPLOY_ERROR, description: Some("Wrong artifact".to_owned()) }
    );
    assert_eq!(
        ExecutionError::from_init_error(InitError::WrongRuntime),
        ExecutionError { code: WRONG_RUNTIME, description: Some("Wrong runtime".to_owned()) }
    );
    assert_eq!(
        ExecutionError::from_init_error(InitError::ServiceIdExists),
        ExecutionError { code: INIT_ERROR, description: Some("Service instance exists".to_owned()) }
    );
    let inner = ExecutionError::with_description(77, "constructor failed");
    assert_eq!(ExecutionError::from_init_error(InitError::ExecutionError(inner.clone())), inner);
    assert_eq!(ExecutionError::new(5), ExecutionError { code: 5, description: None });
}

#[test]
fn hooks_and_hashes_follow_the_registry() {
    let log = Log::default();
    let dispatcher = two_runtimes(&log);
    let hashes = dispatcher.state_hashes(&Snapshot::new());
    assert_eq!(hashes.iter().map(|(id, _)| *id).collect::<Vec<_>>(), vec![u32::from(b'a'), u32::from(b'b')]);

    let mut fork = Fork::new();
    dispatcher.before_commit(&mut fork);
    assert_eq!(fork.len(), 2);
    assert_eq!(fork.changes[0].key, b"a".to_vec());
    assert_eq!(fork.changes[1].key, b"b".to_vec());
    dispatcher.after_commit(&fork);
    assert_eq!(
        taken(&log),
        vec!["a:hashes", "b:hashes", "a:before", "b:before", "a:after2", "b:after2"]
    );
}

#[test]
fn api_of_every_runtime_is_joined_in_registry_order() {
    let log = Log::default();
    let mut dispatcher = two_runtimes(&log);
    dispatcher.add_runtime(9, external(Recorder::new("c", &log)));
    let api = dispatcher.services_api();
    let names: Vec<&str> = api.iter().map(|(name, _)| name.as_str()).collect();
    assert_eq!(names, vec!["a-one", "a-two", "c-one", "c-two"]);
    assert_eq!(api[0].1.public_scope.endpoints.len(), 1);
    assert_eq!(api[1].1.public_scope.endpoints.len(), 0);
    assert_eq!(taken(&log), vec!["a:api", "b:api", "c:api"]);
    assert!(Dispatcher::new(sender()).services_api().is_empty());
}

#[test]
fn finish_call_hands_on_the_runtime_error() {
    let log = Log::default();
    let mut dispatcher = two_runtimes(&log);
    let mut fork = Fork::new();
    let mut context = RuntimeContext::new(&mut fork, PublicKey::zero(), exonum_dispatch::crypto::Hash::zero());
    context.dispatch_action(Action::StartDeploy { artifact: artifact(2, &[3]) });

    let error = ExecutionError::with_description(42, "no such method");
    assert_eq!(dispatcher.finish_call(Err(error.clone()), &mut context), Err(error));
    assert!(taken(&log).is_empty());
    assert_eq!(context.take_dispatcher_actions().len(), 1);
}

#[test]
fn finish_call_applies_the_queue_and_empties_it() {
    let log = Log::default();
    let mut dispatcher = two_runtimes(&log);
    let mut fork = Fork::new();
    let mut context = RuntimeContext::new(&mut fork, PublicKey::zero(), exonum_dispatch::crypto::Hash::zero());

    // No action waits: the call succeeds and nothing is asked of a runtime.
    assert_eq!(dispatcher.finish_call(Ok(()), &mut context), Ok(()));
    assert!(taken(&log).is_empty());

    context.dispatch_action(Action::StartDeploy { artifact: artifact(2, &[3]) });
    context.dispatch_action(Action::InitService { artifact: artifact(2, &[3]), constructor: constructor(50) });
    assert_eq!(dispatcher.finish_call(Ok(()), &mut context), Ok(()));
    assert_eq!(taken(&log), vec!["b:deploy[3]", "b:init[3]#50"]);
    assert_eq!(dispatcher.runtime_for(50), Some(2));
    assert!(context.take_dispatcher_actions().is_empty());

    // The first action that fails ends the call with its error; the queue is
    // empty all the same and the action behind it is not applied.
    context.dispatch_action(Action::InitService { artifact: artifact(5, &[1]), constructor: constructor(51) });
    context.dispatch_action(Action::StartDeploy { artifact: artifact(7, &[1]) });
    context.dispatch_action(Action::InitService { artifact: artifact(5, &[1]), constructor: constructor(52) });
    assert_eq!(
        dispatcher.finish_call(Ok(()), &mut context),
        Err(ExecutionError { code: WRONG_RUNTIME, description: Some("Wrong runtime".to_owned()) })
    );
    assert_eq!(taken(&log), vec!["a:init[1]#51"]);
    assert_eq!(dispatcher.runtime_for(51), Some(5));
    assert_eq!(dispatcher.runtime_for(52), None);
    assert!(context.take_dispatcher_actions().is_empty());
}

/// A runtime that leaves an action in the context whenever it is asked to
/// start a service.
struct Chaining;

impl Runtime for Chaining {
    fn start_deploy(&mut self, _: ArtifactSpec) -> Result<(), DeployError> {
        Ok(())
    }

    fn check_deploy_status(&self, _: ArtifactSpec, _: bool) -> Result<DeployStatus, DeployError> {
        Ok(DeployStatus::Deployed)
    }

    fn init_service(
        &mut self,
        context: &mut RuntimeContext,
        artifact: ArtifactSpec,
        _: &ServiceConstructor,
    ) -> Result<(), InitError> {
        assert_eq!(context.take_dispatcher_actions().len(), 0);
        context.dispatch_action(Action::StartDeploy { artifact });
        Ok(())
    }

    fn execute(&self, _: &mut RuntimeContext, _: CallInfo, _: &[u8]) -> Result<(), ExecutionError> {
        Ok(())
    }

    fn state_hashes(&self, _: &Snapshot) -> Vec<(u32, Vec<exonum_dispatch::crypto::Hash>)> {
        vec![]
    }

    fn before_commit(&self, _: &mut Fork) {}

    fn after_commit(&self, _: &Fork) {}

    fn services_api(&self) -> Vec<(String, ServiceApiBuilder)> {
        vec![]
    }
}

#[test]
fn starting_a_service_queues_no_action() {
    let mut dispatcher = Dispatcher::new(sender());
    dispatcher.add_runtime(3, RuntimeInstance::External(Box::new(Chaining)));
    let mut fork = Fork::new();
    let mut context = RuntimeContext::new(&mut fork, PublicKey::zero(), exonum_dispatch::crypto::Hash::zero());
    context.dispatch_action(Action::StartDeploy { artifact: artifact(3, &[7]) });

    assert_eq!(dispatcher.init_service(&mut context, artifact(3, &[1]), &constructor(60)), Ok(()));
    let waiting = context.replace_dispatcher_actions(Vec::new());
    assert_eq!(waiting.len(), 1);
    match &waiting[0] {
        Action::StartDeploy { artifact } => assert_eq!(artifact.raw_spec, vec![7]),
        Action::InitService { .. } => panic!("the action that waited was replaced"),
    }

    // The same through an action: the queue is what it was.
    context.dispatch_action(Action::StartDeploy { artifact: artifact(3, &[8]) });
    let action = Action::InitService { artifact: artifact(3, &[1]), constructor: constructor(61) };
    assert_eq!(action.execute(&mut dispatcher, &mut context), Ok(()));
    let action = Action::StartDeploy { artifact: artifact(3, &[2]) };
    assert_eq!(action.execute(&mut dispatcher, &mut context), Ok(()));
    assert_eq!(context.take_dispatcher_actions().len(), 1);
}

#[test]
fn hooks_without_runtimes_leave_the_fork() {
    let dispatcher = Dispatcher::new(sender());
    let mut fork = Fork::new();
    fork.put(vec![1], vec![2]);
    dispatcher.before_commit(&mut fork);
    dispatcher.after_commit(&fork);
    assert_eq!(fork.len(), 1);
    assert!(dispatcher.state_hashes(&Snapshot::new()).is_empty());
}

#[test]
fn parts_are_joined_in_order() {
    assert_eq!(join_parts(vec![vec![1, 2], vec![], vec![3], vec![2, 1]]), vec![1, 2, 3, 2, 1]);
    assert_eq!(join_parts(Vec::<Vec<u8>>::new()), Vec::<u8>::new());
}

#[test]
fn context_queue_is_first_in_first_out() {
    let mut fork = Fork::new();
    let mut context = RuntimeContext::new(&mut fork, PublicKey::new([3; 32]), exonum_dispatch::crypto::Hash::new([4; 32]));
    assert_eq!(context.author, PublicKey::new([3; 32]));
    context.dispatch_action(Action::StartDeploy { artifact: artifact(1, &[1]) });
    context.dispatch_action(Action::StartDeploy { artifact: artifact(2, &[2]) });
    let actions = context.take_dispatcher_actions();
    let ids: Vec<u32> = actions
        .iter()
        .map(|action| match action {
            Action::StartDeploy { artifact } => artifact.runtime_id,
            Action::InitService { artifact, .. } => artifact.runtime_id,
        })
        .collect();
    assert_eq!(ids, vec![1, 2]);
    assert!(context.take_dispatcher_actions().is_empty());
}
