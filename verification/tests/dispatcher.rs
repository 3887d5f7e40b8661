use exonum_dispatch::crypto::PublicKey;
use exonum_dispatch::events::InternalRequest;
use exonum_dispatch::messages::{CallInfo, MethodId, ServiceInstanceId};
use exonum_dispatch::runtime::dispatcher::{
    Action, Dispatcher, DispatcherBuilder, RuntimeInstance,
};
use exonum_dispatch::runtime::error::{DeployError, ExecutionError, InitError, WRONG_RUNTIME};
use exonum_dispatch::runtime::{
    ArtifactSpec, DeployStatus, Runtime, RuntimeContext, ServiceConstructor,
};
use exonum_dispatch::storage::{Fork, Snapshot};
use futures::sync::mpsc;

const RUST_RUNTIME: u32 = 0;
const JAVA_RUNTIME: u32 = 1;

fn dummy_builder() -> DispatcherBuilder {
    DispatcherBuilder::new(mpsc::channel::<InternalRequest>(0).0)
}

#[derive(Debug)]
struct SampleRuntime {
    pub runtime_type: u32,
    pub instance_id: ServiceInstanceId,
    pub method_id: MethodId,
}

impl SampleRuntime {
    pub fn new(runtime_type: u32, instance_id: ServiceInstanceId, method_id: MethodId) -> Self {
        Self {
            runtime_type,
            instance_id,
            method_id,
        }
    }

    fn boxed(self) -> RuntimeInstance {
        RuntimeInstance::External(Box::new(self))
    }
}

impl Runtime for SampleRuntime {
    fn start_deploy(&mut self, artifact: ArtifactSpec) -> Result<(), DeployError> {
        if artifact.runtime_id == self.runtime_type {
            Ok(())
        } else {
            Err(DeployError::WrongRuntime)
        }
    }

    fn check_deploy_status(
        &self,
        artifact: ArtifactSpec,
        _: bool,
    ) -> Result<DeployStatus, DeployError> {
        if artifact.runtime_id == self.runtime_type {
            Ok(DeployStatus::Deployed)
        } else {
            Err(DeployError::WrongRuntime)
        }
    }

    fn init_service(
        &mut self,
        _: &mut RuntimeContext,
        artifact: ArtifactSpec,
        _: &ServiceConstructor,
    ) -> Result<(), InitError> {
        if artifact.runtime_id == self.runtime_type {
            Ok(())
        } else {
            Err(InitError::WrongRuntime)
        }
    }

    fn execute(
        &self,
        _: &mut RuntimeContext,
        call_info: CallInfo,
        _: &[u8],
    ) -> Result<(), ExecutionError> {
        if call_info.instance_id == self.instance_id && call_info.method_id == self.method_id {
            Ok(())
        } else {
            Err(ExecutionError::new(0xFF_u8))
        }
    }

    fn state_hashes(&self, _snapshot: &Snapshot) -> Vec<(ServiceInstanceId, Vec<exonum_dispatch::crypto::Hash>)> {
        vec![]
    }

    fn before_commit(&self, _: &mut Fork) {}

    fn after_commit(&self, _: &Fork) {}
    fn services_api(&self) -> Vec<(String, exonum_dispatch::api::ServiceApiBuilder)> {
        vec![]
    }
}

#[test]
fn test_builder() {
    let runtime_a = SampleRuntime::new(RUST_RUNTIME, 0, 0);
    let runtime_b = SampleRuntime::new(JAVA_RUNTIME, 1, 0);

    let dispatcher = dummy_builder()
        .with_runtime(runtime_a.runtime_type, runtime_a.boxed())
        .with_runtime(runtime_b.runtime_type, runtime_b.boxed())
        .finalize();

    assert!(dispatcher.has_runtime(RUST_RUNTIME));
    assert!(dispatcher.has_runtime(JAVA_RUNTIME));
}

#[test]
fn test_dispatcher() {
    const RUST_SERVICE_ID: ServiceInstanceId = 0;
    const JAVA_SERVICE_ID: ServiceInstanceId = 1;
    const RUST_METHOD_ID: MethodId = 0;
    const JAVA_METHOD_ID: MethodId = 1;

    // Create dispatcher and test data.
    let runtime_a = SampleRuntime::new(RUST_RUNTIME, RUST_SERVICE_ID, RUST_METHOD_ID);
    let runtime_b = SampleRuntime::new(JAVA_RUNTIME, JAVA_SERVICE_ID, JAVA_METHOD_ID);

    let mut dispatcher = dummy_builder()
        .with_runtime(runtime_a.runtime_type, runtime_a.boxed())
        .with_runtime(runtime_b.runtime_type, runtime_b.boxed())
        .finalize();

    let sample_rust_spec = ArtifactSpec {
        runtime_id: RUST_RUNTIME,
        raw_spec: Default::default(),
    };
    let sample_java_spec = ArtifactSpec {
        runtime_id: JAVA_RUNTIME,
        raw_spec: Default::default(),
    };

    // Check deploy.
    dispatcher
        .start_deploy(sample_rust_spec.clone())
        .expect("start_deploy failed for rust");
    dispatcher
        .start_deploy(sample_java_spec.clone())
        .expect("start_deploy failed for java");

    // Check deploy status
    assert_eq!(
        dispatcher
            .check_deploy_status(sample_rust_spec.clone(), false)
            .unwrap(),
        DeployStatus::Deployed
    );
    assert_eq!(
        dispatcher
            .check_deploy_status(sample_java_spec.clone(), false)
            .unwrap(),
        DeployStatus::Deployed
    );

    // Check if we can init services.
    let mut fork = Fork::new();
    let mut context = RuntimeContext::new(&mut fork, PublicKey::zero(), exonum_dispatch::crypto::Hash::zero());

    let rust_init_data = ServiceConstructor {
        instance_id: RUST_SERVICE_ID,
        data: Default::default(),
    };
    dispatcher
        .init_service(&mut context, sample_rust_spec.clone(), &rust_init_data)
        .expect("init_service failed for rust");

    let java_init_data = ServiceConstructor {
        instance_id: JAVA_SERVICE_ID,
        data: Default::default(),
    };
    dispatcher
        .init_service(&mut context, sample_java_spec.clone(), &java_init_data)
        .expect("init_service failed for java");

    // Check if we can execute transactions.
    let tx_payload = [0x00_u8; 1];

    dispatcher
        .execute(
            &mut context,
            CallInfo::new(RUST_SERVICE_ID, RUST_METHOD_ID),
            &tx_payload,
        )
        .expect("Correct tx rust");

    dispatcher
        .execute(
            &mut context,
            CallInfo::new(RUST_SERVICE_ID, JAVA_METHOD_ID),
            &tx_payload,
        )
        .expect_err("Incorrect tx rust");

    dispatcher
        .execute(
            &mut context,
            CallInfo::new(JAVA_SERVICE_ID, JAVA_METHOD_ID),
            &tx_payload,
        )
        .expect("Correct tx java");

    dispatcher
        .execute(
            &mut context,
            CallInfo::new(JAVA_SERVICE_ID, RUST_METHOD_ID),
            &tx_payload,
        )
        .expect_err("Incorrect tx java");
}

#[test]
fn test_dispatcher_no_service() {
    const RUST_SERVICE_ID: ServiceInstanceId = 0;
    const RUST_METHOD_ID: MethodId = 0;

    // Create dispatcher and test data.
    let mut dispatcher = dummy_builder().finalize();

    let sample_rust_spec = ArtifactSpec {
        runtime_id: RUST_RUNTIME,
        raw_spec: Default::default(),
    };

    // Check deploy.
    assert_eq!(
        dispatcher
            .start_deploy(sample_rust_spec.clone())
            .expect_err("start_deploy succeed"),
        DeployError::WrongRuntime
    );

    assert_eq!(
        dispatcher
            .check_deploy_status(sample_rust_spec.clone(), false)
            .expect_err("check_deploy_status succeed"),
        DeployError::WrongRuntime
    );

    // Check if we can init services.
    let mut fork = Fork::new();
    let mut context = RuntimeContext::new(&mut fork, PublicKey::zero(), exonum_dispatch::crypto::Hash::zero());

    let rust_init_data = ServiceConstructor {
        instance_id: RUST_SERVICE_ID,
        data: Default::default(),
    };
    assert_eq!(
        dispatcher
            .init_service(&mut context, sample_rust_spec.clone(), &rust_init_data)
            .expect_err("init_service succeed"),
        InitError::WrongRuntime
    );

    // Check if we can execute transactions.
    let tx_payload = [0x00_u8; 1];

    let error = dispatcher
        .execute(
            &mut context,
            CallInfo::new(RUST_SERVICE_ID, RUST_METHOD_ID),
            &tx_payload,
        )
        .expect_err("execute succeed");
    assert_eq!(error.code, WRONG_RUNTIME);
    assert_eq!(error.description.as_deref(), Some("Wrong runtime"));
}

#[test]
fn action_with_unknown_runtime_fails() {
    let mut dispatcher = Dispatcher::new(mpsc::channel::<InternalRequest>(0).0);
    let mut fork = Fork::new();
    let mut context = RuntimeContext::new(&mut fork, PublicKey::zero(), exonum_dispatch::crypto::Hash::zero());
    let action = Action::StartDeploy {
        artifact: ArtifactSpec { runtime_id: 7, raw_spec: vec![1] },
    };
    let failed = dispatcher.apply_actions(vec![action], &mut context).unwrap_err();
    assert_eq!(failed.index, 0);
    assert_eq!(failed.error.code, WRONG_RUNTIME);
}
