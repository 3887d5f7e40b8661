use exonum_dispatch::cli::{command_line, DefaultInstance, InstanceInitParams, NodeBuilder};
use exonum_dispatch::crypto::PublicKey;
use exonum_dispatch::supervisor::{ConsensusConfig, Mode, SupervisorConfig};
use exonum_dispatch::messages::CallInfo;
use exonum_dispatch::runtime::dispatcher::RuntimeInstance;
use exonum_dispatch::runtime::error::{DeployError, ExecutionError, InitError};
use exonum_dispatch::runtime::rust::{BoxedFactory, BoxedService, RustRuntime, Service, ServiceFactory};
use exonum_dispatch::runtime::{ArtifactSpec, DeployStatus, Runtime, RuntimeContext};
use exonum_dispatch::storage::Snapshot;

struct Idle;

impl Service for Idle {
    fn initialize(&mut self, _: &mut RuntimeContext, _: &[u8]) -> Result<(), ExecutionError> {
        Ok(())
    }

    fn call(&self, _: &mut RuntimeContext, _: u16, _: &[u8]) -> Result<(), ExecutionError> {
        Ok(())
    }

    fn state_hashes(&self, _: &Snapshot) -> Vec<exonum_dispatch::crypto::Hash> {
        vec![]
    }

    fn before_commit(&self, _: &mut exonum_dispatch::storage::Fork) {}

    fn wire_api(&self, _: &mut exonum_dispatch::api::ServiceApiBuilder) {}
}

struct IdleFactory(u8);

impl ServiceFactory for IdleFactory {
    fn artifact(&self) -> Vec<u8> {
        vec![self.0]
    }

    fn new_instance(&self) -> BoxedService {
        BoxedService { inner: Box::new(Idle) }
    }
}

/// A runtime that agrees to everything.
struct Other;
impl Runtime for Other {
    fn start_deploy(&mut self, _: ArtifactSpec) -> Result<(), DeployError> {
        Ok(())
    }
    fn check_deploy_status(&self, _: ArtifactSpec, _: bool) -> Result<DeployStatus, DeployError> {
        Ok(DeployStatus::Pending)
    }
    fn init_service(
        &mut self,
        _: &mut RuntimeContext,
        _: ArtifactSpec,
        _: &exonum_dispatch::runtime::ServiceConstructor,
    ) -> Result<(), InitError> {
        Ok(())
    }
    fn execute(&self, _: &mut RuntimeContext, _: CallInfo, _: &[u8]) -> Result<(), ExecutionError> {
        Ok(())
    }
    fn state_hashes(&self, _: &Snapshot) -> Vec<(u32, Vec<exonum_dispatch::crypto::Hash>)> {
        vec![]
    }
    fn before_commit(&self, _: &mut exonum_dispatch::storage::Fork) {}
    fn after_commit(&self, _: &exonum_dispatch::storage::Fork) {}
    fn services_api(&self) -> Vec<(String, exonum_dispatch::api::ServiceApiBuilder)> {
        vec![]
    }
}

fn factory(tag: u8) -> BoxedFactory {
    BoxedFactory { inner: Box::new(IdleFactory(tag)) }
}

fn instance(id: u32, name: &str, raw: &[u8]) -> InstanceInitParams {
    InstanceInitParams {
        artifact: ArtifactSpec { runtime_id: RustRuntime::ID, raw_spec: raw.to_vec() },
        id,
        name: name.to_owned(),
        constructor: vec![],
    }
}

fn strings(items: &[&str]) -> Vec<String> {
    items.iter().map(|item| (*item).to_owned()).collect()
}

#[test]
fn command_line_puts_the_program_first() {
    assert_eq!(
        command_line("node".to_owned(), strings(&["run", "-c", "node.toml"])),
        strings(&["node", "run", "-c", "node.toml"])
    );
    assert_eq!(command_line("node".to_owned(), vec![]), strings(&["node"]));
}

#[test]
fn new_builder_is_empty() {
    let builder = NodeBuilder::new();
    assert_eq!(builder.args, None);
    assert!(builder.external_runtimes.is_empty());
    assert!(builder.builtin_instances.is_empty());
    assert_eq!(
        builder.rust_runtime.check_deploy_status(
            ArtifactSpec { runtime_id: RustRuntime::ID, raw_spec: vec![1] },
            false
        ),
        Err(DeployError::WrongArtifact)
    );
}

#[test]
fn with_args_keeps_the_arguments() {
    let builder = NodeBuilder::with_args("/bin/node".to_owned(), strings(&["finalize", "a", "b"]));
    assert_eq!(builder.args, Some(strings(&["/bin/node", "finalize", "a", "b"])));
}

#[test]
fn development_node_runs_in_its_directory() {
    let builder = NodeBuilder::development_node::<String>("node".to_owned(), Ok("/tmp/x".to_owned()))
        .ok()
        .expect("the directory was made");
    assert_eq!(builder.args, Some(strings(&["node", "run-dev", "--artifacts-dir", "/tmp/x"])));

    let failed = NodeBuilder::development_node("node".to_owned(), Err("no space left".to_owned()));
    assert_eq!(failed.err(), Some("no space left".to_owned()));
}

#[test]
fn builder_collects_services_runtimes_and_instances() {
    let mut builder = NodeBuilder::new()
        .with_rust_service(factory(1))
        .with_external_runtime(1, RuntimeInstance::External(Box::new(Other)))
        .with_instance(instance(10, "ten", &[1]))
        .with_default_rust_service(DefaultInstance { factory: factory(2), instance: instance(11, "eleven", &[2]) });

    assert_eq!(builder.external_runtimes.len(), 1);
    assert_eq!(builder.external_runtimes[0].id, 1);
    let ids: Vec<u32> = builder.builtin_instances.iter().map(|instance| instance.id).collect();
    assert_eq!(ids, vec![10, 11]);
    for raw in [vec![1], vec![2]] {
        assert_eq!(
            builder.rust_runtime.start_deploy(ArtifactSpec { runtime_id: RustRuntime::ID, raw_spec: raw }),
            Ok(())
        );
    }
    assert_eq!(
        builder.rust_runtime.start_deploy(ArtifactSpec { runtime_id: RustRuntime::ID, raw_spec: vec![3] }),
        Err(DeployError::WrongArtifact)
    );
}

#[test]
fn genesis_config_starts_with_supervisor_and_explorer() {
    let consensus = ConsensusConfig { validator_keys: vec![PublicKey::new([4; 32])] };
    let config = NodeBuilder::genesis_config(
        consensus.clone(),
        NodeBuilder::supervisor_service(Mode::Decentralized),
        instance(0, "supervisor", b"s"),
        instance(2, "explorer", b"e"),
        vec![instance(10, "ten", b"x"), instance(11, "eleven", b"x")],
    );
    assert_eq!(config.consensus_config, consensus);
    assert_eq!(config.supervisor_config, SupervisorConfig { mode: Mode::Decentralized });
    assert_eq!(NodeBuilder::supervisor_service(Mode::Simple), SupervisorConfig { mode: Mode::Simple });
    let names: Vec<&str> = config.builtin_instances.iter().map(|instance| instance.name.as_str()).collect();
    assert_eq!(names, vec!["supervisor", "explorer", "ten", "eleven"]);
    let artifacts: Vec<Vec<u8>> = config.artifacts.iter().map(|artifact| artifact.raw_spec.clone()).collect();
    assert_eq!(artifacts, vec![b"s".to_vec(), b"e".to_vec(), b"x".to_vec(), b"x".to_vec()]);
    assert!(config.artifacts.iter().all(|artifact| artifact.runtime_id == RustRuntime::ID));
}

#[test]
fn only_a_run_command_gives_a_node() {
    let builder = NodeBuilder::with_args("node".to_owned(), strings(&["run"]));
    let launch = builder.node_to_run::<u8, String>(Ok(Some(7)));
    let (config, parts) = launch.ok().flatten().expect("a run command gives a node");
    assert_eq!(config, 7);
    assert_eq!(parts.args, Some(strings(&["node", "run"])));

    let builder = NodeBuilder::with_args("node".to_owned(), strings(&["finalize"]));
    assert!(matches!(builder.node_to_run::<u8, String>(Ok(None)), Ok(None)));

    let builder = NodeBuilder::with_args("node".to_owned(), strings(&["finalize"]));
    let failed = builder.node_to_run::<u8, String>(Err("bad command".to_owned()));
    assert_eq!(failed.err(), Some("bad command".to_owned()));
}

#[test]
fn launch_needs_a_run_command_and_a_database() {
    let launch = NodeBuilder::with_args("node".to_owned(), strings(&["run"]))
        .launch::<u8, u16, String>(Ok(Some(7)), Ok(500))
        .ok()
        .flatten()
        .expect("a run command with a database gives a node");
    assert_eq!(launch.run_config, 7);
    assert_eq!(launch.database, 500);
    assert_eq!(launch.parts.args, Some(strings(&["node", "run"])));

    let no_database = NodeBuilder::new().launch::<u8, u16, String>(Ok(Some(7)), Err("locked".to_owned()));
    assert_eq!(no_database.err(), Some("locked".to_owned()));

    let other = NodeBuilder::new().launch::<u8, u16, String>(Ok(None), Ok(500));
    assert!(matches!(other, Ok(None)));
    let other = NodeBuilder::new().launch::<u8, u16, String>(Ok(None), Err("locked".to_owned()));
    assert!(matches!(other, Ok(None)));

    let failed = NodeBuilder::new().launch::<u8, u16, String>(Err("bad command".to_owned()), Ok(500));
    assert_eq!(failed.err(), Some("bad command".to_owned()));
    let failed =
        NodeBuilder::new().launch::<u8, u16, String>(Err("bad command".to_owned()), Err("locked".to_owned()));
    assert_eq!(failed.err(), Some("bad command".to_owned()));
}

#[test]
fn builder_with_args_has_an_empty_runtime() {
    let mut builder = NodeBuilder::with_args("node".to_owned(), vec![]);
    assert!(builder.rust_runtime.services_api().is_empty());
    assert!(builder.rust_runtime.state_hashes(&Snapshot::new()).is_empty());
    assert_eq!(
        builder.rust_runtime.start_deploy(ArtifactSpec { runtime_id: RustRuntime::ID, raw_spec: vec![] }),
        Err(DeployError::WrongArtifact)
    );
}
