//! What a node is made of before it is started: the command line it is
//! run with, the services of the native runtime, the other runtimes and
//! the service instances of the first block.
//!
//! Reading the command line, making the directory of a development node and
//! starting the node are the work of the program. It hands in what it has
//! read as plain values.

use vstd::prelude::*;
use crate::runtime::dispatcher::{RuntimeEntry, RuntimeInstance};
use crate::runtime::rust::{gained_factory, BoxedFactory, RustRuntime};
use crate::runtime::ArtifactSpec;
use crate::supervisor::{ConsensusConfig, Mode, SupervisorConfig};

verus! {

/// A service instance of the first block.
pub struct InstanceInitParams {
    /// The artifact that the instance is started from.
    pub artifact: ArtifactSpec,
    /// Identifier that the instance answers to.
    pub id: u32,
    /// Name of the instance.
    pub name: String,
    /// Arguments of the service's constructor.
    pub constructor: Vec<u8>,
}

/// A service of the native runtime with the instance that it is started as
/// when nothing else is asked for.
pub struct DefaultInstance {
    pub factory: BoxedFactory,
    pub instance: InstanceInitParams,
}

/// What the first block of the chain holds: the consensus configuration,
/// the configuration of the supervisor, the artifacts that are deployed and
/// the instances that run from the start.
pub struct GenesisConfig {
    pub consensus_config: ConsensusConfig,
    pub supervisor_config: SupervisorConfig,
    pub artifacts: Vec<ArtifactSpec>,
    pub builtin_instances: Vec<InstanceInitParams>,
}

/// What a node is started from: the configuration that the command has
/// left, the database that was opened for it, and what was collected.
pub struct Launch<C, D> {
    pub run_config: C,
    pub database: D,
    pub parts: NodeBuilder,
}

/// What comes of a command that was carried out with the outcome
/// `executed` (the configuration to run a node with, if the command asks for
/// a node) and of opening the database with the outcome `database`. A
/// command that failed ends with its error. A command that asks for no node
/// ends with no node, whatever became of the database. A command that asks
/// for a node ends with the error of the database if that did not open, and
/// else with what the node is started from.
pub open spec fn launch_outcome<C, D, E>(
    parts: NodeBuilder,
    executed: Result<Option<C>, E>,
    database: Result<D, E>,
) -> Result<Option<Launch<C, D>>, E> {
    match executed {
        Err(error) => Err(error),
        Ok(None) => Ok(None),
        Ok(Some(run_config)) => match database {
            Err(error) => Err(error),
            Ok(database) => Ok(Some(Launch { run_config, database, parts })),
        },
    }
}

/// The strings as sequences of characters, in their order.
pub open spec fn string_views(strings: Seq<String>) -> Seq<Seq<char>> {
    strings.map_values(|string: String| string@)
}

/// The command line of a node: the program's own path in front of the
/// arguments.
pub fn command_line(executable: String, args: Vec<String>) -> (all_args: Vec<String>)
    ensures
        string_views(all_args@) == seq![executable@] + string_views(args@),
{
    let mut all_args: Vec<String> = Vec::new();
    all_args.push(executable);
    let mut args = args;
    let ghost rest = args@;
    all_args.append(&mut args);
    proof {
        assert(string_views(all_args@) =~= seq![executable@] + string_views(rest));
    }
    all_args
}

/// Collects what a node is made of.
pub struct NodeBuilder {
    pub rust_runtime: RustRuntime,
    pub external_runtimes: Vec<RuntimeEntry>,
    pub builtin_instances: Vec<InstanceInitParams>,
    pub args: Option<Vec<String>>,
}

impl NodeBuilder {
    /// The command line that the node is run with, if one was given. A node
    /// without one takes the command line of the program.
    pub open spec fn command_line(&self) -> Option<Seq<Seq<char>>> {
        match self.args {
            Some(args) => Some(string_views(args@)),
            None => None,
        }
    }

    /// A builder without services, runtimes, instances and command line.
    pub fn new() -> (builder: NodeBuilder)
        ensures
            builder.rust_runtime.artifacts() == Seq::<Seq<u8>>::empty(),
            builder.rust_runtime.deployed_artifacts() == Seq::<Seq<u8>>::empty(),
            builder.rust_runtime.instance_ids() == Seq::<u32>::empty(),
            builder.rust_runtime.instance_names() == Seq::<Seq<char>>::empty(),
            builder.external_runtimes@ == Seq::<RuntimeEntry>::empty(),
            builder.builtin_instances@ == Seq::<InstanceInitParams>::empty(),
            builder.command_line() is None,
    {
        NodeBuilder {
            rust_runtime: RustRuntime::new(),
            external_runtimes: Vec::new(),
            builtin_instances: Vec::new(),
            args: None,
        }
    }

    /// A builder with the given command line. `executable` is the path of
    /// the program; it need not be among `args`.
    pub fn with_args(executable: String, args: Vec<String>) -> (builder: NodeBuilder)
        ensures
            builder.command_line() == Some(seq![executable@] + string_views(args@)),
            builder.rust_runtime.artifacts() == Seq::<Seq<u8>>::empty(),
            builder.rust_runtime.deployed_artifacts() == Seq::<Seq<u8>>::empty(),
            builder.rust_runtime.instance_ids() == Seq::<u32>::empty(),
            builder.rust_runtime.instance_names() == Seq::<Seq<char>>::empty(),
            builder.external_runtimes@ == Seq::<RuntimeEntry>::empty(),
            builder.builtin_instances@ == Seq::<InstanceInitParams>::empty(),
    {
        let mut builder = NodeBuilder::new();
        builder.args = Some(command_line(executable, args));
        builder
    }

    /// A builder for a network of one node with default settings.
    /// `artifacts_dir` is what came of making the directory in which the
    /// node keeps its data: its path, or the error for which it could not be
    /// made. Without the directory there is no builder, and the error is
    /// handed on.
    pub fn development_node<E>(executable: String, artifacts_dir: Result<String, E>) -> (res: Result<NodeBuilder, E>)
        ensures
            match artifacts_dir {
                Ok(dir) => res matches Ok(builder) && {
                    &&& builder.command_line() == Some(seq![executable@, "run-dev"@, "--artifacts-dir"@, dir@])
                    &&& builder.rust_runtime.artifacts() == Seq::<Seq<u8>>::empty()
                    &&& builder.rust_runtime.deployed_artifacts() == Seq::<Seq<u8>>::empty()
                    &&& builder.rust_runtime.instance_ids() == Seq::<u32>::empty()
                    &&& builder.rust_runtime.instance_names() == Seq::<Seq<char>>::empty()
                    &&& builder.external_runtimes@ == Seq::<RuntimeEntry>::empty()
                    &&& builder.builtin_instances@ == Seq::<InstanceInitParams>::empty()
                },
                Err(error) => res matches Err(failure) && failure == error,
            },
    {
        match artifacts_dir {
            Ok(dir) => {
                let mut args: Vec<String> = Vec::new();
                args.push("run-dev".to_owned());
                args.push("--artifacts-dir".to_owned());
                args.push(dir);
                let builder = NodeBuilder::with_args(executable, args);
                proof {
                    assert(seq![executable@] + string_views(args@) =~= seq![
                        executable@,
                        "run-dev"@,
                        "--artifacts-dir"@,
                        dir@,
                    ]);
                }
                Ok(builder)
            },
            Err(error) => Err(error),
        }
    }

    /// Adds a service to the services of the native runtime.
    pub fn with_rust_service(self, service: BoxedFactory) -> (builder: NodeBuilder)
        ensures
            gained_factory(self.rust_runtime, builder.rust_runtime, service),
            builder.external_runtimes == self.external_runtimes,
            builder.builtin_instances == self.builtin_instances,
            builder.args == self.args,
    {
        let mut builder = self;
        builder.rust_runtime.add_service_factory(service);
        builder
    }

    /// Adds a runtime besides the native one, which is there in any case.
    pub fn with_external_runtime(self, id: u32, runtime: RuntimeInstance) -> (builder: NodeBuilder)
        ensures
            builder.external_runtimes@ == self.external_runtimes@.push(RuntimeEntry { id, runtime }),
            builder.rust_runtime == self.rust_runtime,
            builder.builtin_instances == self.builtin_instances,
            builder.args == self.args,
    {
        let mut builder = self;
        let entry = RuntimeEntry { id, runtime };
        builder.external_runtimes.push(entry);
        builder
    }

    /// Adds a service instance that runs from the first block on. For a
    /// service of the native runtime the service itself is added with
    /// `with_rust_service`.
    pub fn with_instance(self, instance: InstanceInitParams) -> (builder: NodeBuilder)
        ensures
            builder.builtin_instances@ == self.builtin_instances@.push(instance),
            builder.rust_runtime == self.rust_runtime,
            builder.external_runtimes == self.external_runtimes,
            builder.args == self.args,
    {
        let mut builder = self;
        builder.builtin_instances.push(instance);
        builder
    }

    /// Adds a service of the native runtime together with the instance
    /// that it is started as when nothing else is asked for.
    pub fn with_default_rust_service(self, service: DefaultInstance) -> (builder: NodeBuilder)
        ensures
            builder.builtin_instances@ == self.builtin_instances@.push(service.instance),
            gained_factory(self.rust_runtime, builder.rust_runtime, service.factory),
            builder.external_runtimes == self.external_runtimes,
            builder.args == self.args,
    {
        self.with_instance(service.instance).with_rust_service(service.factory)
    }

    /// Whether a node is to be made after a command was carried out with
    /// the outcome `executed`. A command that failed ends with its error. A
    /// command that runs the node leaves its configuration (`Some`), and the
    /// node is made from it and from what was collected. Every other command
    /// is done once it has been carried out, and no node is made.
    pub fn node_to_run<C, E>(self, executed: Result<Option<C>, E>) -> (res: Result<Option<(C, NodeBuilder)>, E>)
        ensures
            res == match executed {
                Err(error) => Err::<Option<(C, NodeBuilder)>, E>(error),
                Ok(None) => Ok(None),
                Ok(Some(run_config)) => Ok(Some((run_config, self))),
            },
    {
        match executed {
            Err(error) => Err(error),
            Ok(None) => Ok(None),
            Ok(Some(run_config)) => Ok(Some((run_config, self))),
        }
    }

    /// What the node is started from, if it is started, after a command was
    /// carried out with the outcome `executed` and the database was opened
    /// with the outcome `database`.
    pub fn launch<C, D, E>(self, executed: Result<Option<C>, E>, database: Result<D, E>) -> (res: Result<
        Option<Launch<C, D>>,
        E,
    >)
        ensures
            res == launch_outcome(self, executed, database),
    {
        match self.node_to_run(executed) {
            Err(error) => Err(error),
            Ok(None) => Ok(None),
            Ok(Some((run_config, parts))) => match database {
                Err(error) => Err(error),
                Ok(database) => Ok(Some(Launch { run_config, database, parts })),
            },
        }
    }

    /// The configuration of the supervisor for a network that takes its
    /// decisions in the given mode.
    pub fn supervisor_service(mode: Mode) -> (config: SupervisorConfig)
        ensures
            config == (SupervisorConfig { mode }),
    {
        SupervisorConfig { mode }
    }

    /// The first block: it is built on the given consensus configuration
    /// and configuration of the supervisor, and holds the supervisor, then
    /// the explorer, then the instances that were added, in the order in
    /// which they were added. Each instance brings its artifact.
    pub fn genesis_config(
        consensus_config: ConsensusConfig,
        supervisor_config: SupervisorConfig,
        supervisor: InstanceInitParams,
        explorer: InstanceInitParams,
        default_instances: Vec<InstanceInitParams>,
    ) -> (config: GenesisConfig)
        ensures
            config.consensus_config == consensus_config,
            config.supervisor_config == supervisor_config,
            config.builtin_instances@ == seq![supervisor, explorer] + default_instances@,
            config.artifacts@.len() == config.builtin_instances@.len(),
            forall|i: int|
                0 <= i < config.artifacts@.len() ==> (#[trigger] config.artifacts@[i]).runtime_id
                    == config.builtin_instances@[i].artifact.runtime_id && config.artifacts@[i].raw_spec@
                    == config.builtin_instances@[i].artifact.raw_spec@,
    {
        let mut instances: Vec<InstanceInitParams> = Vec::new();
        instances.push(supervisor);
        instances.push(explorer);
        let mut rest = default_instances;
        instances.append(&mut rest);
        let mut artifacts: Vec<ArtifactSpec> = Vec::new();
        let mut i: usize = 0;
        while i < instances.len()
            invariant
                i <= instances@.len(),
                artifacts@.len() == i,
                forall|j: int|
                    0 <= j < i ==> (#[trigger] artifacts@[j]).runtime_id == instances@[j].artifact.runtime_id
                        && artifacts@[j].raw_spec@ == instances@[j].artifact.raw_spec@,
            decreases instances@.len() - i,
        {
            let artifact = ArtifactSpec {
                runtime_id: instances[i].artifact.runtime_id,
                raw_spec: crate::bytes::copy_bytes(&instances[i].artifact.raw_spec),
            };
            artifacts.push(artifact);
            i += 1;
        }
        GenesisConfig { consensus_config, supervisor_config, artifacts, builtin_instances: instances }
    }
}

} // verus!
