use vstd::prelude::*;

use crate::numeric::{all_digits, decimal_value, parse_u32};

verus! {

/// Where the process runs: locally, in a standalone cluster, or under a
/// cluster manager.
#[derive(Clone, Copy, Debug, PartialEq, Eq, Structural)]
pub enum ClusterMode {
    Local,
    Standalone,
    YARN,
    Kubernetes,
}

/// The process's role in the cluster.
#[derive(Clone, Copy, Debug, PartialEq, Eq, Structural)]
pub enum ManagerType {
    /// The coordinating manager of the application.
    Coordinator,
    /// A task-running worker.
    Worker,
}

/// The process arguments the bootstrap reads, by name.
#[derive(Clone, Copy, Debug, PartialEq, Eq, Structural)]
pub enum ArgName {
    ApplicationId,
    TaskManagerId,
    NumTaskManagers,
    ClusterConfig,
    CoordinatorAddress,
    YarnManagerMainClass,
    WorkerProcessPath,
    MemoryMb,
    VCores,
    ExclusionNodes,
    ImagePath,
}

/// Why assembling the run context failed.
#[derive(Clone, Copy, Debug, PartialEq, Eq, Structural)]
pub enum ContextError {
    /// A required argument was not supplied.
    MissingArg(ArgName),
    /// The `cluster_mode` argument is not an accepted spelling.
    InvalidClusterMode,
    /// The `manager_type` argument is not an accepted spelling.
    InvalidManagerType,
    /// A numeric argument is not a decimal number that fits in a `u32`.
    InvalidNumber(ArgName),
    /// `num_task_managers` must be at least one.
    NumTaskManagersTooSmall,
}

/// Cluster connection settings as an opaque key/value map (for instance the
/// broker bootstrap endpoints). Assembled by the bootstrap collaborator:
/// either loaded from a configuration file or the local default.
#[derive(Clone, Debug, PartialEq, Eq)]
pub struct ClusterConfig {
    /// The settings entries, in file order.
    pub settings: Vec<(String, String)>,
}

impl ClusterConfig {
    /// The default configuration used when no file is given: no entries.
    pub fn new_local() -> (r: ClusterConfig)
        ensures
            r.settings@.len() == 0,
    {
        ClusterConfig { settings: Vec::new() }
    }
}

/// Where the cluster configuration comes from.
#[derive(Clone, Debug, PartialEq, Eq)]
pub enum ConfigSource {
    /// Load the configuration file at this path.
    LoadFrom(String),
    /// Use `ClusterConfig::new_local()`.
    LocalDefault,
}

/// The raw process arguments, each as supplied or absent. The caller reads
/// them from the process's command line and hands them over unparsed.
pub struct NodeArgs {
    pub cluster_mode: Option<String>,
    pub manager_type: Option<String>,
    pub application_id: Option<String>,
    pub task_manager_id: Option<String>,
    pub num_task_managers: Option<String>,
    pub cluster_config: Option<String>,
    pub coordinator_address: Option<String>,
    pub dashboard_path: Option<String>,
    pub yarn_manager_main_class: Option<String>,
    pub worker_process_path: Option<String>,
    pub memory_mb: Option<String>,
    pub v_cores: Option<String>,
    pub exclusion_nodes: Option<String>,
    pub image_path: Option<String>,
}

/// Process run context: everything the process needs to know about its own
/// role, its peers and its resources, resolved once at startup.
#[derive(Clone, Debug, PartialEq, Eq)]
pub struct Context {
    pub application_id: String,
    /// The coordinator's own id, or the worker's task manager id.
    pub task_manager_id: String,
    pub bind_ip: String,
    pub cluster_mode: ClusterMode,
    pub num_task_managers: u32,
    pub manager_type: ManagerType,
    pub cluster_config: ClusterConfig,
    /// Effective only for workers; the coordinator leaves it empty.
    pub coordinator_address: String,
    pub dashboard_path: String,
    pub yarn_manager_main_class: String,
    pub worker_process_path: String,
    pub memory_mb: u32,
    pub v_cores: u32,
    pub exclusion_nodes: String,
    pub image_path: String,
}

/// The mathematical content of a `Context`: every string as its character
/// sequence.
pub ghost struct ContextView {
    pub application_id: Seq<char>,
    pub task_manager_id: Seq<char>,
    pub bind_ip: Seq<char>,
    pub cluster_mode: ClusterMode,
    pub num_task_managers: u32,
    pub manager_type: ManagerType,
    pub cluster_config: ClusterConfig,
    pub coordinator_address: Seq<char>,
    pub dashboard_path: Seq<char>,
    pub yarn_manager_main_class: Seq<char>,
    pub worker_process_path: Seq<char>,
    pub memory_mb: u32,
    pub v_cores: u32,
    pub exclusion_nodes: Seq<char>,
    pub image_path: Seq<char>,
}

impl View for Context {
    type V = ContextView;

    open spec fn view(&self) -> ContextView {
        ContextView {
            application_id: self.application_id@,
            task_manager_id: self.task_manager_id@,
            bind_ip: self.bind_ip@,
            cluster_mode: self.cluster_mode,
            num_task_managers: self.num_task_managers,
            manager_type: self.manager_type,
            cluster_config: self.cluster_config,
            coordinator_address: self.coordinator_address@,
            dashboard_path: self.dashboard_path@,
            yarn_manager_main_class: self.yarn_manager_main_class@,
            worker_process_path: self.worker_process_path@,
            memory_mb: self.memory_mb,
            v_cores: self.v_cores,
            exclusion_nodes: self.exclusion_nodes@,
            image_path: self.image_path@,
        }
    }
}

/// The cluster mode a `cluster_mode` argument denotes.
pub open spec fn cluster_mode_of(s: Seq<char>) -> Result<ClusterMode, ContextError> {
    if s == "local"@ {
        Ok(ClusterMode::Local)
    } else if s == "standalone"@ {
        Ok(ClusterMode::Standalone)
    } else if s == "yarn"@ {
        Ok(ClusterMode::YARN)
    } else if s == "kubernetes"@ {
        Ok(ClusterMode::Kubernetes)
    } else {
        Err(ContextError::InvalidClusterMode)
    }
}

/// The manager type a `manager_type` argument denotes.
pub open spec fn manager_type_of(s: Seq<char>) -> Result<ManagerType, ContextError> {
    if s == "coordinator"@ {
        Ok(ManagerType::Coordinator)
    } else if s == "worker"@ {
        Ok(ManagerType::Worker)
    } else {
        Err(ContextError::InvalidManagerType)
    }
}

/// A numeric argument's value: present, all decimal digits, fitting a `u32`.
pub open spec fn spec_u32_arg(arg: Option<String>, name: ArgName) -> Result<int, ContextError> {
    match arg {
        Option::None => Err(ContextError::MissingArg(name)),
        Option::Some(s) => if s@.len() > 0 && all_digits(s@) && decimal_value(s@) <= u32::MAX {
            Ok(decimal_value(s@))
        } else {
            Err(ContextError::InvalidNumber(name))
        },
    }
}

impl ClusterMode {
    /// Parse a `cluster_mode` argument; the accepted spellings are `local`,
    /// `standalone`, `yarn` and `kubernetes`.
    pub fn parse(s: &String) -> (r: Result<ClusterMode, ContextError>)
        ensures
            r == cluster_mode_of(s@),
    {
        if *s == String::from_str("local") {
            Ok(ClusterMode::Local)
        } else if *s == String::from_str("standalone") {
            Ok(ClusterMode::Standalone)
        } else if *s == String::from_str("yarn") {
            Ok(ClusterMode::YARN)
        } else if *s == String::from_str("kubernetes") {
            Ok(ClusterMode::Kubernetes)
        } else {
            Err(ContextError::InvalidClusterMode)
        }
    }
}

impl ManagerType {
    /// Parse a `manager_type` argument; the accepted spellings are
    /// `coordinator` and `worker`.
    pub fn parse(s: &String) -> (r: Result<ManagerType, ContextError>)
        ensures
            r == manager_type_of(s@),
    {
        if *s == String::from_str("coordinator") {
            Ok(ManagerType::Coordinator)
        } else if *s == String::from_str("worker") {
            Ok(ManagerType::Worker)
        } else {
            Err(ContextError::InvalidManagerType)
        }
    }
}

/// Where the cluster configuration must come from, by cluster mode: locally
/// a given file is honoured but optional, a standalone cluster requires one,
/// and under a cluster manager the local default is always used.
pub fn cluster_config_source(mode: ClusterMode, arg: &Option<String>) -> (r: Result<
    ConfigSource,
    ContextError,
>)
    ensures
        r is Err <==> mode is Standalone && arg is None,
        r matches Err(e) ==> e == ContextError::MissingArg(ArgName::ClusterConfig),
        (mode is Local || mode is Standalone) ==> (match *arg {
            Option::Some(p) => r matches Ok(src) && src matches ConfigSource::LoadFrom(q) && q@
                == p@,
            Option::None => true,
        }),
        mode is Local && arg is None ==> r == Ok::<ConfigSource, ContextError>(
            ConfigSource::LocalDefault,
        ),
        (mode is YARN || mode is Kubernetes) ==> r == Ok::<ConfigSource, ContextError>(
            ConfigSource::LocalDefault,
        ),
{
    match mode {
        ClusterMode::Local => match arg {
            Option::Some(p) => Ok(ConfigSource::LoadFrom(p.clone())),
            Option::None => Ok(ConfigSource::LocalDefault),
        },
        ClusterMode::Standalone => match arg {
            Option::Some(p) => Ok(ConfigSource::LoadFrom(p.clone())),
            Option::None => Err(ContextError::MissingArg(ArgName::ClusterConfig)),
        },
        ClusterMode::YARN => Ok(ConfigSource::LocalDefault),
        ClusterMode::Kubernetes => Ok(ConfigSource::LocalDefault),
    }
}

/// What `Context::parse_node_arg` returns, step by step over the raw
/// arguments and the values its collaborators supplied.
pub open spec fn spec_parse_node_arg(
    args: NodeArgs,
    bind_ip: Seq<char>,
    generated_application_id: Seq<char>,
    cluster_config: ClusterConfig,
    dashboard_workspace_zip: Seq<char>,
    dashboard_workspace_dir: Seq<char>,
) -> Result<ContextView, ContextError> {
    let mode_r = match args.cluster_mode {
        Option::Some(s) => cluster_mode_of(s@),
        Option::None => Ok(ClusterMode::Local),
    };
    match mode_r {
        Err(e) => Err(e),
        Ok(cluster_mode) => {
            let mtype_r = match args.manager_type {
                Option::Some(s) => manager_type_of(s@),
                Option::None => Ok(ManagerType::Coordinator),
            };
            match mtype_r {
                Err(e) => Err(e),
                Ok(manager_type) => {
                    let app_r: Result<Seq<char>, ContextError> = match cluster_mode {
                        ClusterMode::Local => Ok(generated_application_id),
                        _ => match args.application_id {
                            Option::Some(s) => Ok(s@),
                            Option::None => Err(
                                ContextError::MissingArg(ArgName::ApplicationId),
                            ),
                        },
                    };
                    match app_r {
                        Err(e) => Err(e),
                        Ok(application_id) => {
                            let tm_r: Result<Seq<char>, ContextError> = match manager_type {
                                ManagerType::Coordinator => Ok("coordinator"@),
                                ManagerType::Worker => match args.task_manager_id {
                                    Option::Some(s) => Ok(s@),
                                    Option::None => Err(
                                        ContextError::MissingArg(ArgName::TaskManagerId),
                                    ),
                                },
                            };
                            match tm_r {
                                Err(e) => Err(e),
                                Ok(task_manager_id) => {
                                    let num_r: Result<int, ContextError> = match manager_type {
                                        ManagerType::Coordinator => match cluster_mode {
                                            ClusterMode::Local => Ok(1),
                                            _ => match spec_u32_arg(
                                                args.num_task_managers,
                                                ArgName::NumTaskManagers,
                                            ) {
                                                Err(e) => Err(e),
                                                Ok(v) => if v < 1 {
                                                    Err(ContextError::NumTaskManagersTooSmall)
                                                } else {
                                                    Ok(v)
                                                },
                                            },
                                        },
                                        ManagerType::Worker => Ok(0),
                                    };
                                    match num_r {
                                        Err(e) => Err(e),
                                        Ok(num_task_managers) => spec_parse_node_arg_rest(
                                            args,
                                            bind_ip,
                                            cluster_config,
                                            dashboard_workspace_zip,
                                            dashboard_workspace_dir,
                                            cluster_mode,
                                            manager_type,
                                            application_id,
                                            task_manager_id,
                                            num_task_managers as u32,
                                        ),
                                    }
                                },
                            }
                        },
                    }
                },
            }
        },
    }
}

/// The tail of `spec_parse_node_arg`: the manager-specific resources, the
/// dashboard path, the coordinator address and the image path.
pub open spec fn spec_parse_node_arg_rest(
    args: NodeArgs,
    bind_ip: Seq<char>,
    cluster_config: ClusterConfig,
    dashboard_workspace_zip: Seq<char>,
    dashboard_workspace_dir: Seq<char>,
    cluster_mode: ClusterMode,
    manager_type: ManagerType,
    application_id: Seq<char>,
    task_manager_id: Seq<char>,
    num_task_managers: u32,
) -> Result<ContextView, ContextError> {
    let yarn_r: Result<(Seq<char>, Seq<char>, int, int, Seq<char>), ContextError> = match
        cluster_mode {
        ClusterMode::YARN => match manager_type {
            ManagerType::Coordinator => match args.yarn_manager_main_class {
                Option::None => Err(ContextError::MissingArg(ArgName::YarnManagerMainClass)),
                Option::Some(ymc) => match args.worker_process_path {
                    Option::None => Err(ContextError::MissingArg(ArgName::WorkerProcessPath)),
                    Option::Some(wpp) => match spec_u32_arg(args.memory_mb, ArgName::MemoryMb) {
                        Err(e) => Err(e),
                        Ok(memory_mb) => match spec_u32_arg(args.v_cores, ArgName::VCores) {
                            Err(e) => Err(e),
                            Ok(v_cores) => match args.exclusion_nodes {
                                Option::None => Err(
                                    ContextError::MissingArg(ArgName::ExclusionNodes),
                                ),
                                Option::Some(excl) => Ok(
                                    (ymc@, wpp@, memory_mb, v_cores, excl@),
                                ),
                            },
                        },
                    },
                },
            },
            _ => Ok((Seq::empty(), Seq::empty(), 0, 0, Seq::empty())),
        },
        ClusterMode::Kubernetes => match manager_type {
            ManagerType::Coordinator => match spec_u32_arg(args.memory_mb, ArgName::MemoryMb) {
                Err(e) => Err(e),
                Ok(memory_mb) => match spec_u32_arg(args.v_cores, ArgName::VCores) {
                    Err(e) => Err(e),
                    Ok(v_cores) => Ok((Seq::empty(), Seq::empty(), memory_mb, v_cores, Seq::empty())),
                },
            },
            _ => Ok((Seq::empty(), Seq::empty(), 0, 0, Seq::empty())),
        },
        _ => Ok((Seq::empty(), Seq::empty(), 0, 0, Seq::empty())),
    };
    match yarn_r {
        Err(e) => Err(e),
        Ok(yarn) => {
            let dashboard_path: Seq<char> = match cluster_mode {
                ClusterMode::YARN => dashboard_workspace_zip,
                ClusterMode::Local => dashboard_workspace_dir,
                _ => match args.dashboard_path {
                    Option::Some(s) => s@,
                    Option::None => Seq::empty(),
                },
            };
            let coord_r: Result<Seq<char>, ContextError> = match manager_type {
                ManagerType::Coordinator => Ok(Seq::empty()),
                _ => match args.coordinator_address {
                    Option::Some(s) => Ok(s@),
                    Option::None => Err(ContextError::MissingArg(ArgName::CoordinatorAddress)),
                },
            };
            match coord_r {
                Err(e) => Err(e),
                Ok(coordinator_address) => {
                    let image_r: Result<Seq<char>, ContextError> = match cluster_mode {
                        ClusterMode::Kubernetes => match manager_type {
                            ManagerType::Coordinator => match args.image_path {
                                Option::Some(s) => Ok(s@),
                                Option::None => Err(
                                    ContextError::MissingArg(ArgName::ImagePath),
                                ),
                            },
                            _ => Ok(Seq::empty()),
                        },
                        _ => Ok(Seq::empty()),
                    };
                    match image_r {
                        Err(e) => Err(e),
                        Ok(image_path) => Ok(
                            ContextView {
                                application_id,
                                task_manager_id,
                                bind_ip,
                                cluster_mode,
                                num_task_managers,
                                manager_type,
                                cluster_config,
                                coordinator_address,
                                dashboard_path,
                                yarn_manager_main_class: yarn.0,
                                worker_process_path: yarn.1,
                                memory_mb: yarn.2 as u32,
                                v_cores: yarn.3 as u32,
                                exclusion_nodes: yarn.4,
                                image_path,
                            },
                        ),
                    }
                },
            }
        },
    }
}

impl Context {
    /// Assemble a run context from already-resolved values.
    pub fn new(
        application_id: String,
        task_manager_id: String,
        bind_ip: String,
        cluster_mode: ClusterMode,
        num_task_managers: u32,
        manager_type: ManagerType,
        cluster_config: ClusterConfig,
        coordinator_address: String,
        dashboard_path: String,
        yarn_manager_main_class: String,
        worker_process_path: String,
        memory_mb: u32,
        v_cores: u32,
        exclusion_nodes: String,
        image_path: String,
    ) -> (r: Context)
        ensures
            r.application_id == application_id,
            r.task_manager_id == task_manager_id,
            r.bind_ip == bind_ip,
            r.cluster_mode == cluster_mode,
            r.num_task_managers == num_task_managers,
            r.manager_type == manager_type,
            r.cluster_config == cluster_config,
            r.coordinator_address == coordinator_address,
            r.dashboard_path == dashboard_path,
            r.yarn_manager_main_class == yarn_manager_main_class,
            r.worker_process_path == worker_process_path,
            r.memory_mb == memory_mb,
            r.v_cores == v_cores,
            r.exclusion_nodes == exclusion_nodes,
            r.image_path == image_path,
    {
        Context {
            application_id,
            task_manager_id,
            bind_ip,
            cluster_mode,
            num_task_managers,
            manager_type,
            cluster_config,
            coordinator_address,
            dashboard_path,
            yarn_manager_main_class,
            worker_process_path,
            memory_mb,
            v_cores,
            exclusion_nodes,
            image_path,
        }
    }

    /// Resolve the run context from the raw process arguments.
    ///
    /// The caller supplies what only its collaborators can know: the
    /// service IP to bind (`bind_ip`), the generated time-based application
    /// id used in local mode, the cluster configuration loaded as
    /// [`cluster_config_source`] directed, and the two workspace-derived
    /// dashboard paths (the resolved `rlink-dashboard.zip` link for the
    /// cluster-manager case and the `rlink-dashboard` directory for the
    /// local case). Returns exactly what [`spec_parse_node_arg`] states,
    /// error for error.
    pub fn parse_node_arg(
        args: &NodeArgs,
        bind_ip: String,
        generated_application_id: String,
        cluster_config: ClusterConfig,
        dashboard_workspace_zip: String,
        dashboard_workspace_dir: String,
    ) -> (r: Result<Context, ContextError>)
        ensures
            ({
                let s = spec_parse_node_arg(
                    *args,
                    bind_ip@,
                    generated_application_id@,
                    cluster_config,
                    dashboard_workspace_zip@,
                    dashboard_workspace_dir@,
                );
                match r {
                    Ok(c) => s matches Ok(v) && c@ == v,
                    Err(e) => s matches Err(e2) && e2 == e,
                }
            }),
    {
        let cluster_mode = match &args.cluster_mode {
            Option::Some(s) => match ClusterMode::parse(s) {
                Ok(m) => m,
                Err(e) => {
                    return Err(e);
                },
            },
            Option::None => ClusterMode::Local,
        };
        let manager_type = match &args.manager_type {
            Option::Some(s) => match ManagerType::parse(s) {
                Ok(m) => m,
                Err(e) => {
                    return Err(e);
                },
            },
            Option::None => ManagerType::Coordinator,
        };
        let application_id = match cluster_mode {
            ClusterMode::Local => generated_application_id,
            _ => match &args.application_id {
                Option::Some(s) => s.clone(),
                Option::None => {
                    return Err(ContextError::MissingArg(ArgName::ApplicationId));
                },
            },
        };
        let task_manager_id = match manager_type {
            ManagerType::Coordinator => String::from_str("coordinator"),
            ManagerType::Worker => match &args.task_manager_id {
                Option::Some(s) => s.clone(),
                Option::None => {
                    return Err(ContextError::MissingArg(ArgName::TaskManagerId));
                },
            },
        };
        let num_task_managers: u32 = match manager_type {
            ManagerType::Coordinator => match cluster_mode {
                ClusterMode::Local => 1,
                _ => match &args.num_task_managers {
                    Option::None => {
                        return Err(ContextError::MissingArg(ArgName::NumTaskManagers));
                    },
                    Option::Some(s) => match parse_u32(s.as_str()) {
                        Option::None => {
                            return Err(ContextError::InvalidNumber(ArgName::NumTaskManagers));
                        },
                        Option::Some(v) => {
                            if v < 1 {
                                return Err(ContextError::NumTaskManagersTooSmall);
                            }
                            v
                        },
                    },
                },
            },
            ManagerType::Worker => 0,
        };
        let (yarn_manager_main_class, worker_process_path, memory_mb, v_cores, exclusion_nodes):
            (String, String, u32, u32, String) = match cluster_mode {
            ClusterMode::YARN => match manager_type {
                ManagerType::Coordinator => {
                    let ymc = match &args.yarn_manager_main_class {
                        Option::Some(s) => s.clone(),
                        Option::None => {
                            return Err(ContextError::MissingArg(ArgName::YarnManagerMainClass));
                        },
                    };
                    let wpp = match &args.worker_process_path {
                        Option::Some(s) => s.clone(),
                        Option::None => {
                            return Err(ContextError::MissingArg(ArgName::WorkerProcessPath));
                        },
                    };
                    let memory_mb = match u32_arg(&args.memory_mb, ArgName::MemoryMb) {
                        Ok(v) => v,
                        Err(e) => {
                            return Err(e);
                        },
                    };
                    let v_cores = match u32_arg(&args.v_cores, ArgName::VCores) {
                        Ok(v) => v,
                        Err(e) => {
                            return Err(e);
                        },
                    };
                    let excl = match &args.exclusion_nodes {
                        Option::Some(s) => s.clone(),
                        Option::None => {
                            return Err(ContextError::MissingArg(ArgName::ExclusionNodes));
                        },
                    };
                    (ymc, wpp, memory_mb, v_cores, excl)
                },
                _ => (String::new(), String::new(), 0, 0, String::new()),
            },
            ClusterMode::Kubernetes => match manager_type {
                ManagerType::Coordinator => {
                    let memory_mb = match u32_arg(&args.memory_mb, ArgName::MemoryMb) {
                        Ok(v) => v,
                        Err(e) => {
                            return Err(e);
                        },
                    };
                    let v_cores = match u32_arg(&args.v_cores, ArgName::VCores) {
                        Ok(v) => v,
                        Err(e) => {
                            return Err(e);
                        },
                    };
                    (String::new(), String::new(), memory_mb, v_cores, String::new())
                },
                _ => (String::new(), String::new(), 0, 0, String::new()),
            },
            _ => (String::new(), String::new(), 0, 0, String::new()),
        };
        let dashboard_path = match cluster_mode {
            ClusterMode::YARN => dashboard_workspace_zip,
            ClusterMode::Local => dashboard_workspace_dir,
            _ => match &args.dashboard_path {
                Option::Some(s) => s.clone(),
                Option::None => String::new(),
            },
        };
        let coordinator_address = match manager_type {
            ManagerType::Coordinator => String::new(),
            _ => match &args.coordinator_address {
                Option::Some(s) => s.clone(),
                Option::None => {
                    return Err(ContextError::MissingArg(ArgName::CoordinatorAddress));
                },
            },
        };
        let image_path = match cluster_mode {
            ClusterMode::Kubernetes => match manager_type {
                ManagerType::Coordinator => match &args.image_path {
                    Option::Some(s) => s.clone(),
                    Option::None => {
                        return Err(ContextError::MissingArg(ArgName::ImagePath));
                    },
                },
                _ => String::new(),
            },
            _ => String::new(),
        };
        Ok(
            Context::new(
                application_id,
                task_manager_id,
                bind_ip,
                cluster_mode,
                num_task_managers,
                manager_type,
                cluster_config,
                coordinator_address,
                dashboard_path,
                yarn_manager_main_class,
                worker_process_path,
                memory_mb,
                v_cores,
                exclusion_nodes,
                image_path,
            ),
        )
    }
}

/// Read one numeric argument, as [`spec_u32_arg`] states.
fn u32_arg(arg: &Option<String>, name: ArgName) -> (r: Result<u32, ContextError>)
    ensures
        r matches Ok(v) ==> spec_u32_arg(*arg, name) == Ok::<int, ContextError>(v as int),
        r matches Err(e) ==> spec_u32_arg(*arg, name) == Err::<int, ContextError>(e),
{
    match arg {
        Option::None => Err(ContextError::MissingArg(name)),
        Option::Some(s) => match parse_u32(s.as_str()) {
            Option::Some(v) => Ok(v),
            Option::None => Err(ContextError::InvalidNumber(name)),
        },
    }
}

} // verus!
