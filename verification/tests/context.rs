use rlink_kafka_sink::context::{
    cluster_config_source, ArgName, ClusterConfig, ClusterMode, ConfigSource, Context,
    ContextError, ManagerType, NodeArgs,
};
use rlink_kafka_sink::numeric::parse_u32;

fn no_args() -> NodeArgs {
    NodeArgs {
        cluster_mode: None,
        manager_type: None,
        application_id: None,
        task_manager_id: None,
        num_task_managers: None,
        cluster_config: None,
        coordinator_address: None,
        dashboard_path: None,
        yarn_manager_main_class: None,
        worker_process_path: None,
        memory_mb: None,
        v_cores: None,
        exclusion_nodes: None,
        image_path: None,
    }
}

fn parse(args: &NodeArgs) -> Result<Context, ContextError> {
    Context::parse_node_arg(
        args,
        "10.0.0.7".to_string(),
        "generated-app-id".to_string(),
        ClusterConfig::new_local(),
        "/work/rlink-dashboard.zip".to_string(),
        "/work/rlink-dashboard".to_string(),
    )
}

#[test]
fn defaults_are_local_coordinator() {
    let c = parse(&no_args()).unwrap();
    assert_eq!(c.cluster_mode, ClusterMode::Local);
    assert_eq!(c.manager_type, ManagerType::Coordinator);
    assert_eq!(c.application_id, "generated-app-id");
    assert_eq!(c.task_manager_id, "coordinator");
    assert_eq!(c.bind_ip, "10.0.0.7");
    assert_eq!(c.num_task_managers, 1);
    assert_eq!(c.coordinator_address, "");
    assert_eq!(c.dashboard_path, "/work/rlink-dashboard");
    assert_eq!(c.image_path, "");
}

#[test]
fn standalone_worker_reads_its_identity_from_args() {
    let mut args = no_args();
    args.cluster_mode = Some("standalone".to_string());
    args.manager_type = Some("worker".to_string());
    args.application_id = Some("app-1".to_string());
    args.task_manager_id = Some("tm-3".to_string());
    args.coordinator_address = Some("10.0.0.1:8080".to_string());
    args.dashboard_path = Some("/srv/dash".to_string());
    let c = parse(&args).unwrap();
    assert_eq!(c.cluster_mode, ClusterMode::Standalone);
    assert_eq!(c.manager_type, ManagerType::Worker);
    assert_eq!(c.application_id, "app-1");
    assert_eq!(c.task_manager_id, "tm-3");
    assert_eq!(c.num_task_managers, 0);
    assert_eq!(c.coordinator_address, "10.0.0.1:8080");
    assert_eq!(c.dashboard_path, "/srv/dash");
}

#[test]
fn standalone_coordinator_validates_num_task_managers() {
    let mut args = no_args();
    args.cluster_mode = Some("standalone".to_string());
    args.application_id = Some("app-1".to_string());

    assert_eq!(
        parse(&args),
        Err(ContextError::MissingArg(ArgName::NumTaskManagers))
    );

    args.num_task_managers = Some("abc".to_string());
    assert_eq!(
        parse(&args),
        Err(ContextError::InvalidNumber(ArgName::NumTaskManagers))
    );

    args.num_task_managers = Some("0".to_string());
    assert_eq!(parse(&args), Err(ContextError::NumTaskManagersTooSmall));

    args.num_task_managers = Some("5".to_string());
    let c = parse(&args).unwrap();
    assert_eq!(c.num_task_managers, 5);
}

#[test]
fn unknown_mode_and_type_are_rejected() {
    let mut args = no_args();
    args.cluster_mode = Some("mesos".to_string());
    assert_eq!(parse(&args), Err(ContextError::InvalidClusterMode));

    let mut args = no_args();
    args.manager_type = Some("boss".to_string());
    assert_eq!(parse(&args), Err(ContextError::InvalidManagerType));
}

#[test]
fn yarn_coordinator_reads_its_resources() {
    let mut args = no_args();
    args.cluster_mode = Some("yarn".to_string());
    args.application_id = Some("app-2".to_string());
    args.num_task_managers = Some("4".to_string());

    assert_eq!(
        parse(&args),
        Err(ContextError::MissingArg(ArgName::YarnManagerMainClass))
    );

    args.yarn_manager_main_class = Some("org.example.Main".to_string());
    args.worker_process_path = Some("/bin/worker".to_string());
    args.memory_mb = Some("1024".to_string());
    args.v_cores = Some("2".to_string());
    args.exclusion_nodes = Some("bad-node".to_string());
    let c = parse(&args).unwrap();
    assert_eq!(c.yarn_manager_main_class, "org.example.Main");
    assert_eq!(c.worker_process_path, "/bin/worker");
    assert_eq!(c.memory_mb, 1024);
    assert_eq!(c.v_cores, 2);
    assert_eq!(c.exclusion_nodes, "bad-node");
    // YARN uses the workspace dashboard archive.
    assert_eq!(c.dashboard_path, "/work/rlink-dashboard.zip");
}

#[test]
fn kubernetes_coordinator_needs_resources_and_image() {
    let mut args = no_args();
    args.cluster_mode = Some("kubernetes".to_string());
    args.application_id = Some("app-3".to_string());
    args.num_task_managers = Some("2".to_string());
    args.memory_mb = Some("2048".to_string());

    assert_eq!(parse(&args), Err(ContextError::MissingArg(ArgName::VCores)));

    args.v_cores = Some("eight".to_string());
    assert_eq!(parse(&args), Err(ContextError::InvalidNumber(ArgName::VCores)));

    args.v_cores = Some("8".to_string());
    assert_eq!(parse(&args), Err(ContextError::MissingArg(ArgName::ImagePath)));

    args.image_path = Some("registry/image:1".to_string());
    let c = parse(&args).unwrap();
    assert_eq!(c.memory_mb, 2048);
    assert_eq!(c.v_cores, 8);
    assert_eq!(c.image_path, "registry/image:1");
    assert_eq!(c.yarn_manager_main_class, "");
}

#[test]
fn config_source_follows_the_cluster_mode() {
    assert_eq!(
        cluster_config_source(ClusterMode::Local, &None),
        Ok(ConfigSource::LocalDefault)
    );
    assert_eq!(
        cluster_config_source(ClusterMode::Local, &Some("/etc/c.yaml".to_string())),
        Ok(ConfigSource::LoadFrom("/etc/c.yaml".to_string()))
    );
    assert_eq!(
        cluster_config_source(ClusterMode::Standalone, &None),
        Err(ContextError::MissingArg(ArgName::ClusterConfig))
    );
    assert_eq!(
        cluster_config_source(ClusterMode::Standalone, &Some("/etc/c.yaml".to_string())),
        Ok(ConfigSource::LoadFrom("/etc/c.yaml".to_string()))
    );
    assert_eq!(
        cluster_config_source(ClusterMode::YARN, &None),
        Ok(ConfigSource::LocalDefault)
    );
    assert_eq!(
        cluster_config_source(ClusterMode::Kubernetes, &Some("/x".to_string())),
        Ok(ConfigSource::LocalDefault)
    );
}

#[test]
fn decimal_arguments_parse_exactly() {
    assert_eq!(parse_u32("0"), Some(0));
    assert_eq!(parse_u32("007"), Some(7));
    assert_eq!(parse_u32("4294967295"), Some(u32::MAX));
    assert_eq!(parse_u32("4294967296"), None);
    assert_eq!(parse_u32(""), None);
    assert_eq!(parse_u32("12a"), None);
    assert_eq!(parse_u32("-1"), None);
    assert_eq!(parse_u32("+1"), None);
}
