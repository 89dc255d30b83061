use ecs_pty::ecs::{
    exec_command_args, first_task_arn, main_cluster_arn, profile_names, service_batches, ClusterInfo, AWS_PROGRAM,
};

fn cluster(name: Option<&str>, arn: Option<&str>) -> ClusterInfo {
    ClusterInfo { name: name.map(|s| s.to_string()), arn: arn.map(|s| s.to_string()) }
}

#[test]
fn exec_arguments_in_order() {
    let a = exec_command_args("dt-infra", "eu-north-1", "arn:c", "arn:t", "app", "bash");
    assert_eq!(AWS_PROGRAM, "aws");
    assert_eq!(
        a,
        vec![
            "--profile", "dt-infra", "--region", "eu-north-1", "ecs", "execute-command", "--cluster", "arn:c",
            "--task", "arn:t", "--container", "app", "--interactive", "--command", "bash",
        ]
    );
}

#[test]
fn first_main_cluster_with_arn_is_chosen() {
    let cs = vec![
        cluster(Some("staging"), Some("arn:1")),
        cluster(Some("prod-main"), None),
        cluster(None, Some("arn:3")),
        cluster(Some("dev-main"), Some("arn:4")),
        cluster(Some("ops-main"), Some("arn:5")),
    ];
    assert_eq!(main_cluster_arn(&cs), "arn:4");
}

#[test]
fn no_main_cluster_gives_empty() {
    let cs = vec![cluster(Some("main-prod"), Some("arn:1")), cluster(Some("mainx"), Some("arn:2"))];
    assert_eq!(main_cluster_arn(&cs), "");
    assert_eq!(main_cluster_arn(&Vec::new()), "");
}

#[test]
fn first_present_task_arn_is_chosen() {
    let ts = vec![None, Some("arn:task/2".to_string()), Some("arn:task/3".to_string())];
    assert_eq!(first_task_arn(&ts), "arn:task/2");
    assert_eq!(first_task_arn(&vec![None, None]), "");
}

#[test]
fn profiles_are_sections_with_prefix_removed() {
    let secs = vec![
        "default".to_string(),
        "profile dt-infra".to_string(),
        "sso-session corp".to_string(),
        "profile dev".to_string(),
        "profiles x".to_string(),
    ];
    assert_eq!(profile_names(&secs), vec!["dt-infra".to_string(), "dev".to_string()]);
}

#[test]
fn services_are_cut_into_batches_of_ten() {
    let arns: Vec<String> = (0..23).map(|i| format!("svc{}", i)).collect();
    let b = service_batches(&arns);
    assert_eq!(b.len(), 3);
    assert_eq!(b[0].len(), 10);
    assert_eq!(b[1].len(), 10);
    assert_eq!(b[2], vec!["svc20".to_string(), "svc21".to_string(), "svc22".to_string()]);
    assert_eq!(b.concat(), arns);
}

#[test]
fn exact_multiple_and_empty_batches() {
    let arns: Vec<String> = (0..10).map(|i| format!("s{}", i)).collect();
    assert_eq!(service_batches(&arns).len(), 1);
    assert!(service_batches(&Vec::new()).is_empty());
}
