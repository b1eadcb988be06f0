use docker_run::container::{
    default_container_config, drops_denied_capability, ContainerConfig, HostConfig, Ulimit,
    MEMORY_LIMIT,
};

#[test]
fn default_config_follows_the_policy() {
    let config = default_container_config("python:3".to_string());
    assert_eq!(config.hostname(), "glot-runner");
    assert_eq!(config.user(), "glot");
    assert!(config.attach_stdin());
    assert!(config.attach_stdout());
    assert!(config.attach_stderr());
    assert!(!config.tty());
    assert!(config.open_stdin());
    assert!(config.stdin_once());
    assert_eq!(config.image(), "python:3");
    assert!(config.network_disabled());
    let host = config.host_config();
    assert_eq!(host.memory(), 500000000);
    assert_eq!(MEMORY_LIMIT, 500000000);
    assert!(!host.privileged());
    assert!(host.cap_add().is_empty());
    assert_eq!(host.cap_drop(), &vec!["MKNOD".to_string()]);
    assert_eq!(host.ulimits().len(), 2);
    assert_eq!(host.ulimits()[0], Ulimit::new("nofile".to_string(), 90, 100));
    assert_eq!(host.ulimits()[1], Ulimit::new("nproc".to_string(), 90, 100));
}

#[test]
fn image_is_the_only_choice() {
    let a = default_container_config("python:3".to_string());
    let b = default_container_config("".to_string());
    assert_eq!(a.image(), "python:3");
    assert_eq!(b.image(), "");
    assert_eq!(a.host_config(), b.host_config());
    assert!(b.network_disabled());
}

#[test]
fn ulimit_parts() {
    let limit = Ulimit::new("nofile".to_string(), -1, 7);
    assert_eq!(limit.name(), "nofile");
    assert_eq!(limit.soft(), -1);
    assert_eq!(limit.hard(), 7);
}

fn host(cap_drop: Vec<String>) -> HostConfig {
    HostConfig::new(1, true, vec!["CHOWN".to_string()], cap_drop, Vec::new())
}

fn config(network_disabled: bool, cap_drop: Vec<String>) -> Option<ContainerConfig> {
    ContainerConfig::new(
        "h".to_string(),
        "u".to_string(),
        false,
        false,
        false,
        true,
        false,
        false,
        "i".to_string(),
        network_disabled,
        host(cap_drop),
    )
}

#[test]
fn a_config_outside_the_policy_cannot_be_made() {
    assert_eq!(config(false, vec!["MKNOD".to_string()]), None);
    assert_eq!(config(true, Vec::new()), None);
    assert_eq!(config(true, vec!["mknod".to_string(), "MKNO".to_string()]), None);
    assert_eq!(config(false, Vec::new()), None);
}

#[test]
fn a_config_inside_the_policy_keeps_its_parts() {
    let made = config(true, vec!["KILL".to_string(), "MKNOD".to_string()]).unwrap();
    assert_eq!(made.hostname(), "h");
    assert_eq!(made.user(), "u");
    assert!(made.tty());
    assert!(!made.attach_stdin());
    assert_eq!(made.image(), "i");
    assert!(made.network_disabled());
    assert_eq!(made.host_config().memory(), 1);
    assert!(made.host_config().privileged());
    assert_eq!(made.host_config().cap_add(), &vec!["CHOWN".to_string()]);
    assert_eq!(made.host_config().cap_drop().len(), 2);
}

#[test]
fn denied_capability_is_found_by_its_exact_name() {
    assert!(drops_denied_capability(&vec!["A".to_string(), "MKNOD".to_string()]));
    assert!(!drops_denied_capability(&vec!["MKNODE".to_string()]));
    assert!(!drops_denied_capability(&Vec::new()));
}
