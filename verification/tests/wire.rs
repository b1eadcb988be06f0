use docker_run::container::{default_container_config, ContainerConfig, HostConfig, Ulimit};
use docker_run::engine::{ContainerCreatedResponse, VersionResponse};
use docker_run::json::{encode, JsonValue, Member};
use docker_run::wire::{texts_from_json, texts_to_json, ulimits_from_json, ulimits_to_json};

fn member(key: &str, value: JsonValue) -> Member {
    Member { key: key.to_string(), value }
}

fn string(s: &str) -> JsonValue {
    JsonValue::Str(s.to_string())
}

fn replace(object: &JsonValue, key: &str, value: Option<JsonValue>) -> JsonValue {
    let members = match object {
        JsonValue::Object(members) => members,
        _ => panic!("not an object"),
    };
    let mut changed = Vec::new();
    for m in members {
        if m.key == key {
            if let Some(v) = &value {
                changed.push(member(key, copy(v)));
            }
        } else {
            changed.push(member(&m.key, copy(&m.value)));
        }
    }
    JsonValue::Object(changed)
}

fn copy(value: &JsonValue) -> JsonValue {
    match value {
        JsonValue::Null => JsonValue::Null,
        JsonValue::Bool(b) => JsonValue::Bool(*b),
        JsonValue::Number(n) => JsonValue::Number(*n),
        JsonValue::Str(s) => JsonValue::Str(s.clone()),
        JsonValue::Array(items) => JsonValue::Array(items.iter().map(copy).collect()),
        JsonValue::Object(members) => JsonValue::Object(
            members.iter().map(|m| member(&m.key, copy(&m.value))).collect(),
        ),
    }
}

#[test]
fn default_config_as_compact_json() {
    let config = default_container_config("python:3".to_string());
    let text = String::from_utf8(encode(&config.to_json()).unwrap()).unwrap();
    assert_eq!(
        text,
        "{\"Hostname\":\"glot-runner\",\"User\":\"glot\",\"AttachStdin\":true,\
         \"AttachStdout\":true,\"AttachStderr\":true,\"Tty\":false,\"OpenStdin\":true,\
         \"StdinOnce\":true,\"Image\":\"python:3\",\"NetworkDisabled\":true,\
         \"HostConfig\":{\"Memory\":500000000,\"Privileged\":false,\"CapAdd\":[],\
         \"CapDrop\":[\"MKNOD\"],\"Ulimits\":[{\"Name\":\"nofile\",\"Soft\":90,\"Hard\":100},\
         {\"Name\":\"nproc\",\"Soft\":90,\"Hard\":100}]}}"
    );
}

#[test]
fn config_comes_back_from_its_json() {
    let config = default_container_config("python:3".to_string());
    assert_eq!(ContainerConfig::from_json(&config.to_json()), Some(config));
    let other = ContainerConfig::new(
        "host \"name\"".to_string(),
        String::new(),
        false,
        true,
        false,
        true,
        false,
        true,
        "image\\with\nodd characters".to_string(),
        true,
        HostConfig::new(
            i64::MIN,
            true,
            vec!["CHOWN".to_string(), "KILL".to_string()],
            vec!["SETUID".to_string(), "MKNOD".to_string()],
            vec![Ulimit::new(String::new(), i64::MAX, -1)],
        ),
    )
    .unwrap();
    let json = other.to_json();
    assert_eq!(ContainerConfig::from_json(&json), Some(other));
}

#[test]
fn json_outside_the_policy_is_no_config() {
    let json = default_container_config("python:3".to_string()).to_json();
    let open = replace(&json, "NetworkDisabled", Some(JsonValue::Bool(false)));
    assert_eq!(ContainerConfig::from_json(&open), None);
    let host = HostConfig::new(1, false, Vec::new(), vec!["KILL".to_string()], Vec::new());
    let keeps = replace(&json, "HostConfig", Some(host.to_json()));
    assert_eq!(ContainerConfig::from_json(&keeps), None);
}

#[test]
fn json_without_a_field_is_no_config() {
    let json = default_container_config("python:3".to_string()).to_json();
    for key in [
        "Hostname",
        "User",
        "AttachStdin",
        "AttachStdout",
        "AttachStderr",
        "Tty",
        "OpenStdin",
        "StdinOnce",
        "Image",
        "NetworkDisabled",
        "HostConfig",
    ] {
        assert_eq!(ContainerConfig::from_json(&replace(&json, key, None)), None);
        assert_eq!(ContainerConfig::from_json(&replace(&json, key, Some(JsonValue::Null))), None);
    }
    assert_eq!(ContainerConfig::from_json(&JsonValue::Null), None);
    assert_eq!(ContainerConfig::from_json(&JsonValue::Object(Vec::new())), None);
}

#[test]
fn field_order_does_not_matter_when_reading() {
    let config = default_container_config("python:3".to_string());
    let members = match config.to_json() {
        JsonValue::Object(mut members) => {
            members.reverse();
            members.push(member("Extra", JsonValue::Null));
            members
        },
        _ => panic!("not an object"),
    };
    assert_eq!(ContainerConfig::from_json(&JsonValue::Object(members)), Some(config));
}

#[test]
fn host_limits_come_back_from_their_json() {
    let host = HostConfig::new(
        7,
        true,
        vec!["A".to_string()],
        Vec::new(),
        vec![Ulimit::new("cpu".to_string(), 1, 2), Ulimit::new("core".to_string(), 0, 0)],
    );
    let json = host.to_json();
    assert_eq!(HostConfig::from_json(&json), Some(host));
    for key in ["Memory", "Privileged", "CapAdd", "CapDrop", "Ulimits"] {
        assert_eq!(HostConfig::from_json(&replace(&json, key, None)), None);
        assert_eq!(HostConfig::from_json(&replace(&json, key, Some(string("x")))), None);
    }
}

#[test]
fn ulimit_comes_back_from_its_json() {
    let limit = Ulimit::new("nofile".to_string(), 90, 100);
    let json = limit.to_json();
    assert_eq!(
        json,
        JsonValue::Object(vec![
            member("Name", string("nofile")),
            member("Soft", JsonValue::Number(90)),
            member("Hard", JsonValue::Number(100)),
        ])
    );
    assert_eq!(Ulimit::from_json(&json), Some(limit));
    assert_eq!(Ulimit::from_json(&replace(&json, "Soft", Some(string("90")))), None);
    assert_eq!(Ulimit::from_json(&replace(&json, "Hard", None)), None);
    assert_eq!(Ulimit::from_json(&replace(&json, "Name", Some(JsonValue::Number(1)))), None);
}

#[test]
fn lists_come_back_from_their_json() {
    let names = vec!["a".to_string(), String::new(), "c".to_string()];
    let json = texts_to_json(&names);
    assert_eq!(json, JsonValue::Array(vec![string("a"), string(""), string("c")]));
    assert_eq!(texts_from_json(&json), Some(names));
    assert_eq!(texts_from_json(&JsonValue::Array(Vec::new())), Some(Vec::new()));
    assert_eq!(texts_from_json(&JsonValue::Array(vec![string("a"), JsonValue::Null])), None);
    assert_eq!(texts_from_json(&JsonValue::Null), None);
    let limits = vec![Ulimit::new("x".to_string(), 1, 2)];
    assert_eq!(ulimits_from_json(&ulimits_to_json(&limits)), Some(limits));
    assert_eq!(ulimits_from_json(&JsonValue::Array(vec![JsonValue::Object(Vec::new())])), None);
    assert_eq!(ulimits_from_json(&string("x")), None);
}

#[test]
fn version_record_is_read_from_json() {
    let json = JsonValue::Object(vec![
        member("Platform", JsonValue::Object(Vec::new())),
        member("Version", string("19.03.8")),
        member("ApiVersion", string("1.40")),
        member("KernelVersion", string("5.4.0")),
    ]);
    let version = VersionResponse::from_json(&json).unwrap();
    assert_eq!(version.version(), "19.03.8");
    assert_eq!(version.api_version(), "1.40");
    assert_eq!(version.kernel_version(), "5.4.0");
    assert_eq!(
        version,
        VersionResponse::new("19.03.8".to_string(), "1.40".to_string(), "5.4.0".to_string())
    );
    for key in ["Version", "ApiVersion", "KernelVersion"] {
        assert_eq!(VersionResponse::from_json(&replace(&json, key, None)), None);
        assert_eq!(
            VersionResponse::from_json(&replace(&json, key, Some(JsonValue::Number(1)))),
            None
        );
    }
}

#[test]
fn container_handle_is_read_from_json() {
    let json = JsonValue::Object(vec![
        member("Id", string("e90e34656806")),
        member("Warnings", JsonValue::Array(vec![string("no swap limit")])),
    ]);
    let handle = ContainerCreatedResponse::from_json(&json).unwrap();
    assert_eq!(handle.id(), "e90e34656806");
    assert_eq!(handle.warnings(), &vec!["no swap limit".to_string()]);
    assert_eq!(ContainerCreatedResponse::from_json(&replace(&json, "Id", None)), None);
    assert_eq!(ContainerCreatedResponse::from_json(&replace(&json, "Warnings", None)), None);
    assert_eq!(
        ContainerCreatedResponse::from_json(&replace(&json, "Warnings", Some(JsonValue::Null))),
        None
    );
}
