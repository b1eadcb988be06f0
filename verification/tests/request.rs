use docker_run::container::{default_container_config, ContainerConfig, HostConfig};
use docker_run::request::{
    attach_container_request, create_container, create_container_request, start_container,
    version_request, Header, Method, Request,
};

fn header(name: &str, value: &str) -> Header {
    Header { name: name.to_string(), value: value.to_string() }
}

#[test]
fn version_request_is_a_get() {
    let request = version_request();
    assert_eq!(
        request,
        Request {
            method: Method::Get,
            path: "/version".to_string(),
            headers: vec![
                header("Accept", "application/json"),
                header("Host", "127.0.0.1"),
                header("Connection", "close"),
            ],
            body: Vec::new(),
        }
    );
}

#[test]
fn create_request_for_python_keeps_the_policy() {
    let config = default_container_config("python:3".to_string());
    let request = create_container(&config).unwrap();
    let body: serde_json::Value = serde_json::from_slice(&request.body).unwrap();
    assert_eq!(body["NetworkDisabled"], serde_json::Value::Bool(true));
    let dropped = body["HostConfig"]["CapDrop"].as_array().unwrap();
    assert!(dropped.contains(&serde_json::Value::String("MKNOD".to_string())));
    assert_eq!(body["Image"], serde_json::Value::String("python:3".to_string()));
}

#[test]
fn create_request_keeps_the_policy_whatever_the_image() {
    for image in ["", "python:3", "\"NetworkDisabled\":false", "a\\b\n{\"HostConfig\":{}}"] {
        let config = default_container_config(image.to_string());
        let request = create_container(&config).unwrap();
        let body: serde_json::Value = serde_json::from_slice(&request.body).unwrap();
        assert_eq!(body["NetworkDisabled"], serde_json::Value::Bool(true));
        let dropped = body["HostConfig"]["CapDrop"].as_array().unwrap();
        assert!(dropped.contains(&serde_json::Value::String("MKNOD".to_string())));
        assert_eq!(body["Image"], serde_json::Value::String(image.to_string()));
        assert_eq!(body["HostConfig"]["Privileged"], serde_json::Value::Bool(false));
        assert_eq!(body["HostConfig"]["Memory"], serde_json::Value::from(500000000i64));
        assert_eq!(body.as_object().unwrap().len(), 11);
    }
}

#[test]
fn create_request_of_a_made_config_keeps_the_policy() {
    let host = HostConfig::new(1, true, Vec::new(), vec!["MKNOD".to_string()], Vec::new());
    let config = ContainerConfig::new(
        "h".to_string(),
        "u".to_string(),
        true,
        true,
        true,
        false,
        true,
        true,
        "i".to_string(),
        true,
        host,
    )
    .unwrap();
    let request = create_container(&config).unwrap();
    let body: serde_json::Value = serde_json::from_slice(&request.body).unwrap();
    assert_eq!(body["NetworkDisabled"], serde_json::Value::Bool(true));
    assert_eq!(body["HostConfig"]["CapDrop"][0], serde_json::Value::String("MKNOD".to_string()));
}

#[test]
fn create_request_declares_the_length_of_its_body() {
    let config = default_container_config("python:3".to_string());
    let request = create_container(&config).unwrap();
    assert_eq!(request.method, Method::Post);
    assert_eq!(request.path, "/containers/create");
    assert_eq!(request.body.len(), 361);
    assert_eq!(
        request.headers,
        vec![
            header("Content-Type", "application/json"),
            header("Accept", "application/json"),
            header("Host", "127.0.0.1"),
            header("Content-Length", "361"),
            header("Connection", "close"),
        ]
    );
}

#[test]
fn create_request_frames_any_body() {
    let request = create_container_request(Vec::new());
    assert_eq!(request.headers[3], header("Content-Length", "0"));
    assert!(request.body.is_empty());
    let request = create_container_request(vec![b'x'; 1000]);
    assert_eq!(request.headers[3], header("Content-Length", "1000"));
    assert_eq!(request.body, vec![b'x'; 1000]);
    assert_eq!(request.path, "/containers/create");
}

#[test]
fn start_request_names_the_container() {
    let request = start_container("e90e34656806");
    assert_eq!(
        request,
        Request {
            method: Method::Post,
            path: "/containers/e90e34656806/start".to_string(),
            headers: vec![
                header("Accept", "application/json"),
                header("Host", "127.0.0.1"),
                header("Connection", "close"),
            ],
            body: Vec::new(),
        }
    );
}

#[test]
fn attach_request_asks_for_all_three_streams() {
    let request = attach_container_request("e90e34656806");
    assert_eq!(
        request,
        Request {
            method: Method::Post,
            path: "/containers/e90e34656806/attach?stream=1&stdout=1&stdin=1&stderr=1".to_string(),
            headers: vec![header("Host", "127.0.0.1"), header("Connection", "close")],
            body: Vec::new(),
        }
    );
}

#[test]
fn every_request_closes_the_connection() {
    let config = default_container_config("python:3".to_string());
    let requests = vec![
        version_request(),
        create_container(&config).unwrap(),
        start_container("id"),
        attach_container_request("id"),
    ];
    for request in requests {
        assert!(request.headers.contains(&header("Connection", "close")));
        assert!(request.headers.contains(&header("Host", "127.0.0.1")));
    }
}

#[test]
fn requests_as_bytes() {
    assert_eq!(
        version_request().to_bytes(),
        b"GET /version HTTP/1.1\r\nAccept: application/json\r\nHost: 127.0.0.1\r\n\
          Connection: close\r\n\r\n"
            .to_vec()
    );
    assert_eq!(
        create_container_request(b"{}".to_vec()).to_bytes(),
        b"POST /containers/create HTTP/1.1\r\nContent-Type: application/json\r\n\
          Accept: application/json\r\nHost: 127.0.0.1\r\nContent-Length: 2\r\n\
          Connection: close\r\n\r\n{}"
            .to_vec()
    );
    let bare = Request {
        method: Method::Post,
        path: "/p".to_string(),
        headers: Vec::new(),
        body: vec![0, 255],
    };
    assert_eq!(bare.to_bytes(), b"POST /p HTTP/1.1\r\n\r\n\x00\xff".to_vec());
    assert_eq!(Method::Get.name(), "GET");
    assert_eq!(Method::Post.name(), "POST");
}
