use coult::client::EnvValues;
use coult::schema::{Data, VaultSchemaV1, VaultSchemaV2};
use coult::{Config, Vault, VaultError};

fn config() -> Config {
    let env = EnvValues {
        secret_path: Some("secret/app".to_string()),
        address: None,
        port: None,
        token: Some("s.abc".to_string()),
        protocol: None,
    };
    Vault::new().resolve(env).unwrap()
}

fn envelope_v1(password: &str) -> VaultSchemaV1<String> {
    VaultSchemaV1 {
        request_id: "r".to_string(),
        lease_id: String::new(),
        renewable: false,
        lease_duration: 2764800,
        data: password.to_string(),
        wrap_info: None,
        warnings: None,
        auth: None,
    }
}

#[test]
fn sealed_health_check_fails_construction() {
    let r = Vault::connect(config(), 503);
    assert_eq!(r.err(), Some(VaultError::VaultSealed(503)));
}

#[test]
fn healthy_check_builds_a_client_with_its_settings() {
    let v = Vault::connect(config(), 200).ok().unwrap();
    assert_eq!(v.config().secret_url(), "http://127.0.0.1:8200/v1/secret/app");
    assert_eq!(v.config().health_url(), "http://127.0.0.1:8200/v1/sys/health");
}

#[test]
fn missing_secret_after_healthy_check_is_invalid_path() {
    let v = Vault::connect(config(), 200).ok().unwrap();
    assert_eq!(v.secret_status(404), Err(VaultError::VaultInvalidPath(404)));
    assert_eq!(v.secret_status(200), Ok(()));
}

#[test]
fn repeated_requests_give_identical_payloads() {
    let v = Vault::connect(config(), 200).ok().unwrap();
    let first = {
        assert_eq!(v.secret_status(200), Ok(()));
        (v.config().secret_url(), envelope_v1("hunter2").into_data())
    };
    let second = {
        assert_eq!(v.secret_status(200), Ok(()));
        (v.config().secret_url(), envelope_v1("hunter2").into_data())
    };
    assert_eq!(first, second);
    assert_eq!(first.1, "hunter2");
}

#[test]
fn v1_envelope_from_json_yields_its_data() {
    let doc = r#"{"request_id":"a1","lease_id":"","renewable":false,"lease_duration":2764800,
        "data":{"password":"hunter2"},"wrap_info":null,"warnings":null,"auth":null}"#;
    let mut value: serde_json::Value = serde_json::from_str(doc).unwrap();
    let env = VaultSchemaV1 {
        request_id: value["request_id"].as_str().unwrap().to_string(),
        lease_id: value["lease_id"].as_str().unwrap().to_string(),
        renewable: value["renewable"].as_bool().unwrap(),
        lease_duration: value["lease_duration"].as_u64().unwrap() as u32,
        data: value["data"].take(),
        wrap_info: None,
        warnings: None,
        auth: None,
    };
    let secret = env.into_data();
    assert_eq!(secret["password"], "hunter2");
}

#[test]
fn v2_envelope_from_json_yields_the_nested_data() {
    let doc = r#"{"request_id":"a2","lease_id":"","renewable":false,"lease_duration":0,
        "data":{"data":{"password":"hunter2"},"metadata":{"version":1}},
        "wrap_info":null,"warnings":null,"auth":null}"#;
    let mut value: serde_json::Value = serde_json::from_str(doc).unwrap();
    let env = VaultSchemaV2 {
        request_id: value["request_id"].as_str().unwrap().to_string(),
        lease_id: value["lease_id"].as_str().unwrap().to_string(),
        renewable: value["renewable"].as_bool().unwrap(),
        lease_duration: value["lease_duration"].as_u64().unwrap() as u32,
        data: Data { data: value["data"]["data"].take() },
        wrap_info: None,
        warnings: None,
        auth: None,
    };
    let secret = env.into_data();
    assert_eq!(secret["password"], "hunter2");
    assert!(secret.get("metadata").is_none());
}
