use nacos_perf_utils::decimal::u32_to_dec;
use nacos_perf_utils::instance::MockInstance;
use nacos_perf_utils::registry::login_request;

fn pairs(q: &[(String, String)]) -> Vec<(&str, &str)> {
    q.iter().map(|(k, v)| (k.as_str(), v.as_str())).collect()
}

#[test]
fn decimal_rendering_is_exact() {
    assert_eq!(u32_to_dec(0), "0");
    assert_eq!(u32_to_dec(7), "7");
    assert_eq!(u32_to_dec(10), "10");
    assert_eq!(u32_to_dec(10001), "10001");
    assert_eq!(u32_to_dec(u32::MAX), "4294967295");
}

#[test]
fn service_name_is_derived_from_port() {
    let i = MockInstance::new("http://x".to_string(), 10001, "".to_string());
    assert_eq!(i.service_name, "mock-10001");
    assert_eq!(i.port, 10001);
}

#[test]
fn login_request_shape() {
    let r = login_request(
        &"http://x".to_string(),
        &"nacos".to_string(),
        &"secret".to_string(),
    );
    assert_eq!(r.url, "http://x/nacos/v1/auth/login");
    assert_eq!(pairs(&r.form), vec![("username", "nacos"), ("password", "secret")]);
}

#[test]
fn register_request_without_token_omits_access_token() {
    let i = MockInstance::new("http://x".to_string(), 10001, "".to_string());
    let r = i.register_request();
    assert_eq!(r.url, "http://x/nacos/v1/ns/instance");
    assert_eq!(
        pairs(&r.query),
        vec![
            ("port", "10001"),
            ("ip", "localhost"),
            ("ephemeral", "true"),
            ("serviceName", "mock-10001"),
        ]
    );
}

#[test]
fn register_request_with_token_carries_access_token() {
    let i = MockInstance::new("http://x".to_string(), 10001, "abc".to_string());
    let r = i.register_request();
    assert_eq!(
        pairs(&r.query),
        vec![
            ("port", "10001"),
            ("ip", "localhost"),
            ("accessToken", "abc"),
            ("ephemeral", "true"),
            ("serviceName", "mock-10001"),
        ]
    );
}

#[test]
fn heartbeat_request_without_token() {
    let i = MockInstance::new("http://x".to_string(), 7, "".to_string());
    let r = i.heartbeat_request();
    assert_eq!(r.url, "http://x/nacos/v1/ns/instance/beat");
    assert_eq!(
        pairs(&r.query),
        vec![
            ("serviceName", "mock-7"),
            ("beat", "{\"port\":7,\"ip\":\"localhost\",\"serviceName\":\"mock-7\"}"),
        ]
    );
}

#[test]
fn heartbeat_request_with_token_carries_access_token() {
    let i = MockInstance::new("https://r:8848".to_string(), 10002, "abc".to_string());
    let r = i.heartbeat_request();
    assert_eq!(r.url, "https://r:8848/nacos/v1/ns/instance/beat");
    assert_eq!(
        pairs(&r.query),
        vec![
            ("serviceName", "mock-10002"),
            ("beat", "{\"port\":10002,\"ip\":\"localhost\",\"serviceName\":\"mock-10002\"}"),
            ("accessToken", "abc"),
        ]
    );
}

#[test]
fn heartbeat_is_idempotent() {
    let i = MockInstance::new("http://x".to_string(), 10001, "abc".to_string());
    let first = i.heartbeat_request();
    let second = i.heartbeat_request();
    assert_eq!(first.url, second.url);
    assert_eq!(first.query, second.query);
}
