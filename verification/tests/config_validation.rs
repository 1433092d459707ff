use nacos_perf_utils::config::Config;
use nacos_perf_utils::config::ConfigError;

fn base_config() -> Config {
    Config {
        nacos: "http://x".to_string(),
        port: 10000,
        num: 1,
        username: None,
        password: None,
    }
}

#[test]
fn no_credentials_accepted() {
    assert_eq!(base_config().validate(), Ok(()));
}

#[test]
fn full_credentials_accepted() {
    let mut c = base_config();
    c.username = Some("nacos".to_string());
    c.password = Some("secret".to_string());
    assert_eq!(c.validate(), Ok(()));
}

#[test]
fn username_without_password_rejected() {
    let mut c = base_config();
    c.username = Some("nacos".to_string());
    assert_eq!(c.validate(), Err(ConfigError::PartialCredentials));
}

#[test]
fn password_without_username_rejected() {
    let mut c = base_config();
    c.password = Some("secret".to_string());
    assert_eq!(c.validate(), Err(ConfigError::PartialCredentials));
}

#[test]
fn empty_base_url_rejected() {
    let mut c = base_config();
    c.nacos = "".to_string();
    assert_eq!(c.validate(), Err(ConfigError::InvalidBaseUrl));
}

#[test]
fn wrong_scheme_rejected() {
    let mut c = base_config();
    c.nacos = "ftp://x".to_string();
    assert_eq!(c.validate(), Err(ConfigError::InvalidBaseUrl));
}

#[test]
fn scheme_alone_rejected() {
    let mut c = base_config();
    c.nacos = "http://".to_string();
    assert_eq!(c.validate(), Err(ConfigError::InvalidBaseUrl));
}

#[test]
fn https_base_url_accepted() {
    let mut c = base_config();
    c.nacos = "https://registry.example:8848".to_string();
    assert_eq!(c.validate(), Ok(()));
}

#[test]
fn zero_start_port_rejected() {
    let mut c = base_config();
    c.port = 0;
    assert_eq!(c.validate(), Err(ConfigError::ZeroStartPort));
}

#[test]
fn overflowing_port_range_rejected() {
    let mut c = base_config();
    c.port = u32::MAX;
    c.num = 1;
    assert_eq!(c.validate(), Err(ConfigError::PortRangeTooLarge));
}

#[test]
fn widest_fitting_port_range_accepted() {
    let mut c = base_config();
    c.port = 1;
    c.num = u32::MAX - 1;
    assert_eq!(c.validate(), Ok(()));
}
