use dyfi_ddns::auth::{basic_auth, basic_auth_header, credentials};
use dyfi_ddns::config::{init_config, Config, ConfigError, Ddns, IpChecker};
use dyfi_ddns::supervisor::{exit_code, keep_alive_timeout, request_timeout, stop_grace, DDNS_ADDRESS};

#[test]
fn clean_start_writes_defaults() {
    let (c, created) = init_config(None).unwrap();
    assert!(created);
    assert_eq!(c.ddns.hostname, "<placeholder>");
    assert_eq!(c.ddns.username, "<placeholder>");
    assert_eq!(c.ddns.password, "hostname");
    assert_eq!(c.ddns.max_interval, 518400);
    assert_eq!(c.ip_checker.interval, 60);
    assert_eq!(c.ip_checker.url, "https://ident.me");
    assert_eq!(c, Config::default());
}

fn config(interval: u64, max_interval: u64) -> Config {
    Config {
        ddns: Ddns { max_interval, ..Ddns::default() },
        ip_checker: IpChecker { interval, ..IpChecker::default() },
    }
}

#[test]
fn existing_config_is_kept_or_rejected() {
    let c = config(1, 5);
    assert_eq!(init_config(Some(c.clone())), Ok((c, false)));
    assert_eq!(init_config(Some(config(0, 5))), Err(ConfigError::ZeroInterval));
    assert_eq!(init_config(Some(config(0, 0))), Err(ConfigError::ZeroInterval));
    assert_eq!(init_config(Some(config(1, 0))), Err(ConfigError::ZeroMaxInterval));
}

#[test]
fn basic_auth_encodes_credentials() {
    assert_eq!(credentials("user", "pass"), "user:pass");
    assert_eq!(basic_auth_header("abc"), "Basic abc");
    assert_eq!(basic_auth("user", "pass"), "Basic dXNlcjpwYXNz");
    assert_eq!(basic_auth("Aladdin", "open sesame"), "Basic QWxhZGRpbjpvcGVuIHNlc2FtZQ==");
    assert_eq!(basic_auth("", ""), "Basic Og==");
}

#[test]
fn timeouts_and_grace() {
    assert_eq!(keep_alive_timeout(60), 65);
    assert_eq!(keep_alive_timeout(u64::MAX), u64::MAX);
    assert_eq!(request_timeout(1), 30);
    assert_eq!(request_timeout(60), 60);
    assert_eq!(stop_grace(60), 61);
    assert_eq!(stop_grace(1), 31);
    assert_eq!(stop_grace(120), 121);
    assert_eq!(exit_code(true, true), 0);
    assert_eq!(exit_code(false, true), 1);
    assert_eq!(exit_code(true, false), 1);
    assert_eq!(DDNS_ADDRESS, "https://dy.fi/nic/update");
}
