use owasu::cli::Options;
use owasu::configuration::{Config, SeatalkConfig, ServerConfig, TimeSpan};
use owasu::decimal::u64_to_decimal;
use owasu::log::{banner, log_filter};

#[test]
fn default_server_config() {
    let c = ServerConfig::default();
    assert_eq!(*c.get_port(), 8080);
    assert_eq!(*c.get_buffer(), 10);
    assert_eq!(*c.get_concurrency_limit(), 5);
    assert_eq!(*c.get_rate_limit(), 5);
    assert_eq!(*c.get_limiter_timeout(), TimeSpan { secs: 10, nanos: 0 });
    assert_eq!(*c.get_timeout(), TimeSpan { secs: 10, nanos: 0 });
}

#[test]
fn default_server_config_text() {
    assert_eq!(
        ServerConfig::default().to_string(),
        "buffer: 10 | concurrency limit: 5 | rate limit: 5 | limiter timeout: 10s | timeout: 10s"
    );
}

#[test]
fn readme_server_config_text() {
    let c = ServerConfig::new(8080, 10, 100, 100, TimeSpan::from_secs(10), TimeSpan { secs: 10, nanos: 500_000_000 });
    assert_eq!(
        c.to_string(),
        "buffer: 10 | concurrency limit: 100 | rate limit: 100 | limiter timeout: 10s | timeout: 10s"
    );
}

#[test]
fn default_config() {
    let c = Config::default();
    assert_eq!(c.seatalk.get_chat_id(), "");
    assert_eq!(*c.server.get_port(), 8080);
}

#[test]
fn seatalk_config_keeps_chat_id() {
    assert_eq!(SeatalkConfig::new("abc".to_string()).get_chat_id(), "abc");
}

#[test]
fn options_default_path() {
    assert_eq!(Options::new(None).get_config_path(), "config/owasu.yaml");
}

#[test]
fn options_given_path() {
    assert_eq!(
        Options::new(Some("/etc/owasu.yaml".to_string())).get_config_path(),
        "/etc/owasu.yaml"
    );
}

#[test]
fn decimal_rendering() {
    assert_eq!(u64_to_decimal(0), "0");
    assert_eq!(u64_to_decimal(305), "305");
    assert_eq!(u64_to_decimal(u64::MAX), u64::MAX.to_string());
}

#[test]
fn log_filter_default_and_given() {
    assert_eq!(log_filter(None), "owasu=info");
    assert_eq!(log_filter(Some("debug".to_string())), "debug");
}

#[test]
fn banner_draws_the_name() {
    let drawn = banner().expect("the standard font draws the name");
    assert!(drawn.lines().count() > 1);
    assert_ne!(drawn.trim(), "owasu");
}
