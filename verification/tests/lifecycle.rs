use hello_server::server::{step, Config, Event, Phase};

fn config(host: &str, port: u16) -> Config {
    Config { host: String::from(host), port }
}

#[test]
fn bind_address_joins_host_and_port() {
    assert_eq!(config("127.0.0.1", 8080).bind_address(), "127.0.0.1:8080");
    assert_eq!(config("localhost", 80).bind_address(), "localhost:80");
    assert_eq!(config("0.0.0.0", 3000).bind_address(), "0.0.0.0:3000");
}

#[test]
fn bind_address_edge_ports() {
    assert_eq!(config("h", 0).bind_address(), "h:0");
    assert_eq!(config("h", 9).bind_address(), "h:9");
    assert_eq!(config("h", 10).bind_address(), "h:10");
    assert_eq!(config("h", 65535).bind_address(), "h:65535");
}

#[test]
fn bind_address_empty_host() {
    assert_eq!(config("", 443).bind_address(), ":443");
}

#[test]
fn failed_bind_terminates_without_serving() {
    let after = step(Phase::NotStarted, Event::BindFailed);
    assert_eq!(after, Phase::Terminated);
    assert_ne!(after, Phase::Serving);
}

#[test]
fn successful_bind_starts_serving() {
    assert_eq!(step(Phase::NotStarted, Event::BindSucceeded), Phase::Serving);
}

#[test]
fn stop_terminates_from_any_phase() {
    assert_eq!(step(Phase::NotStarted, Event::Stopped), Phase::Terminated);
    assert_eq!(step(Phase::Serving, Event::Stopped), Phase::Terminated);
    assert_eq!(step(Phase::Terminated, Event::Stopped), Phase::Terminated);
}

#[test]
fn bind_reports_after_startup_change_nothing() {
    assert_eq!(step(Phase::Serving, Event::BindSucceeded), Phase::Serving);
    assert_eq!(step(Phase::Serving, Event::BindFailed), Phase::Serving);
    assert_eq!(step(Phase::Terminated, Event::BindSucceeded), Phase::Terminated);
    assert_eq!(step(Phase::Terminated, Event::BindFailed), Phase::Terminated);
}
