use electrumd::lifecycle::POLL_INTERVAL_MS;
use electrumd::{Action, Conf, Error, Event, Phase, Startup, StartupPlan, Teardown, TeardownKind};
use std::io;

fn plan() -> StartupPlan {
    let mut conf = Conf::default();
    conf.args = vec!["--oneserver"];
    StartupPlan::new(&conf, "/tmp/work", 18443, "Pass123")
}

fn io_error() -> Error {
    Error::Io(io::Error::new(io::ErrorKind::NotFound, "no such file"))
}

fn expect_call(action: Action, expected_method: &str, expected_params: &str) {
    match action {
        Action::Call { method, params } => {
            assert_eq!(method, expected_method);
            assert_eq!(params, expected_params);
        }
        other => panic!("expected a call of {}, got {:?}", expected_method, other),
    }
}

#[test]
fn plan_paths_and_args() {
    let p = plan();
    assert_eq!(p.datadir, "/tmp/work");
    assert_eq!(p.network_dir, "/tmp/work/regtest");
    assert_eq!(p.wallet_dir, "/tmp/work/regtest/wallets");
    assert_eq!(p.wallet_path, "/tmp/work/regtest/wallets/default_wallet");
    assert_eq!(p.config_path, "/tmp/work/regtest/config");
    assert_eq!(p.args, vec!["daemon", "--dir", "/tmp/work", "--regtest", "--oneserver"]);
    assert!(!p.view_stdout);
    assert_eq!(p.rpc_port, 18443);
    assert_eq!(p.client_url, "http://127.0.0.1:18443/");
    assert_eq!(p.rpc_user, "electrumd");
    assert_eq!(p.rpc_password, "Pass123");
}

#[test]
fn plan_config_and_params_text() {
    let p = plan();
    assert_eq!(
        p.config_text,
        "{\"log_to_file\":true,\"rpcpassword\":\"Pass123\",\"rpcport\":18443,\"rpcuser\":\"electrumd\"}"
    );
    assert_eq!(p.load_params, "{\"wallet_path\":\"/tmp/work/regtest/wallets/default_wallet\"}");
}

#[test]
fn plan_escapes_wallet_path() {
    let conf = Conf::default();
    let p = StartupPlan::new(&conf, "/tmp/a\"b", 1, "x");
    assert_eq!(p.load_params, "{\"wallet_path\":\"/tmp/a\\\"b/regtest/wallets/default_wallet\"}");
}

#[test]
fn plan_other_network() {
    let mut conf = Conf::default();
    conf.network = "testnet";
    conf.view_stdout = true;
    let p = StartupPlan::new(&conf, "/d", 2, "y");
    assert_eq!(p.network_dir, "/d/testnet");
    assert_eq!(p.args, vec!["daemon", "--dir", "/d", "--testnet"]);
    assert!(p.view_stdout);
}

#[test]
fn startup_happy_path_reaches_ready() {
    let (mut m, a) = Startup::start(plan());
    assert!(matches!(a, Action::CreateDir(ref d) if d == "/tmp/work/regtest"));
    let a = m.step(Event::Succeeded);
    assert!(matches!(a, Action::CreateDir(ref d) if d == "/tmp/work/regtest/wallets"));
    let a = m.step(Event::Succeeded);
    match a {
        Action::WriteFile { path, contents } => {
            assert_eq!(path, "/tmp/work/regtest/config");
            assert!(contents.contains("\"rpcport\":18443"));
        }
        other => panic!("unexpected {:?}", other),
    }
    let a = m.step(Event::Succeeded);
    match a {
        Action::Spawn { args, view_stdout } => {
            assert_eq!(args, vec!["daemon", "--dir", "/tmp/work", "--regtest", "--oneserver"]);
            assert!(!view_stdout);
        }
        other => panic!("unexpected {:?}", other),
    }
    let a = m.step(Event::Succeeded);
    match a {
        Action::Connect { url, user, password } => {
            assert_eq!(url, "http://127.0.0.1:18443/");
            assert_eq!(user, "electrumd");
            assert_eq!(password, "Pass123");
        }
        other => panic!("unexpected {:?}", other),
    }
    expect_call(m.step(Event::Succeeded), "version", "[]");
    assert_eq!(m.phase(), Phase::Polling);
    expect_call(m.step(Event::Succeeded), "create", "[]");
    expect_call(
        m.step(Event::Succeeded),
        "load_wallet",
        "{\"wallet_path\":\"/tmp/work/regtest/wallets/default_wallet\"}",
    );
    assert!(matches!(m.step(Event::Succeeded), Action::Ready));
    assert_eq!(m.phase(), Phase::Ready);
    assert!(matches!(m.step(Event::Succeeded), Action::Idle));
    assert_eq!(m.phase(), Phase::Ready);
}

fn machine_at_polling() -> Startup {
    let (mut m, _) = Startup::start(plan());
    for _ in 0..5 {
        m.step(Event::Succeeded);
    }
    assert_eq!(m.phase(), Phase::Polling);
    m
}

#[test]
fn failed_probe_is_retried_after_pause() {
    let mut m = machine_at_polling();
    for _ in 0..3 {
        let a = m.step(Event::Failed(io_error()));
        assert!(matches!(a, Action::Sleep { millis } if millis == POLL_INTERVAL_MS));
        assert_eq!(POLL_INTERVAL_MS, 250);
        assert_eq!(m.phase(), Phase::Pausing);
        expect_call(m.step(Event::Succeeded), "version", "[]");
    }
    expect_call(m.step(Event::Succeeded), "create", "[]");
}

#[test]
fn spawn_failure_is_io_error_without_kill() {
    let (mut m, _) = Startup::start(plan());
    m.step(Event::Succeeded);
    m.step(Event::Succeeded);
    m.step(Event::Succeeded);
    assert_eq!(m.phase(), Phase::Spawning);
    let a = m.step(Event::Failed(io_error()));
    assert!(matches!(a, Action::Fail { error: Error::Io(_), kill_child: false }));
    assert_eq!(m.phase(), Phase::Failed);
    assert!(matches!(m.step(Event::Succeeded), Action::Idle));
    assert_eq!(m.phase(), Phase::Failed);
}

#[test]
fn directory_failure_stops_startup() {
    let (mut m, _) = Startup::start(plan());
    let a = m.step(Event::Failed(io_error()));
    assert!(matches!(a, Action::Fail { error: Error::Io(_), kill_child: false }));
}

#[test]
fn wallet_failure_kills_daemon() {
    let mut m = machine_at_polling();
    m.step(Event::Succeeded);
    assert_eq!(m.phase(), Phase::CreatingWallet);
    let a = m.step(Event::Failed(Error::NoEnvVar));
    assert!(matches!(a, Action::Fail { error: Error::NoEnvVar, kill_child: true }));
}

#[test]
fn release_kills_after_answered_stop() {
    let (mut t, a) = Teardown::begin(TeardownKind::Release);
    expect_call(a, "stop", "[]");
    assert!(matches!(t.step(Event::Succeeded), Action::Kill));
    assert!(matches!(t.step(Event::Succeeded), Action::Idle));
}

#[test]
fn release_kills_after_failed_stop() {
    let (mut t, _) = Teardown::begin(TeardownKind::Release);
    assert!(matches!(t.step(Event::Failed(io_error())), Action::Kill));
}

#[test]
fn stop_waits_for_exit() {
    let (mut t, a) = Teardown::begin(TeardownKind::Stop);
    expect_call(a, "stop", "[]");
    assert!(matches!(t.step(Event::Succeeded), Action::WaitForExit));
}

#[test]
fn stop_reports_failed_call() {
    let (mut t, _) = Teardown::begin(TeardownKind::Stop);
    let a = t.step(Event::Failed(Error::NoFeature));
    assert!(matches!(a, Action::Fail { error: Error::NoFeature, kill_child: false }));
}
