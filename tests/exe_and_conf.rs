use electrumd::conf::TempRoot;
use electrumd::versions::{HAS_FEATURE, VERSION};
use electrumd::{downloaded_exe_path, select_exe_path, Conf, Error};
use std::path::PathBuf;

#[test]
fn exe_path_neither_present() {
    let r = select_exe_path(Err(Error::NoFeature), None);
    assert!(matches!(r, Err(Error::NeitherFeatureNorEnvVar)));
}

#[test]
fn exe_path_both_present() {
    let r = select_exe_path(Ok("/opt/electrum.AppImage".to_string()), Some("/usr/bin/electrum".to_string()));
    assert!(matches!(r, Err(Error::BothFeatureAndEnvVar)));
}

#[test]
fn exe_path_from_env_only() {
    let r = select_exe_path(Err(Error::NoFeature), Some("/usr/bin/electrum".to_string()));
    assert_eq!(r.unwrap(), "/usr/bin/electrum");
}

#[test]
fn exe_path_from_build_only() {
    let r = select_exe_path(Ok("/opt/electrum.AppImage".to_string()), None);
    assert_eq!(r.unwrap(), "/opt/electrum.AppImage");
}

#[test]
fn downloaded_exe_path_without_provisioning() {
    assert!(!HAS_FEATURE);
    assert_eq!(VERSION, "N/A");
    assert!(matches!(downloaded_exe_path("/build/out"), Err(Error::NoFeature)));
}

#[test]
fn conf_default_values() {
    let conf = Conf::default();
    assert!(conf.args.is_empty());
    assert!(!conf.view_stdout);
    assert_eq!(conf.network, "regtest");
    assert!(conf.tmpdir.is_none());
    assert_eq!(conf, Conf::default());
}

#[test]
fn temp_root_prefers_configured_dir() {
    let mut conf = Conf::default();
    conf.tmpdir = Some(PathBuf::from("/mnt/ramdisk"));
    match conf.temp_root(Some("/var/tmp".to_string())) {
        TempRoot::Given(p) => assert_eq!(p, &PathBuf::from("/mnt/ramdisk")),
        _ => panic!("expected the configured directory"),
    }
}

#[test]
fn temp_root_uses_env_next() {
    let conf = Conf::default();
    match conf.temp_root(Some("/var/tmp".to_string())) {
        TempRoot::FromEnv(p) => assert_eq!(p, "/var/tmp"),
        _ => panic!("expected the environment's directory"),
    }
}

#[test]
fn temp_root_falls_back_to_os_default() {
    let conf = Conf::default();
    assert!(matches!(conf.temp_root(None), TempRoot::OsDefault));
}

#[test]
fn io_error_converts_to_io_variant() {
    let e = Error::from(std::io::Error::new(std::io::ErrorKind::PermissionDenied, "denied"));
    assert!(matches!(e, Error::Io(ref inner) if inner.kind() == std::io::ErrorKind::PermissionDenied));
}
