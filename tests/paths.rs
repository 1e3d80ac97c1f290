use demonite::error::DemoniteErr;
use demonite::paths::{
    check_runtime_dir, join_path, protocol_dir_path, resolve_socket_path, runtime_dir,
    socket_path_in, PROTOCOL_DIR, RUNTIME_DIR_VAR,
};
use demonite::service::Service;

#[test]
fn socket_path_is_base_then_protocol_dir_then_service() {
    assert_eq!(socket_path_in("/run/user/1000", "Calc"), "/run/user/1000/demonite/Calc");
    assert_eq!(protocol_dir_path("/run/user/1000"), "/run/user/1000/demonite");
    let s = Service::new("Calc".to_string(), vec![]).unwrap();
    assert_eq!(s.socket_path("/run/user/1000"), "/run/user/1000/demonite/Calc");
}

#[test]
fn join_adds_one_separator() {
    assert_eq!(join_path("/run/", "x"), "/run/x");
    assert_eq!(join_path("/run", "x"), "/run/x");
    assert_eq!(join_path("", "x"), "x");
    assert_eq!(socket_path_in("/run/user/1000/", "Calc"), "/run/user/1000/demonite/Calc");
}

#[test]
fn path_constants() {
    assert_eq!(RUNTIME_DIR_VAR, "XDG_RUNTIME_DIR");
    assert_eq!(PROTOCOL_DIR, "demonite");
}

#[test]
fn missing_variable_is_env_var_error() {
    let r = resolve_socket_path(Err("environment variable not found".to_string()), "Calc");
    assert_eq!(r, Err(DemoniteErr::EnvVar("environment variable not found".to_string())));
    assert_eq!(runtime_dir(Ok("/tmp/rt".to_string())), Ok("/tmp/rt".to_string()));
    assert_eq!(
        resolve_socket_path(Ok("/tmp/rt".to_string()), "Calc"),
        Ok("/tmp/rt/demonite/Calc".to_string())
    );
}

#[test]
fn runtime_dir_must_exist() {
    assert_eq!(check_runtime_dir(false, 0o700), Err(DemoniteErr::XdgRuntimeDirMissing));
}

#[test]
fn runtime_dir_must_be_owner_only() {
    assert_eq!(check_runtime_dir(true, 0o40700), Ok(()));
    assert_eq!(check_runtime_dir(true, 0o700), Ok(()));
    assert_eq!(
        check_runtime_dir(true, 0o40755),
        Err(DemoniteErr::XdgRuntimeDirInvPerm(0o755))
    );
    assert_eq!(check_runtime_dir(true, 0o1700), Err(DemoniteErr::XdgRuntimeDirInvPerm(0o1700)));
    assert_eq!(check_runtime_dir(true, 0o600), Err(DemoniteErr::XdgRuntimeDirInvPerm(0o600)));
}
