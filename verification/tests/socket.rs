use std::time::Duration;

use swupdate_ipc::socket::{
    build_config, join_path, resolve_socket_path, CTRL_SOCKET_NAME, PROGRESS_SOCKET_NAME,
};
use swupdate_ipc::SocketConfig;

#[test]
fn default_config_has_sensible_paths() {
    let config = SocketConfig::from_environment(None, None, false);
    let ctrl = config.ctrl_socket_path();
    let progress = config.progress_socket_path();

    assert!(ctrl.ends_with(CTRL_SOCKET_NAME));
    assert!(progress.ends_with(PROGRESS_SOCKET_NAME));
}

#[test]
fn builder_overrides() {
    let config = SocketConfig::from_environment(None, None, false)
        .ctrl_path("/custom/ctrl")
        .progress_path("/custom/progress")
        .connect_timeout(Duration::from_secs(30));

    assert_eq!(config.ctrl_socket_path(), "/custom/ctrl");
    assert_eq!(config.progress_socket_path(), "/custom/progress");
    assert_eq!(config.timeout(), Duration::from_secs(30));
}

#[test]
fn socket_directory_priority() {
    assert_eq!(resolve_socket_path(Some("/rt"), Some("/tmpd"), true, "s"), "/rt/s");
    assert_eq!(resolve_socket_path(None, Some("/tmpd/"), true, "s"), "/tmpd/s");
    assert_eq!(resolve_socket_path(None, None, true, "s"), "/run/swupdate/s");
    assert_eq!(resolve_socket_path(None, None, false, "s"), "/tmp/s");
    let c = SocketConfig::from_environment(None, None, true);
    assert_eq!(c.ctrl_socket_path(), "/run/swupdate/sockinstctrl");
    assert_eq!(c.progress_socket_path(), "/run/swupdate/swupdateprog");
    assert_eq!(c.timeout(), Duration::from_secs(10));
}

#[test]
fn path_joining() {
    assert_eq!(join_path("/a", "b"), "/a/b");
    assert_eq!(join_path("/a/", "b"), "/a/b");
    assert_eq!(join_path("", "b"), "b");
    assert_eq!(join_path("/a", "/b"), "/b");
    assert_eq!(join_path("/a", ""), "/a/");
}

#[test]
fn build_config_overrides() {
    let base = SocketConfig::from_environment(Some("/r"), None, false);
    let c = build_config(base.clone(), Some("/c"), None);
    assert_eq!(c.ctrl_socket_path(), "/c");
    assert_eq!(c.progress_socket_path(), "/r/swupdateprog");
    let d = build_config(base, None, Some("/p"));
    assert_eq!(d.ctrl_socket_path(), "/r/sockinstctrl");
    assert_eq!(d.progress_socket_path(), "/p");
}

#[test]
fn default_timeout_is_ten_seconds() {
    for (rt, tmp, run) in [(None, None, false), (Some("/x"), None, true), (None, Some("/y"), false)] {
        assert_eq!(SocketConfig::from_environment(rt, tmp, run).timeout(), Duration::from_secs(10));
    }
}
