use zs::config::Config;
use zs::path::{join_path, zs_file_path};
use zs::session::Session;

#[test]
fn join_adds_one_separator() {
    assert_eq!(join_path("/srv/repo", "primary"), "/srv/repo/primary");
    assert_eq!(join_path("/srv/repo/", "primary"), "/srv/repo/primary");
    assert_eq!(join_path("", "zs"), "zs");
}

#[test]
fn join_with_absolute_replaces() {
    assert_eq!(join_path("/srv/repo", "/tmp/x"), "/tmp/x");
}

#[test]
fn config_path_prefers_xdg() {
    assert_eq!(
        Config::config_path_from(Some("/xdg"), Some("/home/me")),
        Some("/xdg/zs/zs.toml".to_string())
    );
    assert_eq!(
        Config::config_path_from(None, Some("/home/me")),
        Some("/home/me/.config/zs/zs.toml".to_string())
    );
    assert_eq!(Config::config_path_from(None, None), None);
}

#[test]
fn sessions_path_uses_cache_dir() {
    assert_eq!(
        Session::sessions_path_from(None, Some("/home/me")),
        Some("/home/me/.cache/zs/sessions.json".to_string())
    );
    assert_eq!(
        Session::sessions_path_from(Some("/c"), None),
        Some("/c/zs/sessions.json".to_string())
    );
    assert_eq!(
        zs_file_path(Some(""), None, ".cache", "f"),
        Some("zs/f".to_string())
    );
}

#[test]
fn config_path_with_xdg_needs_no_home() {
    assert_eq!(
        Config::config_path(Some("/xdg")),
        Some("/xdg/zs/zs.toml".to_string())
    );
}

