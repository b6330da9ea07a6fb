use zs::util::{default_true, truncate_path, truncate_path_with_home};

#[test]
fn test_truncate_short_path() {
    let result = truncate_path("~/documents");
    assert_eq!(result, "~/documents");
}

#[test]
fn test_truncate_long_path() {
    let result = truncate_path("~/documents/work/projects/myrepo/src");
    assert_eq!(result, "~/d/w/p/myrepo/src");
}

#[test]
fn test_truncate_home_path() {
    let path_str = if let Some(home) = dirs::home_dir() {
        format!(
            "{}/documents/work/projects/myrepo/src",
            home.to_string_lossy()
        )
    } else {
        return;
    };
    let result = truncate_path(&path_str);
    assert_eq!(result, "~/d/w/p/myrepo/src");
}

#[test]
fn truncate_with_home_replaces_prefix() {
    let result = truncate_path_with_home(
        "/home/user/projects/myrepo/src/main.rs",
        Some("/home/user"),
    );
    assert_eq!(result, "~/p/m/src/main.rs");
}

#[test]
fn truncate_without_home_keeps_root() {
    let result = truncate_path_with_home("/a/bb/ccc/dd/ee", None);
    assert_eq!(result, "/a/b/c/dd/ee");
    assert_eq!(
        truncate_path_with_home("/usr/local/share/doc/x", Some("/home/u")),
        "/u/l/s/doc/x"
    );
}

#[test]
fn truncate_home_needs_whole_component() {
    assert_eq!(
        truncate_path_with_home("/home/u2/a/b", Some("/home/u")),
        "/h/u/a/b"
    );
    assert_eq!(truncate_path_with_home("/home/u2", Some("/home/u")), "/home/u2");
    assert_eq!(truncate_path_with_home("/home/u/a", Some("/home/u")), "~/a");
}

#[test]
fn truncate_below_home_twice_is_once() {
    let once = truncate_path_with_home("/home/u/src/proj/app/lib", Some("/home/u"));
    assert_eq!(once, "~/s/p/app/lib");
    assert_eq!(truncate_path_with_home(&once, Some("/home/u")), once);
}

#[test]
fn default_true_is_true() {
    assert!(default_true());
}

#[test]
fn truncate_short_path_is_unchanged_without_home() {
    assert_eq!(truncate_path_with_home("/a/b", None), "/a/b");
    assert_eq!(truncate_path_with_home("", None), "");
}

#[test]
fn truncate_is_idempotent_without_home() {
    let once = truncate_path_with_home("/usr/local/share/doc/pkg/README", None);
    assert_eq!(once, "/u/l/s/d/pkg/README");
    assert_eq!(truncate_path_with_home(&once, None), once);
}

#[test]
fn truncate_home_itself_becomes_tilde() {
    assert_eq!(truncate_path_with_home("/home/me", Some("/home/me")), "~");
    assert_eq!(
        truncate_path_with_home("/home/me/a/b/c", Some("/home/me")),
        "~/a/b/c"
    );
}

#[test]
fn truncate_keeps_unicode_first_char() {
    assert_eq!(
        truncate_path_with_home("x/élan/ünter/y/z", None),
        "x/é/ü/y/z"
    );
}

#[test]
fn truncate_collapses_repeated_slashes() {
    assert_eq!(truncate_path_with_home("a//bb///cc/dd", None), "a/b/cc/dd");
}

#[test]
fn truncate_twice_outside_home() {
    let once = truncate_path_with_home("/x/yy/zz/ww", Some("/home/u"));
    assert_eq!(once, "/x/y/zz/ww");
    assert_eq!(truncate_path_with_home(&once, Some("/home/u")), once);
    let once = truncate_path_with_home("/ab/c/d/e", Some("/a"));
    assert_eq!(once, "/a/c/d/e");
    assert_eq!(truncate_path_with_home(&once, Some("/a")), "~/c/d/e");
}
