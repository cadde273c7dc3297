//! Fingerprints, exclusion matching, destination keys, and the request
//! plumbing helpers.

use cells_sync::api::{
    bearer_header, keyring_entry_name, list_query_path, login_failed, needs_refresh,
    normalized_endpoint, request_url, user_api_path, PACKAGE_NAME,
};
use cells_sync::data::{get_config_dir, get_settings_path};
use cells_sync::etag::calculate_etag;
use cells_sync::structs::FileEntry;
use cells_sync::text::{normalize_separators, str_contains, str_eq, strip_trailing_slash};
use cells_sync::walker::{
    collect_tasks, concat_ignores, dest_key, is_excluded, split_components, strip_path_prefix,
    walk_entry,
};

#[test]
fn etag_of_empty_input() {
    // The MD5 of the empty byte string, hex-encoded.
    assert_eq!(calculate_etag(b""), "d41d8cd98f00b204e9800998ecf8427e".to_string());
}

#[test]
fn etag_of_known_input() {
    assert_eq!(calculate_etag(b"hello"), "5d41402abc4b2a76b9719d911017c592".to_string());
    // A different input gives a different fingerprint.
    assert_ne!(calculate_etag(b"hello!"), calculate_etag(b"hello"));
}

#[test]
fn excluded_name_matches_any_component() {
    let ignores = vec![".git".to_string()];
    // A file under root/.git/config is excluded when .git is in the
    // exclusion set...
    let shallow = vec!["root".to_string(), ".git".to_string(), "config".to_string()];
    assert!(is_excluded(&shallow, &ignores));
    // ...regardless of nesting depth.
    let deep = vec![
        "root".to_string(),
        "a".to_string(),
        "b".to_string(),
        "c".to_string(),
        ".git".to_string(),
        "objects".to_string(),
        "pack".to_string(),
        "data.bin".to_string(),
    ];
    assert!(is_excluded(&deep, &ignores));
    // The leaf name counts too.
    let leaf = vec!["root".to_string(), ".git".to_string()];
    assert!(is_excluded(&leaf, &ignores));
    // No component matches: not excluded.
    let clean = vec!["root".to_string(), "src".to_string(), "main.rs".to_string()];
    assert!(!is_excluded(&clean, &ignores));
    // The match is exact, not a substring match.
    let similar = vec!["root".to_string(), "not.git.d".to_string(), "f".to_string()];
    assert!(!is_excluded(&similar, &ignores));
}

#[test]
fn collect_tasks_filters_and_keys() {
    let ignores = vec!["node_modules".to_string()];
    let files = vec![
        FileEntry {
            path: "/home/me/proj/src/lib.rs".to_string(),
            components: vec![
                "/".to_string(),
                "home".to_string(),
                "me".to_string(),
                "proj".to_string(),
                "src".to_string(),
                "lib.rs".to_string(),
            ],
            rel: "src/lib.rs".to_string(),
        },
        FileEntry {
            path: "/home/me/proj/node_modules/x/y.js".to_string(),
            components: vec![
                "/".to_string(),
                "home".to_string(),
                "me".to_string(),
                "proj".to_string(),
                "node_modules".to_string(),
                "x".to_string(),
                "y.js".to_string(),
            ],
            rel: "node_modules/x/y.js".to_string(),
        },
    ];
    let tasks = collect_tasks(&files, &ignores, "ws/proj");
    assert_eq!(tasks.len(), 1);
    assert_eq!(tasks[0].from, "/home/me/proj/src/lib.rs".to_string());
    assert_eq!(tasks[0].to, "ws/proj/src/lib.rs".to_string());
}

#[test]
fn exclusion_sets_concatenate_in_order() {
    let global = vec!["a".to_string()];
    let own = vec!["b".to_string(), "c".to_string()];
    assert_eq!(
        concat_ignores(&global, &own),
        vec!["a".to_string(), "b".to_string(), "c".to_string()]
    );
}

#[test]
fn dest_key_normalizes_separators() {
    assert_eq!(dest_key("ws/proj", "a\\b\\c.txt"), "ws/proj/a/b/c.txt".to_string());
    assert_eq!(dest_key("ws/proj", "a/b/c.txt"), "ws/proj/a/b/c.txt".to_string());
}

#[test]
fn separator_normalization_is_character_wise() {
    assert_eq!(normalize_separators("a\\b/c\\"), "a/b/c/".to_string());
    assert_eq!(normalize_separators(""), "".to_string());
}

#[test]
fn trailing_slash_trimmed_once() {
    assert_eq!(strip_trailing_slash("x/y/"), "x/y".to_string());
    assert_eq!(strip_trailing_slash("x/y"), "x/y".to_string());
    assert_eq!(strip_trailing_slash("x//"), "x/".to_string());
    assert_eq!(strip_trailing_slash(""), "".to_string());
}

#[test]
fn string_equality_and_containment() {
    assert!(str_eq("abc", "abc"));
    assert!(!str_eq("abc", "abd"));
    assert!(!str_eq("abc", "ab"));
    assert!(str_contains("the Login failed today", "Login failed"));
    assert!(!str_contains("login failed", "Login failed"));
    assert!(str_contains("abc", ""));
    assert!(!str_contains("ab", "abc"));
}

#[test]
fn login_failure_read_from_body() {
    assert!(login_failed("{\"msg\":\"Login failed\"}"));
    assert!(!login_failed("{\"JWT\":\"token\"}"));
}

#[test]
fn refresh_on_unauthorized_only() {
    assert!(needs_refresh(401));
    assert!(!needs_refresh(200));
    assert!(!needs_refresh(403));
    assert!(!needs_refresh(500));
}

#[test]
fn request_paths_and_headers() {
    assert_eq!(
        request_url("https://host/", "/a/meta/bulk/get"),
        "https://host/a/meta/bulk/get".to_string()
    );
    assert_eq!(normalized_endpoint("https://host/"), "https://host".to_string());
    assert_eq!(bearer_header("tok"), "Bearer tok".to_string());
    // The login name is sent lower-cased.
    assert_eq!(user_api_path("AdMin"), "/a/user/admin".to_string());
    assert_eq!(list_query_path("ws/dir/"), "ws/dir/*".to_string());
    assert_eq!(list_query_path("ws/dir"), "ws/dir/*".to_string());
}

#[test]
fn secret_entry_names_are_keyed_by_package() {
    assert_eq!(
        keyring_entry_name("username"),
        format!("{}:username", PACKAGE_NAME)
    );
}

#[test]
fn path_components_split_on_either_separator() {
    assert_eq!(
        split_components("/root/a/b.txt"),
        vec!["root".to_string(), "a".to_string(), "b.txt".to_string()]
    );
    assert_eq!(
        split_components("c:\\data\\x/y.bin"),
        vec!["c:".to_string(), "data".to_string(), "x".to_string(), "y.bin".to_string()]
    );
    // Doubled and trailing separators add no component.
    assert_eq!(split_components("//a//b/"), vec!["a".to_string(), "b".to_string()]);
    assert_eq!(split_components(""), Vec::<String>::new());
}

#[test]
fn relative_path_under_root() {
    assert_eq!(
        strip_path_prefix("/home/me/proj/src/x.rs", "/home/me/proj"),
        Some("src/x.rs".to_string())
    );
    // A trailing slash on the root is trimmed before matching.
    assert_eq!(
        strip_path_prefix("/home/me/proj/src/x.rs", "/home/me/proj/"),
        Some("src/x.rs".to_string())
    );
    // Not under the root.
    assert_eq!(strip_path_prefix("/home/other/x.rs", "/home/me/proj"), None);
    // The root itself is not a file under the root.
    assert_eq!(strip_path_prefix("/home/me/proj", "/home/me/proj"), None);
}

#[test]
fn walk_entry_builds_the_record() {
    let e = walk_entry("/home/me/proj/.git/config", "/home/me/proj").unwrap();
    assert_eq!(e.path, "/home/me/proj/.git/config".to_string());
    assert_eq!(e.rel, ".git/config".to_string());
    assert_eq!(
        e.components,
        vec![
            "home".to_string(),
            "me".to_string(),
            "proj".to_string(),
            ".git".to_string(),
            "config".to_string()
        ]
    );
    // And the exclusion check sees the component wherever it sits.
    assert!(is_excluded(&e.components, &vec![".git".to_string()]));
    assert!(walk_entry("/elsewhere/f.txt", "/home/me/proj").is_none());
}

#[test]
fn settings_path_under_home() {
    assert_eq!(
        get_config_dir("/home/me"),
        format!("/home/me/.config/{}", PACKAGE_NAME)
    );
    assert_eq!(
        get_settings_path("/home/me"),
        format!("/home/me/.config/{}/settings.json", PACKAGE_NAME)
    );
}
