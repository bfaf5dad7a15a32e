use runh::errors::CoreError;
use runh::flags::{
    MS_BIND, MS_NOATIME, MS_NOSUID, MS_POSIXACL, MS_RDONLY, MS_REC, MS_REMOUNT, MS_SHARED,
};
use runh::options::parse_mount_options;
use runh::paths::{is_absolute_path, path_starts_with, resolve_step, split_path};
use runh::strutil::{concat3, join_with, str_eq};

fn strings(v: &[&str]) -> Vec<String> {
    v.iter().map(|s| s.to_string()).collect()
}

#[test]
fn option_parsing_reference_input() {
    let opts = strings(&["rbind", "ro", "nosuid", "acl", "noatime", "zzz=1"]);
    let parsed = parse_mount_options(&opts).unwrap();
    assert_eq!(
        parsed.mount_flags,
        MS_BIND | MS_REC | MS_RDONLY | MS_NOSUID | MS_POSIXACL | MS_NOATIME
    );
    assert_eq!(parsed.propagation_flags, 0);
    assert_eq!(parsed.data.as_deref(), Some("zzz=1"));
}

#[test]
fn option_parsing_defaults_is_noop() {
    let with = parse_mount_options(&strings(&["defaults", "ro", "defaults"])).unwrap();
    let without = parse_mount_options(&strings(&["ro"])).unwrap();
    assert_eq!(with.mount_flags, without.mount_flags);
    assert_eq!(with.propagation_flags, without.propagation_flags);
    assert_eq!(with.data, without.data);
}

#[test]
fn option_parsing_later_tokens_override() {
    let parsed = parse_mount_options(&strings(&["ro", "rw"])).unwrap();
    assert_eq!(parsed.mount_flags, 0);
    let parsed = parse_mount_options(&strings(&["noatime", "atime"])).unwrap();
    assert_eq!(parsed.mount_flags, 0);
}

#[test]
fn option_parsing_propagation_and_data() {
    let parsed = parse_mount_options(&strings(&["rshared", "remount", "size=64m", "mode=755"]))
        .unwrap();
    assert_eq!(parsed.mount_flags, MS_REMOUNT);
    assert_eq!(parsed.propagation_flags, MS_SHARED | MS_REC);
    assert_eq!(parsed.data.as_deref(), Some("size=64m,mode=755"));
}

#[test]
fn option_parsing_reserved_tokens_refused() {
    for tok in ["lazytime", "nolazytime", "tmpcopyup"] {
        let r = parse_mount_options(&strings(&["ro", tok]));
        assert!(matches!(r, Err(CoreError::UnsupportedOption)));
    }
}

#[test]
fn split_path_drops_empty_segments() {
    assert_eq!(split_path("/a//b/"), strings(&["a", "b"]));
    assert_eq!(split_path("a/b/c"), strings(&["a", "b", "c"]));
    assert_eq!(split_path("///"), Vec::<String>::new());
    assert_eq!(split_path(""), Vec::<String>::new());
}

#[test]
fn path_prefix_is_component_wise() {
    assert!(path_starts_with("/rfs/etc", "/rfs"));
    assert!(path_starts_with("/rfs", "/rfs"));
    assert!(!path_starts_with("/rfs2/etc", "/rfs"));
    assert!(!path_starts_with("/evil", "/rfs"));
}

#[test]
fn absolute_path_detection() {
    assert!(is_absolute_path("/x"));
    assert!(!is_absolute_path("x/y"));
    assert!(!is_absolute_path(""));
}

#[test]
fn mount_escape_rejected_by_resolver_walk() {
    // destination /etc/../../evil under rootfs /rfs: each existing prefix
    // canonicalises as the filesystem would, the final component is new.
    let mut acc = String::new();
    acc = resolve_step(&acc, "/", Some("/".to_string()));
    acc = resolve_step(&acc, "rfs", Some("/rfs".to_string()));
    acc = resolve_step(&acc, "etc", Some("/rfs/etc".to_string()));
    acc = resolve_step(&acc, "..", Some("/rfs".to_string()));
    acc = resolve_step(&acc, "..", Some("/".to_string()));
    acc = resolve_step(&acc, "evil", None);
    assert_eq!(acc, "//evil");
    assert!(!path_starts_with(&acc, "/rfs"));
}

#[test]
fn string_helpers() {
    assert!(str_eq("abc", "abc"));
    assert!(!str_eq("abc", "abd"));
    assert_eq!(concat3("/a", "/", "b"), "/a/b");
    assert_eq!(join_with(&strings(&["a", "b", "c"]), ","), "a,b,c");
    assert_eq!(join_with(&strings(&[]), ","), "");
    assert_eq!(join_with(&strings(&["x"]), ","), "x");
}
