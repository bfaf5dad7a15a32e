use runh::errors::CoreError;
use runh::flags::{MS_RDONLY, MS_REMOUNT};
use runh::mounts::{configure_mounts, plan_mount, DestState, MountSpec, MountStep};

fn strings(v: &[&str]) -> Vec<String> {
    v.iter().map(|s| s.to_string()).collect()
}

fn tmpfs_ro() -> MountSpec {
    MountSpec {
        destination: "/tmp".to_string(),
        source: Some("tmpfs".to_string()),
        typ: Some("tmpfs".to_string()),
        options: Some(strings(&["ro", "nosuid"])),
    }
}

fn absent() -> DestState {
    DestState { exists: false, is_dir: false }
}

#[test]
fn mount_escape_rejected() {
    // The incremental resolution of /etc/../../evil under /rfs lands on
    // /evil, which is outside the root: no mount call may be planned.
    let m = MountSpec {
        destination: "/etc/../../evil".to_string(),
        source: Some("tmpfs".to_string()),
        typ: Some("tmpfs".to_string()),
        options: None,
    };
    let r = plan_mount(&m, "/evil", "/rfs", &None, absent());
    assert!(matches!(r, Err(CoreError::EscapesRoot)));
}

#[test]
fn tmpfs_readonly_round_trip() {
    let r = plan_mount(&tmpfs_ro(), "/rfs/tmp", "/rfs", &None, absent()).unwrap();
    let mounts: Vec<&MountStep> = r
        .iter()
        .filter(|s| matches!(s, MountStep::Mount { .. }))
        .collect();
    assert_eq!(mounts.len(), 2);
    match mounts[0] {
        MountStep::Mount { flags, target, fstype, .. } => {
            // the initial tmpfs mount drops MS_RDONLY
            assert_eq!(flags & MS_RDONLY, 0);
            assert_eq!(target, "/rfs/tmp");
            assert_eq!(fstype.as_deref(), Some("tmpfs"));
        },
        _ => unreachable!(),
    }
    match mounts[1] {
        MountStep::Mount { flags, .. } => {
            // the remount pass re-applies MS_RDONLY together with MS_REMOUNT
            assert!(flags & MS_REMOUNT != 0);
            assert!(flags & MS_RDONLY != 0);
        },
        _ => unreachable!(),
    }
}

#[test]
fn tmpfs_readonly_with_propagation_remounts_last() {
    let m = MountSpec {
        destination: "/tmp".to_string(),
        source: Some("tmpfs".to_string()),
        typ: Some("tmpfs".to_string()),
        options: Some(strings(&["ro", "rshared"])),
    };
    let r = plan_mount(&m, "/rfs/tmp", "/rfs", &None, absent()).unwrap();
    let mounts: Vec<&MountStep> = r
        .iter()
        .filter(|s| matches!(s, MountStep::Mount { .. }))
        .collect();
    // initial mount, propagation-only call, then the read-only remount
    assert_eq!(mounts.len(), 3);
    match mounts[2] {
        MountStep::Mount { flags, .. } => {
            assert!(flags & MS_REMOUNT != 0);
            assert!(flags & MS_RDONLY != 0);
        },
        _ => unreachable!(),
    }
}

#[test]
fn tmpfs_readonly_overridden_by_rw_mounts_once() {
    let m = MountSpec {
        destination: "/tmp".to_string(),
        source: Some("tmpfs".to_string()),
        typ: Some("tmpfs".to_string()),
        options: Some(strings(&["ro", "rw"])),
    };
    let r = plan_mount(&m, "/rfs/tmp", "/rfs", &None, absent()).unwrap();
    let n = r
        .iter()
        .filter(|s| matches!(s, MountStep::Mount { .. }))
        .count();
    // the read-only request was overridden: a writable mount, no remount
    assert_eq!(n, 1);
}

#[test]
fn sysfs_needs_directory() {
    let m = MountSpec {
        destination: "/sys".to_string(),
        source: Some("sysfs".to_string()),
        typ: Some("sysfs".to_string()),
        options: None,
    };
    let r = plan_mount(&m, "/rfs/sys", "/rfs", &None, DestState { exists: true, is_dir: false });
    assert!(matches!(r, Err(CoreError::NotADirectory)));
    let r = plan_mount(&m, "/rfs/sys", "/rfs", &None, absent()).unwrap();
    assert!(matches!(r[0], MountStep::MakeDirs { .. }));
}

#[test]
fn cgroup_forces_cgroup2() {
    let m = MountSpec {
        destination: "/sys/fs/cgroup".to_string(),
        source: Some("cgroup".to_string()),
        typ: Some("cgroup".to_string()),
        options: None,
    };
    let r = plan_mount(&m, "/rfs/sys/fs/cgroup", "/rfs", &Some("lbl".to_string()), absent())
        .unwrap();
    let found = r.iter().any(|s| match s {
        MountStep::Mount { fstype, label, .. } => {
            fstype.as_deref() == Some("cgroup2") && label.as_deref() == Some("lbl")
        },
        _ => false,
    });
    assert!(found);
}

#[test]
fn proc_shadow_rejected() {
    let m = MountSpec {
        destination: "/proc/sys".to_string(),
        source: Some("/x".to_string()),
        typ: Some("ext4".to_string()),
        options: None,
    };
    let r = plan_mount(&m, "/rfs/proc/sys", "/rfs", &None, absent());
    assert!(matches!(r, Err(CoreError::ProcShadow)));
}

#[test]
fn bind_type_refused() {
    let m = MountSpec {
        destination: "/mnt".to_string(),
        source: Some("/x".to_string()),
        typ: Some("bind".to_string()),
        options: None,
    };
    let r = plan_mount(&m, "/rfs/mnt", "/rfs", &None, absent());
    assert!(matches!(r, Err(CoreError::UnsupportedMountType)));
}

#[test]
fn missing_source_and_type() {
    let mut m = tmpfs_ro();
    m.source = None;
    assert!(matches!(
        plan_mount(&m, "/rfs/tmp", "/rfs", &None, absent()),
        Err(CoreError::MissingSource)
    ));
    let mut m = tmpfs_ro();
    m.typ = None;
    assert!(matches!(
        plan_mount(&m, "/rfs/tmp", "/rfs", &None, absent()),
        Err(CoreError::MissingType)
    ));
}

#[test]
fn relative_source_rebased_onto_rootfs() {
    let m = MountSpec {
        destination: "/data".to_string(),
        source: Some("data".to_string()),
        typ: Some("ext4".to_string()),
        options: None,
    };
    let r = plan_mount(&m, "/rfs/data", "/rfs", &None, absent()).unwrap();
    let found = r.iter().any(|s| match s {
        MountStep::Mount { source, .. } => source.as_deref() == Some("/rfs/data"),
        _ => false,
    });
    assert!(found);
}

#[test]
fn propagation_adds_second_call() {
    let m = MountSpec {
        destination: "/data".to_string(),
        source: Some("/x".to_string()),
        typ: Some("ext4".to_string()),
        options: Some(strings(&["rshared"])),
    };
    let r = plan_mount(&m, "/rfs/data", "/rfs", &None, absent()).unwrap();
    let mounts: Vec<&MountStep> = r
        .iter()
        .filter(|s| matches!(s, MountStep::Mount { .. }))
        .collect();
    assert_eq!(mounts.len(), 2);
    match mounts[1] {
        MountStep::Mount { source, fstype, data, .. } => {
            assert!(source.is_none());
            assert!(fstype.is_none());
            assert!(data.is_none());
        },
        _ => unreachable!(),
    }
}

#[test]
fn configure_mounts_stops_at_first_rejection() {
    let good = tmpfs_ro();
    let bad = MountSpec {
        destination: "/etc/../../evil".to_string(),
        source: Some("tmpfs".to_string()),
        typ: Some("tmpfs".to_string()),
        options: None,
    };
    let mounts = vec![good, bad];
    let resolved = strings(&["/rfs/tmp", "/evil"]);
    let probes = vec![absent(), absent()];
    let r = configure_mounts(&mounts, &resolved, &probes, "/rfs", &None);
    assert!(matches!(r, Err(CoreError::EscapesRoot)));
}

#[test]
fn configure_mounts_plans_in_order_within_root() {
    let mounts = vec![tmpfs_ro(), tmpfs_ro()];
    let resolved = strings(&["/rfs/tmp", "/rfs/tmp"]);
    let probes = vec![absent(), DestState { exists: true, is_dir: true }];
    let plan = configure_mounts(&mounts, &resolved, &probes, "/rfs", &None).unwrap();
    assert!(plan.len() > 0);
    for s in &plan {
        if let MountStep::Mount { target, .. } = s {
            assert!(target.starts_with("/rfs"));
        }
    }
}
