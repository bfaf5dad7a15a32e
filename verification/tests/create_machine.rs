use runh::create::{
    encode_rootfs_frame, CreateAction, CreateConfig, CreateEvent, CreateMachine, CreatePhase,
    CREATE_ACK_PRESTART_HOOKS, INIT_READY_TO_EXECV, INIT_REQ_PRESTART_HOOKS,
};
use runh::errors::CoreError;
use runh::numfmt::{i32_from_le4, i32_to_dec, u64_to_dec};
use runh::record::{status_of, ContainerConfig, ContainerRecord, ContainerStatus, HookSpec};

fn cfg_with_hooks(hooks: Vec<HookSpec>, pidfile: &str) -> CreateConfig {
    CreateConfig {
        id: "foo".to_string(),
        bundle: "/b".to_string(),
        pidfile: pidfile.to_string(),
        has_console_socket: false,
        config: ContainerConfig {
            root_path: "rootfs".to_string(),
            prestart: hooks,
            annotations: None,
        },
    }
}

fn hook(path: &str) -> HookSpec {
    HookSpec { path: path.to_string(), args: None, env: None, timeout: None }
}

#[test]
fn minimum_create_handshake() {
    let (mut m, a) = CreateMachine::new(cfg_with_hooks(vec![], "/tmp/runh/foo/pf"));
    assert!(matches!(a, CreateAction::MakeStateDir));
    assert!(matches!(
        m.step(CreateEvent::DirMade { already_exists: false }),
        CreateAction::WriteRecord
    ));
    assert!(matches!(
        m.step(CreateEvent::RecordWritten { already_exists: false }),
        CreateAction::MakeFifo
    ));
    assert!(matches!(m.step(CreateEvent::FifoMade { ok: true }), CreateAction::SetupFds));
    assert!(matches!(m.step(CreateEvent::FdsReady { ok: true }), CreateAction::SpawnInit));
    assert!(matches!(m.step(CreateEvent::Spawned { ok: true }), CreateAction::ReadInitByte));
    // hello byte: any value
    match m.step(CreateEvent::ByteRead { value: 7 }) {
        CreateAction::ResolveRootfs { path } => assert_eq!(path, "/b/rootfs"),
        _ => unreachable!(),
    }
    match m.step(CreateEvent::RootfsResolved { ok: true, path: "/b/rootfs".to_string() }) {
        CreateAction::WriteInit { bytes } => {
            let mut expected = vec![9u8, 0, 0, 0, 0, 0, 0, 0];
            expected.extend_from_slice(b"/b/rootfs");
            assert_eq!(bytes, expected);
        },
        _ => unreachable!(),
    }
    assert!(matches!(m.step(CreateEvent::WriteDone { ok: true }), CreateAction::ReadInitPid));
    match m.step(CreateEvent::PidRead { bytes: [57, 0, 0, 0] }) {
        CreateAction::WritePidfile { path, pid, text } => {
            // the PID is always written, to the asked-for or defaulted path
            assert_eq!(path, "/tmp/runh/foo/pf");
            assert_eq!(pid, 57);
            assert_eq!(text, "57");
        },
        _ => unreachable!(),
    }
    assert!(matches!(
        m.step(CreateEvent::PidfileWritten { ok: true }),
        CreateAction::ReadInitByte
    ));
    match m.step(CreateEvent::ByteRead { value: INIT_REQ_PRESTART_HOOKS }) {
        CreateAction::WriteInit { bytes } => assert_eq!(bytes, vec![CREATE_ACK_PRESTART_HOOKS]),
        _ => unreachable!(),
    }
    assert!(matches!(m.step(CreateEvent::WriteDone { ok: true }), CreateAction::ReadInitByte));
    assert!(matches!(
        m.step(CreateEvent::ByteRead { value: INIT_READY_TO_EXECV }),
        CreateAction::Finish
    ));
    assert_eq!(m.phase, CreatePhase::Done);
    assert!(m.failure.is_none());
}

#[test]
fn second_create_fails_with_already_exists() {
    let (mut m, _) = CreateMachine::new(cfg_with_hooks(vec![], "/tmp/runh/foo/containerpid"));
    match m.step(CreateEvent::DirMade { already_exists: true }) {
        CreateAction::Fail { error } => assert!(matches!(error, CoreError::AlreadyExists)),
        _ => unreachable!(),
    }
    assert_eq!(m.phase, CreatePhase::Failed);
    assert!(matches!(m.failure, Some(CoreError::AlreadyExists)));
}

#[test]
fn exclusive_record_write_fails_second_create() {
    let (mut m, _) = CreateMachine::new(cfg_with_hooks(vec![], "/tmp/runh/foo/containerpid"));
    m.step(CreateEvent::DirMade { already_exists: false });
    match m.step(CreateEvent::RecordWritten { already_exists: true }) {
        CreateAction::Fail { error } => assert!(matches!(error, CoreError::AlreadyExists)),
        _ => unreachable!(),
    }
    assert!(matches!(m.failure, Some(CoreError::AlreadyExists)));
}

fn drive_to_prestart(m: &mut CreateMachine) {
    m.step(CreateEvent::DirMade { already_exists: false });
    m.step(CreateEvent::RecordWritten { already_exists: false });
    m.step(CreateEvent::FifoMade { ok: true });
    m.step(CreateEvent::FdsReady { ok: true });
    m.step(CreateEvent::Spawned { ok: true });
    m.step(CreateEvent::ByteRead { value: 1 });
    m.step(CreateEvent::RootfsResolved { ok: true, path: "/b/rootfs".to_string() });
    m.step(CreateEvent::WriteDone { ok: true });
    match m.step(CreateEvent::PidRead { bytes: [42, 0, 0, 0] }) {
        CreateAction::WritePidfile { path, .. } => {
            assert_eq!(path, "/tmp/runh/foo/containerpid");
        },
        _ => unreachable!(),
    }
    m.step(CreateEvent::PidfileWritten { ok: true });
}

#[test]
fn prestart_hook_receives_created_state() {
    let (mut m, _) = CreateMachine::new(cfg_with_hooks(vec![hook("/bin/true")], "/tmp/runh/foo/containerpid"));
    drive_to_prestart(&mut m);
    match m.step(CreateEvent::ByteRead { value: INIT_REQ_PRESTART_HOOKS }) {
        CreateAction::RunHook { index, state } => {
            assert_eq!(index, 0);
            assert_eq!(state.version, "1.0.2");
            assert_eq!(state.id, "foo");
            assert_eq!(state.status, "created");
            assert_eq!(state.pid, 42);
            assert_eq!(state.bundle, "/b");
        },
        _ => unreachable!(),
    }
    // hook exits cleanly: the orchestrator acknowledges to init
    match m.step(CreateEvent::HookDone { status: 0, stderr: String::new() }) {
        CreateAction::WriteInit { bytes } => assert_eq!(bytes, vec![CREATE_ACK_PRESTART_HOOKS]),
        _ => unreachable!(),
    }
}

#[test]
fn prestart_hook_failure_joins_forwarder_and_fails() {
    let (mut m, _) = CreateMachine::new(cfg_with_hooks(vec![hook("/bin/false")], "/tmp/runh/foo/containerpid"));
    drive_to_prestart(&mut m);
    m.step(CreateEvent::ByteRead { value: INIT_REQ_PRESTART_HOOKS });
    match m.step(CreateEvent::HookDone { status: 1, stderr: "boom".to_string() }) {
        CreateAction::FailAfterJoin { error } => match error {
            CoreError::PrestartHookFailed { path, status, stderr } => {
                assert_eq!(path, "/bin/false");
                assert_eq!(status, 1);
                assert_eq!(stderr, "boom");
            },
            _ => unreachable!(),
        },
        _ => unreachable!(),
    }
    assert_eq!(m.phase, CreatePhase::Failed);
}

#[test]
fn hooks_run_in_order() {
    let (mut m, _) = CreateMachine::new(cfg_with_hooks(
        vec![hook("/h0"), hook("/h1")],
        "/tmp/runh/foo/containerpid",
    ));
    drive_to_prestart(&mut m);
    match m.step(CreateEvent::ByteRead { value: INIT_REQ_PRESTART_HOOKS }) {
        CreateAction::RunHook { index, .. } => assert_eq!(index, 0),
        _ => unreachable!(),
    }
    match m.step(CreateEvent::HookDone { status: 0, stderr: String::new() }) {
        CreateAction::RunHook { index, .. } => assert_eq!(index, 1),
        _ => unreachable!(),
    }
    assert!(matches!(
        m.step(CreateEvent::HookDone { status: 0, stderr: String::new() }),
        CreateAction::WriteInit { .. }
    ));
}

#[test]
fn wrong_signal_byte_is_protocol_violation() {
    let (mut m, _) = CreateMachine::new(cfg_with_hooks(vec![], "/tmp/runh/foo/containerpid"));
    drive_to_prestart(&mut m);
    match m.step(CreateEvent::ByteRead { value: 0x55 }) {
        CreateAction::FailAfterJoin { error } => match error {
            CoreError::InitProtocolViolation { expected, got } => {
                assert_eq!(expected, INIT_REQ_PRESTART_HOOKS);
                assert_eq!(got, 0x55);
            },
            _ => unreachable!(),
        },
        _ => unreachable!(),
    }
}

#[test]
fn init_death_mid_handshake() {
    let (mut m, _) = CreateMachine::new(cfg_with_hooks(vec![], "/tmp/runh/foo/containerpid"));
    m.step(CreateEvent::DirMade { already_exists: false });
    m.step(CreateEvent::RecordWritten { already_exists: false });
    m.step(CreateEvent::FifoMade { ok: true });
    m.step(CreateEvent::FdsReady { ok: true });
    m.step(CreateEvent::Spawned { ok: true });
    match m.step(CreateEvent::ReadFailed) {
        CreateAction::FailAfterJoin { error } => assert!(matches!(error, CoreError::InitDied)),
        _ => unreachable!(),
    }
}

#[test]
fn fd_setup_failure_before_spawn_fails_without_join() {
    let (mut m, _) = CreateMachine::new(cfg_with_hooks(vec![], "/tmp/runh/foo/containerpid"));
    m.step(CreateEvent::DirMade { already_exists: false });
    m.step(CreateEvent::RecordWritten { already_exists: false });
    match m.step(CreateEvent::FifoMade { ok: false }) {
        CreateAction::Fail { error } => assert!(matches!(error, CoreError::FdSetupFailed)),
        _ => unreachable!(),
    }
}

#[test]
fn rootfs_frame_layout() {
    let f = encode_rootfs_frame("/r");
    assert_eq!(f, vec![2u8, 0, 0, 0, 0, 0, 0, 0, b'/', b'r']);
}

#[test]
fn decimal_formatting() {
    assert_eq!(u64_to_dec(0), "0");
    assert_eq!(u64_to_dec(1234567890), "1234567890");
    assert_eq!(i32_to_dec(-12), "-12");
    assert_eq!(i32_to_dec(0), "0");
}

#[test]
fn pid_decoding() {
    assert_eq!(i32_from_le4(&[0x39, 0x05, 0, 0]), 1337);
    assert_eq!(i32_from_le4(&[0xFF, 0xFF, 0xFF, 0xFF]), -1);
    assert_eq!(i32_from_le4(&[0, 0, 0, 0x80]), i32::MIN);
}

#[test]
fn status_derivation() {
    assert_eq!(status_of(true, true), ContainerStatus::Created);
    assert_eq!(status_of(true, false), ContainerStatus::Created);
    assert_eq!(status_of(false, true), ContainerStatus::Running);
    assert_eq!(status_of(false, false), ContainerStatus::Stopped);
    assert_eq!(status_of(true, false).name(), "created");
    assert_eq!(status_of(false, true).name(), "running");
    assert_eq!(status_of(false, false).name(), "stopped");
}

#[test]
fn record_pidfile_defaults() {
    let r = ContainerRecord::new("/b".to_string(), "foo".to_string(), None, "/tmp/runh/foo");
    assert_eq!(r.pidfile, "/tmp/runh/foo/containerpid");
    let r = ContainerRecord::new(
        "/b".to_string(),
        "foo".to_string(),
        Some("/pf".to_string()),
        "/tmp/runh/foo",
    );
    assert_eq!(r.pidfile, "/pf");
    assert_eq!(r.id, "foo");
    assert_eq!(r.bundle, "/b");
}
