use runh::get_project_dir;
use runh::errors::CoreError;
use runh::hermit::{
    get_environment_path, is_hermit_app, osabi_is_hermit, prepare_environment, HERMIT_OSABI,
};
use runh::logfwd::{parse_level, LogForwarder, LogLevel};
use runh::qemu::{get_qemu_args, NetworkConfig, VirtioNetworkConfig};
use runh::spawn::{init_argv, init_env};

fn strings(v: &[&str]) -> Vec<String> {
    v.iter().map(|s| s.to_string()).collect()
}

/// A minimal 64-bit little-endian ELF header with the given OS-ABI byte.
fn elf_with_osabi(osabi: u8) -> Vec<u8> {
    let mut b = vec![0u8; 64];
    b[0] = 0x7F;
    b[1] = b'E';
    b[2] = b'L';
    b[3] = b'F';
    b[4] = 2; // 64-bit
    b[5] = 1; // little endian
    b[6] = 1; // version
    b[7] = osabi;
    b[16] = 2; // ET_EXEC
    b[18] = 0x3E; // x86-64
    b[20] = 1; // e_version
    b[52] = 64; // e_ehsize
    b
}

#[test]
fn hermit_elf_detected() {
    assert!(is_hermit_app(&elf_with_osabi(0xFF)));
    assert!(!is_hermit_app(&elf_with_osabi(0)));
    assert!(!is_hermit_app(b"#!/bin/sh\n"));
    assert!(!is_hermit_app(b""));
}

#[test]
fn osabi_decision() {
    assert!(osabi_is_hermit(Some(HERMIT_OSABI)));
    assert!(!osabi_is_hermit(Some(3)));
    assert!(!osabi_is_hermit(None));
}

#[test]
fn environment_path_defaults() {
    assert_eq!(get_environment_path("/p", &None), "/p/hermit");
    assert_eq!(get_environment_path("/p", &Some("/h".to_string())), "/h");
}

#[test]
fn environment_preparation_decision() {
    let (path, create) = prepare_environment("/p", &None, false, false).unwrap();
    assert_eq!(path, "/p/hermit");
    assert!(create);
    let (_, create) = prepare_environment("/p", &None, true, true).unwrap();
    assert!(!create);
    assert!(matches!(
        prepare_environment("/p", &None, true, false),
        Err(CoreError::NotADirectory)
    ));
}

#[test]
fn qemu_args_microvm_user_net() {
    let args = get_qemu_args(
        "k",
        "a",
        &NetworkConfig::UserNetwork(8080),
        &strings(&["app", "--x"]),
        true,
        true,
        &None,
    );
    let expected_prefix = [
        "qemu-system-x86_64",
        "-display",
        "none",
        "-smp",
        "1",
        "-m",
        "1G",
        "-serial",
        "stdio",
        "-kernel",
        "k",
        "-initrd",
        "a",
        "--enable-kvm",
        "-cpu",
        "host",
        "-M",
        "microvm,x-option-roms=off,pit=off,pic=off,rtc=on,auto-kernel-cmdline=off",
        "-global",
        "virtio-mmio.force-legacy=off",
        "-nodefaults",
        "-no-user-config",
        "-device",
        "isa-debug-exit,iobase=0xf4,iosize=0x04",
        "-netdev",
        "user,id=u1,hostfwd=tcp::8080-:8080,net=192.168.76.0/24,dhcpstart=192.168.76.9",
        "-device",
        "virtio-net-pci,netdev=u1,disable-legacy=on",
        "-append",
    ];
    assert_eq!(&args[..expected_prefix.len()], &strings(&expected_prefix)[..]);
    assert_eq!(args.len(), expected_prefix.len() + 1);
    assert_eq!(args.last().unwrap(), " -- --x");
}

#[test]
fn qemu_args_tap_net_legacy() {
    let net = NetworkConfig::TapNetwork(VirtioNetworkConfig {
        mac: "aa:bb:cc:dd:ee:ff".to_string(),
        ip: "10.0.0.2".to_string(),
        gateway: "10.0.0.1".to_string(),
        mask: "255.255.255.0".to_string(),
    });
    let args = get_qemu_args("k", "a", &net, &strings(&["app"]), false, false, &Some(9));
    assert!(args.contains(&"tap,id=net0,fd=9".to_string()));
    assert!(args.contains(
        &"virtio-net-pci,netdev=net0,disable-legacy=on,mac=aa:bb:cc:dd:ee:ff".to_string()
    ));
    assert_eq!(
        args.last().unwrap(),
        "-ip 10.0.0.2 -gateway 10.0.0.1 -mask 255.255.255.0"
    );
    // without kvm, the generic CPU model is selected
    assert!(args.contains(&"qemu64,apic,fsgsbase,rdtscp,xsave,xsaveopt,fxsr,rdrand".to_string()));
}

#[test]
fn qemu_args_no_network() {
    let args = get_qemu_args("k", "a", &NetworkConfig::NoNetwork, &strings(&["app"]), false,
        true, &None);
    assert_eq!(args.last().unwrap(), "");
    assert_eq!(args[args.len() - 2], "-append");
}

#[test]
fn log_level_mapping() {
    assert_eq!(parse_level("trace"), LogLevel::Trace);
    assert_eq!(parse_level("debug"), LogLevel::Debug);
    assert_eq!(parse_level("info"), LogLevel::Info);
    assert_eq!(parse_level("warn"), LogLevel::Warn);
    assert_eq!(parse_level("error"), LogLevel::Error);
    assert_eq!(parse_level("shout"), LogLevel::Info);
}

#[test]
fn log_forwarder_frames_on_parse() {
    let mut f = LogForwarder::new();
    f.on_chunk(b"{\"level\":\"info\",\"msg\":\"a {note}");
    // an inner closing brace does not parse: keep accumulating
    f.on_parse_result(false);
    f.on_chunk(b"\"}");
    assert_eq!(f.buffer, b"{\"level\":\"info\",\"msg\":\"a {note}\"}");
    f.on_parse_result(true);
    assert!(f.buffer.is_empty());
}

#[test]
fn init_spawn_contract() {
    let argv = init_argv("debug");
    assert_eq!(argv, strings(&["-l", "debug", "--log-format", "json", "init"]));
    let env = init_env();
    let pairs: Vec<(String, String)> = env.into_iter().map(|e| (e.name, e.value)).collect();
    assert_eq!(
        pairs,
        vec![
            ("RUNH_FIFOFD".to_string(), "3".to_string()),
            ("RUNH_INITPIPE".to_string(), "4".to_string()),
            ("RUNH_SPEC_FILE".to_string(), "5".to_string()),
            ("RUNH_LOG_PIPE".to_string(), "6".to_string()),
            ("RUNH_CONSOLE".to_string(), "7".to_string()),
        ]
    );
}

#[test]
fn project_dir_default() {
    assert_eq!(get_project_dir(), "/tmp/runh");
}
