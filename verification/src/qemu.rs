use vstd::prelude::*;
use vstd::string::StringExecFns;
use crate::numfmt::{i32_to_dec, spec_dec, spec_dec_signed, u64_to_dec};
use crate::strutil::{join_with, spec_join};

verus! {

/// The guest network parameters of a Tap-backed virtio NIC.
pub struct VirtioNetworkConfig {
    pub mac: String,
    pub ip: String,
    pub gateway: String,
    pub mask: String,
}

pub struct VirtioNetV {
    pub mac: Seq<char>,
    pub ip: Seq<char>,
    pub gateway: Seq<char>,
    pub mask: Seq<char>,
}

impl View for VirtioNetworkConfig {
    type V = VirtioNetV;

    open spec fn view(&self) -> VirtioNetV {
        VirtioNetV { mac: self.mac@, ip: self.ip@, gateway: self.gateway@, mask: self.mask@ }
    }
}

/// How the unikernel guest is attached to the network: a Tap device with a
/// static configuration, user-mode networking with one forwarded port, or
/// no network at all.
pub enum NetworkConfig {
    TapNetwork(VirtioNetworkConfig),
    UserNetwork(u16),
    NoNetwork,
}

pub enum NetV {
    Tap(VirtioNetV),
    User(u16),
    NoNet,
}

impl View for NetworkConfig {
    type V = NetV;

    open spec fn view(&self) -> NetV {
        match self {
            NetworkConfig::TapNetwork(c) => NetV::Tap(c@),
            NetworkConfig::UserNetwork(p) => NetV::User(*p),
            NetworkConfig::NoNetwork => NetV::NoNet,
        }
    }
}

pub open spec fn spec_cpu_args(kvm: bool) -> Seq<Seq<char>> {
    if kvm {
        seq!["--enable-kvm"@, "-cpu"@, "host"@]
    } else {
        seq!["-cpu"@, "qemu64,apic,fsgsbase,rdtscp,xsave,xsaveopt,fxsr,rdrand"@]
    }
}

pub open spec fn spec_microvm_args(micro_vm: bool) -> Seq<Seq<char>> {
    if micro_vm {
        seq![
            "-M"@,
            "microvm,x-option-roms=off,pit=off,pic=off,rtc=on,auto-kernel-cmdline=off"@,
            "-global"@,
            "virtio-mmio.force-legacy=off"@,
            "-nodefaults"@,
            "-no-user-config"@,
            "-device"@,
            "isa-debug-exit,iobase=0xf4,iosize=0x04"@,
        ]
    } else {
        Seq::empty()
    }
}

pub open spec fn spec_net_args(net: NetV, micro_vm: bool, tap_fd: Option<i32>) -> Seq<Seq<char>> {
    match net {
        NetV::Tap(c) => seq![
            "-netdev"@,
            "tap,id=net0,fd="@ + spec_dec_signed(tap_fd->0 as int),
            "-device"@,
            if micro_vm {
                "virtio-net-device,netdev=net0,mac="@ + c.mac
            } else {
                "virtio-net-pci,netdev=net0,disable-legacy=on,mac="@ + c.mac
            },
            "-append"@,
        ],
        NetV::User(p) => seq![
            "-netdev"@,
            "user,id=u1,hostfwd=tcp::"@ + spec_dec(p as int) + "-:"@ + spec_dec(p as int)
                + ",net=192.168.76.0/24,dhcpstart=192.168.76.9"@,
            "-device"@,
            "virtio-net-pci,netdev=u1,disable-legacy=on"@,
            "-append"@,
        ],
        NetV::NoNet => seq!["-append"@],
    }
}

pub open spec fn spec_net_cmdline(net: NetV) -> Seq<char> {
    match net {
        NetV::Tap(c) => "-ip "@ + c.ip + " -gateway "@ + c.gateway + " -mask "@ + c.mask,
        NetV::User(_) => Seq::empty(),
        NetV::NoNet => Seq::empty(),
    }
}

/// The guest kernel command line: the network part, then, when the
/// container invocation carries arguments beyond the program name, ` -- `
/// and those arguments joined by spaces.
pub open spec fn spec_cmdline(net: NetV, app_args: Seq<Seq<char>>) -> Seq<char> {
    if app_args.len() > 1 {
        spec_net_cmdline(net) + " -- "@ + spec_join(app_args.skip(1), " "@)
    } else {
        spec_net_cmdline(net)
    }
}

/// The hypervisor invocation for a HermitCore image: the fixed prefix, the
/// CPU selection, the microvm machine options, the network devices, and
/// one final `-append` string carrying the guest command line.
pub open spec fn spec_qemu_args(
    kernel: Seq<char>,
    app: Seq<char>,
    net: NetV,
    app_args: Seq<Seq<char>>,
    micro_vm: bool,
    kvm: bool,
    tap_fd: Option<i32>,
) -> Seq<Seq<char>> {
    seq![
        "qemu-system-x86_64"@,
        "-display"@,
        "none"@,
        "-smp"@,
        "1"@,
        "-m"@,
        "1G"@,
        "-serial"@,
        "stdio"@,
        "-kernel"@,
        kernel,
        "-initrd"@,
        app,
    ] + spec_cpu_args(kvm) + spec_microvm_args(micro_vm) + spec_net_args(net, micro_vm, tap_fd)
        + seq![spec_cmdline(net, app_args)]
}

/// Builds the QEMU argv for a HermitCore image.
pub fn get_qemu_args(
    kernel: &str,
    app: &str,
    netconf: &NetworkConfig,
    app_args: &[String],
    micro_vm: bool,
    kvm: bool,
    tap_fd: &Option<i32>,
) -> (r: Vec<String>)
    requires
        netconf@ is Tap ==> (*tap_fd) is Some,
    ensures
        r.deep_view() == spec_qemu_args(
            kernel@,
            app@,
            netconf@,
            app_args.deep_view(),
            micro_vm,
            kvm,
            *tap_fd,
        ),
{
    let mut v: Vec<String> = Vec::new();
    v.push("qemu-system-x86_64".to_owned());
    v.push("-display".to_owned());
    v.push("none".to_owned());
    v.push("-smp".to_owned());
    v.push("1".to_owned());
    v.push("-m".to_owned());
    v.push("1G".to_owned());
    v.push("-serial".to_owned());
    v.push("stdio".to_owned());
    v.push("-kernel".to_owned());
    v.push(kernel.to_owned());
    v.push("-initrd".to_owned());
    v.push(app.to_owned());
    let ghost base = v.deep_view();
    proof {
        assert(base =~~= seq![
            "qemu-system-x86_64"@,
            "-display"@,
            "none"@,
            "-smp"@,
            "1"@,
            "-m"@,
            "1G"@,
            "-serial"@,
            "stdio"@,
            "-kernel"@,
            kernel@,
            "-initrd"@,
            app@,
        ]);
    }
    if kvm {
        v.push("--enable-kvm".to_owned());
        v.push("-cpu".to_owned());
        v.push("host".to_owned());
    } else {
        v.push("-cpu".to_owned());
        v.push("qemu64,apic,fsgsbase,rdtscp,xsave,xsaveopt,fxsr,rdrand".to_owned());
    }
    let ghost with_cpu = v.deep_view();
    proof {
        assert(with_cpu =~~= base + spec_cpu_args(kvm));
    }
    if micro_vm {
        v.push("-M".to_owned());
        v.push("microvm,x-option-roms=off,pit=off,pic=off,rtc=on,auto-kernel-cmdline=off".to_owned());
        v.push("-global".to_owned());
        v.push("virtio-mmio.force-legacy=off".to_owned());
        v.push("-nodefaults".to_owned());
        v.push("-no-user-config".to_owned());
        v.push("-device".to_owned());
        v.push("isa-debug-exit,iobase=0xf4,iosize=0x04".to_owned());
    }
    let ghost with_mv = v.deep_view();
    proof {
        assert(with_mv =~~= with_cpu + spec_microvm_args(micro_vm));
    }
    let net_cmdline: String = match netconf {
        NetworkConfig::TapNetwork(c) => {
            v.push("-netdev".to_owned());
            let mut nd: String = "tap,id=net0,fd=".to_owned();
            nd.append(i32_to_dec(tap_fd.unwrap()).as_str());
            v.push(nd);
            v.push("-device".to_owned());
            let mut dev: String = if micro_vm {
                "virtio-net-device,netdev=net0,mac=".to_owned()
            } else {
                "virtio-net-pci,netdev=net0,disable-legacy=on,mac=".to_owned()
            };
            dev.append(c.mac.as_str());
            v.push(dev);
            v.push("-append".to_owned());
            let mut cmd: String = "-ip ".to_owned();
            cmd.append(c.ip.as_str());
            cmd.append(" -gateway ");
            cmd.append(c.gateway.as_str());
            cmd.append(" -mask ");
            cmd.append(c.mask.as_str());
            cmd
        },
        NetworkConfig::UserNetwork(port) => {
            v.push("-netdev".to_owned());
            let p = u64_to_dec(*port as u64);
            let mut nd: String = "user,id=u1,hostfwd=tcp::".to_owned();
            nd.append(p.as_str());
            nd.append("-:");
            nd.append(p.as_str());
            nd.append(",net=192.168.76.0/24,dhcpstart=192.168.76.9");
            v.push(nd);
            v.push("-device".to_owned());
            v.push("virtio-net-pci,netdev=u1,disable-legacy=on".to_owned());
            v.push("-append".to_owned());
            String::new()
        },
        NetworkConfig::NoNetwork => {
            v.push("-append".to_owned());
            String::new()
        },
    };
    let ghost with_net = v.deep_view();
    proof {
        assert(with_net =~~= with_mv + spec_net_args(netconf@, micro_vm, *tap_fd));
        assert(net_cmdline@ == spec_net_cmdline(netconf@));
    }
    let cmdline: String = if app_args.len() > 1 {
        let mut rest: Vec<String> = Vec::new();
        let mut j: usize = 1;
        while j < app_args.len()
            invariant
                1 <= j <= app_args@.len(),
                rest.deep_view() == app_args.deep_view().subrange(1, j as int),
            decreases app_args@.len() - j,
        {
            let ghost prev = rest.deep_view();
            rest.push(app_args[j].clone());
            proof {
                assert(rest.deep_view() =~= prev.push(app_args.deep_view()[j as int]));
                assert(rest.deep_view() =~= app_args.deep_view().subrange(1, j + 1));
            }
            j = j + 1;
        }
        proof {
            assert(rest.deep_view() =~= app_args.deep_view().skip(1));
        }
        let joined = join_with(&rest, " ");
        let mut c2 = net_cmdline;
        c2.append(" -- ");
        c2.append(joined.as_str());
        c2
    } else {
        net_cmdline
    };
    proof {
        assert(cmdline@ == spec_cmdline(netconf@, app_args.deep_view()));
    }
    v.push(cmdline);
    proof {
        assert(v.deep_view() =~~= spec_qemu_args(kernel@, app@, netconf@, app_args.deep_view(),
            micro_vm, kvm, *tap_fd));
    }
    v
}

} // verus!
