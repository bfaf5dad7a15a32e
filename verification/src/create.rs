use vstd::prelude::*;
use vstd::string::StrSliceExecFns;
use vstd::bytes::{spec_u64_to_le_bytes, u64_to_le_bytes};
use vstd::utf8::encode_utf8;
use crate::errors::CoreError;
use crate::numfmt::{i32_from_le4, i32_to_dec, spec_dec_signed, spec_i32_le};
use crate::paths::{is_absolute_path, spec_is_absolute};
use crate::record::{clone_annotations, ContainerConfig, OciState};
use crate::strutil::concat3;

verus! {

/// The signal byte with which init asks for the prestart hooks to run.
pub const INIT_REQ_PRESTART_HOOKS: u8 = 0x17;

/// The signal byte acknowledging that the prestart hooks have run.
pub const CREATE_ACK_PRESTART_HOOKS: u8 = 0x18;

/// The signal byte with which init announces it is about to execv.
pub const INIT_READY_TO_EXECV: u8 = 0x19;

/// One operation on the init pipe, as seen from the parent: a read that
/// returned these bytes, or a write of these bytes.
pub enum PipeOp {
    R(Seq<u8>),
    W(Seq<u8>),
}

/// The kind of each action the orchestrator has issued, in order.
pub enum ActKind {
    MakeStateDir,
    WriteRecord,
    MakeFifo,
    SetupFds,
    Spawn,
    ReadInit,
    ResolveRootfs,
    WriteInit,
    ReadPid,
    WritePidfile,
    RunHook,
    Finish,
}

/// What `create` was asked to do.  `pidfile` is the resolved path the
/// grandchild PID is written to: the one asked for, or the default
/// `containerpid` inside the container's state directory.
pub struct CreateConfig {
    pub id: String,
    pub bundle: String,
    pub pidfile: String,
    pub has_console_socket: bool,
    pub config: ContainerConfig,
}

/// Where the create handshake stands, from the parent's view.
#[derive(Clone, Copy, PartialEq, Eq, Structural, Debug)]
pub enum CreatePhase {
    /// Make the state directory.
    MakeDir,
    /// Write `container.json` with create-exclusive semantics.
    WriteRecord,
    /// Make `exec.fifo`, mode 0644, owned by uid 0 / gid 0.
    MakeFifo,
    /// Build the handshake fds: fifo handle, init socketpair, log pipe,
    /// spec file, optional console socket.
    SetupFds,
    /// Spawn the init helper.
    SpawnInit,
    /// Wait for the one hello byte from init.
    AwaitHello,
    /// Wait for the canonical rootfs path from the filesystem.
    ResolveRootfs,
    /// Wait for the framed rootfs path to reach init.
    SendRootfs,
    /// Wait for the grandchild PID, four bytes little endian.
    AwaitPid,
    /// Wait for the PID to land in the pidfile.
    WritePidfile,
    /// Wait for init to request the prestart hooks.
    AwaitPrestartReq,
    /// Run the prestart hooks, one at a time.
    RunHooks,
    /// Wait for the acknowledgement byte to reach init.
    SendAck,
    /// Wait for init to announce it is ready to execv.
    AwaitReady,
    /// The container is created; init is blocked on the exec fifo.
    Done,
    /// The handshake failed.
    Failed,
}

/// What the driver reports back to the orchestrator.
pub enum CreateEvent {
    DirMade { already_exists: bool },
    RecordWritten { already_exists: bool },
    FifoMade { ok: bool },
    FdsReady { ok: bool },
    Spawned { ok: bool },
    ByteRead { value: u8 },
    ReadFailed,
    RootfsResolved { ok: bool, path: String },
    WriteDone { ok: bool },
    PidRead { bytes: [u8; 4] },
    PidfileWritten { ok: bool },
    HookDone { status: i32, stderr: String },
    HookSpawnFailed,
}

/// What the driver must do next.  Failure actions say whether the log
/// forwarder must be joined first: any failure after init was spawned
/// drains init's diagnostics before the error is raised.
pub enum CreateAction {
    /// Make the state root and the container's state directory.
    MakeStateDir,
    /// Serialise the container record into `container.json`, opened with
    /// create-exclusive semantics.
    WriteRecord,
    /// Make `exec.fifo`, mode 0644, chown to uid 0 / gid 0.
    MakeFifo,
    /// Open the fifo `O_PATH`, build the init socketpair and the log pipe,
    /// open the spec file, dial the console socket when one is configured.
    SetupFds,
    /// Spawn init with the fd slot table, close the parent's copies of the
    /// child-side fds, start the log forwarder.
    SpawnInit,
    /// Read one byte from the init pipe.
    ReadInitByte,
    /// Canonicalise this path against the filesystem.
    ResolveRootfs { path: String },
    /// Write these bytes to the init pipe.
    WriteInit { bytes: Vec<u8> },
    /// Read four bytes from the init pipe.
    ReadInitPid,
    /// Write this text into the pidfile at this path.
    WritePidfile { path: String, pid: i32, text: String },
    /// Run this prestart hook, writing the State document to its stdin.
    RunHook { index: usize, state: OciState },
    /// Join the log forwarder; the container is created.
    Finish,
    /// Fail without joining the log forwarder (init was never spawned).
    Fail { error: CoreError },
    /// Join the log forwarder, then fail.
    FailAfterJoin { error: CoreError },
}

/// The framed rootfs message: eight bytes little-endian length, then the
/// path, UTF-8 encoded.
pub open spec fn spec_frame(path: Seq<char>) -> Seq<u8> {
    spec_u64_to_le_bytes(((encode_utf8(path).len() as usize) as u64)) + encode_utf8(path)
}

/// Builds the framed rootfs message.
pub fn encode_rootfs_frame(path: &str) -> (r: Vec<u8>)
    ensures
        r@ == spec_frame(path@),
{
    let len: usize = path.len();
    let mut f: Vec<u8> = u64_to_le_bytes(len as u64);
    let mut body: Vec<u8> = path.as_bytes_vec();
    f.append(&mut body);
    proof {
        assert(f@ =~= spec_frame(path@));
    }
    f
}

/// Which events a phase can take.
pub open spec fn expects(phase: CreatePhase, ev: CreateEvent) -> bool {
    match phase {
        CreatePhase::MakeDir => ev is DirMade,
        CreatePhase::WriteRecord => ev is RecordWritten,
        CreatePhase::MakeFifo => ev is FifoMade,
        CreatePhase::SetupFds => ev is FdsReady,
        CreatePhase::SpawnInit => ev is Spawned,
        CreatePhase::AwaitHello => ev is ByteRead || ev is ReadFailed,
        CreatePhase::ResolveRootfs => ev is RootfsResolved,
        CreatePhase::SendRootfs => ev is WriteDone,
        CreatePhase::AwaitPid => ev is PidRead || ev is ReadFailed,
        CreatePhase::WritePidfile => ev is PidfileWritten,
        CreatePhase::AwaitPrestartReq => ev is ByteRead || ev is ReadFailed,
        CreatePhase::RunHooks => ev is HookDone || ev is HookSpawnFailed,
        CreatePhase::SendAck => ev is WriteDone,
        CreatePhase::AwaitReady => ev is ByteRead || ev is ReadFailed,
        CreatePhase::Done => false,
        CreatePhase::Failed => false,
    }
}

pub open spec fn keep_vals(pre: CreateMachine, post: CreateMachine) -> bool {
    &&& post.cfg == pre.cfg
    &&& post.rootfs == pre.rootfs
    &&& post.hook_index == pre.hook_index
    &&& post.pid == pre.pid
}

pub open spec fn keep_ghost(pre: CreateMachine, post: CreateMachine) -> bool {
    &&& post.hello@ == pre.hello@
    &&& post.pid_bytes@ == pre.pid_bytes@
}

pub open spec fn keep_io(pre: CreateMachine, post: CreateMachine) -> bool {
    &&& post.trace@ == pre.trace@
    &&& post.acts@ == pre.acts@
}

/// The machine stopped with this error; nothing else moved.
pub open spec fn failed_with(
    pre: CreateMachine,
    post: CreateMachine,
    a: CreateAction,
    after_join: bool,
) -> bool {
    &&& post.phase is Failed
    &&& keep_vals(pre, post)
    &&& keep_ghost(pre, post)
    &&& keep_io(pre, post)
    &&& (if after_join {
        a is FailAfterJoin
    } else {
        a is Fail
    })
    &&& (match a {
        CreateAction::Fail { error } => post.failure == Some(error),
        CreateAction::FailAfterJoin { error } => post.failure == Some(error),
        _ => false,
    })
}

/// What a prestart hook must be handed on stdin.
pub open spec fn hook_state_matches(pre: CreateMachine, state: OciState) -> bool {
    &&& state.version@ == "1.0.2"@
    &&& state.id@ == pre.cfg.id@
    &&& state.status@ == "created"@
    &&& state.pid == pre.pid
    &&& state.bundle@ == pre.cfg.bundle@
    &&& state.annotations.deep_view() == pre.cfg.config.annotations.deep_view()
}

/// The transition relation of the create orchestrator: for each phase and
/// event, the next state and the action handed to the driver.
pub open spec fn step_rel(
    pre: CreateMachine,
    ev: CreateEvent,
    post: CreateMachine,
    a: CreateAction,
) -> bool {
    match pre.phase {
        CreatePhase::MakeDir => (match ev {
            CreateEvent::DirMade { already_exists } => if already_exists {
                failed_with(pre, post, a, false) && a->Fail_error is AlreadyExists
            } else {
                &&& post.phase is WriteRecord
                &&& post.failure is None
                &&& keep_vals(pre, post)
                &&& keep_ghost(pre, post)
                &&& post.trace@ == pre.trace@
                &&& post.acts@ == pre.acts@ + seq![ActKind::WriteRecord]
                &&& a is WriteRecord
            },
            _ => false,
        }),
        CreatePhase::WriteRecord => (match ev {
            CreateEvent::RecordWritten { already_exists } => if already_exists {
                failed_with(pre, post, a, false) && a->Fail_error is AlreadyExists
            } else {
                &&& post.phase is MakeFifo
                &&& post.failure is None
                &&& keep_vals(pre, post)
                &&& keep_ghost(pre, post)
                &&& post.trace@ == pre.trace@
                &&& post.acts@ == pre.acts@ + seq![ActKind::MakeFifo]
                &&& a is MakeFifo
            },
            _ => false,
        }),
        CreatePhase::MakeFifo => (match ev {
            CreateEvent::FifoMade { ok } => if !ok {
                failed_with(pre, post, a, false) && a->Fail_error is FdSetupFailed
            } else {
                &&& post.phase is SetupFds
                &&& post.failure is None
                &&& keep_vals(pre, post)
                &&& keep_ghost(pre, post)
                &&& post.trace@ == pre.trace@
                &&& post.acts@ == pre.acts@ + seq![ActKind::SetupFds]
                &&& a is SetupFds
            },
            _ => false,
        }),
        CreatePhase::SetupFds => (match ev {
            CreateEvent::FdsReady { ok } => if !ok {
                failed_with(pre, post, a, false) && a->Fail_error is FdSetupFailed
            } else {
                &&& post.phase is SpawnInit
                &&& post.failure is None
                &&& keep_vals(pre, post)
                &&& keep_ghost(pre, post)
                &&& post.trace@ == pre.trace@
                &&& post.acts@ == pre.acts@ + seq![ActKind::Spawn]
                &&& a is SpawnInit
            },
            _ => false,
        }),
        CreatePhase::SpawnInit => (match ev {
            CreateEvent::Spawned { ok } => if !ok {
                failed_with(pre, post, a, false) && a->Fail_error is SpawnFailed
            } else {
                &&& post.phase is AwaitHello
                &&& post.failure is None
                &&& keep_vals(pre, post)
                &&& keep_ghost(pre, post)
                &&& post.trace@ == pre.trace@
                &&& post.acts@ == pre.acts@ + seq![ActKind::ReadInit]
                &&& a is ReadInitByte
            },
            _ => false,
        }),
        CreatePhase::AwaitHello => (match ev {
            CreateEvent::ByteRead { value } => {
                &&& post.phase is ResolveRootfs
                &&& post.failure is None
                &&& keep_vals(pre, post)
                &&& post.hello@ == value
                &&& post.pid_bytes@ == pre.pid_bytes@
                &&& post.trace@ == pre.trace@ + seq![PipeOp::R(seq![value])]
                &&& post.acts@ == pre.acts@ + seq![ActKind::ResolveRootfs]
                &&& (a matches CreateAction::ResolveRootfs { path } && {
                    let root = pre.cfg.config.root_path@;
                    if spec_is_absolute(root) {
                        path@ == root
                    } else {
                        path@ == pre.cfg.bundle@ + "/"@ + root
                    }
                })
            },
            CreateEvent::ReadFailed => failed_with(pre, post, a, true)
                && a->FailAfterJoin_error is InitDied,
            _ => false,
        }),
        CreatePhase::ResolveRootfs => (match ev {
            CreateEvent::RootfsResolved { ok, path } => if !ok {
                failed_with(pre, post, a, true) && a->FailAfterJoin_error is BadBundle
            } else {
                &&& post.phase is SendRootfs
                &&& post.failure is None
                &&& post.cfg == pre.cfg
                &&& post.hook_index == pre.hook_index
                &&& post.pid == pre.pid
                &&& post.rootfs@ == path@
                &&& keep_ghost(pre, post)
                &&& post.trace@ == pre.trace@ + seq![PipeOp::W(spec_frame(path@))]
                &&& post.acts@ == pre.acts@ + seq![ActKind::WriteInit]
                &&& (a matches CreateAction::WriteInit { bytes } && bytes@ == spec_frame(path@))
            },
            _ => false,
        }),
        CreatePhase::SendRootfs => (match ev {
            CreateEvent::WriteDone { ok } => if !ok {
                failed_with(pre, post, a, true) && a->FailAfterJoin_error is InitDied
            } else {
                &&& post.phase is AwaitPid
                &&& post.failure is None
                &&& keep_vals(pre, post)
                &&& keep_ghost(pre, post)
                &&& post.trace@ == pre.trace@
                &&& post.acts@ == pre.acts@ + seq![ActKind::ReadPid]
                &&& a is ReadInitPid
            },
            _ => false,
        }),
        CreatePhase::AwaitPid => (match ev {
            CreateEvent::PidRead { bytes } => {
                &&& post.failure is None
                &&& post.cfg == pre.cfg
                &&& post.rootfs == pre.rootfs
                &&& post.hook_index == pre.hook_index
                &&& post.pid as int == spec_i32_le(bytes@)
                &&& post.hello@ == pre.hello@
                &&& post.pid_bytes@ == bytes@
                &&& post.trace@ == pre.trace@ + seq![PipeOp::R(bytes@)]
                &&& post.phase is WritePidfile
                &&& post.acts@ == pre.acts@ + seq![ActKind::WritePidfile]
                &&& (a matches CreateAction::WritePidfile { path, pid, text } && path@
                    == pre.cfg.pidfile@ && pid == post.pid && text@ == spec_dec_signed(
                    post.pid as int,
                ))
            },
            CreateEvent::ReadFailed => failed_with(pre, post, a, true)
                && a->FailAfterJoin_error is InitDied,
            _ => false,
        }),
        CreatePhase::WritePidfile => (match ev {
            CreateEvent::PidfileWritten { ok } => if !ok {
                failed_with(pre, post, a, true) && a->FailAfterJoin_error is FdSetupFailed
            } else {
                &&& post.phase is AwaitPrestartReq
                &&& post.failure is None
                &&& keep_vals(pre, post)
                &&& keep_ghost(pre, post)
                &&& post.trace@ == pre.trace@
                &&& post.acts@ == pre.acts@ + seq![ActKind::ReadInit]
                &&& a is ReadInitByte
            },
            _ => false,
        }),
        CreatePhase::AwaitPrestartReq => (match ev {
            CreateEvent::ByteRead { value } => if value != INIT_REQ_PRESTART_HOOKS {
                &&& failed_with(pre, post, a, true)
                &&& (a->FailAfterJoin_error matches CoreError::InitProtocolViolation {
                    expected,
                    got,
                } && expected == INIT_REQ_PRESTART_HOOKS && got == value)
            } else {
                &&& post.failure is None
                &&& post.cfg == pre.cfg
                &&& post.rootfs == pre.rootfs
                &&& post.pid == pre.pid
                &&& keep_ghost(pre, post)
                &&& (if pre.cfg.config.prestart.len() == 0 {
                    &&& post.phase is SendAck
                    &&& post.hook_index == pre.hook_index
                    &&& post.trace@ == pre.trace@ + seq![
                        PipeOp::R(seq![INIT_REQ_PRESTART_HOOKS]),
                        PipeOp::W(seq![CREATE_ACK_PRESTART_HOOKS]),
                    ]
                    &&& post.acts@ == pre.acts@ + seq![ActKind::WriteInit]
                    &&& (a matches CreateAction::WriteInit { bytes } && bytes@ == seq![
                        CREATE_ACK_PRESTART_HOOKS,
                    ])
                } else {
                    &&& post.phase is RunHooks
                    &&& post.hook_index == 0
                    &&& post.trace@ == pre.trace@ + seq![
                        PipeOp::R(seq![INIT_REQ_PRESTART_HOOKS]),
                    ]
                    &&& post.acts@ == pre.acts@ + seq![ActKind::RunHook]
                    &&& (a matches CreateAction::RunHook { index, state } && index == 0
                        && hook_state_matches(pre, state))
                })
            },
            CreateEvent::ReadFailed => failed_with(pre, post, a, true)
                && a->FailAfterJoin_error is InitDied,
            _ => false,
        }),
        CreatePhase::RunHooks => (match ev {
            CreateEvent::HookDone { status, stderr } => if status != 0 {
                &&& failed_with(pre, post, a, true)
                &&& (a->FailAfterJoin_error matches CoreError::PrestartHookFailed {
                    path,
                    status: st,
                    stderr: sd,
                } && path@ == pre.cfg.config.prestart[pre.hook_index as int].path@ && st == status
                    && sd@ == stderr@)
            } else {
                &&& post.failure is None
                &&& post.cfg == pre.cfg
                &&& post.rootfs == pre.rootfs
                &&& post.pid == pre.pid
                &&& keep_ghost(pre, post)
                &&& (if pre.hook_index + 1 == pre.cfg.config.prestart.len() {
                    &&& post.phase is SendAck
                    &&& post.trace@ == pre.trace@ + seq![
                        PipeOp::W(seq![CREATE_ACK_PRESTART_HOOKS]),
                    ]
                    &&& post.acts@ == pre.acts@ + seq![ActKind::WriteInit]
                    &&& (a matches CreateAction::WriteInit { bytes } && bytes@ == seq![
                        CREATE_ACK_PRESTART_HOOKS,
                    ])
                } else {
                    &&& post.phase is RunHooks
                    &&& post.hook_index == pre.hook_index + 1
                    &&& post.trace@ == pre.trace@
                    &&& post.acts@ == pre.acts@ + seq![ActKind::RunHook]
                    &&& (a matches CreateAction::RunHook { index, state } && index
                        == pre.hook_index + 1 && hook_state_matches(pre, state))
                })
            },
            CreateEvent::HookSpawnFailed => failed_with(pre, post, a, true)
                && a->FailAfterJoin_error is SpawnFailed,
            _ => false,
        }),
        CreatePhase::SendAck => (match ev {
            CreateEvent::WriteDone { ok } => if !ok {
                failed_with(pre, post, a, true) && a->FailAfterJoin_error is InitDied
            } else {
                &&& post.phase is AwaitReady
                &&& post.failure is None
                &&& keep_vals(pre, post)
                &&& keep_ghost(pre, post)
                &&& post.trace@ == pre.trace@
                &&& post.acts@ == pre.acts@ + seq![ActKind::ReadInit]
                &&& a is ReadInitByte
            },
            _ => false,
        }),
        CreatePhase::AwaitReady => (match ev {
            CreateEvent::ByteRead { value } => if value != INIT_READY_TO_EXECV {
                &&& failed_with(pre, post, a, true)
                &&& (a->FailAfterJoin_error matches CoreError::InitProtocolViolation {
                    expected,
                    got,
                } && expected == INIT_READY_TO_EXECV && got == value)
            } else {
                &&& post.phase is Done
                &&& post.failure is None
                &&& keep_vals(pre, post)
                &&& keep_ghost(pre, post)
                &&& post.trace@ == pre.trace@ + seq![PipeOp::R(seq![INIT_READY_TO_EXECV])]
                &&& post.acts@ == pre.acts@ + seq![ActKind::Finish]
                &&& a is Finish
            },
            CreateEvent::ReadFailed => failed_with(pre, post, a, true)
                && a->FailAfterJoin_error is InitDied,
            _ => false,
        }),
        CreatePhase::Done => false,
        CreatePhase::Failed => false,
    }
}

/// The create orchestrator: a state machine over the events of the
/// handshake, issuing one action at a time.  The ghost trace records every
/// operation performed on the init pipe.
pub struct CreateMachine {
    pub cfg: CreateConfig,
    pub phase: CreatePhase,
    pub rootfs: String,
    pub hook_index: usize,
    pub pid: i32,
    pub failure: Option<CoreError>,
    pub hello: Ghost<u8>,
    pub pid_bytes: Ghost<Seq<u8>>,
    pub trace: Ghost<Seq<PipeOp>>,
    pub acts: Ghost<Seq<ActKind>>,
}

impl CreateMachine {
    /// The pipe trace the handshake has produced so far, per phase.
    pub open spec fn trace_upto(self) -> Seq<PipeOp> {
        let hello = seq![PipeOp::R(seq![self.hello@])];
        let sent = hello + seq![PipeOp::W(spec_frame(self.rootfs@))];
        let pid = sent + seq![PipeOp::R(self.pid_bytes@)];
        let req = pid + seq![PipeOp::R(seq![INIT_REQ_PRESTART_HOOKS])];
        let ack = req + seq![PipeOp::W(seq![CREATE_ACK_PRESTART_HOOKS])];
        let ready = ack + seq![PipeOp::R(seq![INIT_READY_TO_EXECV])];
        match self.phase {
            CreatePhase::MakeDir => Seq::empty(),
            CreatePhase::WriteRecord => Seq::empty(),
            CreatePhase::MakeFifo => Seq::empty(),
            CreatePhase::SetupFds => Seq::empty(),
            CreatePhase::SpawnInit => Seq::empty(),
            CreatePhase::AwaitHello => Seq::empty(),
            CreatePhase::ResolveRootfs => hello,
            CreatePhase::SendRootfs => sent,
            CreatePhase::AwaitPid => sent,
            CreatePhase::WritePidfile => pid,
            CreatePhase::AwaitPrestartReq => pid,
            CreatePhase::RunHooks => req,
            CreatePhase::SendAck => ack,
            CreatePhase::AwaitReady => ack,
            CreatePhase::Done => ready,
            CreatePhase::Failed => self.trace@,
        }
    }

    /// The machine's invariant: the trace matches the phase, the hook
    /// index stays within the hook list, and before anything was written
    /// the only actions issued are the directory creation and the
    /// create-exclusive record write.
    pub open spec fn inv(self) -> bool {
        &&& self.trace@ == self.trace_upto()
        &&& self.hook_index <= self.cfg.config.prestart.len()
        &&& (self.phase is RunHooks ==> self.hook_index < self.cfg.config.prestart.len())
        &&& (self.phase is Done || self.phase is WritePidfile || self.phase is AwaitPrestartReq
            || self.phase is RunHooks || self.phase is SendAck || self.phase is AwaitReady
            ==> self.pid_bytes@.len() == 4)
        &&& (self.phase is MakeDir ==> self.acts@ == seq![ActKind::MakeStateDir])
        &&& (self.phase is WriteRecord ==> self.acts@ == seq![
            ActKind::MakeStateDir,
            ActKind::WriteRecord,
        ])
        &&& (self.phase is MakeFifo ==> self.acts@ == seq![
            ActKind::MakeStateDir,
            ActKind::WriteRecord,
            ActKind::MakeFifo,
        ])
        &&& (self.phase is SetupFds ==> self.acts@ == seq![
            ActKind::MakeStateDir,
            ActKind::WriteRecord,
            ActKind::MakeFifo,
            ActKind::SetupFds,
        ])
        &&& (self.phase is SpawnInit ==> self.acts@ == seq![
            ActKind::MakeStateDir,
            ActKind::WriteRecord,
            ActKind::MakeFifo,
            ActKind::SetupFds,
            ActKind::Spawn,
        ])
        &&& (match self.phase {
            CreatePhase::AwaitHello | CreatePhase::ResolveRootfs | CreatePhase::SendRootfs
                | CreatePhase::AwaitPid | CreatePhase::WritePidfile
                | CreatePhase::AwaitPrestartReq | CreatePhase::RunHooks | CreatePhase::SendAck
                | CreatePhase::AwaitReady | CreatePhase::Done => self.acts@.len() >= 5
                && self.acts@[2] is MakeFifo && self.acts@[4] is Spawn,
            _ => true,
        })
        &&& (self.phase is Failed <==> self.failure is Some)
        &&& (self.failure matches Some(e) && e is AlreadyExists ==> self.trace@
            == Seq::<PipeOp>::empty() && (forall|k: int|
            0 <= k < self.acts@.len() ==> (self.acts@[k] is MakeStateDir || self.acts@[k]
                is WriteRecord)))
    }

    /// Starts a create: the machine and its first action, making the
    /// state directory.
    pub fn new(cfg: CreateConfig) -> (r: (Self, CreateAction))
        ensures
            r.0.inv(),
            r.0.phase is MakeDir,
            r.0.cfg == cfg,
            r.0.trace@ == Seq::<PipeOp>::empty(),
            r.0.acts@ == seq![ActKind::MakeStateDir],
            r.1 is MakeStateDir,
    {
        let ghost acts0: Seq<ActKind> = seq![ActKind::MakeStateDir];
        let m = CreateMachine {
            cfg,
            phase: CreatePhase::MakeDir,
            rootfs: String::new(),
            hook_index: 0,
            pid: 0,
            failure: None,
            hello: Ghost(0u8),
            pid_bytes: Ghost(Seq::empty()),
            trace: Ghost(Seq::empty()),
            acts: Ghost(acts0),
        };
        (m, CreateAction::MakeStateDir)
    }

    /// The State document handed to each prestart hook: version 1.0.2,
    /// this container's id and bundle, status `created`, the grandchild
    /// PID, and the bundle's annotations.
    pub fn make_hook_state(&self) -> (r: OciState)
        ensures
            r.version@ == "1.0.2"@,
            r.id@ == self.cfg.id@,
            r.status@ == "created"@,
            r.pid == self.pid,
            r.bundle@ == self.cfg.bundle@,
            r.annotations.deep_view() == self.cfg.config.annotations.deep_view(),
    {
        OciState {
            version: "1.0.2".to_owned(),
            id: self.cfg.id.clone(),
            status: "created".to_owned(),
            pid: self.pid,
            bundle: self.cfg.bundle.clone(),
            annotations: clone_annotations(&self.cfg.config.annotations),
        }
    }

    /// Drives the handshake one event forward and returns the next action.
    pub fn step(&mut self, ev: CreateEvent) -> (a: CreateAction)
        requires
            old(self).inv(),
            expects(old(self).phase, ev),
        ensures
            final(self).inv(),
            step_rel(*old(self), ev, *final(self), a),
    {
        let ph = self.phase;
        match ph {
            CreatePhase::MakeDir => match ev {
                CreateEvent::DirMade { already_exists } => {
                    if already_exists {
                        self.fail(CoreError::AlreadyExists, false)
                    } else {
                        self.phase = CreatePhase::WriteRecord;
                        let ghost na = self.acts@ + seq![ActKind::WriteRecord];
                        self.acts = Ghost(na);
                        proof {
                            assert(self.acts@ =~= seq![ActKind::MakeStateDir, ActKind::WriteRecord]);
                        }
                        CreateAction::WriteRecord
                    }
                },
                _ => unreached(),
            },
            CreatePhase::WriteRecord => match ev {
                CreateEvent::RecordWritten { already_exists } => {
                    if already_exists {
                        self.fail(CoreError::AlreadyExists, false)
                    } else {
                        self.phase = CreatePhase::MakeFifo;
                        let ghost na = self.acts@ + seq![ActKind::MakeFifo];
                        self.acts = Ghost(na);
                        proof {
                            assert(self.acts@ =~= seq![
                                ActKind::MakeStateDir,
                                ActKind::WriteRecord,
                                ActKind::MakeFifo,
                            ]);
                        }
                        CreateAction::MakeFifo
                    }
                },
                _ => unreached(),
            },
            CreatePhase::MakeFifo => match ev {
                CreateEvent::FifoMade { ok } => {
                    if !ok {
                        self.fail(CoreError::FdSetupFailed, false)
                    } else {
                        self.phase = CreatePhase::SetupFds;
                        let ghost na = self.acts@ + seq![ActKind::SetupFds];
                        self.acts = Ghost(na);
                        proof {
                            assert(self.acts@ =~= seq![
                                ActKind::MakeStateDir,
                                ActKind::WriteRecord,
                                ActKind::MakeFifo,
                                ActKind::SetupFds,
                            ]);
                        }
                        CreateAction::SetupFds
                    }
                },
                _ => unreached(),
            },
            CreatePhase::SetupFds => match ev {
                CreateEvent::FdsReady { ok } => {
                    if !ok {
                        self.fail(CoreError::FdSetupFailed, false)
                    } else {
                        self.phase = CreatePhase::SpawnInit;
                        let ghost na = self.acts@ + seq![ActKind::Spawn];
                        self.acts = Ghost(na);
                        proof {
                            assert(self.acts@ =~= seq![
                                ActKind::MakeStateDir,
                                ActKind::WriteRecord,
                                ActKind::MakeFifo,
                                ActKind::SetupFds,
                                ActKind::Spawn,
                            ]);
                        }
                        CreateAction::SpawnInit
                    }
                },
                _ => unreached(),
            },
            CreatePhase::SpawnInit => match ev {
                CreateEvent::Spawned { ok } => {
                    if !ok {
                        self.fail(CoreError::SpawnFailed, false)
                    } else {
                        self.phase = CreatePhase::AwaitHello;
                        let ghost na = self.acts@ + seq![ActKind::ReadInit];
                        self.acts = Ghost(na);
                        CreateAction::ReadInitByte
                    }
                },
                _ => unreached(),
            },
            CreatePhase::AwaitHello => match ev {
                CreateEvent::ByteRead { value } => {
                    self.phase = CreatePhase::ResolveRootfs;
                    self.hello = Ghost(value);
                    let ghost nt = self.trace@ + seq![PipeOp::R(seq![value])];
                    self.trace = Ghost(nt);
                    let ghost na = self.acts@ + seq![ActKind::ResolveRootfs];
                    self.acts = Ghost(na);
                    proof {
                        assert(self.trace@ =~= self.trace_upto());
                    }
                    let path: String = if is_absolute_path(self.cfg.config.root_path.as_str()) {
                        self.cfg.config.root_path.clone()
                    } else {
                        concat3(self.cfg.bundle.as_str(), "/", self.cfg.config.root_path.as_str())
                    };
                    CreateAction::ResolveRootfs { path }
                },
                CreateEvent::ReadFailed => self.fail(CoreError::InitDied, true),
                _ => unreached(),
            },
            CreatePhase::ResolveRootfs => match ev {
                CreateEvent::RootfsResolved { ok, path } => {
                    if !ok {
                        self.fail(CoreError::BadBundle, true)
                    } else {
                        self.phase = CreatePhase::SendRootfs;
                        self.rootfs = path;
                        let bytes = encode_rootfs_frame(self.rootfs.as_str());
                        let ghost nt = self.trace@ + seq![PipeOp::W(bytes@)];
                        self.trace = Ghost(nt);
                        let ghost na = self.acts@ + seq![ActKind::WriteInit];
                        self.acts = Ghost(na);
                        proof {
                            assert(self.trace@ =~= self.trace_upto());
                        }
                        CreateAction::WriteInit { bytes }
                    }
                },
                _ => unreached(),
            },
            CreatePhase::SendRootfs => match ev {
                CreateEvent::WriteDone { ok } => {
                    if !ok {
                        self.fail(CoreError::InitDied, true)
                    } else {
                        self.phase = CreatePhase::AwaitPid;
                        let ghost na = self.acts@ + seq![ActKind::ReadPid];
                        self.acts = Ghost(na);
                        CreateAction::ReadInitPid
                    }
                },
                _ => unreached(),
            },
            CreatePhase::AwaitPid => match ev {
                CreateEvent::PidRead { bytes } => {
                    let pid = i32_from_le4(&bytes);
                    self.pid = pid;
                    self.pid_bytes = Ghost(bytes@);
                    let ghost nt = self.trace@ + seq![PipeOp::R(bytes@)];
                    self.trace = Ghost(nt);
                    proof {
                        assert(self.trace@ + Seq::<PipeOp>::empty() =~= self.trace@);
                    }
                    self.phase = CreatePhase::WritePidfile;
                    let ghost na = self.acts@ + seq![ActKind::WritePidfile];
                    self.acts = Ghost(na);
                    CreateAction::WritePidfile {
                        path: self.cfg.pidfile.clone(),
                        pid,
                        text: i32_to_dec(pid),
                    }
                },
                CreateEvent::ReadFailed => self.fail(CoreError::InitDied, true),
                _ => unreached(),
            },
            CreatePhase::WritePidfile => match ev {
                CreateEvent::PidfileWritten { ok } => {
                    if !ok {
                        self.fail(CoreError::FdSetupFailed, true)
                    } else {
                        self.phase = CreatePhase::AwaitPrestartReq;
                        let ghost na = self.acts@ + seq![ActKind::ReadInit];
                        self.acts = Ghost(na);
                        CreateAction::ReadInitByte
                    }
                },
                _ => unreached(),
            },
            CreatePhase::AwaitPrestartReq => match ev {
                CreateEvent::ByteRead { value } => {
                    if value != INIT_REQ_PRESTART_HOOKS {
                        self.fail(
                            CoreError::InitProtocolViolation {
                                expected: INIT_REQ_PRESTART_HOOKS,
                                got: value,
                            },
                            true,
                        )
                    } else {
                        if self.cfg.config.prestart.len() == 0 {
                            self.phase = CreatePhase::SendAck;
                            let ghost nt = self.trace@ + seq![
                                PipeOp::R(seq![INIT_REQ_PRESTART_HOOKS]),
                                PipeOp::W(seq![CREATE_ACK_PRESTART_HOOKS]),
                            ];
                            self.trace = Ghost(nt);
                            let ghost na = self.acts@ + seq![ActKind::WriteInit];
                            self.acts = Ghost(na);
                            proof {
                                assert(self.trace@ =~= self.trace_upto());
                            }
                            CreateAction::WriteInit { bytes: ack_bytes() }
                        } else {
                            let state = self.make_hook_state();
                            self.phase = CreatePhase::RunHooks;
                            self.hook_index = 0;
                            let ghost nt = self.trace@ + seq![
                                PipeOp::R(seq![INIT_REQ_PRESTART_HOOKS]),
                            ];
                            self.trace = Ghost(nt);
                            let ghost na = self.acts@ + seq![ActKind::RunHook];
                            self.acts = Ghost(na);
                            CreateAction::RunHook { index: 0, state }
                        }
                    }
                },
                CreateEvent::ReadFailed => self.fail(CoreError::InitDied, true),
                _ => unreached(),
            },
            CreatePhase::RunHooks => match ev {
                CreateEvent::HookDone { status, stderr } => {
                    if status != 0 {
                        let i = self.hook_index;
                        self.fail(
                            CoreError::PrestartHookFailed {
                                path: self.cfg.config.prestart[i].path.clone(),
                                status,
                                stderr,
                            },
                            true,
                        )
                    } else {
                        if self.hook_index + 1 == self.cfg.config.prestart.len() {
                            self.phase = CreatePhase::SendAck;
                            let ghost nt = self.trace@ + seq![
                                PipeOp::W(seq![CREATE_ACK_PRESTART_HOOKS]),
                            ];
                            self.trace = Ghost(nt);
                            let ghost na = self.acts@ + seq![ActKind::WriteInit];
                            self.acts = Ghost(na);
                            CreateAction::WriteInit { bytes: ack_bytes() }
                        } else {
                            let state = self.make_hook_state();
                            let next = self.hook_index + 1;
                            self.hook_index = next;
                            let ghost na = self.acts@ + seq![ActKind::RunHook];
                            self.acts = Ghost(na);
                            CreateAction::RunHook { index: next, state }
                        }
                    }
                },
                CreateEvent::HookSpawnFailed => self.fail(CoreError::SpawnFailed, true),
                _ => unreached(),
            },
            CreatePhase::SendAck => match ev {
                CreateEvent::WriteDone { ok } => {
                    if !ok {
                        self.fail(CoreError::InitDied, true)
                    } else {
                        self.phase = CreatePhase::AwaitReady;
                        let ghost na = self.acts@ + seq![ActKind::ReadInit];
                        self.acts = Ghost(na);
                        CreateAction::ReadInitByte
                    }
                },
                _ => unreached(),
            },
            CreatePhase::AwaitReady => match ev {
                CreateEvent::ByteRead { value } => {
                    if value != INIT_READY_TO_EXECV {
                        self.fail(
                            CoreError::InitProtocolViolation {
                                expected: INIT_READY_TO_EXECV,
                                got: value,
                            },
                            true,
                        )
                    } else {
                        self.phase = CreatePhase::Done;
                        let ghost nt = self.trace@ + seq![PipeOp::R(seq![INIT_READY_TO_EXECV])];
                        self.trace = Ghost(nt);
                        let ghost na = self.acts@ + seq![ActKind::Finish];
                        self.acts = Ghost(na);
                        CreateAction::Finish
                    }
                },
                CreateEvent::ReadFailed => self.fail(CoreError::InitDied, true),
                _ => unreached(),
            },
            CreatePhase::Done => unreached(),
            CreatePhase::Failed => unreached(),
        }
    }

    /// Stops the handshake with this error, recording whether the log
    /// forwarder must be joined first.
    fn fail(&mut self, error: CoreError, after_join: bool) -> (a: CreateAction)
        ensures
            failed_with(*old(self), *final(self), a, after_join),
            (match a {
                CreateAction::Fail { error: e } => e == error && !after_join,
                CreateAction::FailAfterJoin { error: e } => e == error && after_join,
                _ => false,
            }),
    {
        self.phase = CreatePhase::Failed;
        self.failure = Some(crate::errors::clone_error(&error));
        if after_join {
            CreateAction::FailAfterJoin { error }
        } else {
            CreateAction::Fail { error }
        }
    }
}

fn ack_bytes() -> (r: Vec<u8>)
    ensures
        r@ == seq![CREATE_ACK_PRESTART_HOOKS],
{
    let mut v: Vec<u8> = Vec::new();
    v.push(CREATE_ACK_PRESTART_HOOKS);
    proof {
        assert(v@ =~= seq![CREATE_ACK_PRESTART_HOOKS]);
    }
    v
}

/// Law (handshake totality): a create that reached `Done` performed
/// exactly this trace on the init pipe: one hello byte read, the framed
/// rootfs path written, four PID bytes read, the prestart request read,
/// the acknowledgement written, and the ready signal read — nothing else.
pub proof fn lemma_handshake_trace(m: CreateMachine)
    requires
        m.inv(),
        m.phase is Done,
    ensures
        m.trace@ == seq![
            PipeOp::R(seq![m.hello@]),
            PipeOp::W(spec_frame(m.rootfs@)),
            PipeOp::R(m.pid_bytes@),
            PipeOp::R(seq![INIT_REQ_PRESTART_HOOKS]),
            PipeOp::W(seq![CREATE_ACK_PRESTART_HOOKS]),
            PipeOp::R(seq![INIT_READY_TO_EXECV]),
        ],
        m.pid_bytes@.len() == 4,
{
    assert(m.trace@ =~= seq![
        PipeOp::R(seq![m.hello@]),
        PipeOp::W(spec_frame(m.rootfs@)),
        PipeOp::R(m.pid_bytes@),
        PipeOp::R(seq![INIT_REQ_PRESTART_HOOKS]),
        PipeOp::W(seq![CREATE_ACK_PRESTART_HOOKS]),
        PipeOp::R(seq![INIT_READY_TO_EXECV]),
    ]);
}

/// Law (single-writer state): a create that failed because the id already
/// exists has issued no action beyond making the state directory and the
/// create-exclusive record write; the existing container's record, fifo
/// and pidfile are untouched, and nothing was spawned.
pub proof fn lemma_already_exists_untouched(m: CreateMachine)
    requires
        m.inv(),
        m.failure matches Some(e) && e is AlreadyExists,
    ensures
        forall|k: int|
            0 <= k < m.acts@.len() ==> (m.acts@[k] is MakeStateDir || m.acts@[k] is WriteRecord),
        m.trace@ == Seq::<PipeOp>::empty(),
{
    assert(m.phase is Failed);
}

/// Law (barrier ordering): a create that got past spawning init — in
/// particular a successful one — made the exec fifo before init was
/// spawned, so a racing `start` blocks on opening the fifo until init
/// opens the write end, rather than failing on a missing file.
pub proof fn lemma_fifo_made_before_spawn(m: CreateMachine)
    requires
        m.inv(),
        m.phase is Done,
    ensures
        exists|i: int, j: int|
            0 <= i < j < m.acts@.len() && m.acts@[i] is MakeFifo && m.acts@[j] is Spawn,
{
    assert(m.acts@[2] is MakeFifo && m.acts@[4] is Spawn);
}

} // verus!
