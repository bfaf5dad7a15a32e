use vstd::prelude::*;

verus! {

/// The fd slots at which init finds its inherited descriptors: the
/// `O_PATH` handle of `exec.fifo`, the child end of the init socketpair,
/// the read-only spec file, the write end of the log pipe, and, when a
/// console socket was dialled, its stream.
pub const FIFO_SLOT: i32 = 3;

pub const INITPIPE_SLOT: i32 = 4;

pub const SPEC_FILE_SLOT: i32 = 5;

pub const LOG_PIPE_SLOT: i32 = 6;

pub const CONSOLE_SLOT: i32 = 7;

/// One environment variable of the init contract.
pub struct EnvVar {
    pub name: String,
    pub value: String,
}

pub struct EnvVarV {
    pub name: Seq<char>,
    pub value: Seq<char>,
}

impl View for EnvVar {
    type V = EnvVarV;

    open spec fn view(&self) -> EnvVarV {
        EnvVarV { name: self.name@, value: self.value@ }
    }
}

impl DeepView for EnvVar {
    type V = EnvVarV;

    open spec fn deep_view(&self) -> EnvVarV {
        self@
    }
}

/// The argv with which the runtime re-executes its own binary as the init
/// helper.
pub fn init_argv(level: &str) -> (r: Vec<String>)
    ensures
        r.deep_view() == seq!["-l"@, level@, "--log-format"@, "json"@, "init"@],
{
    let mut v: Vec<String> = Vec::new();
    v.push("-l".to_owned());
    v.push(level.to_owned());
    v.push("--log-format".to_owned());
    v.push("json".to_owned());
    v.push("init".to_owned());
    proof {
        assert(v.deep_view() =~~= seq!["-l"@, level@, "--log-format"@, "json"@, "init"@]);
    }
    v
}

/// The environment contract with init: each variable carries the decimal
/// slot number of one inherited descriptor.
pub fn init_env() -> (r: Vec<EnvVar>)
    ensures
        r.deep_view() == seq![
            (EnvVarV { name: "RUNH_FIFOFD"@, value: "3"@ }),
            (EnvVarV { name: "RUNH_INITPIPE"@, value: "4"@ }),
            (EnvVarV { name: "RUNH_SPEC_FILE"@, value: "5"@ }),
            (EnvVarV { name: "RUNH_LOG_PIPE"@, value: "6"@ }),
            (EnvVarV { name: "RUNH_CONSOLE"@, value: "7"@ }),
        ],
{
    let mut v: Vec<EnvVar> = Vec::new();
    v.push(EnvVar { name: "RUNH_FIFOFD".to_owned(), value: "3".to_owned() });
    v.push(EnvVar { name: "RUNH_INITPIPE".to_owned(), value: "4".to_owned() });
    v.push(EnvVar { name: "RUNH_SPEC_FILE".to_owned(), value: "5".to_owned() });
    v.push(EnvVar { name: "RUNH_LOG_PIPE".to_owned(), value: "6".to_owned() });
    v.push(EnvVar { name: "RUNH_CONSOLE".to_owned(), value: "7".to_owned() });
    proof {
        assert(v.deep_view() =~~= seq![
            (EnvVarV { name: "RUNH_FIFOFD"@, value: "3"@ }),
            (EnvVarV { name: "RUNH_INITPIPE"@, value: "4"@ }),
            (EnvVarV { name: "RUNH_SPEC_FILE"@, value: "5"@ }),
            (EnvVarV { name: "RUNH_LOG_PIPE"@, value: "6"@ }),
            (EnvVarV { name: "RUNH_CONSOLE"@, value: "7"@ }),
        ]);
    }
    v
}

} // verus!
