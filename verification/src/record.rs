use vstd::prelude::*;
use crate::strutil::concat3;

verus! {

/// One key/value annotation carried through from the bundle configuration
/// into the OCI State document.
pub struct Annotation {
    pub key: String,
    pub value: String,
}

pub struct AnnotationV {
    pub key: Seq<char>,
    pub value: Seq<char>,
}

impl View for Annotation {
    type V = AnnotationV;

    open spec fn view(&self) -> AnnotationV {
        AnnotationV { key: self.key@, value: self.value@ }
    }
}

impl DeepView for Annotation {
    type V = AnnotationV;

    open spec fn deep_view(&self) -> AnnotationV {
        self@
    }
}

/// One prestart hook of the bundle configuration.
pub struct HookSpec {
    pub path: String,
    pub args: Option<Vec<String>>,
    pub env: Option<Vec<String>>,
    pub timeout: Option<i64>,
}

/// What the create orchestrator reads from the parsed bundle
/// configuration: the root path, the prestart hooks, and the annotations.
pub struct ContainerConfig {
    pub root_path: String,
    pub prestart: Vec<HookSpec>,
    pub annotations: Option<Vec<Annotation>>,
}

/// The persisted description of one container: its id, the bundle it was
/// created from, and where its init PID is recorded.
pub struct ContainerRecord {
    pub id: String,
    pub bundle: String,
    pub pidfile: String,
}

impl ContainerRecord {
    /// Builds the record.  When no pidfile was asked for, it defaults to
    /// `containerpid` inside the container's state directory.
    pub fn new(bundle: String, id: String, pidfile: Option<String>, state_dir: &str) -> (r: Self)
        ensures
            r.id == id,
            r.bundle == bundle,
            pidfile matches Some(p) ==> r.pidfile == p,
            pidfile is None ==> r.pidfile@ == state_dir@ + "/"@ + "containerpid"@,
    {
        let pf = match pidfile {
            Some(p) => p,
            None => concat3(state_dir, "/", "containerpid"),
        };
        ContainerRecord { id, bundle, pidfile: pf }
    }
}

/// The externally observable lifecycle status of a container, as the
/// `state` report derives it from the state directory.
#[derive(Clone, Copy, PartialEq, Eq, Structural, Debug)]
pub enum ContainerStatus {
    Created,
    Running,
    Stopped,
}

impl ContainerStatus {
    /// The status name as the state report prints it.
    pub fn name(&self) -> (r: String)
        ensures
            *self is Created ==> r@ == "created"@,
            *self is Running ==> r@ == "running"@,
            *self is Stopped ==> r@ == "stopped"@,
    {
        match self {
            ContainerStatus::Created => "created".to_owned(),
            ContainerStatus::Running => "running".to_owned(),
            ContainerStatus::Stopped => "stopped".to_owned(),
        }
    }
}

/// Derives the status the `state` report shows: a present `exec.fifo`
/// means created but not started; once the fifo is gone, the liveness of
/// the recorded init PID decides between running and stopped.
pub fn status_of(fifo_exists: bool, pid_alive: bool) -> (r: ContainerStatus)
    ensures
        fifo_exists ==> r is Created,
        !fifo_exists && pid_alive ==> r is Running,
        !fifo_exists && !pid_alive ==> r is Stopped,
{
    if fifo_exists {
        ContainerStatus::Created
    } else if pid_alive {
        ContainerStatus::Running
    } else {
        ContainerStatus::Stopped
    }
}

/// The OCI State document handed to lifecycle hooks on their stdin.
pub struct OciState {
    pub version: String,
    pub id: String,
    pub status: String,
    pub pid: i32,
    pub bundle: String,
    pub annotations: Option<Vec<Annotation>>,
}

/// A copy of the annotation list, pinned to carry the same keys and
/// values.
pub fn clone_annotations(a: &Option<Vec<Annotation>>) -> (r: Option<Vec<Annotation>>)
    ensures
        r.deep_view() == a.deep_view(),
{
    match a {
        None => None,
        Some(v) => {
            let mut out: Vec<Annotation> = Vec::new();
            let mut i: usize = 0;
            while i < v.len()
                invariant
                    i <= v@.len(),
                    out.deep_view() == v.deep_view().take(i as int),
                decreases v@.len() - i,
            {
                let ghost prev = out.deep_view();
                out.push(Annotation { key: v[i].key.clone(), value: v[i].value.clone() });
                proof {
                    assert(out.deep_view() =~= prev.push(v.deep_view()[i as int]));
                    assert(out.deep_view() =~= v.deep_view().take(i + 1));
                }
                i = i + 1;
            }
            proof {
                assert(v.deep_view().take(v@.len() as int) =~= v.deep_view());
            }
            Some(out)
        },
    }
}

} // verus!
