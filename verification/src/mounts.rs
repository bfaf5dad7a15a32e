use vstd::prelude::*;
use crate::errors::CoreError;
use crate::flags::{MountOptions, MS_RDONLY, MS_REMOUNT};
use crate::options::{
    any_unsupported, parse_mount_options, spec_parse_options, OptionState,
};
use crate::paths::{
    is_comp_prefix, path_components, path_starts_with, path_within, spec_is_absolute,
    is_absolute_path, split_path,
};
use crate::strutil::{concat3, spec_join, str_eq};

verus! {

/// One mount entry of the bundle configuration, as the mount engine sees it.
pub struct MountSpec {
    pub destination: String,
    pub source: Option<String>,
    pub typ: Option<String>,
    pub options: Option<Vec<String>>,
}

/// The abstract form of a mount entry.
pub struct MountSpecV {
    pub destination: Seq<char>,
    pub source: Option<Seq<char>>,
    pub typ: Option<Seq<char>>,
    pub options: Option<Seq<Seq<char>>>,
}

impl View for MountSpec {
    type V = MountSpecV;

    open spec fn view(&self) -> MountSpecV {
        MountSpecV {
            destination: self.destination@,
            source: self.source.deep_view(),
            typ: self.typ.deep_view(),
            options: self.options.deep_view(),
        }
    }
}

/// What the engine learned about a resolved destination by probing the
/// filesystem: whether the path exists, and whether it is a directory.
#[derive(Clone, Copy)]
pub struct DestState {
    pub exists: bool,
    pub is_dir: bool,
}

/// One action of a mount plan, to be carried out in order by the process
/// that owns the new mount namespace.
pub enum MountStep {
    /// Create this directory and any missing parents, mode 0755.
    MakeDirs { path: String },
    /// One mount(2) call.  The target must be addressed through an
    /// `O_PATH|O_CLOEXEC` descriptor re-opened as `/proc/self/fd/<n>` and
    /// verified by readlink, so a symlink cannot be swapped underneath.
    Mount {
        source: Option<String>,
        target: String,
        fstype: Option<String>,
        flags: u64,
        data: Option<String>,
        label: Option<String>,
    },
}

/// The abstract form of a mount step.
pub enum StepV {
    MakeDirs { path: Seq<char> },
    Mount {
        source: Option<Seq<char>>,
        target: Seq<char>,
        fstype: Option<Seq<char>>,
        flags: u64,
        data: Option<Seq<char>>,
        label: Option<Seq<char>>,
    },
}

impl View for MountStep {
    type V = StepV;

    open spec fn view(&self) -> StepV {
        match self {
            MountStep::MakeDirs { path } => StepV::MakeDirs { path: path@ },
            MountStep::Mount { source, target, fstype, flags, data, label } => StepV::Mount {
                source: source.deep_view(),
                target: target@,
                fstype: fstype.deep_view(),
                flags: *flags,
                data: data.deep_view(),
                label: label.deep_view(),
            },
        }
    }
}

pub open spec fn steps_view(ss: Seq<MountStep>) -> Seq<StepV> {
    ss.map_values(|s: MountStep| s@)
}

/// The destination names something under `/dev`, component-wise.
pub open spec fn dest_in_dev(dest: Seq<char>) -> bool {
    spec_is_absolute(dest) && is_comp_prefix(seq!["dev"@], path_components(dest))
}

/// The flags of the first mount call: `MS_RDONLY` must be dropped before
/// the initial mount when the destination lies under `/dev` or the
/// filesystem is tmpfs; the read-only bit is re-applied by the remount pass.
pub open spec fn initial_flags(mount_flags: u64, dest: Seq<char>, typ: Seq<char>) -> u64 {
    if dest_in_dev(dest) || typ == "tmpfs"@ {
        mount_flags & !MS_RDONLY
    } else {
        mount_flags
    }
}

/// The one or two mount calls every dispatch branch ends in: the mount
/// itself, then a propagation-only call when propagation flags were asked
/// for.
pub open spec fn spec_mount_calls(
    src_abs: Seq<char>,
    resolved: Seq<char>,
    fstype: Seq<char>,
    flags: u64,
    data: Option<Seq<char>>,
    label: Option<Seq<char>>,
    prop: u64,
) -> Seq<StepV> {
    let first = StepV::Mount {
        source: Some(src_abs),
        target: resolved,
        fstype: Some(fstype),
        flags: flags,
        data: data,
        label: label,
    };
    if prop != 0 {
        seq![
            first,
            StepV::Mount {
                source: None,
                target: resolved,
                fstype: None,
                flags: prop,
                data: None,
                label: None,
            },
        ]
    } else {
        seq![first]
    }
}

/// The plan for one mount entry: which error it is rejected with, or which
/// directory creations and mount calls realise it, in order.
pub open spec fn spec_plan_mount(
    m: MountSpecV,
    resolved: Seq<char>,
    rootfs: Seq<char>,
    label: Option<Seq<char>>,
    dest: DestState,
) -> Result<Seq<StepV>, CoreError> {
    match m.source {
        Option::None => Err(CoreError::MissingSource),
        Option::Some(src) => match m.typ {
            Option::None => Err(CoreError::MissingType),
            Option::Some(typ) => {
                let toks = match m.options {
                    Option::Some(t) => t,
                    Option::None => Seq::empty(),
                };
                if any_unsupported(toks) {
                    Err(CoreError::UnsupportedOption)
                } else {
                    let st = spec_parse_options(toks);
                    let data = match m.options {
                        Option::Some(_) => Some(spec_join(st.data, ","@)),
                        Option::None => None,
                    };
                    if !path_within(rootfs, resolved) {
                        Err(CoreError::EscapesRoot)
                    } else {
                        let src_abs = if spec_is_absolute(src) {
                            src
                        } else {
                            rootfs + "/"@ + src
                        };
                        let eff = initial_flags(st.mount_flags, m.destination, typ);
                        spec_dispatch(m.destination, typ, src_abs, resolved, rootfs, label,
                            dest, st, eff, data)
                    }
                }
            },
        },
    }
}

/// The per-filesystem-type dispatch of the mount engine.
pub open spec fn spec_dispatch(
    dest_path: Seq<char>,
    typ: Seq<char>,
    src_abs: Seq<char>,
    resolved: Seq<char>,
    rootfs: Seq<char>,
    label: Option<Seq<char>>,
    dest: DestState,
    st: OptionState,
    eff: u64,
    data: Option<Seq<char>>,
) -> Result<Seq<StepV>, CoreError> {
    if typ == "sysfs"@ || typ == "proc"@ {
        if dest.is_dir || !dest.exists {
            Ok(
                seq![StepV::MakeDirs { path: resolved }] + spec_mount_calls(src_abs, resolved,
                    typ, eff, data, None, st.propagation_flags),
            )
        } else {
            Err(CoreError::NotADirectory)
        }
    } else if typ == "mqueue"@ {
        let mk: Seq<StepV> = if !dest.exists {
            seq![StepV::MakeDirs { path: resolved }]
        } else {
            Seq::empty()
        };
        Ok(mk + spec_mount_calls(src_abs, resolved, typ, eff, data, None, st.propagation_flags))
    } else if typ == "tmpfs"@ {
        let mk: Seq<StepV> = if !dest.exists {
            seq![StepV::MakeDirs { path: resolved }]
        } else {
            Seq::empty()
        };
        let base = mk + spec_mount_calls(src_abs, resolved, typ, eff, data, label,
            st.propagation_flags);
        if st.mount_flags & MS_RDONLY != 0 {
            Ok(
                base + seq![
                    StepV::Mount {
                        source: Some(src_abs),
                        target: resolved,
                        fstype: Some(typ),
                        flags: st.mount_flags | MS_REMOUNT,
                        data: None,
                        label: None,
                    },
                ],
            )
        } else {
            Ok(base)
        }
    } else if typ == "bind"@ {
        Err(CoreError::UnsupportedMountType)
    } else if typ == "cgroup"@ {
        Ok(
            seq![StepV::MakeDirs { path: resolved }] + spec_mount_calls(src_abs, resolved,
                "cgroup2"@, eff, data, label, st.propagation_flags),
        )
    } else {
        if is_comp_prefix(path_components(rootfs).push("proc"@), path_components(resolved)) {
            Err(CoreError::ProcShadow)
        } else {
            Ok(
                seq![StepV::MakeDirs { path: resolved }] + spec_mount_calls(src_abs, resolved,
                    typ, eff, data, label, st.propagation_flags),
            )
        }
    }
}

pub open spec fn mounts_view(ms: Seq<MountSpec>) -> Seq<MountSpecV> {
    ms.map_values(|m: MountSpec| m@)
}

/// The plan for the first `n` mounts of a list, in order; the first entry
/// that is rejected fails the whole list with its error.
pub open spec fn spec_configure_mounts(
    ms: Seq<MountSpecV>,
    resolved: Seq<Seq<char>>,
    probes: Seq<DestState>,
    rootfs: Seq<char>,
    label: Option<Seq<char>>,
    n: int,
) -> Result<Seq<StepV>, CoreError>
    decreases n,
{
    if n <= 0 {
        Ok(Seq::empty())
    } else {
        match spec_configure_mounts(ms, resolved, probes, rootfs, label, n - 1) {
            Ok(pre) => match spec_plan_mount(ms[n - 1], resolved[n - 1], rootfs, label,
                probes[n - 1]) {
                Ok(steps) => Ok(pre + steps),
                Err(e) => Err(e),
            },
            Err(e) => Err(e),
        }
    }
}

proof fn lemma_configure_err_persists(
    ms: Seq<MountSpecV>,
    resolved: Seq<Seq<char>>,
    probes: Seq<DestState>,
    rootfs: Seq<char>,
    label: Option<Seq<char>>,
    n: int,
    len: int,
)
    requires
        spec_configure_mounts(ms, resolved, probes, rootfs, label, n) is Err,
        0 <= n <= len,
    ensures
        spec_configure_mounts(ms, resolved, probes, rootfs, label, len)
            == spec_configure_mounts(ms, resolved, probes, rootfs, label, n),
    decreases len - n,
{
    if n < len {
        lemma_configure_err_persists(ms, resolved, probes, rootfs, label, n + 1, len);
    }
}

/// Law (path safety): every mount call a plan holds targets the resolved
/// destination, and a plan is only produced at all when that destination
/// lies within the root; a destination outside the root is rejected with
/// `EscapesRoot` before any call is planned.
pub proof fn lemma_plan_targets_within(
    m: MountSpecV,
    resolved: Seq<char>,
    rootfs: Seq<char>,
    label: Option<Seq<char>>,
    dest: DestState,
)
    ensures
        spec_plan_mount(m, resolved, rootfs, label, dest) matches Ok(steps) ==> path_within(
            rootfs,
            resolved,
        ) && (forall|k: int|
            0 <= k < steps.len() && (#[trigger] steps[k]) is Mount ==> steps[k]->target
                == resolved),
        ({
            let toks = match m.options {
                Option::Some(t) => t,
                Option::None => Seq::empty(),
            };
            m.source is Some && m.typ is Some && !any_unsupported(toks) && !path_within(rootfs,
            resolved) ==> (spec_plan_mount(m, resolved, rootfs, label, dest) matches Err(e)
                && e is EscapesRoot)
        }),
{
    let sp = spec_plan_mount(m, resolved, rootfs, label, dest);
    if sp is Ok {
        let steps = sp->Ok_0;
        assert forall|k: int|
            0 <= k < steps.len() && (#[trigger] steps[k]) is Mount implies steps[k]->target
            == resolved by {}
    }
}

/// Law (tmpfs read-only round trip): a `tmpfs` mount whose option fold
/// leaves `MS_RDONLY` set is planned as the initial mount with
/// `MS_RDONLY` dropped, then (after the propagation-only call, exactly
/// when propagation flags were asked for) one remount carrying
/// `MS_REMOUNT` together with `MS_RDONLY`.  An option list that clears
/// the bit again, such as `ro` followed by `rw`, asks for a writable
/// mount and plans no remount.
pub proof fn lemma_tmpfs_ro_remount(
    m: MountSpecV,
    resolved: Seq<char>,
    rootfs: Seq<char>,
    label: Option<Seq<char>>,
    dest: DestState,
)
    requires
        m.typ == Some("tmpfs"@),
        ({
            let toks = match m.options {
                Option::Some(t) => t,
                Option::None => Seq::empty(),
            };
            spec_parse_options(toks).mount_flags & MS_RDONLY != 0
        }),
    ensures
        spec_plan_mount(m, resolved, rootfs, label, dest) matches Ok(steps) ==> ({
            let toks = match m.options {
                Option::Some(t) => t,
                Option::None => Seq::empty(),
            };
            let st = spec_parse_options(toks);
            let data = match m.options {
                Option::Some(_) => Some(spec_join(st.data, ","@)),
                Option::None => None,
            };
            let src_abs = if spec_is_absolute(m.source->0) {
                m.source->0
            } else {
                rootfs + "/"@ + m.source->0
            };
            steps == (if !dest.exists {
                seq![StepV::MakeDirs { path: resolved }]
            } else {
                Seq::<StepV>::empty()
            }) + spec_mount_calls(src_abs, resolved, "tmpfs"@, st.mount_flags & !MS_RDONLY, data,
                label, st.propagation_flags) + seq![
                StepV::Mount {
                    source: Some(src_abs),
                    target: resolved,
                    fstype: Some("tmpfs"@),
                    flags: st.mount_flags | MS_REMOUNT,
                    data: None,
                    label: None,
                },
            ]
        }),
        ({
            let toks = match m.options {
                Option::Some(t) => t,
                Option::None => Seq::empty(),
            };
            let st = spec_parse_options(toks);
            &&& (st.mount_flags | MS_REMOUNT) & MS_RDONLY != 0
            &&& (st.mount_flags | MS_REMOUNT) & MS_REMOUNT != 0
        }),
{
    reveal_strlit("tmpfs");
    reveal_strlit("sysfs");
    reveal_strlit("proc");
    reveal_strlit("mqueue");
    assert("tmpfs"@[0] != "sysfs"@[0]);
    assert("tmpfs"@ != "sysfs"@ && "tmpfs"@ != "proc"@ && "tmpfs"@ != "mqueue"@);
    let toks = match m.options {
        Option::Some(t) => t,
        Option::None => Seq::<Seq<char>>::empty(),
    };
    let st = spec_parse_options(toks);
    let f = st.mount_flags;
    assert((f | 0x20u64) & 0x1u64 != 0 && (f | 0x20u64) & 0x20u64 != 0) by (bit_vector)
        requires
            f & 0x1u64 != 0,
    ;
    let sp = spec_plan_mount(m, resolved, rootfs, label, dest);
    if sp is Ok {
        let data = match m.options {
            Option::Some(_) => Some(spec_join(st.data, ","@)),
            Option::None => None,
        };
        let src_abs = if spec_is_absolute(m.source->0) {
            m.source->0
        } else {
            rootfs + "/"@ + m.source->0
        };
        assert(sp->Ok_0 =~~= (if !dest.exists {
            seq![StepV::MakeDirs { path: resolved }]
        } else {
            Seq::<StepV>::empty()
        }) + spec_mount_calls(src_abs, resolved, "tmpfs"@, st.mount_flags & !MS_RDONLY, data,
            label, st.propagation_flags) + seq![
            StepV::Mount {
                source: Some(src_abs),
                target: resolved,
                fstype: Some("tmpfs"@),
                flags: st.mount_flags | MS_REMOUNT,
                data: None,
                label: None,
            },
        ]);
    }
}

/// Plans a whole mount list against a root, in order, stopping at the
/// first rejected entry.  The returned plan never holds a mount call whose
/// target lies outside the root.
pub fn configure_mounts(
    mounts: &Vec<MountSpec>,
    resolved: &Vec<String>,
    probes: &Vec<DestState>,
    rootfs: &str,
    mount_label: &Option<String>,
) -> (r: Result<Vec<MountStep>, CoreError>)
    requires
        resolved@.len() == mounts@.len(),
        probes@.len() == mounts@.len(),
    ensures
        (match r {
            Ok(steps) => spec_configure_mounts(mounts_view(mounts@), resolved.deep_view(),
                probes@, rootfs@, mount_label.deep_view(), mounts@.len() as int)
                matches Ok(sv) && steps_view(steps@) == sv,
            Err(e) => spec_configure_mounts(mounts_view(mounts@), resolved.deep_view(), probes@,
                rootfs@, mount_label.deep_view(), mounts@.len() as int) matches Err(e2) && e
                == e2,
        }),
        r matches Ok(steps) ==> forall|k: int|
            0 <= k < steps@.len() && (#[trigger] steps@[k]@) is Mount ==> path_within(
                rootfs@,
                steps@[k]@->target,
            ),
{
    let ghost msv = mounts_view(mounts@);
    let ghost rsv = resolved.deep_view();
    let mut out: Vec<MountStep> = Vec::new();
    let mut i: usize = 0;
    while i < mounts.len()
        invariant
            i <= mounts@.len(),
            resolved@.len() == mounts@.len(),
            probes@.len() == mounts@.len(),
            msv == mounts_view(mounts@),
            rsv == resolved.deep_view(),
            spec_configure_mounts(msv, rsv, probes@, rootfs@, mount_label.deep_view(), i as int)
                matches Ok(sv) && steps_view(out@) == sv,
            forall|k: int|
                0 <= k < out@.len() && (#[trigger] out@[k]@) is Mount ==> path_within(
                    rootfs@,
                    out@[k]@->target,
                ),
        decreases mounts@.len() - i,
    {
        proof {
            assert(msv[i as int] == mounts@[i as int]@);
            assert(rsv[i as int] == resolved@[i as int]@);
        }
        match plan_mount(&mounts[i], resolved[i].as_str(), rootfs, mount_label, probes[i]) {
            Ok(mut steps) => {
                proof {
                    lemma_plan_targets_within(msv[i as int], rsv[i as int], rootfs@,
                        mount_label.deep_view(), probes@[i as int]);
                }
                let ghost outv = steps_view(out@);
                let ghost oldout = out@;
                let ghost plv = steps_view(steps@);
                let ghost pl = steps@;
                out.append(&mut steps);
                proof {
                    assert(steps_view(out@) =~~= outv + plv);
                    assert(out@ == oldout + pl);
                    let sv = spec_plan_mount(msv[i as int], rsv[i as int], rootfs@,
                        mount_label.deep_view(), probes@[i as int])->Ok_0;
                    assert(plv == sv);
                    assert forall|k: int|
                        0 <= k < out@.len() && (#[trigger] out@[k]@) is Mount implies path_within(
                        rootfs@,
                        out@[k]@->target,
                    ) by {
                        if k < oldout.len() {
                            assert(out@[k] == oldout[k]);
                        } else {
                            assert(out@[k] == pl[k - oldout.len()]);
                            assert(plv[k - oldout.len()] == pl[k - oldout.len()]@);
                            assert(sv[k - oldout.len()] is Mount ==> sv[k - oldout.len()]->target
                                == rsv[i as int]);
                        }
                    }
                }
            },
            Err(e) => {
                proof {
                    lemma_configure_err_persists(msv, rsv, probes@, rootfs@,
                        mount_label.deep_view(), i as int + 1, mounts@.len() as int);
                }
                return Err(e);
            },
        }
        i = i + 1;
    }
    Ok(out)
}

/// Appends the mount call (and the propagation-only call, if asked for) to
/// a plan being built.
fn push_mount_calls(
    steps: &mut Vec<MountStep>,
    src_abs: &String,
    resolved: &str,
    fstype: &str,
    flags: u64,
    data: &Option<String>,
    label: Option<String>,
    prop: u64,
)
    ensures
        steps_view(final(steps)@) == steps_view(old(steps)@) + spec_mount_calls(
            src_abs@,
            resolved@,
            fstype@,
            flags,
            data.deep_view(),
            label.deep_view(),
            prop,
        ),
{
    let ghost before = steps_view(steps@);
    let d = crate::strutil::clone_opt(data);
    steps.push(
        MountStep::Mount {
            source: Some(src_abs.clone()),
            target: resolved.to_owned(),
            fstype: Some(fstype.to_owned()),
            flags: flags,
            data: d,
            label: label,
        },
    );
    if prop != 0 {
        steps.push(
            MountStep::Mount {
                source: None,
                target: resolved.to_owned(),
                fstype: None,
                flags: prop,
                data: None,
                label: None,
            },
        );
    }
    proof {
        assert(steps_view(steps@) =~~= before + spec_mount_calls(src_abs@, resolved@, fstype@,
            flags, data.deep_view(), label.deep_view(), prop));
    }
}

/// Plans one mount entry against its resolved destination: the checks and
/// the ordered mount calls of the engine's dispatch, without touching the
/// filesystem.
pub fn plan_mount(
    m: &MountSpec,
    resolved: &str,
    rootfs: &str,
    label: &Option<String>,
    dest: DestState,
) -> (r: Result<Vec<MountStep>, CoreError>)
    ensures
        (match r {
            Ok(steps) => spec_plan_mount(m@, resolved@, rootfs@, label.deep_view(), dest)
                matches Ok(sv) && steps_view(steps@) == sv,
            Err(e) => spec_plan_mount(m@, resolved@, rootfs@, label.deep_view(), dest)
                matches Err(e2) && e == e2,
        }),
{
    let ghost sp = spec_plan_mount(m@, resolved@, rootfs@, label.deep_view(), dest);
    let src: &String = match &m.source {
        Some(s) => s,
        None => {
            return Err(CoreError::MissingSource);
        },
    };
    let typ: &String = match &m.typ {
        Some(t) => t,
        None => {
            return Err(CoreError::MissingType);
        },
    };
    let opts: MountOptions = match &m.options {
        Some(o) => match parse_mount_options(o) {
            Ok(x) => x,
            Err(e) => {
                proof {
                    assert(e is UnsupportedOption);
                    assert(sp matches Err(e2) && e2 is UnsupportedOption);
                }
                return Err(e);
            },
        },
        None => Default::default(),
    };
    proof {
        let toks = match m@.options {
            Option::Some(t) => t,
            Option::None => Seq::<Seq<char>>::empty(),
        };
        assert(!any_unsupported(toks));
        assert(opts.mount_flags == spec_parse_options(toks).mount_flags);
        assert(opts.propagation_flags == spec_parse_options(toks).propagation_flags);
        assert(match m@.options {
            Option::Some(_) => opts.data.deep_view() == Some(
                spec_join(spec_parse_options(toks).data, ","@),
            ),
            Option::None => opts.data.deep_view() == Option::<Seq<char>>::None,
        });
    }
    if !path_starts_with(resolved, rootfs) {
        return Err(CoreError::EscapesRoot);
    }
    let src_abs: String = if is_absolute_path(src.as_str()) {
        src.clone()
    } else {
        concat3(rootfs, "/", src.as_str())
    };
    let in_dev: bool = if is_absolute_path(m.destination.as_str()) {
        let dc = split_path(m.destination.as_str());
        if dc.len() > 0 {
            let hit = str_eq(dc[0].as_str(), "dev");
            proof {
                let pc = path_components(m@.destination);
                assert(dc.deep_view()[0] == pc[0]);
                if hit {
                    assert(seq!["dev"@] =~= pc.take(1));
                } else {
                    assert(pc.take(1)[0] == pc[0]);
                }
            }
            hit
        } else {
            proof {
                assert(!is_comp_prefix(seq!["dev"@], path_components(m@.destination)));
            }
            false
        }
    } else {
        false
    };
    let is_tmpfs = str_eq(typ.as_str(), "tmpfs");
    proof {
        assert(in_dev == dest_in_dev(m@.destination));
    }
    let eff: u64 = if in_dev || is_tmpfs {
        opts.mount_flags & !MS_RDONLY
    } else {
        opts.mount_flags
    };
    let mut steps: Vec<MountStep> = Vec::new();
    if str_eq(typ.as_str(), "sysfs") || str_eq(typ.as_str(), "proc") {
        if dest.is_dir || !dest.exists {
            steps.push(MountStep::MakeDirs { path: resolved.to_owned() });
            push_mount_calls(&mut steps, &src_abs, resolved, typ.as_str(), eff, &opts.data, None,
                opts.propagation_flags);
            proof {
                assert(sp matches Ok(sv) && steps_view(steps@) =~~= sv);
            }
            Ok(steps)
        } else {
            Err(CoreError::NotADirectory)
        }
    } else if str_eq(typ.as_str(), "mqueue") {
        if !dest.exists {
            steps.push(MountStep::MakeDirs { path: resolved.to_owned() });
        }
        push_mount_calls(&mut steps, &src_abs, resolved, typ.as_str(), eff, &opts.data, None,
            opts.propagation_flags);
        proof {
            assert(sp matches Ok(sv) && steps_view(steps@) =~~= sv);
        }
        Ok(steps)
    } else if is_tmpfs {
        if !dest.exists {
            steps.push(MountStep::MakeDirs { path: resolved.to_owned() });
        }
        push_mount_calls(&mut steps, &src_abs, resolved, typ.as_str(), eff, &opts.data,
            crate::strutil::clone_opt(label), opts.propagation_flags);
        if opts.mount_flags & MS_RDONLY != 0 {
            let ghost base = steps_view(steps@);
            steps.push(
                MountStep::Mount {
                    source: Some(src_abs.clone()),
                    target: resolved.to_owned(),
                    fstype: Some(typ.clone()),
                    flags: opts.mount_flags | MS_REMOUNT,
                    data: None,
                    label: None,
                },
            );
            proof {
                assert(steps_view(steps@) =~~= base.push(
                    StepV::Mount {
                        source: Some(src_abs@),
                        target: resolved@,
                        fstype: Some(typ@),
                        flags: opts.mount_flags | MS_REMOUNT,
                        data: None,
                        label: None,
                    },
                ));
                assert(sp matches Ok(sv) && steps_view(steps@) =~~= sv);
            }
        } else {
            proof {
                assert(sp matches Ok(sv) && steps_view(steps@) =~~= sv);
            }
        }
        Ok(steps)
    } else if str_eq(typ.as_str(), "bind") {
        Err(CoreError::UnsupportedMountType)
    } else if str_eq(typ.as_str(), "cgroup") {
        steps.push(MountStep::MakeDirs { path: resolved.to_owned() });
        push_mount_calls(&mut steps, &src_abs, resolved, "cgroup2", eff, &opts.data,
            crate::strutil::clone_opt(label), opts.propagation_flags);
        proof {
            reveal_strlit("cgroup2");
            assert(sp matches Ok(sv) && steps_view(steps@) =~~= sv);
        }
        Ok(steps)
    } else {
        let mut rc = split_path(rootfs);
        let ghost rc0 = rc.deep_view();
        rc.push("proc".to_owned());
        proof {
            assert(rc.deep_view() =~= rc0.push("proc"@));
        }
        let pc = split_path(resolved);
        if crate::paths::comps_prefix(&rc, &pc) {
            Err(CoreError::ProcShadow)
        } else {
            steps.push(MountStep::MakeDirs { path: resolved.to_owned() });
            push_mount_calls(&mut steps, &src_abs, resolved, typ.as_str(), eff, &opts.data,
                crate::strutil::clone_opt(label), opts.propagation_flags);
            proof {
                assert(sp matches Ok(sv) && steps_view(steps@) =~~= sv);
            }
            Ok(steps)
        }
    }
}

} // verus!
