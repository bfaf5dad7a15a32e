use vstd::prelude::*;
use crate::errors::CoreError;
use crate::flags::{
    MountOptions, MS_BIND, MS_DIRSYNC, MS_I_VERSION, MS_MANDLOCK, MS_NOATIME, MS_NODEV,
    MS_NODIRATIME, MS_NOEXEC, MS_NOSUID, MS_POSIXACL, MS_PRIVATE, MS_RDONLY, MS_REC, MS_RELATIME,
    MS_REMOUNT, MS_SHARED, MS_SILENT, MS_SLAVE, MS_STRICTATIME, MS_SYNCHRONOUS, MS_UNBINDABLE,
};
use crate::strutil::{spec_join, str_eq, join_with};

verus! {

/// The abstract state the option tokens fold over: the two flag bitsets and
/// the unrecognised tokens collected for the mount data string.
pub struct OptionState {
    pub mount_flags: u64,
    pub propagation_flags: u64,
    pub data: Seq<Seq<char>>,
}

pub open spec fn empty_option_state() -> OptionState {
    OptionState { mount_flags: 0, propagation_flags: 0, data: Seq::empty() }
}

/// Tokens that are recognised but reserved: the parser must refuse them
/// rather than silently drop them or forward them to the filesystem.
pub open spec fn token_unsupported(tok: Seq<char>) -> bool {
    ||| tok == "lazytime"@
    ||| tok == "nolazytime"@
    ||| tok == "tmpcopyup"@
}

/// The effect of a single option token on the fold state.  Each recognised
/// token sets or clears one flag on one of the two bitsets; `defaults` does
/// nothing; `rbind` and the recursive propagation tokens also set `MS_REC`;
/// any unrecognised token is collected into the data list.
pub open spec fn apply_token(st: OptionState, tok: Seq<char>) -> OptionState {
    if tok == "defaults"@ {
        st
    } else if tok == "rbind"@ {
        OptionState { mount_flags: st.mount_flags | MS_BIND | MS_REC, ..st }
    } else if tok == "bind"@ {
        OptionState { mount_flags: st.mount_flags | MS_BIND, ..st }
    } else if tok == "acl"@ {
        OptionState { mount_flags: st.mount_flags | MS_POSIXACL, ..st }
    } else if tok == "async"@ {
        OptionState { mount_flags: st.mount_flags & !MS_SYNCHRONOUS, ..st }
    } else if tok == "atime"@ {
        OptionState { mount_flags: st.mount_flags & !MS_NOATIME, ..st }
    } else if tok == "dev"@ {
        OptionState { mount_flags: st.mount_flags & !MS_NODEV, ..st }
    } else if tok == "diratime"@ {
        OptionState { mount_flags: st.mount_flags & !MS_NODIRATIME, ..st }
    } else if tok == "dirsync"@ {
        OptionState { mount_flags: st.mount_flags | MS_DIRSYNC, ..st }
    } else if tok == "exec"@ {
        OptionState { mount_flags: st.mount_flags & !MS_NOEXEC, ..st }
    } else if tok == "iversion"@ {
        OptionState { mount_flags: st.mount_flags | MS_I_VERSION, ..st }
    } else if tok == "loud"@ {
        OptionState { mount_flags: st.mount_flags & !MS_SILENT, ..st }
    } else if tok == "mand"@ {
        OptionState { mount_flags: st.mount_flags | MS_MANDLOCK, ..st }
    } else if tok == "noacl"@ {
        OptionState { mount_flags: st.mount_flags & !MS_POSIXACL, ..st }
    } else if tok == "noatime"@ {
        OptionState { mount_flags: st.mount_flags | MS_NOATIME, ..st }
    } else if tok == "nodev"@ {
        OptionState { mount_flags: st.mount_flags | MS_NODEV, ..st }
    } else if tok == "nodiratime"@ {
        OptionState { mount_flags: st.mount_flags | MS_NODIRATIME, ..st }
    } else if tok == "noexec"@ {
        OptionState { mount_flags: st.mount_flags | MS_NOEXEC, ..st }
    } else if tok == "noiversion"@ {
        OptionState { mount_flags: st.mount_flags & !MS_I_VERSION, ..st }
    } else if tok == "nomand"@ {
        OptionState { mount_flags: st.mount_flags & !MS_MANDLOCK, ..st }
    } else if tok == "norelatime"@ {
        OptionState { mount_flags: st.mount_flags & !MS_RELATIME, ..st }
    } else if tok == "nostrictatime"@ {
        OptionState { mount_flags: st.mount_flags & !MS_STRICTATIME, ..st }
    } else if tok == "nosuid"@ {
        OptionState { mount_flags: st.mount_flags | MS_NOSUID, ..st }
    } else if tok == "relatime"@ {
        OptionState { mount_flags: st.mount_flags | MS_RELATIME, ..st }
    } else if tok == "remount"@ {
        OptionState { mount_flags: st.mount_flags | MS_REMOUNT, ..st }
    } else if tok == "ro"@ {
        OptionState { mount_flags: st.mount_flags | MS_RDONLY, ..st }
    } else if tok == "rw"@ {
        OptionState { mount_flags: st.mount_flags & !MS_RDONLY, ..st }
    } else if tok == "silent"@ {
        OptionState { mount_flags: st.mount_flags | MS_SILENT, ..st }
    } else if tok == "strictatime"@ {
        OptionState { mount_flags: st.mount_flags | MS_STRICTATIME, ..st }
    } else if tok == "suid"@ {
        OptionState { mount_flags: st.mount_flags & !MS_NOSUID, ..st }
    } else if tok == "sync"@ {
        OptionState { mount_flags: st.mount_flags | MS_SYNCHRONOUS, ..st }
    } else if tok == "private"@ {
        OptionState { propagation_flags: st.propagation_flags | MS_PRIVATE, ..st }
    } else if tok == "shared"@ {
        OptionState { propagation_flags: st.propagation_flags | MS_SHARED, ..st }
    } else if tok == "slave"@ {
        OptionState { propagation_flags: st.propagation_flags | MS_SLAVE, ..st }
    } else if tok == "unbindable"@ {
        OptionState { propagation_flags: st.propagation_flags | MS_UNBINDABLE, ..st }
    } else if tok == "rprivate"@ {
        OptionState { propagation_flags: st.propagation_flags | MS_PRIVATE | MS_REC, ..st }
    } else if tok == "rshared"@ {
        OptionState { propagation_flags: st.propagation_flags | MS_SHARED | MS_REC, ..st }
    } else if tok == "rslave"@ {
        OptionState { propagation_flags: st.propagation_flags | MS_SLAVE | MS_REC, ..st }
    } else if tok == "runbindable"@ {
        OptionState { propagation_flags: st.propagation_flags | MS_UNBINDABLE | MS_REC, ..st }
    } else if token_unsupported(tok) {
        st
    } else {
        OptionState { data: st.data.push(tok), ..st }
    }
}

/// The fold state after the first `n` tokens have been applied, in order.
pub open spec fn option_state_after(toks: Seq<Seq<char>>, n: int) -> OptionState
    decreases n,
{
    if n <= 0 {
        empty_option_state()
    } else {
        apply_token(option_state_after(toks, n - 1), toks[n - 1])
    }
}

/// What parsing an option list yields: the set/clear operations applied in
/// order, starting from empty bitsets.
pub open spec fn spec_parse_options(toks: Seq<Seq<char>>) -> OptionState {
    option_state_after(toks, toks.len() as int)
}

pub open spec fn any_unsupported(toks: Seq<Seq<char>>) -> bool {
    exists|i: int| 0 <= i < toks.len() && token_unsupported(#[trigger] toks[i])
}

/// Translates an ordered list of OCI mount option tokens into the kernel
/// mount-flag / propagation-flag / data triple.  Tokens act in order, later
/// tokens overriding earlier ones; a reserved token fails the whole parse.
pub fn parse_mount_options(options: &Vec<String>) -> (r: Result<MountOptions, CoreError>)
    ensures
        r is Ok <==> !any_unsupported(options.deep_view()),
        r matches Ok(o) ==> ({
            let st = spec_parse_options(options.deep_view());
            &&& o.mount_flags == st.mount_flags
            &&& o.propagation_flags == st.propagation_flags
            &&& o.data matches Some(d) && d@ == spec_join(st.data, ","@)
        }),
        r matches Err(e) ==> e is UnsupportedOption,
{
    let ghost dv = options.deep_view();
    let mut mount_flags: u64 = 0;
    let mut propagation_flags: u64 = 0;
    let mut data: Vec<String> = Vec::new();
    let mut i: usize = 0;
    while i < options.len()
        invariant
            i <= options.len(),
            dv == options.deep_view(),
            mount_flags == option_state_after(dv, i as int).mount_flags,
            propagation_flags == option_state_after(dv, i as int).propagation_flags,
            data.deep_view() == option_state_after(dv, i as int).data,
            forall|j: int| 0 <= j < i ==> !token_unsupported(#[trigger] dv[j]),
        decreases options.len() - i,
    {
        let opt: &String = &options[i];
        proof {
            assert(dv[i as int] == options@[i as int]@);
        }
        if str_eq(opt.as_str(), "lazytime") || str_eq(opt.as_str(), "nolazytime") || str_eq(
            opt.as_str(),
            "tmpcopyup",
        ) {
            return Err(CoreError::UnsupportedOption);
        }
        if str_eq(opt.as_str(), "defaults") {
        } else if str_eq(opt.as_str(), "rbind") {
            mount_flags = mount_flags | MS_BIND | MS_REC;
        } else if str_eq(opt.as_str(), "bind") {
            mount_flags = mount_flags | MS_BIND;
        } else if str_eq(opt.as_str(), "acl") {
            mount_flags = mount_flags | MS_POSIXACL;
        } else if str_eq(opt.as_str(), "async") {
            mount_flags = mount_flags & !MS_SYNCHRONOUS;
        } else if str_eq(opt.as_str(), "atime") {
            mount_flags = mount_flags & !MS_NOATIME;
        } else if str_eq(opt.as_str(), "dev") {
            mount_flags = mount_flags & !MS_NODEV;
        } else if str_eq(opt.as_str(), "diratime") {
            mount_flags = mount_flags & !MS_NODIRATIME;
        } else if str_eq(opt.as_str(), "dirsync") {
            mount_flags = mount_flags | MS_DIRSYNC;
        } else if str_eq(opt.as_str(), "exec") {
            mount_flags = mount_flags & !MS_NOEXEC;
        } else if str_eq(opt.as_str(), "iversion") {
            mount_flags = mount_flags | MS_I_VERSION;
        } else if str_eq(opt.as_str(), "loud") {
            mount_flags = mount_flags & !MS_SILENT;
        } else if str_eq(opt.as_str(), "mand") {
            mount_flags = mount_flags | MS_MANDLOCK;
        } else if str_eq(opt.as_str(), "noacl") {
            mount_flags = mount_flags & !MS_POSIXACL;
        } else if str_eq(opt.as_str(), "noatime") {
            mount_flags = mount_flags | MS_NOATIME;
        } else if str_eq(opt.as_str(), "nodev") {
            mount_flags = mount_flags | MS_NODEV;
        } else if str_eq(opt.as_str(), "nodiratime") {
            mount_flags = mount_flags | MS_NODIRATIME;
        } else if str_eq(opt.as_str(), "noexec") {
            mount_flags = mount_flags | MS_NOEXEC;
        } else if str_eq(opt.as_str(), "noiversion") {
            mount_flags = mount_flags & !MS_I_VERSION;
        } else if str_eq(opt.as_str(), "nomand") {
            mount_flags = mount_flags & !MS_MANDLOCK;
        } else if str_eq(opt.as_str(), "norelatime") {
            mount_flags = mount_flags & !MS_RELATIME;
        } else if str_eq(opt.as_str(), "nostrictatime") {
            mount_flags = mount_flags & !MS_STRICTATIME;
        } else if str_eq(opt.as_str(), "nosuid") {
            mount_flags = mount_flags | MS_NOSUID;
        } else if str_eq(opt.as_str(), "relatime") {
            mount_flags = mount_flags | MS_RELATIME;
        } else if str_eq(opt.as_str(), "remount") {
            mount_flags = mount_flags | MS_REMOUNT;
        } else if str_eq(opt.as_str(), "ro") {
            mount_flags = mount_flags | MS_RDONLY;
        } else if str_eq(opt.as_str(), "rw") {
            mount_flags = mount_flags & !MS_RDONLY;
        } else if str_eq(opt.as_str(), "silent") {
            mount_flags = mount_flags | MS_SILENT;
        } else if str_eq(opt.as_str(), "strictatime") {
            mount_flags = mount_flags | MS_STRICTATIME;
        } else if str_eq(opt.as_str(), "suid") {
            mount_flags = mount_flags & !MS_NOSUID;
        } else if str_eq(opt.as_str(), "sync") {
            mount_flags = mount_flags | MS_SYNCHRONOUS;
        } else if str_eq(opt.as_str(), "private") {
            propagation_flags = propagation_flags | MS_PRIVATE;
        } else if str_eq(opt.as_str(), "shared") {
            propagation_flags = propagation_flags | MS_SHARED;
        } else if str_eq(opt.as_str(), "slave") {
            propagation_flags = propagation_flags | MS_SLAVE;
        } else if str_eq(opt.as_str(), "unbindable") {
            propagation_flags = propagation_flags | MS_UNBINDABLE;
        } else if str_eq(opt.as_str(), "rprivate") {
            propagation_flags = propagation_flags | MS_PRIVATE | MS_REC;
        } else if str_eq(opt.as_str(), "rshared") {
            propagation_flags = propagation_flags | MS_SHARED | MS_REC;
        } else if str_eq(opt.as_str(), "rslave") {
            propagation_flags = propagation_flags | MS_SLAVE | MS_REC;
        } else if str_eq(opt.as_str(), "runbindable") {
            propagation_flags = propagation_flags | MS_UNBINDABLE | MS_REC;
        } else {
            data.push(opt.clone());
            proof {
                assert(data.deep_view() =~= option_state_after(dv, i as int).data.push(
                    dv[i as int],
                ));
            }
        }
        i = i + 1;
    }
    let joined = join_with(&data, ",");
    Ok(MountOptions { mount_flags, propagation_flags, data: Some(joined) })
}

proof fn lemma_option_state_agree(a: Seq<Seq<char>>, b: Seq<Seq<char>>, n: int)
    requires
        n <= a.len(),
        n <= b.len(),
        forall|i: int| 0 <= i < n ==> a[i] == b[i],
    ensures
        option_state_after(a, n) == option_state_after(b, n),
    decreases n,
{
    if n > 0 {
        lemma_option_state_agree(a, b, n - 1);
    }
}

/// Law: `defaults` is a no-op.  Dropping a `defaults` token anywhere in an
/// option list leaves the parsed flag bitsets and data unchanged.
pub proof fn lemma_defaults_noop(pre: Seq<Seq<char>>, post: Seq<Seq<char>>)
    ensures
        spec_parse_options(pre + seq!["defaults"@] + post) == spec_parse_options(pre + post),
    decreases post.len(),
{
    let t1 = pre + seq!["defaults"@] + post;
    let t2 = pre + post;
    if post.len() == 0 {
        assert(t2 =~= pre);
        assert(forall|i: int| 0 <= i < pre.len() ==> t1[i] == pre[i]);
        lemma_option_state_agree(t1, pre, pre.len() as int);
        assert(t1[t1.len() - 1] == "defaults"@);
    } else {
        let p2 = post.drop_last();
        let s1 = pre + seq!["defaults"@] + p2;
        let s2 = pre + p2;
        lemma_defaults_noop(pre, p2);
        assert(forall|i: int| 0 <= i < s1.len() ==> t1[i] == s1[i]);
        assert(forall|i: int| 0 <= i < s2.len() ==> t2[i] == s2[i]);
        lemma_option_state_agree(t1, s1, s1.len() as int);
        lemma_option_state_agree(t2, s2, s2.len() as int);
        assert(t1[t1.len() - 1] == post.last());
        assert(t2[t2.len() - 1] == post.last());
    }
}

/// Law: `rbind` is `bind` plus `rec` — it acts on the mount-flag bitset as
/// `bind` does and additionally sets `MS_REC`, touching nothing else.
pub proof fn lemma_rbind_is_bind_rec(st: OptionState)
    ensures
        apply_token(st, "rbind"@) == (OptionState {
            mount_flags: apply_token(st, "bind"@).mount_flags | MS_REC,
            ..st
        }),
{
    reveal_strlit("defaults");
    reveal_strlit("rbind");
    reveal_strlit("bind");
    assert("rbind"@.len() == 5 && "defaults"@.len() == 8 && "bind"@.len() == 4);
    assert("rbind"@ != "defaults"@ && "bind"@ != "defaults"@ && "bind"@ != "rbind"@);
    let l = apply_token(st, "rbind"@);
    let r = OptionState { mount_flags: apply_token(st, "bind"@).mount_flags | MS_REC, ..st };
    assert(l.mount_flags == r.mount_flags);
    assert(l.propagation_flags == r.propagation_flags);
    assert(l.data == r.data);
}


/// The fold state after applying every token of `toks`, in order,
/// starting from `st`.
pub open spec fn apply_tokens(st: OptionState, toks: Seq<Seq<char>>) -> OptionState
    decreases toks.len(),
{
    if toks.len() == 0 {
        st
    } else {
        apply_tokens(apply_token(st, toks[0]), toks.skip(1))
    }
}

proof fn lemma_apply_tokens_snoc(st: OptionState, toks: Seq<Seq<char>>)
    requires
        toks.len() > 0,
    ensures
        apply_tokens(st, toks) == apply_token(apply_tokens(st, toks.drop_last()), toks.last()),
    decreases toks.len(),
{
    reveal_with_fuel(apply_tokens, 2);
    if toks.len() == 1 {
        assert(toks.drop_last() =~= Seq::<Seq<char>>::empty());
        assert(toks.skip(1) =~= Seq::<Seq<char>>::empty());
    } else {
        lemma_apply_tokens_snoc(apply_token(st, toks[0]), toks.skip(1));
        assert(toks.skip(1).drop_last() =~= toks.drop_last().skip(1));
        assert(toks.skip(1).last() == toks.last());
        assert(toks.drop_last()[0] == toks[0]);
    }
}

/// Folding a concatenation folds the second part from where the first
/// part ended.
pub proof fn lemma_parse_split(a: Seq<Seq<char>>, b: Seq<Seq<char>>)
    ensures
        spec_parse_options(a + b) == apply_tokens(spec_parse_options(a), b),
    decreases b.len(),
{
    if b.len() == 0 {
        assert(a + b =~= a);
    } else {
        lemma_parse_split(a, b.drop_last());
        let t = a + b;
        let t2 = a + b.drop_last();
        assert(forall|i: int| 0 <= i < t2.len() ==> t[i] == t2[i]);
        lemma_option_state_agree(t, t2, t2.len() as int);
        assert(t[t.len() - 1] == b.last());
        lemma_apply_tokens_snoc(spec_parse_options(a), b);
    }
}

/// Two fold states that differ exactly in `MS_REC` being set.
pub open spec fn rec_shifted(s1: OptionState, s2: OptionState) -> bool {
    &&& s1.mount_flags == s2.mount_flags | MS_REC
    &&& s1.propagation_flags == s2.propagation_flags
    &&& s1.data == s2.data
}

proof fn lemma_apply_token_keeps_rec(s1: OptionState, s2: OptionState, tok: Seq<char>)
    requires
        rec_shifted(s1, s2),
    ensures
        rec_shifted(apply_token(s1, tok), apply_token(s2, tok)),
{
    let x = s2.mount_flags;
    assert(((x | 0x4000u64) | 0x10000u64) == ((x | 0x10000u64) | 0x4000u64)) by (bit_vector);
    assert(((x | 0x4000u64) | 0x1000u64) == ((x | 0x1000u64) | 0x4000u64)) by (bit_vector);
    assert(((x | 0x4000u64) | 0x80u64) == ((x | 0x80u64) | 0x4000u64)) by (bit_vector);
    assert(((x | 0x4000u64) | 0x800000u64) == ((x | 0x800000u64) | 0x4000u64)) by (bit_vector);
    assert(((x | 0x4000u64) | 0x40u64) == ((x | 0x40u64) | 0x4000u64)) by (bit_vector);
    assert(((x | 0x4000u64) | 0x400u64) == ((x | 0x400u64) | 0x4000u64)) by (bit_vector);
    assert(((x | 0x4000u64) | 0x4u64) == ((x | 0x4u64) | 0x4000u64)) by (bit_vector);
    assert(((x | 0x4000u64) | 0x800u64) == ((x | 0x800u64) | 0x4000u64)) by (bit_vector);
    assert(((x | 0x4000u64) | 0x8u64) == ((x | 0x8u64) | 0x4000u64)) by (bit_vector);
    assert(((x | 0x4000u64) | 0x2u64) == ((x | 0x2u64) | 0x4000u64)) by (bit_vector);
    assert(((x | 0x4000u64) | 0x200000u64) == ((x | 0x200000u64) | 0x4000u64)) by (bit_vector);
    assert(((x | 0x4000u64) | 0x20u64) == ((x | 0x20u64) | 0x4000u64)) by (bit_vector);
    assert(((x | 0x4000u64) | 0x1u64) == ((x | 0x1u64) | 0x4000u64)) by (bit_vector);
    assert(((x | 0x4000u64) | 0x8000u64) == ((x | 0x8000u64) | 0x4000u64)) by (bit_vector);
    assert(((x | 0x4000u64) | 0x1000000u64) == ((x | 0x1000000u64) | 0x4000u64)) by (bit_vector);
    assert(((x | 0x4000u64) | 0x10u64) == ((x | 0x10u64) | 0x4000u64)) by (bit_vector);
    assert(((x | 0x4000u64) & !0x10u64) == ((x & !0x10u64) | 0x4000u64)) by (bit_vector);
    assert(((x | 0x4000u64) & !0x400u64) == ((x & !0x400u64) | 0x4000u64)) by (bit_vector);
    assert(((x | 0x4000u64) & !0x4u64) == ((x & !0x4u64) | 0x4000u64)) by (bit_vector);
    assert(((x | 0x4000u64) & !0x800u64) == ((x & !0x800u64) | 0x4000u64)) by (bit_vector);
    assert(((x | 0x4000u64) & !0x8u64) == ((x & !0x8u64) | 0x4000u64)) by (bit_vector);
    assert(((x | 0x4000u64) & !0x8000u64) == ((x & !0x8000u64) | 0x4000u64)) by (bit_vector);
    assert(((x | 0x4000u64) & !0x10000u64) == ((x & !0x10000u64) | 0x4000u64)) by (bit_vector);
    assert(((x | 0x4000u64) & !0x800000u64) == ((x & !0x800000u64) | 0x4000u64)) by (bit_vector);
    assert(((x | 0x4000u64) & !0x40u64) == ((x & !0x40u64) | 0x4000u64)) by (bit_vector);
    assert(((x | 0x4000u64) & !0x200000u64) == ((x & !0x200000u64) | 0x4000u64)) by (bit_vector);
    assert(((x | 0x4000u64) & !0x1000000u64) == ((x & !0x1000000u64) | 0x4000u64)) by (bit_vector);
    assert(((x | 0x4000u64) & !0x1u64) == ((x & !0x1u64) | 0x4000u64)) by (bit_vector);
    assert(((x | 0x4000u64) & !0x2u64) == ((x & !0x2u64) | 0x4000u64)) by (bit_vector);
    assert((((x | 0x4000u64) | 0x1000u64) | 0x4000u64) == (((x | 0x1000u64) | 0x4000u64)
        | 0x4000u64)) by (bit_vector);
}

proof fn lemma_apply_tokens_keeps_rec(s1: OptionState, s2: OptionState, toks: Seq<Seq<char>>)
    requires
        rec_shifted(s1, s2),
    ensures
        rec_shifted(apply_tokens(s1, toks), apply_tokens(s2, toks)),
    decreases toks.len(),
{
    if toks.len() > 0 {
        lemma_apply_token_keeps_rec(s1, s2, toks[0]);
        lemma_apply_tokens_keeps_rec(apply_token(s1, toks[0]), apply_token(s2, toks[0]),
            toks.skip(1));
    }
}

/// Law: `rbind` is `bind` plus `rec` wherever it stands.  With the same
/// tokens around it, the parse differs from the `bind` parse only in
/// `MS_REC` being set on the mount-flag bitset: no recognised token
/// clears `MS_REC` again.
pub proof fn lemma_rbind_is_bind_rec_anywhere(a: Seq<Seq<char>>, b: Seq<Seq<char>>)
    ensures
        ({
            let p1 = spec_parse_options(a + seq!["rbind"@] + b);
            let p2 = spec_parse_options(a + seq!["bind"@] + b);
            &&& p1.mount_flags == p2.mount_flags | MS_REC
            &&& p1.propagation_flags == p2.propagation_flags
            &&& p1.data == p2.data
        }),
{
    let s0 = spec_parse_options(a);
    lemma_parse_split(a + seq!["rbind"@], b);
    lemma_parse_split(a + seq!["bind"@], b);
    lemma_parse_split(a, seq!["rbind"@]);
    lemma_parse_split(a, seq!["bind"@]);
    assert(apply_tokens(s0, seq!["rbind"@]) == apply_token(s0, "rbind"@)) by {
        reveal_with_fuel(apply_tokens, 2);
        assert(seq!["rbind"@].skip(1) =~= Seq::<Seq<char>>::empty());
    }
    assert(apply_tokens(s0, seq!["bind"@]) == apply_token(s0, "bind"@)) by {
        reveal_with_fuel(apply_tokens, 2);
        assert(seq!["bind"@].skip(1) =~= Seq::<Seq<char>>::empty());
    }
    lemma_rbind_is_bind_rec(s0);
    lemma_apply_tokens_keeps_rec(apply_token(s0, "rbind"@), apply_token(s0, "bind"@), b);
}

} // verus!
