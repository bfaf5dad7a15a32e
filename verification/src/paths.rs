use vstd::prelude::*;
use vstd::string::StrSliceExecFns;

verus! {

/// The components of a path: the maximal runs of non-separator characters,
/// in order.  Empty segments (leading, trailing or doubled separators) carry
/// no component, so `/a//b/` has the same components as `a/b`.
pub open spec fn path_components(s: Seq<char>) -> Seq<Seq<char>>
    decreases s.len(),
{
    if s.len() == 0 {
        Seq::empty()
    } else if s[0] == '/' {
        path_components(s.skip(1))
    } else if s.len() > 1 && s[1] != '/' {
        let rest = path_components(s.skip(1));
        seq![seq![s[0]] + rest[0]] + rest.skip(1)
    } else {
        seq![seq![s[0]]] + path_components(s.skip(1))
    }
}

/// `pre` is a leading run of `all`: the first `pre.len()` elements agree.
pub open spec fn is_comp_prefix(pre: Seq<Seq<char>>, all: Seq<Seq<char>>) -> bool {
    pre.len() <= all.len() && pre == all.take(pre.len() as int)
}

/// A path lies within a root when the root's components lead its own: this
/// is the component-wise containment check of the safe-path resolver, immune
/// to the `/rfs` / `/rfs2` confusion a plain string prefix would allow.
pub open spec fn path_within(root: Seq<char>, p: Seq<char>) -> bool {
    is_comp_prefix(path_components(root), path_components(p))
}

/// The partly assembled components while a path is scanned left to right:
/// `cur` is the unfinished component (possibly empty), `rest` the unread tail.
spec fn glue(cur: Seq<char>, rest: Seq<char>) -> Seq<Seq<char>> {
    if cur.len() == 0 {
        path_components(rest)
    } else if rest.len() > 0 && rest[0] != '/' {
        seq![cur + path_components(rest)[0]] + path_components(rest).skip(1)
    } else {
        seq![cur] + path_components(rest)
    }
}

/// Splits a path into its components.
pub fn split_path(s: &str) -> (r: Vec<String>)
    ensures
        r.deep_view() == path_components(s@),
{
    let n = s.unicode_len();
    let mut comps: Vec<String> = Vec::new();
    let mut start: usize = 0;
    let mut i: usize = 0;
    proof {
        assert(s@.skip(0) =~= s@);
        assert(s@.subrange(0, 0).len() == 0);
        assert(comps.deep_view() =~= Seq::<Seq<char>>::empty());
        assert(comps.deep_view() + glue(s@.subrange(0, 0), s@.skip(0)) =~~= path_components(s@));
    }
    while i < n
        invariant
            start <= i <= n,
            n == s@.len(),
            forall|j: int| start <= j < i ==> s@[j] != '/',
            path_components(s@) =~~= comps.deep_view() + glue(
                s@.subrange(start as int, i as int),
                s@.skip(i as int),
            ),
        decreases n - i,
    {
        let ghost cur = s@.subrange(start as int, i as int);
        let ghost rest = s@.skip(i as int);
        proof {
            assert(rest.len() == n - i);
            assert(rest[0] == s@[i as int]);
            assert(rest.skip(1) =~= s@.skip(i + 1));
        }
        let c = s.get_char(i);
        if c == '/' {
            if start < i {
                let comp = s.substring_char(start, i).to_owned();
                proof {
                    assert(comp@ == cur);
                    assert(glue(cur, rest) =~~= seq![cur] + path_components(s@.skip(i + 1)));
                }
                let ghost before = comps.deep_view();
                comps.push(comp);
                proof {
                    assert(comps.deep_view() =~= before.push(cur));
                }
            } else {
                proof {
                    assert(glue(cur, rest) =~~= path_components(s@.skip(i + 1)));
                }
            }
            start = i + 1;
        } else {
            proof {
                let cur2 = s@.subrange(start as int, i + 1);
                let rest2 = s@.skip(i + 1);
                assert(cur2 =~= cur.push(c));
                if i + 1 == n {
                    assert(path_components(rest) =~~= seq![seq![c]]);
                    assert(glue(cur, rest) =~~= glue(cur2, rest2));
                } else if s@[i + 1] != '/' {
                    assert(rest.len() > 1 && rest[1] != '/');
                    assert(path_components(rest) =~~= seq![seq![c] + path_components(rest2)[0]]
                        + path_components(rest2).skip(1));
                    if cur.len() == 0 {
                        assert(glue(cur, rest) =~~= glue(cur2, rest2));
                    } else {
                        assert((seq![seq![c] + path_components(rest2)[0]] + path_components(
                            rest2,
                        ).skip(1))[0] == seq![c] + path_components(rest2)[0]);
                        assert(glue(cur, rest) =~~= glue(cur2, rest2));
                    }
                } else {
                    assert(rest.len() > 1 && rest[1] == '/');
                    assert(path_components(rest) =~~= seq![seq![c]] + path_components(rest2));
                    assert(glue(cur, rest) =~~= glue(cur2, rest2));
                }
            }
        }
        i = i + 1;
    }
    proof {
        assert(s@.skip(n as int) =~= Seq::<char>::empty());
    }
    if start < n {
        let comp = s.substring_char(start, n).to_owned();
        proof {
            assert(comp@ == s@.subrange(start as int, n as int));
            assert(glue(s@.subrange(start as int, n as int), s@.skip(n as int)) =~~= seq![
                s@.subrange(start as int, n as int),
            ]);
        }
        let ghost before = comps.deep_view();
        comps.push(comp);
        proof {
            assert(comps.deep_view() =~= before.push(s@.subrange(start as int, n as int)));
            assert(comps.deep_view() =~~= path_components(s@));
        }
    } else {
        proof {
            assert(s@.subrange(start as int, n as int) =~= Seq::<char>::empty());
            assert(comps.deep_view() =~~= path_components(s@));
        }
    }
    comps
}

/// Component-wise prefix test on already split paths.
pub fn comps_prefix(pre: &Vec<String>, all: &Vec<String>) -> (r: bool)
    ensures
        r == is_comp_prefix(pre.deep_view(), all.deep_view()),
{
    if pre.len() > all.len() {
        proof {
            assert(!is_comp_prefix(pre.deep_view(), all.deep_view()));
        }
        return false;
    }
    let mut i: usize = 0;
    while i < pre.len()
        invariant
            i <= pre.len() <= all.len(),
            forall|j: int| 0 <= j < i ==> pre.deep_view()[j] == all.deep_view()[j],
        decreases pre.len() - i,
    {
        if !(pre[i] == all[i]) {
            proof {
                assert(pre.deep_view()[i as int] != all.deep_view()[i as int]);
                assert(all.deep_view().take(pre.len() as int)[i as int]
                    == all.deep_view()[i as int]);
            }
            return false;
        }
        i = i + 1;
    }
    proof {
        assert(pre.deep_view() =~= all.deep_view().take(pre.len() as int));
    }
    true
}

/// Does `p` lie within `root`, component-wise?
pub fn path_starts_with(p: &str, root: &str) -> (r: bool)
    ensures
        r == path_within(root@, p@),
{
    let root_comps = split_path(root);
    let p_comps = split_path(p);
    comps_prefix(&root_comps, &p_comps)
}

/// A path is absolute when it begins with the separator.
pub open spec fn spec_is_absolute(s: Seq<char>) -> bool {
    s.len() > 0 && s[0] == '/'
}

pub fn is_absolute_path(s: &str) -> (r: bool)
    ensures
        r == spec_is_absolute(s@),
{
    if s.unicode_len() == 0 {
        return false;
    }
    s.get_char(0) == '/'
}

/// One step of the incremental canonicalisation walk over a destination
/// path.  The caller hands in the canonical form of `acc`/`component` when
/// that prefix already exists on disk; a component that does not yet exist
/// is appended literally.  Canonicalising prefix by prefix is what keeps a
/// symlinked component from smuggling the walk outside the root.
pub fn resolve_step(acc: &str, component: &str, canonical: Option<String>) -> (r: String)
    ensures
        canonical matches Some(c) ==> r@ == c@,
        canonical is None ==> r@ == acc@ + "/"@ + component@,
{
    match canonical {
        Some(c) => c,
        None => crate::strutil::concat3(acc, "/", component),
    }
}

} // verus!
