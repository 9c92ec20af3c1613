//! Parsing the fully-qualified name of a remote-tracking reference into its
//! remote name and branch name.

use vstd::prelude::*;

verus! {

/// The fixed prefix of a remote-tracking reference name: the two namespace
/// segments, each followed by a separator.
pub open spec fn upstream_prefix() -> Seq<char> {
    "refs/remotes/"@
}

/// Position of the first separator at or after `from`, if any.
pub open spec fn find_slash(s: Seq<char>, from: int) -> Option<int>
    decreases s.len() - from,
{
    if from < 0 || from >= s.len() {
        None
    } else if s[from] == '/' {
        Some(from)
    } else {
        find_slash(s, from + 1)
    }
}

/// What parsing a reference name yields: for a remote reference of the form
/// `refs/remotes/<remote>/<branch>[/...]`, the remote name (third segment)
/// and the branch name (fourth segment, even when further segments follow);
/// nothing otherwise.
pub open spec fn spec_parse_remote_ref(is_remote: bool, s: Seq<char>) -> Option<
    (Seq<char>, Seq<char>),
> {
    if !is_remote || s.len() < 13 || s.subrange(0, 13) != upstream_prefix() {
        None
    } else {
        match find_slash(s, 13) {
            None => None,
            Some(i) => {
                let remote = s.subrange(13, i);
                let branch = match find_slash(s, i + 1) {
                    None => s.subrange(i + 1, s.len() as int),
                    Some(j) => s.subrange(i + 1, j),
                };
                Some((remote, branch))
            },
        }
    }
}

/// Scan for the next separator, mirroring `find_slash`.
fn find_slash_exec(name: &str, from: usize) -> (r: Option<usize>)
    requires
        from <= name@.len(),
    ensures
        match r {
            Some(i) => find_slash(name@, from as int) == Some(i as int) && from <= i
                < name@.len(),
            None => find_slash(name@, from as int) is None,
        },
{
    let n = name.unicode_len();
    let mut i: usize = from;
    while i < n
        invariant
            from <= i <= n,
            n == name@.len(),
            find_slash(name@, from as int) == find_slash(name@, i as int),
        decreases n - i,
    {
        if name.get_char(i) == '/' {
            return Some(i);
        }
        i = i + 1;
    }
    None
}

/// Split a remote-tracking reference name into remote and branch names.
/// `is_remote` says whether the reference lies in the remote-tracking
/// namespace at all (a non-remote reference never parses).
pub fn parse_remote_from_ref(is_remote: bool, name: &str) -> (r: Option<(String, String)>)
    ensures
        match (r, spec_parse_remote_ref(is_remote, name@)) {
            (Some(p), Some(q)) => p.0@ == q.0 && p.1@ == q.1,
            (None, None) => true,
            _ => false,
        },
{
    if !is_remote {
        return None;
    }
    let n = name.unicode_len();
    if n < 13 {
        return None;
    }
    let prefix: &str = "refs/remotes/";
    proof {
        reveal_strlit("refs/remotes/");
    }
    let mut i: usize = 0;
    while i < 13
        invariant
            0 <= i <= 13,
            13 <= name@.len(),
            prefix@ == upstream_prefix(),
            prefix@.len() == 13,
            forall|k: int| 0 <= k < i ==> name@[k] == upstream_prefix()[k],
        decreases 13 - i,
    {
        if name.get_char(i) != prefix.get_char(i) {
            proof {
                assert(name@.subrange(0, 13)[i as int] != upstream_prefix()[i as int]);
            }
            return None;
        }
        i = i + 1;
    }
    proof {
        assert(name@.subrange(0, 13) =~= upstream_prefix());
    }
    let sep1 = find_slash_exec(name, 13);
    match sep1 {
        None => None,
        Some(i) => {
            let remote = name.substring_char(13, i).to_owned();
            let sep2 = find_slash_exec(name, i + 1);
            let branch = match sep2 {
                None => name.substring_char(i + 1, n).to_owned(),
                Some(j) => name.substring_char(i + 1, j).to_owned(),
            };
            Some((remote, branch))
        },
    }
}

} // verus!
