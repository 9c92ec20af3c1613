//! Path text helpers: shortening a repository path for display, and the
//! name/depth predicates that filter the directory walk.
//!
//! Paths are handled as text with `/` separators; the filesystem itself is
//! never touched here.

use vstd::prelude::*;

verus! {

/// Position of the last separator in `s`, if any.
pub open spec fn last_slash(s: Seq<char>) -> Option<int>
    decreases s.len(),
{
    if s.len() == 0 {
        None
    } else if s[s.len() - 1] == '/' {
        Some(s.len() - 1)
    } else {
        last_slash(s.drop_last())
    }
}

/// The directory containing `base`: everything before the last separator;
/// the root itself when that separator is the leading one (the parent of
/// `/a` is `/`, not the empty text); empty when there is no separator.
pub open spec fn spec_parent(base: Seq<char>) -> Seq<char> {
    match last_slash(base) {
        Some(i) => if i == 0 { base.take(1) } else { base.take(i) },
        None => Seq::empty(),
    }
}

/// `full` made relative to `base`'s parent directory, so that the display
/// keeps `base`'s own name as the leading component. When the parent is the
/// root, the leading separator alone is stripped; when the parent is not a
/// whole-component prefix of `full` (or is empty), `full` stays unchanged;
/// when `full` is exactly the parent, the result is empty.
pub open spec fn spec_shorten(base: Seq<char>, full: Seq<char>) -> Seq<char> {
    let p = spec_parent(base);
    if p.len() == 0 {
        full
    } else if p.len() == 1 && p[0] == '/' {
        if full.len() > 0 && full[0] == '/' {
            full.skip(1)
        } else {
            full
        }
    } else if full == p {
        Seq::empty()
    } else if full.len() > p.len() && full.take(p.len() as int) == p && full[p.len() as int]
        == '/' {
        full.skip(p.len() as int + 1)
    } else {
        full
    }
}

/// Length of `base`'s parent prefix, as an exec scan for the last separator.
fn parent_len(base: &str) -> (r: usize)
    ensures
        r <= base@.len(),
        spec_parent(base@).len() == r,
        spec_parent(base@) == base@.take(r as int),
{
    let n = base.unicode_len();
    let mut j: usize = n;
    proof {
        assert(base@.take(n as int) =~= base@);
    }
    while j > 0
        invariant
            0 <= j <= n,
            n == base@.len(),
            last_slash(base@) == last_slash(base@.take(j as int)),
        decreases j,
    {
        proof {
            assert(base@.take(j as int).drop_last() =~= base@.take(j as int - 1));
        }
        if base.get_char(j - 1) == '/' {
            proof {
                assert(last_slash(base@.take(j as int)) == Some(j - 1));
            }
            if j == 1 {
                proof {
                    assert(spec_parent(base@) =~= base@.take(1));
                }
                return 1;
            }
            proof {
                assert(spec_parent(base@) =~= base@.take(j as int - 1));
            }
            return j - 1;
        }
        j = j - 1;
    }
    proof {
        assert(base@.take(0) =~= Seq::<char>::empty());
        assert(spec_parent(base@) =~= Seq::<char>::empty());
    }
    0
}

/// Shorten `full` for display, relative to the directory containing `base`.
pub fn shorten<'a>(base: &str, full: &'a str) -> (r: &'a str)
    ensures
        r@ == spec_shorten(base@, full@),
{
    let p_len = parent_len(base);
    let full_len = full.unicode_len();
    if p_len == 0 {
        return full;
    }
    if p_len == 1 && base.get_char(0) == '/' {
        // The parent is the root: only the leading separator is stripped.
        if full_len > 0 && full.get_char(0) == '/' {
            let r = full.substring_char(1, full_len);
            proof {
                assert(r@ =~= spec_shorten(base@, full@));
            }
            return r;
        }
        return full;
    }
    if full_len < p_len {
        proof {
            assert(full@ != spec_parent(base@));
        }
        return full;
    }
    let mut k: usize = 0;
    while k < p_len
        invariant
            0 <= k <= p_len,
            p_len <= full@.len(),
            p_len <= base@.len(),
            full@.len() == full_len,
            spec_parent(base@) == base@.take(p_len as int),
            forall|q: int| 0 <= q < k ==> full@[q] == base@[q],
        decreases p_len - k,
    {
        if full.get_char(k) != base.get_char(k) {
            proof {
                assert(full@.take(p_len as int)[k as int] != spec_parent(base@)[k as int]);
                assert(full@ != spec_parent(base@));
            }
            return full;
        }
        k = k + 1;
    }
    proof {
        assert(full@.take(p_len as int) =~= spec_parent(base@));
    }
    if full_len == p_len {
        proof {
            assert(full@ =~= spec_parent(base@));
        }
        let r = full.substring_char(full_len, full_len);
        proof {
            assert(r@ =~= spec_shorten(base@, full@));
        }
        return r;
    }
    if full.get_char(p_len) == '/' {
        proof {
            assert(full@ != spec_parent(base@));
        }
        let r = full.substring_char(p_len + 1, full_len);
        proof {
            assert(r@ =~= spec_shorten(base@, full@));
        }
        r
    } else {
        proof {
            assert(full@ != spec_parent(base@));
        }
        full
    }
}

/// Exact text equality of two string slices.
fn str_eq(a: &str, b: &str) -> (r: bool)
    ensures
        r == (a@ == b@),
{
    let n = a.unicode_len();
    if n != b.unicode_len() {
        proof {
            assert(a@ != b@);
        }
        return false;
    }
    let mut i: usize = 0;
    while i < n
        invariant
            0 <= i <= n,
            n == a@.len(),
            n == b@.len(),
            forall|q: int| 0 <= q < i ==> a@[q] == b@[q],
        decreases n - i,
    {
        if a.get_char(i) != b.get_char(i) {
            proof {
                assert(a@[i as int] != b@[i as int]);
            }
            return false;
        }
        i = i + 1;
    }
    proof {
        assert(a@ =~= b@);
    }
    true
}

/// A name marks a hidden entry when it starts with a dot and is not the
/// repository marker itself.
pub open spec fn spec_hidden(name: Seq<char>) -> bool {
    name.len() > 0 && name[0] == '.' && name != ".git"@
}

/// Whether a directory entry's name is the repository marker directory.
pub fn is_git_dir(name: &str) -> (r: bool)
    ensures
        r == (name@ == ".git"@),
{
    str_eq(name, ".git")
}

/// Whether a directory entry's name marks it hidden: it starts with a dot
/// and is not the repository marker itself.
pub fn is_hidden(name: &str) -> (r: bool)
    ensures
        r == spec_hidden(name@),
{
    if name.unicode_len() == 0 {
        return false;
    }
    proof {
        reveal_strlit(".");
    }
    let dot = ".";
    let first_is_dot = name.get_char(0) == dot.get_char(0);
    if !first_is_dot {
        return false;
    }
    !str_eq(name, ".git")
}

/// Whether the walk should skip this entry: hidden entries always; entries
/// deeper than two levels unless a deep lookup was requested.
pub fn deep_filter(deep: bool, name: &str, depth: usize) -> (r: bool)
    ensures
        r == (spec_hidden(name@) || (!deep && depth > 2)),
{
    if is_hidden(name) {
        return true;
    }
    if deep {
        false
    } else {
        depth > 2
    }
}

} // verus!
