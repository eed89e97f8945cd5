use vstd::prelude::*;
use crate::bytes::BACKSLASH;
use crate::bytes::DOT;
use crate::bytes::SLASH;
use crate::bytes::copy_prefix;

verus! {

/// The half-open range `[i, j)` of `s` is one whole `/`-separated component:
/// it is bounded by the string's ends or by separators, and holds none
/// itself.
pub open spec fn component_at(s: Seq<u8>, i: int, j: int) -> bool {
    &&& 0 <= i <= j <= s.len()
    &&& (i == 0 || s[i - 1] == SLASH)
    &&& (j == s.len() || s[j] == SLASH)
    &&& forall|k: int| i <= k < j ==> s[k] != SLASH
}

/// A component that makes a path unsafe to resolve below a root: an empty
/// component (which also covers leading, trailing and doubled separators,
/// and so absolute paths), the current directory `.`, or the parent
/// traversal `..`.
pub open spec fn unsafe_component(s: Seq<u8>, i: int, j: int) -> bool {
    ||| j - i == 0
    ||| (j - i == 1 && s[i] == DOT)
    ||| (j - i == 2 && s[i] == DOT && s[i + 1] == DOT)
}

/// A relative path that stays below whatever root it is joined under: it is
/// nonempty, holds no NUL and no backslash, and every one of its
/// `/`-separated components is a plain name — never empty, `.` or `..`.
pub open spec fn safe_rel(s: Seq<u8>) -> bool {
    &&& s.len() > 0
    &&& forall|k: int| 0 <= k < s.len() ==> s[k] != 0 && s[k] != BACKSLASH
    &&& forall|i: int, j: int| component_at(s, i, j) ==> !unsafe_component(s, i, j)
}

/// Decides whether an archive entry's relative path is safe to create under
/// the output root. An entry whose path fails this check is skipped by
/// extraction: this is the mandatory traversal check.
pub fn is_safe_rel_path(name: &Vec<u8>) -> (r: bool)
    ensures
        r == safe_rel(name@),
{
    let ghost s = name@;
    let n = name.len();
    if n == 0 {
        return false;
    }
    let mut i: usize = 0;
    let mut seg_start: usize = 0;
    while i < n
        invariant
            s == name@,
            n == s.len(),
            0 <= seg_start <= i <= n,
            seg_start == 0 || s[seg_start - 1] == SLASH,
            forall|k: int| seg_start <= k < i ==> s[k] != SLASH,
            forall|k: int| 0 <= k < i ==> s[k] != 0 && s[k] != BACKSLASH,
            forall|i0: int, j0: int| component_at(s, i0, j0) && j0 < i
                ==> !unsafe_component(s, i0, j0),
        decreases n - i,
    {
        let b = name[i];
        if b == 0 || b == BACKSLASH {
            assert(!safe_rel(s));
            return false;
        }
        if b == SLASH {
            assert(component_at(s, seg_start as int, i as int));
            if segment_is_unsafe(name, seg_start, i) {
                assert(!safe_rel(s));
                return false;
            }
            assert forall|i0: int, j0: int| component_at(s, i0, j0) && j0 < i + 1
                implies !unsafe_component(s, i0, j0) by {
                if j0 == i {
                    assert(i0 == seg_start) by {
                        if i0 < seg_start {
                            assert(s[seg_start - 1] == SLASH);
                        }
                        if i0 > seg_start {
                            assert(s[i0 - 1] != SLASH);
                        }
                    }
                }
            }
            seg_start = i + 1;
        }
        i = i + 1;
    }
    assert(component_at(s, seg_start as int, n as int));
    if segment_is_unsafe(name, seg_start, n) {
        assert(!safe_rel(s));
        return false;
    }
    assert forall|i0: int, j0: int| component_at(s, i0, j0)
        implies !unsafe_component(s, i0, j0) by {
        if j0 == n {
            assert(i0 == seg_start) by {
                if i0 < seg_start {
                    assert(s[seg_start - 1] == SLASH);
                }
                if i0 > seg_start {
                    assert(s[i0 - 1] != SLASH);
                }
            }
        } else {
            assert(j0 < n);
        }
    }
    true
}

/// Reports whether the component `[start, end)` of `name` is empty, `.`,
/// or `..`.
fn segment_is_unsafe(name: &Vec<u8>, start: usize, end: usize) -> (r: bool)
    requires
        start <= end <= name@.len(),
    ensures
        r == unsafe_component(name@, start as int, end as int),
{
    let len = end - start;
    if len == 0 {
        true
    } else if len == 1 {
        name[start] == DOT
    } else if len == 2 {
        name[start] == DOT && name[start + 1] == DOT
    } else {
        false
    }
}

/// A directory entry's name without its trailing separator; a file entry's
/// name unchanged.
pub open spec fn stripped(s: Seq<u8>) -> Seq<u8> {
    if s.len() > 0 && s.last() == SLASH {
        s.drop_last()
    } else {
        s
    }
}

/// The sanitized relative path of an archive entry: its name without any
/// trailing separator, provided that is a safe relative path; `None` for an
/// entry that must be skipped.
pub open spec fn sanitize_spec(name: Seq<u8>) -> Option<Seq<u8>> {
    if safe_rel(stripped(name)) {
        Some(stripped(name))
    } else {
        None
    }
}

/// Computes the sanitized relative output path of an archive entry, or
/// `None` when the entry escapes the output root or cannot be resolved to a
/// safe relative path.
pub fn sanitize_entry_name(name: &Vec<u8>) -> (r: Option<Vec<u8>>)
    ensures
        r matches Some(p) ==> sanitize_spec(name@) == Some(p@),
        r is None ==> sanitize_spec(name@) is None,
{
    let n = name.len();
    let t: Vec<u8> = if n > 0 && name[n - 1] == SLASH {
        let t = copy_prefix(name, n - 1);
        proof {
            assert(t@ =~= stripped(name@));
        }
        t
    } else {
        let t = copy_prefix(name, n);
        proof {
            assert(t@ =~= stripped(name@));
        }
        t
    };
    if is_safe_rel_path(&t) {
        Some(t)
    } else {
        None
    }
}

} // verus!
