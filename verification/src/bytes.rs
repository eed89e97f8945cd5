use vstd::prelude::*;

verus! {

/// Byte value of the path separator `/` used inside archive entry names.
pub const SLASH: u8 = 47;

/// Byte value of `.`.
pub const DOT: u8 = 46;

/// Byte value of `\`, which never occurs in a well-formed entry name.
pub const BACKSLASH: u8 = 92;

/// True when `b` is an ASCII whitespace byte: space, tab, carriage return,
/// or line feed.
pub open spec fn is_space(b: u8) -> bool {
    b == 32u8 || b == 9u8 || b == 13u8 || b == 10u8
}

/// Reports whether a byte is an ASCII whitespace byte.
pub fn byte_is_space(b: u8) -> (r: bool)
    ensures
        r == is_space(b),
{
    b == 32u8 || b == 9u8 || b == 13u8 || b == 10u8
}

/// `s` with its leading whitespace bytes removed.
pub open spec fn trimmed_front(s: Seq<u8>) -> Seq<u8>
    decreases s.len(),
{
    if s.len() > 0 && is_space(s[0]) {
        trimmed_front(s.drop_first())
    } else {
        s
    }
}

/// `s` with its trailing whitespace bytes removed.
pub open spec fn trimmed_back(s: Seq<u8>) -> Seq<u8>
    decreases s.len(),
{
    if s.len() > 0 && is_space(s.last()) {
        trimmed_back(s.drop_last())
    } else {
        s
    }
}

/// `s` with leading and trailing whitespace bytes removed.
pub open spec fn trimmed(s: Seq<u8>) -> Seq<u8> {
    trimmed_back(trimmed_front(s))
}

proof fn lemma_trimmed_front_subrange(s: Seq<u8>, i: int)
    requires
        0 <= i <= s.len(),
        forall|j: int| 0 <= j < i ==> is_space(s[j]),
        i < s.len() ==> !is_space(s[i]),
    ensures
        trimmed_front(s) == s.subrange(i, s.len() as int),
    decreases i,
{
    if i == 0 {
        assert(trimmed_front(s) == s.subrange(0, s.len() as int)) by {
            assert(s.subrange(0, s.len() as int) =~= s);
        }
    } else {
        let t = s.drop_first();
        lemma_trimmed_front_subrange(t, i - 1);
        assert(t.subrange(i - 1, t.len() as int) =~= s.subrange(i, s.len() as int));
    }
}

proof fn lemma_trimmed_back_subrange(s: Seq<u8>, e: int)
    requires
        0 <= e <= s.len(),
        forall|j: int| e <= j < s.len() ==> is_space(s[j]),
        e > 0 ==> !is_space(s[e - 1]),
    ensures
        trimmed_back(s) == s.subrange(0, e),
    decreases s.len() - e,
{
    if e == s.len() {
        if s.len() > 0 && is_space(s.last()) {
            assert(false);
        }
        assert(s.subrange(0, e) =~= s);
    } else {
        let t = s.drop_last();
        assert(is_space(s.last()));
        lemma_trimmed_back_subrange(t, e);
        assert(t.subrange(0, e) =~= s.subrange(0, e));
    }
}

/// Copies `v` without its leading and trailing ASCII whitespace, as a console
/// line is cleaned before it is interpreted.
pub fn trim_bytes(v: &Vec<u8>) -> (r: Vec<u8>)
    ensures
        r@ == trimmed(v@),
{
    let mut start: usize = 0;
    while start < v.len() && byte_is_space(v[start])
        invariant
            0 <= start <= v.len(),
            forall|j: int| 0 <= j < start ==> is_space(v@[j]),
        decreases v.len() - start,
    {
        start = start + 1;
    }
    let mut end: usize = v.len();
    while end > start && byte_is_space(v[end - 1])
        invariant
            start <= end <= v.len(),
            forall|j: int| 0 <= j < start ==> is_space(v@[j]),
            forall|j: int| end <= j < v.len() ==> is_space(v@[j]),
        decreases end,
    {
        end = end - 1;
    }
    let mut r: Vec<u8> = Vec::new();
    let mut i: usize = start;
    while i < end
        invariant
            start <= i <= end <= v.len(),
            r@ =~= v@.subrange(start as int, i as int),
        decreases end - i,
    {
        r.push(v[i]);
        assert(r@ =~= v@.subrange(start as int, i + 1));
        i = i + 1;
    }
    proof {
        lemma_trimmed_front_subrange(v@, start as int);
        let f = v@.subrange(start as int, v@.len() as int);
        lemma_trimmed_back_subrange(f, end - start);
        assert(f.subrange(0, end - start) =~= v@.subrange(start as int, end as int));
    }
    r
}

/// Reports whether `p` is a prefix of `v`.
pub fn starts_with_bytes(v: &Vec<u8>, p: &Vec<u8>) -> (r: bool)
    ensures
        r == p@.is_prefix_of(v@),
{
    if p.len() > v.len() {
        assert(!p@.is_prefix_of(v@));
        return false;
    }
    let mut i: usize = 0;
    while i < p.len()
        invariant
            0 <= i <= p.len() <= v.len(),
            forall|j: int| 0 <= j < i ==> v@[j] == p@[j],
        decreases p.len() - i,
    {
        if v[i] != p[i] {
            assert(!p@.is_prefix_of(v@));
            return false;
        }
        i = i + 1;
    }
    assert(p@.is_prefix_of(v@)) by {
        assert(p@ =~= v@.subrange(0, p@.len() as int));
    }
    true
}

/// Copies the first `end` bytes of `v`.
pub fn copy_prefix(v: &Vec<u8>, end: usize) -> (r: Vec<u8>)
    requires
        end <= v.len(),
    ensures
        r@ == v@.subrange(0, end as int),
{
    let mut r: Vec<u8> = Vec::new();
    let mut i: usize = 0;
    while i < end
        invariant
            0 <= i <= end <= v.len(),
            r@ =~= v@.subrange(0, i as int),
        decreases end - i,
    {
        r.push(v[i]);
        assert(r@ =~= v@.subrange(0, i + 1));
        i = i + 1;
    }
    r
}

/// `root` and `rel` joined with a single separator byte between them.
pub open spec fn joined(root: Seq<u8>, sep: u8, rel: Seq<u8>) -> Seq<u8> {
    root + seq![sep] + rel
}

/// Joins a root path and a relative path with the given separator byte.
pub fn join_under(root: &Vec<u8>, sep: u8, rel: &Vec<u8>) -> (r: Vec<u8>)
    ensures
        r@ == joined(root@, sep, rel@),
{
    let mut r: Vec<u8> = Vec::new();
    let mut i: usize = 0;
    while i < root.len()
        invariant
            0 <= i <= root.len(),
            r@ =~= root@.subrange(0, i as int),
        decreases root.len() - i,
    {
        r.push(root[i]);
        assert(r@ =~= root@.subrange(0, i + 1));
        i = i + 1;
    }
    assert(r@ =~= root@);
    r.push(sep);
    let mut j: usize = 0;
    while j < rel.len()
        invariant
            0 <= j <= rel.len(),
            r@ =~= root@ + seq![sep] + rel@.subrange(0, j as int),
        decreases rel.len() - j,
    {
        r.push(rel[j]);
        assert(r@ =~= root@ + seq![sep] + rel@.subrange(0, j + 1));
        j = j + 1;
    }
    assert(r@ =~= joined(root@, sep, rel@));
    r
}

} // verus!
