use vstd::prelude::*;
use crate::bytes::joined;
use crate::bytes::join_under;

verus! {

/// Index of the first `true` in `flags`, or `None` when there is none.
///
/// `flags[i]` records whether the directory at position `i` of the search
/// path holds a file named after the target executable.
pub open spec fn first_match_spec(flags: Seq<bool>) -> Option<int>
    decreases flags.len(),
{
    if flags.len() == 0 {
        None
    } else if flags[0] {
        Some(0)
    } else {
        match first_match_spec(flags.drop_first()) {
            Some(i) => Some(i + 1),
            None => None,
        }
    }
}

/// The first match really is a match, everything before it is not, and a
/// `None` answer means nothing matched at all.
pub proof fn lemma_first_match_characterization(flags: Seq<bool>)
    ensures
        first_match_spec(flags) matches Some(i) ==> 0 <= i < flags.len() && flags[i]
            && forall|j: int| 0 <= j < i ==> !flags[j],
        first_match_spec(flags) is None <==> forall|j: int| 0 <= j < flags.len() ==> !flags[j],
    decreases flags.len(),
{
    if flags.len() > 0 && !flags[0] {
        lemma_first_match_characterization(flags.drop_first());
        assert(forall|j: int| 1 <= j < flags.len() ==> flags[j] == flags.drop_first()[j - 1]);
        match first_match_spec(flags) {
            None => {
                assert(forall|j: int| 0 <= j < flags.len() ==> !flags[j]);
            },
            Some(i) => {},
        }
    }
}

/// The probe never looks past the first hit: two search paths that agree up
/// to and including the first matching position give the same answer, no
/// matter how the later entries differ.
pub proof fn lemma_first_match_ignores_tail(f1: Seq<bool>, f2: Seq<bool>, i: int)
    requires
        first_match_spec(f1) == Some(i),
        f1.len() == f2.len(),
        forall|j: int| 0 <= j <= i ==> f1[j] == f2[j],
    ensures
        first_match_spec(f2) == Some(i),
    decreases f1.len(),
{
    lemma_first_match_characterization(f1);
    if i == 0 {
    } else {
        assert(!f1[0] && !f2[0]);
        lemma_first_match_ignores_tail(f1.drop_first(), f2.drop_first(), i - 1);
    }
}

/// Probing is a pure function of the search-path flags: an unchanged
/// search-path variable yields an identical result on every run.
pub proof fn lemma_probe_idempotent(f1: Seq<bool>, f2: Seq<bool>)
    requires
        f1 == f2,
    ensures
        first_match_spec(f1) == first_match_spec(f2),
{
}

/// Scans the per-directory presence flags in search-path order and reports
/// the position of the first directory that holds the target executable.
pub fn first_match(flags: &Vec<bool>) -> (r: Option<usize>)
    ensures
        r matches Some(i) ==> first_match_spec(flags@) == Some(i as int),
        r is None ==> first_match_spec(flags@) is None,
{
    let mut i: usize = 0;
    while i < flags.len()
        invariant
            0 <= i <= flags.len(),
            forall|j: int| 0 <= j < i ==> !flags@[j],
        decreases flags.len() - i,
    {
        if flags[i] {
            proof {
                lemma_first_match_characterization(flags@);
                match first_match_spec(flags@) {
                    None => {
                        assert(!flags@[i as int]);
                    },
                    Some(k) => {
                        if k < i {
                            assert(flags@[k]);
                        }
                        if k > i {
                            assert(!flags@[i as int]);
                        }
                    },
                }
            }
            return Some(i);
        }
        i = i + 1;
    }
    proof {
        lemma_first_match_characterization(flags@);
        match first_match_spec(flags@) {
            Some(k) => {
                assert(flags@[k]);
            },
            None => {},
        }
    }
    None
}

/// Full path of the target executable inside one search-path directory:
/// the directory, a separator, and the executable's file name.
pub fn executable_in(dir: &Vec<u8>, sep: u8, exe_name: &Vec<u8>) -> (r: Vec<u8>)
    ensures
        r@ == joined(dir@, sep, exe_name@),
{
    join_under(dir, sep, exe_name)
}

/// Scans the search path for an existing executable: `present[i]` reports
/// whether the directory `dirs[i]` holds a regular file named after the
/// target executable. Returns the first match's full path, or `None` when
/// no directory holds it.
pub fn probe_search_path(
    dirs: &Vec<Vec<u8>>,
    present: &Vec<bool>,
    sep: u8,
    exe_name: &Vec<u8>,
) -> (r: Option<Vec<u8>>)
    requires
        dirs@.len() == present@.len(),
    ensures
        r is Some <==> first_match_spec(present@) is Some,
        r matches Some(p) ==> first_match_spec(present@) matches Some(i)
            && p@ == joined(dirs@[i]@, sep, exe_name@),
{
    match first_match(present) {
        Some(i) => {
            proof {
                lemma_first_match_characterization(present@);
            }
            Some(executable_in(&dirs[i], sep, exe_name))
        },
        None => None,
    }
}

} // verus!
