use vstd::prelude::*;
use crate::bytes::starts_with_bytes;

verus! {

/// Index of the first name in `names` that begins with `prefix`, or `None`
/// when no name does.
pub open spec fn first_prefixed_spec(names: Seq<Seq<u8>>, prefix: Seq<u8>) -> Option<int>
    decreases names.len(),
{
    if names.len() == 0 {
        None
    } else if prefix.is_prefix_of(names[0]) {
        Some(0)
    } else {
        match first_prefixed_spec(names.drop_first(), prefix) {
            Some(i) => Some(i + 1),
            None => None,
        }
    }
}

/// The chosen index really carries the prefix, no earlier one does, and a
/// `None` answer means no name carries it.
pub proof fn lemma_first_prefixed_characterization(names: Seq<Seq<u8>>, prefix: Seq<u8>)
    ensures
        first_prefixed_spec(names, prefix) matches Some(i) ==> 0 <= i < names.len()
            && prefix.is_prefix_of(names[i])
            && forall|j: int| 0 <= j < i ==> !prefix.is_prefix_of(names[j]),
        first_prefixed_spec(names, prefix) is None <==> forall|j: int|
            0 <= j < names.len() ==> !prefix.is_prefix_of(names[j]),
    decreases names.len(),
{
    if names.len() > 0 && !prefix.is_prefix_of(names[0]) {
        lemma_first_prefixed_characterization(names.drop_first(), prefix);
        assert(forall|j: int| 1 <= j < names.len() ==> names[j] == names.drop_first()[j - 1]);
        match first_prefixed_spec(names, prefix) {
            None => {
                assert(forall|j: int| 0 <= j < names.len() ==> !prefix.is_prefix_of(names[j]));
            },
            Some(i) => {},
        }
    }
}

/// Plan for the normalization step after extraction: among the immediate
/// children of the installation root, exactly the first name that begins
/// with `tool_prefix` is to be renamed to the canonical tool name; every
/// other child is left untouched. `None` means normalization is skipped
/// because no child matches.
pub fn normalize_plan(children: &Vec<Vec<u8>>, tool_prefix: &Vec<u8>) -> (r: Option<usize>)
    ensures
        r matches Some(i) ==> {
            &&& i < children@.len()
            &&& first_prefixed_spec(children@.map_values(|c: Vec<u8>| c@), tool_prefix@)
                == Some(i as int)
        },
        r is None ==> first_prefixed_spec(children@.map_values(|c: Vec<u8>| c@), tool_prefix@)
            is None,
{
    let ghost names: Seq<Seq<u8>> = children@.map_values(|c: Vec<u8>| c@);
    let mut i: usize = 0;
    while i < children.len()
        invariant
            0 <= i <= children.len(),
            names == children@.map_values(|c: Vec<u8>| c@),
            names.len() == children@.len(),
            forall|j: int| 0 <= j < i ==> !tool_prefix@.is_prefix_of(names[j]),
        decreases children.len() - i,
    {
        if starts_with_bytes(&children[i], tool_prefix) {
            proof {
                lemma_first_prefixed_characterization(names, tool_prefix@);
                match first_prefixed_spec(names, tool_prefix@) {
                    None => {
                        assert(!tool_prefix@.is_prefix_of(names[i as int]));
                    },
                    Some(k) => {
                        if k < i {
                            assert(tool_prefix@.is_prefix_of(names[k]));
                        }
                        if k > i {
                            assert(!tool_prefix@.is_prefix_of(names[i as int]));
                        }
                    },
                }
            }
            return Some(i);
        }
        i = i + 1;
    }
    proof {
        lemma_first_prefixed_characterization(names, tool_prefix@);
        match first_prefixed_spec(names, tool_prefix@) {
            Some(k) => {
                assert(tool_prefix@.is_prefix_of(names[k]));
            },
            None => {},
        }
    }
    None
}

} // verus!
