use vstd::prelude::*;

verus! {

/// `i` is the first position of `name` in `names`.
pub open spec fn is_first_match(names: Seq<Seq<char>>, name: Seq<char>, i: int) -> bool {
    &&& 0 <= i < names.len()
    &&& names[i] == name
    &&& forall|j: int| 0 <= j < i ==> names[j] != name
}

/// A name listed more than once is reached only at its first position: the
/// position that lookup finds lies at or before every occurrence of the name,
/// and no later occurrence is a first match.
pub proof fn lemma_duplicates_reach_first(names: Seq<Seq<char>>, name: Seq<char>, found: int, k: int)
    requires
        is_first_match(names, name, found),
        0 <= k < names.len(),
        names[k] == name,
    ensures
        found <= k,
        k != found ==> !is_first_match(names, name, k),
{
}

/// Position of the first occurrence of `name` among `symbols`, if any.
pub fn find_symbol<const N: usize>(symbols: &[String; N], name: &str) -> (r: Option<usize>)
    ensures
        match r {
            Some(i) => is_first_match(symbols@.map_values(|s: String| s@), name@, i as int),
            None => forall|j: int| 0 <= j < N ==> symbols@[j]@ != name@,
        },
{
    let wanted = name.to_owned();
    let mut i: usize = 0;
    while i < N
        invariant
            i <= N,
            wanted@ == name@,
            forall|j: int| 0 <= j < i ==> symbols@[j]@ != name@,
        decreases N - i,
    {
        if symbols[i] == wanted {
            return Some(i);
        }
        i = i + 1;
    }
    None
}

} // verus!
