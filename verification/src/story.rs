//! A parsed story: passages keyed by their names, in document order.

use vstd::prelude::*;
use indexmap::IndexMap;
use crate::passage::{Passage, PassageView};

verus! {

/// `indexmap::IndexMap`, the map that keeps a story's passages in the
/// order in which they were put in. Nothing of it is visible to proofs but
/// what the two functions below name.
#[verifier::external_type_specification]
#[verifier::external_body]
#[verifier::reject_recursive_types(K)]
#[verifier::reject_recursive_types(V)]
#[verifier::reject_recursive_types(S)]
pub struct ExIndexMap<K, V, S>(IndexMap<K, V, S>);

/// The passages that a story holds, by name.
pub uninterp spec fn passage_map(story: IndexMap<String, Passage>) -> Map<Seq<char>, PassageView>;

/// The names of a story's passages, in the order in which the story keeps
/// them.
pub uninterp spec fn passage_order(story: IndexMap<String, Passage>) -> Seq<Seq<char>>;

/// `IndexMap::get`: the value stored under `name`, if the map holds that
/// key, else `None`.
#[verifier::external_body]
pub(crate) fn lookup<'a>(story: &'a IndexMap<String, Passage>, name: &str) -> (found: Option<
    &'a Passage,
>)
    ensures
        match found {
            Some(p) => passage_map(*story).contains_key(name@) && passage_map(*story)[name@]
                == p@,
            None => !passage_map(*story).contains_key(name@),
        },
{
    story.get(name)
}

/// `IndexMap::values`: the stored values in the map's order, one for each
/// key.
#[verifier::external_body]
pub(crate) fn stored_passages<'a>(story: &'a IndexMap<String, Passage>) -> (all: Vec<&'a Passage>)
    ensures
        all@.len() == passage_order(*story).len(),
        forall|i: int|
            0 <= i < all@.len() ==> passage_map(*story).contains_key(
                #[trigger] passage_order(*story)[i],
            ) && all@[i]@ == passage_map(*story)[passage_order(*story)[i]],
{
    story.values().collect()
}

} // verus!
