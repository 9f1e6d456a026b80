//! The operations that a host offers on a parsed story: listing its
//! passages and previewing one of them.

use vstd::prelude::*;
use vstd::string::*;
use indexmap::IndexMap;
use crate::passage::{info_of, Passage, PassageInfo, PassageInfoView, PassageView};
use crate::serialize::{passage_to_twee, twee_text};
use crate::story::{lookup, passage_map, passage_order, stored_passages};

verus! {

/// The listing of a story: an entry for each passage, in the story's order.
pub open spec fn listing(passages: Map<Seq<char>, PassageView>, order: Seq<Seq<char>>) -> Seq<
    PassageInfoView,
> {
    order.map_values(|name: Seq<char>| info_of(passages[name]))
}

/// Lists the passages of a story in the order in which the story keeps
/// them.
pub fn open_twee(passages: &IndexMap<String, Passage>) -> (list: Vec<PassageInfo>)
    ensures
        list.deep_view() == listing(passage_map(*passages), passage_order(*passages)),
{
    let all = stored_passages(passages);
    let mut list: Vec<PassageInfo> = Vec::new();
    let mut i: usize = 0;
    while i < all.len()
        invariant
            i <= all.len(),
            all@.len() == passage_order(*passages).len(),
            forall|k: int|
                0 <= k < all@.len() ==> all@[k]@ == passage_map(*passages)[#[trigger] passage_order(
                    *passages,
                )[k]],
            list@.len() == i,
            forall|k: int| 0 <= k < i ==> (#[trigger] list@[k])@ == info_of(all@[k]@),
        decreases all.len() - i,
    {
        list.push(PassageInfo::of(all[i]));
        i += 1;
    }
    assert(list.deep_view() =~= listing(passage_map(*passages), passage_order(*passages)));
    list
}

/// The preview text of a passage: its canonical Twee text.
pub fn passage_to_preview(passage: &Passage) -> (text: String)
    ensures
        text@ == twee_text(passage@),
{
    passage_to_twee(passage)
}

/// The message for a preview of a passage that the story does not hold.
pub open spec fn not_found_text(name: Seq<char>) -> Seq<char> {
    "Passage '"@ + name + "' not found"@
}

/// The preview of the passage called `name`: its text where the story
/// holds it, else the message that it was not found.
pub open spec fn preview_of(passages: Map<Seq<char>, PassageView>, name: Seq<char>) -> Result<
    Seq<char>,
    Seq<char>,
> {
    if passages.contains_key(name) {
        Ok(twee_text(passages[name]))
    } else {
        Err(not_found_text(name))
    }
}

/// Previews the passage called `name`, or says that the story has none of
/// that name.
pub fn preview_passage(passages: &IndexMap<String, Passage>, name: &str) -> (preview: Result<
    String,
    String,
>)
    ensures
        match preview {
            Ok(text) => preview_of(passage_map(*passages), name@) == Ok::<Seq<char>, Seq<char>>(
                text@,
            ),
            Err(message) => preview_of(passage_map(*passages), name@) == Err::<
                Seq<char>,
                Seq<char>,
            >(message@),
        },
{
    match lookup(passages, name) {
        Some(passage) => Ok(passage_to_preview(passage)),
        None => {
            let mut message = String::from_str("Passage '");
            message.append(name);
            message.append("' not found");
            Err(message)
        },
    }
}

} // verus!
