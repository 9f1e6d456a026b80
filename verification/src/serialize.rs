//! The canonical text of a passage and of a group of passages.

use vstd::prelude::*;
use vstd::string::*;
use indexmap::IndexMap;
use crate::passage::{Passage, PassageView};
use crate::story::{lookup, passage_map};

verus! {

/// The tag bracket of a header: a space and the tags in square brackets, or
/// nothing where the tags are absent or empty.
pub open spec fn tag_text(tags: Option<Seq<char>>) -> Seq<char> {
    match tags {
        Some(t) => if t.len() > 0 {
            " ["@ + t + "]"@
        } else {
            Seq::empty()
        },
        None => Seq::empty(),
    }
}

/// The metadata block of a header: present as soon as either value is, with
/// `0,0` for a missing position and `100,100` for a missing size.
pub open spec fn metadata_text(position: Option<Seq<char>>, size: Option<Seq<char>>) -> Seq<char> {
    if position is Some || size is Some {
        " {\"position\":\""@ + position.unwrap_or("0,0"@) + "\",\"size\":\""@ + size.unwrap_or(
            "100,100"@,
        ) + "\"}"@
    } else {
        Seq::empty()
    }
}

/// The header line of a passage, without its newline.
pub open spec fn header_text(p: PassageView) -> Seq<char> {
    ":: "@ + p.name + tag_text(p.tags) + metadata_text(p.position, p.size)
}

/// The canonical text of a passage: its header line, a newline, and its
/// content unchanged.
pub open spec fn twee_text(p: PassageView) -> Seq<char> {
    header_text(p) + "\n"@ + p.content
}

/// Writes a passage as Twee text.
pub fn passage_to_twee(passage: &Passage) -> (text: String)
    ensures
        text@ == twee_text(passage@),
{
    let mut text = String::from_str(":: ");
    text.append(passage.name.as_str());
    match &passage.tags {
        Some(tags) => {
            if !tags.as_str().is_empty() {
                text.append(" [");
                text.append(tags.as_str());
                text.append("]");
            }
        },
        None => {},
    }
    if passage.position.is_some() || passage.size.is_some() {
        text.append(" {\"position\":\"");
        match &passage.position {
            Some(position) => text.append(position.as_str()),
            None => text.append("0,0"),
        }
        text.append("\",\"size\":\"");
        match &passage.size {
            Some(size) => text.append(size.as_str()),
            None => text.append("100,100"),
        }
        text.append("\"}");
    }
    text.append("\n");
    text.append(passage.content.as_str());
    text
}

/// The text that a name contributes to a group: the canonical text of the
/// passage of that name, or nothing where the story has no such passage.
pub open spec fn found_text(passages: Map<Seq<char>, PassageView>, name: Seq<char>) -> Option<
    Seq<char>,
> {
    if passages.contains_key(name) {
        Some(twee_text(passages[name]))
    } else {
        None
    }
}

/// The texts of the passages that `names` finds, in the order of `names`;
/// a name that finds nothing leaves no trace.
pub open spec fn found_texts(names: Seq<Seq<char>>, passages: Map<Seq<char>, PassageView>) -> Seq<
    Seq<char>,
> {
    names.filter_map(|name: Seq<char>| found_text(passages, name))
}

/// `parts` one after the other, with `separator` between each two
/// neighbours and none at either end.
pub open spec fn joined(parts: Seq<Seq<char>>, separator: Seq<char>) -> Seq<char>
    decreases parts.len(),
{
    if parts.len() == 0 {
        Seq::empty()
    } else if parts.len() == 1 {
        parts[0]
    } else {
        joined(parts.drop_last(), separator) + separator + parts.last()
    }
}

/// The text of a group: the texts of the passages found, one blank line
/// between each two.
pub open spec fn group_text(names: Seq<Seq<char>>, passages: Map<Seq<char>, PassageView>) -> Seq<
    char,
> {
    joined(found_texts(names, passages), "\n\n"@)
}

/// Joins `parts` with `separator` between each two neighbours.
pub fn join_texts(parts: &Vec<String>, separator: &str) -> (text: String)
    ensures
        text@ == joined(parts.deep_view(), separator@),
{
    let mut text = String::new();
    let mut i: usize = 0;
    while i < parts.len()
        invariant
            i <= parts.len(),
            text@ == joined(parts.deep_view().take(i as int), separator@),
        decreases parts.len() - i,
    {
        proof {
            let done = parts.deep_view().take(i as int);
            let next = parts.deep_view().take(i + 1);
            assert(next.drop_last() == done);
            assert(next.last() == parts[i as int]@);
            assert(i == 0 ==> joined(next, separator@) == parts[i as int]@);
        }
        if i > 0 {
            text.append(separator);
        }
        text.append(parts[i].as_str());
        i += 1;
    }
    proof {
        assert(parts.deep_view().take(i as int) == parts.deep_view());
    }
    text
}

/// Writes the passages that `names` finds in `passages` as one Twee
/// document, in the order of `names`. A name without a passage is passed
/// over.
pub fn group_to_twee(names: &[String], passages: &IndexMap<String, Passage>) -> (text: String)
    ensures
        text@ == group_text(names.deep_view(), passage_map(*passages)),
{
    let ghost wanted = names.deep_view();
    let ghost text_of = |name: Seq<char>| found_text(passage_map(*passages), name);
    let mut parts: Vec<String> = Vec::new();
    let mut i: usize = 0;
    while i < names.len()
        invariant
            i <= names.len(),
            wanted == names.deep_view(),
            text_of == |name: Seq<char>| found_text(passage_map(*passages), name),
            parts.deep_view() == wanted.take(i as int).filter_map(text_of),
        decreases names.len() - i,
    {
        let ghost before = parts.deep_view();
        proof {
            wanted.lemma_filter_map_take_succ(text_of, i as int);
            assert(wanted[i as int] == names[i as int]@);
        }
        match lookup(passages, names[i].as_str()) {
            Some(passage) => {
                let part = passage_to_twee(passage);
                parts.push(part);
                assert(parts.deep_view() == before + seq![part@]);
            },
            None => {},
        }
        i += 1;
    }
    proof {
        assert(wanted.take(i as int) == wanted);
    }
    join_texts(&parts, "\n\n")
}

/// The passages found by one list of names after another are those found
/// by the first list, then those found by the second.
pub proof fn found_texts_of_concat(
    first: Seq<Seq<char>>,
    second: Seq<Seq<char>>,
    passages: Map<Seq<char>, PassageView>,
)
    ensures
        found_texts(first + second, passages) == found_texts(first, passages) + found_texts(
            second,
            passages,
        ),
    decreases second.len(),
{
    let text_of = |name: Seq<char>| found_text(passages, name);
    if second.len() == 0 {
        assert(first + second == first);
        assert(found_texts(second, passages) == Seq::<Seq<char>>::empty());
        assert(found_texts(first, passages) + Seq::<Seq<char>>::empty() == found_texts(
            first,
            passages,
        ));
    } else {
        found_texts_of_concat(first, second.drop_last(), passages);
        assert((first + second).drop_last() == first + second.drop_last());
        assert((first + second).last() == second.last());
        match text_of(second.last()) {
            Some(text) => {
                assert((first + second).filter_map(text_of) == (first
                    + second.drop_last()).filter_map(text_of) + seq![text]);
                assert(second.filter_map(text_of) == second.drop_last().filter_map(text_of)
                    + seq![text]);
                assert(found_texts(first, passages) + (found_texts(second.drop_last(), passages)
                    + seq![text]) == (found_texts(first, passages) + found_texts(
                    second.drop_last(),
                    passages,
                )) + seq![text]);
            },
            None => {},
        }
    }
}

/// Joining two non-empty lists of parts as one gives the two joined texts
/// with one separator between them.
pub proof fn joined_of_concat(first: Seq<Seq<char>>, second: Seq<Seq<char>>, separator: Seq<char>)
    requires
        first.len() > 0,
        second.len() > 0,
    ensures
        joined(first + second, separator) == joined(first, separator) + separator + joined(
            second,
            separator,
        ),
    decreases second.len(),
{
    let all = first + second;
    assert(all.drop_last() == first + second.drop_last());
    assert(all.last() == second.last());
    if second.len() == 1 {
        assert(first + second.drop_last() == first);
    } else {
        joined_of_concat(first, second.drop_last(), separator);
        assert(joined(all, separator) == (joined(first, separator) + separator + joined(
            second.drop_last(),
            separator,
        )) + separator + second.last());
        assert(joined(second, separator) == joined(second.drop_last(), separator) + separator
            + second.last());
        assert(joined(all, separator) == joined(first, separator) + separator + joined(
            second,
            separator,
        ));
    }
}

/// The order of a group's text is the order of the names asked for: of two
/// names that both find a passage, the passage of the name given first
/// comes first, one blank line before the other, whatever order the story
/// keeps its passages in.
pub proof fn group_text_follows_names(
    first: Seq<char>,
    second: Seq<char>,
    passages: Map<Seq<char>, PassageView>,
)
    requires
        passages.contains_key(first),
        passages.contains_key(second),
    ensures
        group_text(seq![first, second], passages) == twee_text(passages[first]) + "\n\n"@
            + twee_text(passages[second]),
{
    let text_of = |name: Seq<char>| found_text(passages, name);
    Seq::lemma_filter_map_singleton(first, text_of);
    Seq::lemma_filter_map_singleton(second, text_of);
    found_texts_of_concat(seq![first], seq![second], passages);
    assert(seq![first] + seq![second] == seq![first, second]);
    joined_of_concat(
        seq![twee_text(passages[first])],
        seq![twee_text(passages[second])],
        "\n\n"@,
    );
}

/// A name that finds no passage alone gives the empty text.
pub proof fn group_text_of_unknown_name(name: Seq<char>, passages: Map<Seq<char>, PassageView>)
    requires
        !passages.contains_key(name),
    ensures
        group_text(seq![name], passages) == Seq::<char>::empty(),
{
    let text_of = |name: Seq<char>| found_text(passages, name);
    Seq::lemma_filter_map_singleton(name, text_of);
}

/// A name that finds no passage leaves a group's text as it is without
/// that name, wherever in the list it stands.
pub proof fn group_text_skips_unknown_name(
    before: Seq<Seq<char>>,
    name: Seq<char>,
    after: Seq<Seq<char>>,
    passages: Map<Seq<char>, PassageView>,
)
    requires
        !passages.contains_key(name),
    ensures
        group_text(before + seq![name] + after, passages) == group_text(before + after, passages),
{
    let text_of = |name: Seq<char>| found_text(passages, name);
    Seq::lemma_filter_map_singleton(name, text_of);
    found_texts_of_concat(before, seq![name], passages);
    found_texts_of_concat(before + seq![name], after, passages);
    found_texts_of_concat(before, after, passages);
    assert(found_texts(before, passages) + Seq::<Seq<char>>::empty() == found_texts(
        before,
        passages,
    ));
}

} // verus!
