use indexmap::IndexMap;
use twee_split::passage::Passage;
use twee_split::serialize::{group_to_twee, join_texts, passage_to_twee};

fn passage(name: &str, content: &str) -> Passage {
    Passage {
        name: name.to_string(),
        tags: None,
        content: content.to_string(),
        source_line: None,
        position: None,
        size: None,
    }
}

fn story(passages: Vec<Passage>) -> IndexMap<String, Passage> {
    let mut story = IndexMap::new();
    for p in passages {
        story.insert(p.name.clone(), p);
    }
    story
}

fn names(list: &[&str]) -> Vec<String> {
    list.iter().map(|n| n.to_string()).collect()
}

#[test]
fn plain_passage_is_header_newline_content() {
    assert_eq!(passage_to_twee(&passage("Start", "Hello")), ":: Start\nHello");
}

#[test]
fn content_is_kept_verbatim_without_trailing_newline() {
    let p = passage("Start", "line one\n\n  line [[two]]\n");
    assert_eq!(passage_to_twee(&p), ":: Start\nline one\n\n  line [[two]]\n");
    assert_eq!(passage_to_twee(&passage("Empty", "")), ":: Empty\n");
}

#[test]
fn tags_are_wrapped_in_square_brackets() {
    let mut p = passage("Start", "Hello");
    p.tags = Some("intro dark".to_string());
    assert_eq!(passage_to_twee(&p), ":: Start [intro dark]\nHello");
}

#[test]
fn empty_tags_leave_no_bracket() {
    let mut p = passage("Start", "Hello");
    p.tags = Some(String::new());
    assert_eq!(passage_to_twee(&p), ":: Start\nHello");
}

#[test]
fn position_alone_defaults_the_size() {
    let mut p = passage("Start", "Hello");
    p.position = Some("10,20".to_string());
    assert_eq!(
        passage_to_twee(&p),
        ":: Start {\"position\":\"10,20\",\"size\":\"100,100\"}\nHello"
    );
}

#[test]
fn size_alone_defaults_the_position() {
    let mut p = passage("Start", "Hello");
    p.size = Some("200,50".to_string());
    assert_eq!(
        passage_to_twee(&p),
        ":: Start {\"position\":\"0,0\",\"size\":\"200,50\"}\nHello"
    );
}

#[test]
fn tags_come_before_metadata() {
    let mut p = passage("Start", "Hello");
    p.tags = Some("a b".to_string());
    p.position = Some("1,2".to_string());
    p.size = Some("3,4".to_string());
    assert_eq!(
        passage_to_twee(&p),
        ":: Start [a b] {\"position\":\"1,2\",\"size\":\"3,4\"}\nHello"
    );
}

#[test]
fn source_line_is_not_written() {
    let mut p = passage("Start", "Hello");
    p.source_line = Some(17);
    assert_eq!(passage_to_twee(&p), ":: Start\nHello");
}

#[test]
fn name_is_written_unescaped() {
    assert_eq!(passage_to_twee(&passage("A [b] {c}", "x")), ":: A [b] {c}\nx");
}

#[test]
fn join_puts_the_separator_between_neighbours_only() {
    assert_eq!(join_texts(&Vec::new(), ", "), "");
    assert_eq!(join_texts(&names(&["a"]), ", "), "a");
    assert_eq!(join_texts(&names(&["a", "b", "c"]), ", "), "a, b, c");
    assert_eq!(join_texts(&names(&["", ""]), "-"), "-");
}

#[test]
fn group_follows_the_names_not_the_story() {
    let story = story(vec![passage("A", "first"), passage("B", "second")]);
    assert_eq!(
        group_to_twee(&names(&["B", "A"]), &story),
        ":: B\nsecond\n\n:: A\nfirst"
    );
    assert_eq!(
        group_to_twee(&names(&["A", "B"]), &story),
        ":: A\nfirst\n\n:: B\nsecond"
    );
}

#[test]
fn unknown_name_alone_gives_the_empty_text() {
    let story = story(vec![passage("A", "first")]);
    assert_eq!(group_to_twee(&names(&["X"]), &story), "");
}

#[test]
fn unknown_name_between_known_ones_is_skipped() {
    let story = story(vec![passage("A", "first"), passage("B", "second")]);
    assert_eq!(
        group_to_twee(&names(&["A", "X", "B"]), &story),
        group_to_twee(&names(&["A", "B"]), &story)
    );
    assert_eq!(
        group_to_twee(&names(&["X", "A", "B", "X"]), &story),
        ":: A\nfirst\n\n:: B\nsecond"
    );
}

#[test]
fn no_names_give_the_empty_text() {
    let story = story(vec![passage("A", "first")]);
    assert_eq!(group_to_twee(&[], &story), "");
    assert_eq!(group_to_twee(&names(&["A"]), &IndexMap::new()), "");
}

#[test]
fn a_name_given_twice_is_written_twice() {
    let story = story(vec![passage("A", "first")]);
    assert_eq!(
        group_to_twee(&names(&["A", "A"]), &story),
        ":: A\nfirst\n\n:: A\nfirst"
    );
}

#[test]
fn single_passage_has_no_separator() {
    let story = story(vec![passage("A", "first"), passage("B", "second")]);
    assert_eq!(group_to_twee(&names(&["B"]), &story), ":: B\nsecond");
}

#[test]
fn group_finds_a_passage_by_its_key() {
    let mut story = IndexMap::new();
    story.insert("key".to_string(), passage("Shown", "text"));
    assert_eq!(group_to_twee(&names(&["key"]), &story), ":: Shown\ntext");
    assert_eq!(group_to_twee(&names(&["Shown"]), &story), "");
}

#[test]
fn later_passage_of_a_name_replaces_the_earlier() {
    let story = story(vec![
        passage("A", "old"),
        passage("B", "second"),
        passage("A", "new"),
    ]);
    assert_eq!(group_to_twee(&names(&["A"]), &story), ":: A\nnew");
}
