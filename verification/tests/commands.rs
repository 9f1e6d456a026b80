use indexmap::IndexMap;
use twee_split::commands::{open_twee, passage_to_preview, preview_passage};
use twee_split::passage::{Passage, PassageInfo};
use twee_split::serialize::passage_to_twee;

fn full_passage() -> Passage {
    Passage {
        name: "Start".to_string(),
        tags: Some("intro".to_string()),
        content: "Hello\nworld".to_string(),
        source_line: Some(7),
        position: Some("10,20".to_string()),
        size: Some("30,40".to_string()),
    }
}

fn bare_passage(name: &str) -> Passage {
    Passage {
        name: name.to_string(),
        tags: None,
        content: format!("text of {}", name),
        source_line: None,
        position: None,
        size: None,
    }
}

fn small_story() -> IndexMap<String, Passage> {
    let mut story = IndexMap::new();
    story.insert("Start".to_string(), full_passage());
    story.insert("Zed".to_string(), bare_passage("Zed"));
    story.insert("Alpha".to_string(), bare_passage("Alpha"));
    story
}

#[test]
fn listing_keeps_the_story_order() {
    let list = open_twee(&small_story());
    let names: Vec<&str> = list.iter().map(|info| info.name.as_str()).collect();
    assert_eq!(names, vec!["Start", "Zed", "Alpha"]);
}

#[test]
fn listing_copies_the_fields() {
    let list = open_twee(&small_story());
    assert_eq!(list.len(), 3);
    assert_eq!(list[0].name, "Start");
    assert_eq!(list[0].tags, Some("intro".to_string()));
    assert_eq!(list[0].content, "Hello\nworld");
    assert_eq!(list[0].line, 7);
    assert_eq!(list[0].position, Some("10,20".to_string()));
}

#[test]
fn listing_shows_line_zero_where_none_is_known() {
    let list = open_twee(&small_story());
    assert_eq!(list[1].line, 0);
    assert_eq!(list[1].tags, None);
    assert_eq!(list[1].position, None);
}

#[test]
fn listing_of_an_empty_story_is_empty() {
    assert!(open_twee(&IndexMap::new()).is_empty());
}

#[test]
fn info_of_a_passage() {
    let info = PassageInfo::of(&full_passage());
    assert_eq!(info.name, "Start");
    assert_eq!(info.line, 7);
    let info = PassageInfo::of(&bare_passage("B"));
    assert_eq!(info.content, "text of B");
    assert_eq!(info.line, 0);
}

#[test]
fn preview_is_the_twee_text() {
    let story = small_story();
    assert_eq!(
        preview_passage(&story, "Start"),
        Ok(":: Start [intro] {\"position\":\"10,20\",\"size\":\"30,40\"}\nHello\nworld".to_string())
    );
    assert_eq!(
        passage_to_preview(&full_passage()),
        passage_to_twee(&full_passage())
    );
}

#[test]
fn preview_of_an_unknown_name_is_an_error() {
    let story = small_story();
    assert_eq!(
        preview_passage(&story, "Nowhere"),
        Err("Passage 'Nowhere' not found".to_string())
    );
    assert_eq!(
        preview_passage(&IndexMap::new(), ""),
        Err("Passage '' not found".to_string())
    );
}
