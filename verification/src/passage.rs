//! The passage model: one named unit of story text with its optional tags
//! and canvas metadata, and the summary of it that listings show.

use vstd::prelude::*;

verus! {

/// One named unit of story text.
///
/// `tags` holds whitespace-separated labels; `position` is `"x,y"` and `size`
/// is `"w,h"` on the authoring tool's canvas; `source_line` is the 1-based
/// line of the passage header in the document it came from.
#[derive(Clone, Debug)]
pub struct Passage {
    pub name: String,
    pub tags: Option<String>,
    pub content: String,
    pub source_line: Option<u32>,
    pub position: Option<String>,
    pub size: Option<String>,
}

/// The mathematical value of a [`Passage`].
pub ghost struct PassageView {
    pub name: Seq<char>,
    pub tags: Option<Seq<char>>,
    pub content: Seq<char>,
    pub source_line: Option<u32>,
    pub position: Option<Seq<char>>,
    pub size: Option<Seq<char>>,
}

impl View for Passage {
    type V = PassageView;

    open spec fn view(&self) -> PassageView {
        PassageView {
            name: self.name@,
            tags: self.tags.deep_view(),
            content: self.content@,
            source_line: self.source_line,
            position: self.position.deep_view(),
            size: self.size.deep_view(),
        }
    }
}

impl DeepView for Passage {
    type V = PassageView;

    open spec fn deep_view(&self) -> PassageView {
        self.view()
    }
}

/// What a listing shows of a passage.
#[derive(Clone, Debug)]
pub struct PassageInfo {
    pub name: String,
    pub tags: Option<String>,
    pub content: String,
    pub line: u32,
    pub position: Option<String>,
}

/// The mathematical value of a [`PassageInfo`].
pub ghost struct PassageInfoView {
    pub name: Seq<char>,
    pub tags: Option<Seq<char>>,
    pub content: Seq<char>,
    pub line: u32,
    pub position: Option<Seq<char>>,
}

impl View for PassageInfo {
    type V = PassageInfoView;

    open spec fn view(&self) -> PassageInfoView {
        PassageInfoView {
            name: self.name@,
            tags: self.tags.deep_view(),
            content: self.content@,
            line: self.line,
            position: self.position.deep_view(),
        }
    }
}

impl DeepView for PassageInfo {
    type V = PassageInfoView;

    open spec fn deep_view(&self) -> PassageInfoView {
        self.view()
    }
}

/// What a listing shows of the passage `p`: its name, tags, content and
/// position as they are, and its source line, 0 where none is known.
pub open spec fn info_of(p: PassageView) -> PassageInfoView {
    PassageInfoView {
        name: p.name,
        tags: p.tags,
        content: p.content,
        line: p.source_line.unwrap_or(0),
        position: p.position,
    }
}

impl PassageInfo {
    /// The listing entry of `passage`.
    pub fn of(passage: &Passage) -> (info: PassageInfo)
        ensures
            info@ == info_of(passage@),
    {
        let line: u32 = match passage.source_line {
            Some(line) => line,
            None => 0,
        };
        PassageInfo {
            name: passage.name.clone(),
            tags: passage.tags.clone(),
            content: passage.content.clone(),
            line,
            position: passage.position.clone(),
        }
    }
}

} // verus!
