//! Splitting a story into files: the groups that a caller asks for, and the
//! file that each of them becomes.

use vstd::prelude::*;
use indexmap::IndexMap;
use crate::passage::{Passage, PassageView};
use crate::serialize::{group_text, group_to_twee};
use crate::story::passage_map;

verus! {

/// A named choice of passages, destined for one file or one archive entry.
/// The names may repeat, and may name passages that the story lacks.
#[derive(Clone, Debug)]
pub struct SplitGroup {
    pub filename: String,
    pub passage_names: Vec<String>,
}

/// The mathematical value of a [`SplitGroup`].
pub ghost struct SplitGroupView {
    pub filename: Seq<char>,
    pub passage_names: Seq<Seq<char>>,
}

impl View for SplitGroup {
    type V = SplitGroupView;

    open spec fn view(&self) -> SplitGroupView {
        SplitGroupView {
            filename: self.filename@,
            passage_names: self.passage_names.deep_view(),
        }
    }
}

impl DeepView for SplitGroup {
    type V = SplitGroupView;

    open spec fn deep_view(&self) -> SplitGroupView {
        self.view()
    }
}

/// A request to split the story at `source_path` into one file for each
/// group, under `output_dir`.
#[derive(Clone, Debug)]
pub struct SplitPlan {
    pub source_path: String,
    pub output_dir: String,
    pub groups: Vec<SplitGroup>,
}

/// A request to split the story at `source_path` into one archive at
/// `zip_path`, with one entry for each group.
#[derive(Clone, Debug)]
pub struct ZipPlan {
    pub source_path: String,
    pub zip_path: String,
    pub groups: Vec<SplitGroup>,
}

/// The counts that a split reports: the groups it handled, and the names
/// that those groups asked for.
#[derive(Clone, Copy, Debug, PartialEq, Eq)]
pub struct SplitResult {
    pub files_written: usize,
    pub total_passages: usize,
}

/// One file of a split: its name and its whole content.
#[derive(Clone, Debug)]
pub struct GroupFile {
    pub filename: String,
    pub content: String,
}

/// The mathematical value of a [`GroupFile`].
pub ghost struct GroupFileView {
    pub filename: Seq<char>,
    pub content: Seq<char>,
}

impl View for GroupFile {
    type V = GroupFileView;

    open spec fn view(&self) -> GroupFileView {
        GroupFileView { filename: self.filename@, content: self.content@ }
    }
}

impl DeepView for GroupFile {
    type V = GroupFileView;

    open spec fn deep_view(&self) -> GroupFileView {
        self.view()
    }
}

/// What a split into files yields: the files to write, in the order of the
/// groups, and the counts to report once they are written.
#[derive(Clone, Debug)]
pub struct SplitExport {
    pub files: Vec<GroupFile>,
    pub result: SplitResult,
}

/// How many names the groups ask for, all groups together: each name counts
/// as often as it is given, whether or not the story has a passage for it.
pub open spec fn names_requested(groups: Seq<SplitGroupView>) -> nat
    decreases groups.len(),
{
    if groups.len() == 0 {
        0
    } else {
        names_requested(groups.drop_last()) + groups.last().passage_names.len()
    }
}

/// The file that a group becomes: named as the group says, holding the
/// group's text.
pub open spec fn group_file(
    group: SplitGroupView,
    passages: Map<Seq<char>, PassageView>,
) -> GroupFileView {
    GroupFileView {
        filename: group.filename,
        content: group_text(group.passage_names, passages),
    }
}

/// The files that the groups become, one for each group and in their order.
pub open spec fn group_files(
    groups: Seq<SplitGroupView>,
    passages: Map<Seq<char>, PassageView>,
) -> Seq<GroupFileView> {
    groups.map_values(|group: SplitGroupView| group_file(group, passages))
}

/// Counts the names that the groups ask for, or finds that the count does
/// not fit the machine's word.
pub fn count_names(groups: &Vec<SplitGroup>) -> (total: Option<usize>)
    ensures
        match total {
            Some(n) => n == names_requested(groups.deep_view()),
            None => names_requested(groups.deep_view()) > usize::MAX,
        },
{
    let ghost all = groups.deep_view();
    let mut total: usize = 0;
    let mut i: usize = 0;
    while i < groups.len()
        invariant
            i <= groups.len(),
            all == groups.deep_view(),
            total == names_requested(all.take(i as int)),
        decreases groups.len() - i,
    {
        proof {
            assert(all.take(i + 1).drop_last() == all.take(i as int));
            assert(all.take(i + 1).last() == groups[i as int]@);
        }
        match total.checked_add(groups[i].passage_names.len()) {
            Some(sum) => {
                total = sum;
            },
            None => {
                proof {
                    names_requested_grows(all.take(i + 1), all);
                }
                return None;
            },
        }
        i += 1;
    }
    proof {
        assert(all.take(i as int) == all);
    }
    Some(total)
}

/// A list of groups asks for at least as many names as any of its
/// beginnings.
pub proof fn names_requested_grows(beginning: Seq<SplitGroupView>, groups: Seq<SplitGroupView>)
    requires
        beginning.len() <= groups.len(),
        beginning == groups.take(beginning.len() as int),
    ensures
        names_requested(beginning) <= names_requested(groups),
    decreases groups.len(),
{
    if beginning.len() < groups.len() {
        assert(groups.drop_last().take(beginning.len() as int) == beginning);
        names_requested_grows(beginning, groups.drop_last());
    } else {
        assert(beginning == groups);
    }
}

/// The counts that a split of `groups` reports: the number of groups, and
/// the number of names that they ask for.
pub fn split_result(groups: &Vec<SplitGroup>) -> (result: SplitResult)
    requires
        names_requested(groups.deep_view()) <= usize::MAX,
    ensures
        result.files_written == groups.len(),
        result.total_passages == names_requested(groups.deep_view()),
{
    let ghost all = groups.deep_view();
    let mut files_written: usize = 0;
    let mut total_passages: usize = 0;
    while files_written < groups.len()
        invariant
            files_written <= groups.len(),
            all == groups.deep_view(),
            names_requested(all) <= usize::MAX,
            total_passages == names_requested(all.take(files_written as int)),
        decreases groups.len() - files_written,
    {
        proof {
            let next = all.take(files_written + 1);
            assert(next.drop_last() == all.take(files_written as int));
            assert(next.last() == groups[files_written as int]@);
            names_requested_grows(next, all);
        }
        total_passages += groups[files_written].passage_names.len();
        files_written += 1;
    }
    proof {
        assert(all.take(files_written as int) == all);
    }
    SplitResult { files_written, total_passages }
}

/// Splits a story into files: one for each group of the plan, in the
/// plan's order, each holding the group's text. Names that the story lacks
/// are passed over in the text and still counted in `total_passages`.
pub fn execute_split(plan: &SplitPlan, passages: &IndexMap<String, Passage>) -> (export:
    SplitExport)
    requires
        names_requested(plan.groups.deep_view()) <= usize::MAX,
    ensures
        export.files.deep_view() == group_files(plan.groups.deep_view(), passage_map(*passages)),
        export.result.files_written == plan.groups.len(),
        export.result.total_passages == names_requested(plan.groups.deep_view()),
{
    let ghost all = plan.groups.deep_view();
    let mut files: Vec<GroupFile> = Vec::new();
    let mut i: usize = 0;
    while i < plan.groups.len()
        invariant
            i <= plan.groups.len(),
            all == plan.groups.deep_view(),
            files.deep_view() == group_files(all.take(i as int), passage_map(*passages)),
        decreases plan.groups.len() - i,
    {
        let group = &plan.groups[i];
        let ghost before = files.deep_view();
        proof {
            assert(all.take(i + 1).drop_last() == all.take(i as int));
            assert(all.take(i + 1).last() == group@);
        }
        let content = group_to_twee(group.passage_names.as_slice(), passages);
        let file = GroupFile { filename: group.filename.clone(), content };
        files.push(file);
        i += 1;
        proof {
            assert(files.deep_view() =~= before.push(file@));
            assert(files.deep_view() =~= group_files(all.take(i as int), passage_map(*passages)));
        }
    }
    proof {
        assert(all.take(i as int) == all);
    }
    SplitExport { files, result: split_result(&plan.groups) }
}

} // verus!
