//! What the presentation shows of a result: the lines of the detail pane
//! and the text of the status bar.
use crate::model::{
    branch_views, distance_view, BranchDeltaView, Delta, RepoBranchDeltas, RepoBranchDeltasView,
};
use crate::report::{delta_text, delta_to_string};
use crate::text::{decimal, i64_to_string, pad, padded, signed_decimal, u32_to_string, u64_to_string};
use vstd::prelude::*;
use vstd::string::*;

verus! {

/// The colour of a line.
#[derive(Clone, Copy, Debug, PartialEq, Eq, Structural)]
pub enum Tone {
    /// The colour of the surrounding text.
    Plain,
    White,
    Green,
    Yellow,
    Red,
    Blue,
}

/// A line of text and its colour.
#[derive(Debug)]
pub struct Line {
    pub text: String,
    pub tone: Tone,
}

/// The mathematical value of a [`Line`].
pub struct LineView {
    pub text: Seq<char>,
    pub tone: Tone,
}

impl View for Line {
    type V = LineView;

    open spec fn view(&self) -> LineView {
        LineView { text: self.text@, tone: self.tone }
    }
}

/// The mathematical values of a sequence of lines.
pub open spec fn line_views(lines: Seq<Line>) -> Seq<LineView> {
    lines.map(|_i: int, l: Line| l@)
}

/// The colour in which a delta is shown: green for every kind of
/// consolidation, yellow where a fast-forward is possible, red where
/// nothing helps, blue for a missing branch.
pub open spec fn tone_of(delta: Delta) -> Tone {
    match delta {
        Delta::ConsolidatedBySameCommit => Tone::Green,
        Delta::ConsolidatedByMergeCommit => Tone::Green,
        Delta::ConsolidatedByEqualContent => Tone::Green,
        Delta::NotConsolidatedButFastForwardable => Tone::Yellow,
        Delta::NotConsolidated => Tone::Red,
        Delta::BranchNotFound => Tone::Blue,
    }
}

/// The colour in which a delta is shown.
pub fn delta_to_color(delta: &Delta) -> (tone: Tone)
    ensures
        tone == tone_of(*delta),
{
    match delta {
        Delta::ConsolidatedBySameCommit => Tone::Green,
        Delta::ConsolidatedByMergeCommit => Tone::Green,
        Delta::ConsolidatedByEqualContent => Tone::Green,
        Delta::NotConsolidatedButFastForwardable => Tone::Yellow,
        Delta::NotConsolidated => Tone::Red,
        Delta::BranchNotFound => Tone::Blue,
    }
}

/// A distance in words: the number of commits, or the reason why there is
/// no number.
pub open spec fn commits_text(distance: Result<u32, Seq<char>>) -> Seq<char> {
    match distance {
        Ok(n) => decimal(n as nat) + " commits"@,
        Err(message) => message,
    }
}

/// A distance in words.
pub fn commits_to_string(distance: &Result<u32, String>) -> (text: String)
    ensures
        text@ == commits_text(distance_view(*distance)),
{
    match distance {
        Ok(n) => {
            let mut text = u32_to_string(*n);
            text.append(" commits");
            text
        },
        Err(message) => message.clone(),
    }
}

/// A line in the colour of the surrounding text.
pub open spec fn plain(text: Seq<char>) -> LineView {
    LineView { text, tone: Tone::Plain }
}

/// A white line.
pub open spec fn white(text: Seq<char>) -> LineView {
    LineView { text, tone: Tone::White }
}

/// The lines above the summary: the repository and the head of the table.
pub open spec fn summary_head(rel_path: Seq<char>) -> Seq<LineView> {
    seq![
        white(padded("git repo"@, 30) + " "@ + rel_path),
        plain(Seq::empty()),
        white("Summary:"@),
        plain(Seq::empty()),
        white(padded("Target Branch"@, 30) + "   "@ + "Delta"@),
        white("===============================|=================================="@),
    ]
}

/// The line of a branch in the summary: its name and its delta, in the
/// colour of the delta.
pub open spec fn summary_line(branch: BranchDeltaView) -> LineView {
    LineView {
        text: padded(branch.branch_name, 30) + "   "@ + delta_text(branch.delta),
        tone: tone_of(branch.delta),
    }
}

/// The lines between the summary and the details.
pub open spec fn details_head() -> Seq<LineView> {
    seq![plain(Seq::empty()), white("Details:"@), plain(Seq::empty())]
}

/// The lines of a branch in the details: its name, its delta and the two
/// distances. A branch that was not found has none.
pub open spec fn detail_block(branch: BranchDeltaView) -> Seq<LineView> {
    if branch.delta == Delta::BranchNotFound {
        Seq::empty()
    } else {
        seq![
            white(branch.branch_name),
            white("==============================="@),
            LineView { text: delta_text(branch.delta), tone: tone_of(branch.delta) },
            plain("Distance from merge-base:"@),
            plain("  HEAD: "@ + commits_text(branch.distance_head_to_merge_base)),
            plain(
                "  "@ + branch.branch_name + ": "@ + commits_text(
                    branch.distance_target_to_merge_base,
                ),
            ),
            plain(Seq::empty()),
        ]
    }
}

/// The detail blocks of a sequence of branches, one after the other.
pub open spec fn detail_blocks(branches: Seq<BranchDeltaView>) -> Seq<LineView>
    decreases branches.len(),
{
    if branches.len() == 0 {
        Seq::empty()
    } else {
        detail_blocks(branches.drop_last()) + detail_block(branches.last())
    }
}

/// Everything the detail pane shows of a repository: the summary with one
/// line for each branch, then the details of each branch that was found.
pub open spec fn detail_lines(repo: RepoBranchDeltasView) -> Seq<LineView> {
    summary_head(repo.repo.rel_path) + repo.deltas.map(
        |_i: int, b: BranchDeltaView| summary_line(b),
    ) + details_head() + detail_blocks(repo.deltas)
}

/// A line of that text and colour.
fn line(text: String, tone: Tone) -> (l: Line)
    ensures
        l@ == (LineView { text: text@, tone }),
{
    Line { text, tone }
}

/// The lines that the detail pane shows of a repository.
pub fn set_repo_deltas(repo_deltas: &RepoBranchDeltas) -> (lines: Vec<Line>)
    ensures
        line_views(lines@) == detail_lines(repo_deltas@),
{
    let ghost branches = branch_views(repo_deltas.deltas@);
    let mut lines: Vec<Line> = Vec::new();

    let mut title = pad("git repo", 30);
    title.append(" ");
    title.append(repo_deltas.repo.rel_path.as_str());
    lines.push(line(title, Tone::White));
    lines.push(line(String::new(), Tone::Plain));
    lines.push(line(String::from_str("Summary:"), Tone::White));
    lines.push(line(String::new(), Tone::Plain));
    let mut head = pad("Target Branch", 30);
    head.append("   ");
    head.append("Delta");
    lines.push(line(head, Tone::White));
    lines.push(
        line(
            String::from_str("===============================|=================================="),
            Tone::White,
        ),
    );
    assert(line_views(lines@) =~= summary_head(repo_deltas@.repo.rel_path));

    let mut i: usize = 0;
    while i < repo_deltas.deltas.len()
        invariant
            i <= repo_deltas.deltas.len(),
            branches == branch_views(repo_deltas.deltas@),
            line_views(lines@) == summary_head(repo_deltas@.repo.rel_path) + branches.subrange(
                0,
                i as int,
            ).map(|_i: int, b: BranchDeltaView| summary_line(b)),
        decreases repo_deltas.deltas.len() - i,
    {
        let branch = &repo_deltas.deltas[i];
        assert(branches[i as int] == branch@);
        let mut text = pad(branch.branch_name.as_str(), 30);
        text.append("   ");
        text.append(delta_to_string(&branch.delta).as_str());
        let ghost before = line_views(lines@);
        lines.push(line(text, delta_to_color(&branch.delta)));
        assert(line_views(lines@) =~= before.push(summary_line(branches[i as int])));
        assert(branches.subrange(0, i + 1).map(|_i: int, b: BranchDeltaView| summary_line(b))
            =~= branches.subrange(0, i as int).map(
            |_i: int, b: BranchDeltaView| summary_line(b),
        ).push(summary_line(branches[i as int])));
        i += 1;
    }
    assert(branches.subrange(0, i as int) =~= branches);
    let ghost summary = line_views(lines@);

    lines.push(line(String::new(), Tone::Plain));
    lines.push(line(String::from_str("Details:"), Tone::White));
    lines.push(line(String::new(), Tone::Plain));
    assert(line_views(lines@) =~= summary + details_head());

    let mut i: usize = 0;
    while i < repo_deltas.deltas.len()
        invariant
            i <= repo_deltas.deltas.len(),
            branches == branch_views(repo_deltas.deltas@),
            line_views(lines@) == summary + details_head() + detail_blocks(
                branches.subrange(0, i as int),
            ),
        decreases repo_deltas.deltas.len() - i,
    {
        let branch = &repo_deltas.deltas[i];
        proof {
            assert(branches[i as int] == branch@);
            assert(branches.subrange(0, i + 1).drop_last() =~= branches.subrange(0, i as int));
            assert(branches.subrange(0, i + 1).last() == branches[i as int]);
        }
        let ghost before = line_views(lines@);
        if branch.delta != Delta::BranchNotFound {
            let name = branch.branch_name.as_str();
            lines.push(line(String::from_str(name), Tone::White));
            lines.push(line(String::from_str("==============================="), Tone::White));
            lines.push(line(delta_to_string(&branch.delta), delta_to_color(&branch.delta)));
            lines.push(line(String::from_str("Distance from merge-base:"), Tone::Plain));
            let mut head_text = String::from_str("  HEAD: ");
            head_text.append(commits_to_string(&branch.distance_head_to_merge_base).as_str());
            lines.push(line(head_text, Tone::Plain));
            let mut target_text = String::from_str("  ");
            target_text.append(name);
            target_text.append(": ");
            target_text.append(commits_to_string(&branch.distance_target_to_merge_base).as_str());
            lines.push(line(target_text, Tone::Plain));
            lines.push(line(String::new(), Tone::Plain));
            assert(line_views(lines@) =~= before + detail_block(branches[i as int]));
        } else {
            assert(line_views(lines@) =~= before + detail_block(branches[i as int]));
        }
        i += 1;
    }
    assert(branches.subrange(0, i as int) =~= branches);
    lines
}

/// The text of the status bar for the repository at `index` of `filtered`
/// repositories that are shown, of `total` that were scanned. Repositories
/// are counted from one; the index of no repository is -1.
pub fn status_bar_text(index: i32, filtered: usize, total: usize) -> (text: String)
    ensures
        text@ == "Repo "@ + signed_decimal(index + 1) + " of "@ + decimal(filtered as nat)
            + " (unfiltered: "@ + decimal(total as nat) + ")"@,
{
    let mut text = String::from_str("Repo ");
    text.append(i64_to_string(index as i64 + 1).as_str());
    text.append(" of ");
    text.append(u64_to_string(filtered as u64).as_str());
    text.append(" (unfiltered: ");
    text.append(u64_to_string(total as u64).as_str());
    text.append(")");
    text
}

/// The text of the status bar for an error: what was tried, and the error.
pub fn error_text(context: &str, error: &str) -> (text: String)
    ensures
        text@ == context@ + ": "@ + error@,
{
    let mut text = String::from_str(context);
    text.append(": ");
    text.append(error);
    text
}

/// Whether list and details stand side by side: on a screen that is at
/// least three times as wide as it is high. On any other screen the
/// details stand below the list.
pub fn landscape_format(width: usize, height: usize) -> (r: bool)
    requires
        height > 0,
    ensures
        r == (width >= 3 * height),
{
    width / 3 >= height
}

/// The width or height of the detail pane on a screen of that width or
/// height: one less than half of it.
pub fn detail_pane_extent(screen_extent: usize) -> (extent: usize)
    requires
        screen_extent >= 2,
    ensures
        extent == screen_extent / 2 - 1,
{
    screen_extent / 2 - 1
}

} // verus!
