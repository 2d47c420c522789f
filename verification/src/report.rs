//! The report on a model: a table with one row for each repository and
//! three columns for each branch, as a grid of texts or as a sheet.
use crate::model::{
    BranchDelta, BranchDeltaView, Delta, RepoBranchDeltas, RepoBranchDeltasView, model_views,
};
use crate::text::{decimal, text_views, u32_to_string};
use spsheet::{Cell, Sheet};
use vstd::prelude::*;
use vstd::string::*;

verus! {

/// `spsheet::Sheet`: a sheet of cells. Its inside is not looked at; what it
/// holds goes by [`sheet_cells`].
#[verifier::external_type_specification]
#[verifier::external_body]
pub struct ExSheet(spsheet::Sheet);

/// The texts that a sheet holds, by row and column.
pub uninterp spec fn sheet_cells(sheet: Sheet) -> Map<(usize, usize), Seq<char>>;

/// A sheet without cells.
pub open spec fn no_cells() -> Map<(usize, usize), Seq<char>> {
    Map::empty()
}

/// The extension that `std::path::Path::extension` finds in `path`, if it
/// finds one.
pub uninterp spec fn extension_of(path: Seq<char>) -> Option<Seq<char>>;

/// `spsheet::Sheet::new`: a sheet of that name. The contract claims that it
/// holds no cell.
#[verifier::external_body]
fn new_sheet(name: &str) -> (sheet: Sheet)
    ensures
        sheet_cells(sheet) == no_cells(),
{
    Sheet::new(name)
}

/// `spsheet::Sheet::add_cell` with a cell made by `spsheet::Cell::str`:
/// puts the text at that row and column. The contract claims that the cell
/// there now holds the text, in place of what it held, and that every
/// other cell is as it was.
#[verifier::external_body]
fn sheet_add_text(sheet: &mut Sheet, text: String, row: usize, column: usize)
    ensures
        sheet_cells(*final(sheet)) == sheet_cells(*old(sheet)).insert((row, column), text@),
{
    sheet.add_cell(Cell::str(text), row, column)
}

/// `std::path::Path::extension`: the part of the file name after its last
/// dot, none if the name has no dot or only a leading one. The result
/// depends on the path alone; the contract names it [`extension_of`].
#[verifier::external_body]
fn path_extension(path: &str) -> (r: Option<String>)
    ensures
        match r {
            Some(extension) => extension_of(path@) == Some(extension@),
            None => extension_of(path@) is None,
        },
{
    match std::path::Path::new(path).extension() {
        Some(extension) => match extension.to_str() {
            Some(text) => Some(text.to_string()),
            None => None,
        },
        None => None,
    }
}

/// The file format of a report.
#[derive(Clone, Copy, Debug, PartialEq, Eq, Structural)]
pub enum ReportFormat {
    /// Comma-separated values.
    Csv,
    /// Open Document Format.
    Ods,
    /// MS Excel.
    Xlsx,
}

/// Why no report is written.
#[derive(Clone, Copy, Debug, PartialEq, Eq, Structural)]
pub enum ReportError {
    /// The filter left no repository to report on.
    NothingToReport,
    /// The name of the file does not end in `.csv`, `.ods` or `.xlsx`.
    UnknownFormat,
}

impl ReportError {
    /// The message of the error.
    pub fn message(self) -> (text: String)
        ensures
            text@ == match self {
                ReportError::NothingToReport => "No (unfiltered) repos left to write report about"@,
                ReportError::UnknownFormat =>
                    "Couldn't derive report format from filename. Supported endings are: .csv, .ods, .xlsx"@,
            },
    {
        match self {
            ReportError::NothingToReport => String::from_str(
                "No (unfiltered) repos left to write report about",
            ),
            ReportError::UnknownFormat => String::from_str(
                "Couldn't derive report format from filename. Supported endings are: .csv, .ods, .xlsx",
            ),
        }
    }
}

/// The format that a file with this extension has.
pub open spec fn format_of(extension: Option<Seq<char>>) -> Option<ReportFormat> {
    match extension {
        Some(e) => if e == "csv"@ {
            Some(ReportFormat::Csv)
        } else if e == "ods"@ {
            Some(ReportFormat::Ods)
        } else if e == "xlsx"@ {
            Some(ReportFormat::Xlsx)
        } else {
            None
        },
        None => None,
    }
}

/// The format of a report from the extension of its file.
pub fn format_for(extension: Option<String>) -> (r: Result<ReportFormat, ReportError>)
    ensures
        match r {
            Ok(format) => format_of(views_of(extension)) == Some(format),
            Err(error) => format_of(views_of(extension)) is None && error
                == ReportError::UnknownFormat,
        },
{
    match extension {
        None => Err(ReportError::UnknownFormat),
        Some(e) => {
            if e == String::from_str("csv") {
                Ok(ReportFormat::Csv)
            } else if e == String::from_str("ods") {
                Ok(ReportFormat::Ods)
            } else if e == String::from_str("xlsx") {
                Ok(ReportFormat::Xlsx)
            } else {
                Err(ReportError::UnknownFormat)
            }
        },
    }
}

/// The view of a text that may be missing.
pub open spec fn views_of(text: Option<String>) -> Option<Seq<char>> {
    match text {
        Some(t) => Some(t@),
        None => None,
    }
}

/// The text of a delta in a report.
pub open spec fn delta_text(delta: Delta) -> Seq<char> {
    match delta {
        Delta::ConsolidatedBySameCommit => "HEAD consolidated: points to the same commit as HEAD"@,
        Delta::ConsolidatedByMergeCommit => "HEAD consolidated: contains merge commit from HEAD"@,
        Delta::ConsolidatedByEqualContent =>
            "HEAD consolidated: content same as HEAD (however history differs)"@,
        Delta::NotConsolidatedButFastForwardable =>
            "HEAD not consolidated: can be fast forwarded to HEAD"@,
        Delta::NotConsolidated => "HEAD not consolidated: and not fast forwardable"@,
        Delta::BranchNotFound => "branch not found"@,
    }
}

/// The text of a delta in a report.
pub fn delta_to_string(delta: &Delta) -> (text: String)
    ensures
        text@ == delta_text(*delta),
{
    match delta {
        Delta::ConsolidatedBySameCommit => String::from_str(
            "HEAD consolidated: points to the same commit as HEAD",
        ),
        Delta::ConsolidatedByMergeCommit => String::from_str(
            "HEAD consolidated: contains merge commit from HEAD",
        ),
        Delta::ConsolidatedByEqualContent => String::from_str(
            "HEAD consolidated: content same as HEAD (however history differs)",
        ),
        Delta::NotConsolidatedButFastForwardable => String::from_str(
            "HEAD not consolidated: can be fast forwarded to HEAD",
        ),
        Delta::NotConsolidated => String::from_str(
            "HEAD not consolidated: and not fast forwardable",
        ),
        Delta::BranchNotFound => String::from_str("branch not found"),
    }
}

/// The text of a distance in a report: the count in decimal notation, or
/// the reason why there is none.
pub open spec fn distance_text(distance: Result<u32, Seq<char>>) -> Seq<char> {
    match distance {
        Ok(n) => decimal(n as nat),
        Err(message) => message,
    }
}

/// The text of a distance in a report.
pub fn distance_to_string(distance: &Result<u32, String>) -> (text: String)
    ensures
        text@ == distance_text(crate::model::distance_view(*distance)),
{
    match distance {
        Ok(n) => u32_to_string(*n),
        Err(message) => message.clone(),
    }
}

/// The heading of one of the three columns of a branch.
pub open spec fn heading(branch_name: Seq<char>, column: int) -> Seq<char> {
    if column == 0 {
        branch_name + " Branch: Delta"@
    } else if column == 1 {
        branch_name + " Branch: Distance of HEAD to merge-base"@
    } else {
        branch_name + " Branch: Distance of "@ + branch_name + " to merge-base"@
    }
}

/// The entry of a branch in one of its three columns.
pub open spec fn entry(branch: BranchDeltaView, column: int) -> Seq<char> {
    if column == 0 {
        delta_text(branch.delta)
    } else if column == 1 {
        distance_text(branch.distance_head_to_merge_base)
    } else {
        distance_text(branch.distance_target_to_merge_base)
    }
}

/// The first row of the table: a heading for the path, then three headings
/// for each branch.
pub open spec fn header_row(branches: Seq<BranchDeltaView>) -> Seq<Seq<char>> {
    Seq::new(
        1 + 3 * branches.len(),
        |i: int|
            if i == 0 {
                "Local Path of Repo"@
            } else {
                heading(branches[(i - 1) / 3].branch_name, (i - 1) % 3)
            },
    )
}

/// The row of a repository: its path, then three entries for each branch.
pub open spec fn data_row(repo: RepoBranchDeltasView) -> Seq<Seq<char>> {
    Seq::new(
        1 + 3 * repo.deltas.len(),
        |i: int|
            if i == 0 {
                repo.repo.rel_path
            } else {
                entry(repo.deltas[(i - 1) / 3], (i - 1) % 3)
            },
    )
}

/// The table of a model: the header for the branches of the first
/// repository, then one row for each repository, in order.
pub open spec fn table_of(model: Seq<RepoBranchDeltasView>) -> Seq<Seq<Seq<char>>>
    recommends
        model.len() > 0,
{
    seq![header_row(model[0].deltas)] + model.map(|_i: int, r: RepoBranchDeltasView| data_row(r))
}

/// The views of the rows of a grid of texts.
pub open spec fn grid_views(grid: Seq<Vec<String>>) -> Seq<Seq<Seq<char>>> {
    grid.map(|_i: int, row: Vec<String>| text_views(row@))
}

/// The header row for these branches.
fn header_cells(branches: &Vec<BranchDelta>) -> (row: Vec<String>)
    requires
        1 + 3 * branches.len() <= usize::MAX,
    ensures
        text_views(row@) == header_row(crate::model::branch_views(branches@)),
{
    let ghost views = crate::model::branch_views(branches@);
    let mut row: Vec<String> = Vec::new();
    row.push(String::from_str("Local Path of Repo"));
    let mut j: usize = 0;
    while j < branches.len()
        invariant
            j <= branches.len(),
            views == crate::model::branch_views(branches@),
            row.len() == 1 + 3 * j,
            forall|i: int| 0 <= i < row.len() ==> (#[trigger] row[i])@ == header_row(views)[i],
        decreases branches.len() - j,
    {
        let name = branches[j].branch_name.as_str();
        assert(views[j as int].branch_name == name@);
        let mut first = String::from_str(name);
        first.append(" Branch: Delta");
        let mut second = String::from_str(name);
        second.append(" Branch: Distance of HEAD to merge-base");
        let mut third = String::from_str(name);
        third.append(" Branch: Distance of ");
        third.append(name);
        third.append(" to merge-base");
        row.push(first);
        row.push(second);
        row.push(third);
        j += 1;
    }
    assert(text_views(row@) =~= header_row(views));
    row
}

/// The row of this repository.
fn data_cells(repo: &RepoBranchDeltas) -> (row: Vec<String>)
    requires
        1 + 3 * repo.deltas.len() <= usize::MAX,
    ensures
        text_views(row@) == data_row(repo@),
{
    let ghost views = crate::model::branch_views(repo.deltas@);
    let mut row: Vec<String> = Vec::new();
    row.push(repo.repo.rel_path.clone());
    let mut j: usize = 0;
    while j < repo.deltas.len()
        invariant
            j <= repo.deltas.len(),
            views == crate::model::branch_views(repo.deltas@),
            row.len() == 1 + 3 * j,
            forall|i: int| 0 <= i < row.len() ==> (#[trigger] row[i])@ == data_row(repo@)[i],
        decreases repo.deltas.len() - j,
    {
        let branch = &repo.deltas[j];
        assert(views[j as int] == branch@);
        row.push(delta_to_string(&branch.delta));
        row.push(distance_to_string(&branch.distance_head_to_merge_base));
        row.push(distance_to_string(&branch.distance_target_to_merge_base));
        j += 1;
    }
    assert(text_views(row@) =~= data_row(repo@));
    row
}

/// The table of a model as a grid of texts, row by row. The number of
/// cells of a row must fit the machine.
pub fn model_into_spreadsheet(model: &Vec<RepoBranchDeltas>) -> (table: Vec<Vec<String>>)
    requires
        model.len() > 0,
        model.len() < usize::MAX,
        forall|i: int| 0 <= i < model.len() ==> 1 + 3 * (#[trigger] model[i]).deltas.len()
            <= usize::MAX,
    ensures
        grid_views(table@) == table_of(model_views(model@)),
{
    let mut table: Vec<Vec<String>> = Vec::new();
    table.push(header_cells(&model[0].deltas));
    let mut i: usize = 0;
    while i < model.len()
        invariant
            i <= model.len(),
            model.len() > 0,
            forall|k: int| 0 <= k < model.len() ==> 1 + 3 * (#[trigger] model[k]).deltas.len()
                <= usize::MAX,
            table.len() == 1 + i,
            forall|k: int|
                0 <= k < table.len() ==> text_views((#[trigger] table[k])@) == table_of(
                    model_views(model@),
                )[k],
        decreases model.len() - i,
    {
        table.push(data_cells(&model[i]));
        i += 1;
    }
    assert(grid_views(table@) =~= table_of(model_views(model@)));
    table
}

/// A sheet that is filled cell by cell and row by row.
pub struct OdsXlsxSpreadsheet {
    /// The sheet with the cells added so far.
    pub sheet: Sheet,
    /// The row that the next cell goes to.
    pub current_row: usize,
    /// The column that the next cell goes to.
    pub current_column: usize,
}

/// The cells of a grid of texts, each at its row and column.
pub open spec fn grid_cells(grid: Seq<Seq<Seq<char>>>) -> Map<(usize, usize), Seq<char>> {
    Map::new(
        |k: (usize, usize)| k.0 < grid.len() && k.1 < grid[k.0 as int].len(),
        |k: (usize, usize)| grid[k.0 as int][k.1 as int],
    )
}

impl OdsXlsxSpreadsheet {
    /// An empty sheet; the first cell goes to its first row and column.
    pub fn new() -> (s: OdsXlsxSpreadsheet)
        ensures
            sheet_cells(s.sheet) == no_cells(),
            s.current_row == 0,
            s.current_column == 0,
    {
        OdsXlsxSpreadsheet { sheet: new_sheet("oper-delta report"), current_row: 0, current_column: 0 }
    }

    /// Puts `cell` at the current place and moves on to the next column.
    pub fn add_cell(&mut self, cell: String)
        requires
            old(self).current_column < usize::MAX,
        ensures
            sheet_cells(final(self).sheet) == sheet_cells(old(self).sheet).insert(
                (old(self).current_row, old(self).current_column),
                cell@,
            ),
            final(self).current_row == old(self).current_row,
            final(self).current_column == old(self).current_column + 1,
    {
        sheet_add_text(&mut self.sheet, cell, self.current_row, self.current_column);
        self.current_column += 1;
    }

    /// Moves on to the first column of the next row.
    pub fn finish_row(&mut self)
        requires
            old(self).current_row < usize::MAX,
        ensures
            final(self).sheet == old(self).sheet,
            final(self).current_row == old(self).current_row + 1,
            final(self).current_column == 0,
    {
        self.current_row += 1;
        self.current_column = 0;
    }

    /// A sheet that holds `table`, row by row from its first row and cell
    /// by cell from its first column.
    pub fn from_table(table: Vec<Vec<String>>) -> (s: OdsXlsxSpreadsheet)
        ensures
            sheet_cells(s.sheet) == grid_cells(grid_views(table@)),
            s.current_row == table.len(),
            s.current_column == 0,
    {
        let ghost grid = grid_views(table@);
        let mut s = OdsXlsxSpreadsheet::new();
        let mut i: usize = 0;
        while i < table.len()
            invariant
                i <= table.len(),
                grid == grid_views(table@),
                s.current_row == i,
                s.current_column == 0,
                sheet_cells(s.sheet) == grid_cells(grid.subrange(0, i as int)),
            decreases table.len() - i,
        {
            let row = &table[i];
            let ghost before = sheet_cells(s.sheet);
            let mut j: usize = 0;
            while j < row.len()
                invariant
                    j <= row.len(),
                    i < table.len(),
                    row == &table[i as int],
                    grid == grid_views(table@),
                    s.current_row == i,
                    s.current_column == j,
                    before == grid_cells(grid.subrange(0, i as int)),
                    sheet_cells(s.sheet) == before.union_prefer_right(
                        Map::new(
                            |k: (usize, usize)| k.0 == i && k.1 < j,
                            |k: (usize, usize)| grid[i as int][k.1 as int],
                        ),
                    ),
                decreases row.len() - j,
            {
                let ghost cells = sheet_cells(s.sheet);
                s.add_cell(row[j].clone());
                assert(grid[i as int][j as int] == row[j as int]@);
                assert(sheet_cells(s.sheet) =~= before.union_prefer_right(
                    Map::new(
                        |k: (usize, usize)| k.0 == i && k.1 < j + 1,
                        |k: (usize, usize)| grid[i as int][k.1 as int],
                    ),
                ));
                j += 1;
            }
            s.finish_row();
            assert(sheet_cells(s.sheet) =~= grid_cells(grid.subrange(0, i + 1))) by {
                assert(grid[i as int].len() == row.len());
            }
            i += 1;
        }
        assert(grid.subrange(0, i as int) =~= grid);
        s
    }
}

/// A report, ready to be written to its file.
pub enum Report {
    /// The table, to be written as comma-separated values.
    Csv(Vec<Vec<String>>),
    /// The sheet, to be written in Open Document Format.
    Ods(Sheet),
    /// The sheet, to be written in MS Excel format.
    Xlsx(Sheet),
}

impl Report {
    /// The format of the report.
    pub open spec fn spec_format(&self) -> ReportFormat {
        match self {
            Report::Csv(_) => ReportFormat::Csv,
            Report::Ods(_) => ReportFormat::Ods,
            Report::Xlsx(_) => ReportFormat::Xlsx,
        }
    }

    /// The format of the report.
    #[verifier::when_used_as_spec(spec_format)]
    pub fn format(&self) -> (f: ReportFormat)
        ensures
            f == self.spec_format(),
    {
        match self {
            Report::Csv(_) => ReportFormat::Csv,
            Report::Ods(_) => ReportFormat::Ods,
            Report::Xlsx(_) => ReportFormat::Xlsx,
        }
    }

    /// The report holds `table`: as its rows, or as the cells of its sheet.
    pub open spec fn holds(&self, table: Seq<Seq<Seq<char>>>) -> bool {
        match self {
            Report::Csv(grid) => grid_views(grid@) == table,
            Report::Ods(sheet) => sheet_cells(*sheet) == grid_cells(table),
            Report::Xlsx(sheet) => sheet_cells(*sheet) == grid_cells(table),
        }
    }
}

/// The report on `model` in the format of `format`.
pub fn report_in(model: &Vec<RepoBranchDeltas>, format: ReportFormat) -> (report: Report)
    requires
        model.len() > 0,
        model.len() < usize::MAX,
        forall|i: int| 0 <= i < model.len() ==> 1 + 3 * (#[trigger] model[i]).deltas.len()
            <= usize::MAX,
    ensures
        report.spec_format() == format,
        report.holds(table_of(model_views(model@))),
{
    let table = model_into_spreadsheet(model);
    match format {
        ReportFormat::Csv => Report::Csv(table),
        ReportFormat::Ods => Report::Ods(OdsXlsxSpreadsheet::from_table(table).sheet),
        ReportFormat::Xlsx => Report::Xlsx(OdsXlsxSpreadsheet::from_table(table).sheet),
    }
}

/// The report on `model` for the file `output_file_path`, in the format
/// that the extension of the file asks for. An empty model gives no
/// report, nor does a file whose extension names no format.
pub fn generate(model: &Vec<RepoBranchDeltas>, output_file_path: &str) -> (r: Result<
    Report,
    ReportError,
>)
    requires
        model.len() < usize::MAX,
        forall|i: int| 0 <= i < model.len() ==> 1 + 3 * (#[trigger] model[i]).deltas.len()
            <= usize::MAX,
    ensures
        match r {
            Ok(report) => model.len() > 0 && format_of(extension_of(output_file_path@)) == Some(
                report.spec_format(),
            ) && report.holds(table_of(model_views(model@))),
            Err(error) => if model.len() == 0 {
                error == ReportError::NothingToReport
            } else {
                error == ReportError::UnknownFormat && format_of(extension_of(output_file_path@))
                    is None
            },
        },
{
    if model.len() == 0 {
        return Err(ReportError::NothingToReport);
    }
    match format_for(path_extension(output_file_path)) {
        Ok(format) => Ok(report_in(model, format)),
        Err(error) => Err(error),
    }
}

/// The words for a format in the message that a report was written.
pub open spec fn format_words(format: ReportFormat) -> Seq<char> {
    match format {
        ReportFormat::Csv => "as comma-separated-values"@,
        ReportFormat::Ods => "in Open Document Format"@,
        ReportFormat::Xlsx => "in MS Excel format"@,
    }
}

/// The message that a report on `records` repositories was written to
/// `output_file_path`.
pub fn written_message(format: ReportFormat, records: usize, output_file_path: &str) -> (text:
    String)
    ensures
        text@ == "Wrote "@ + decimal(records as nat) + " records "@ + format_words(format)
            + " to "@ + output_file_path@,
{
    let mut text = String::from_str("Wrote ");
    text.append(crate::text::u64_to_string(records as u64).as_str());
    text.append(" records ");
    match format {
        ReportFormat::Csv => text.append("as comma-separated-values"),
        ReportFormat::Ods => text.append("in Open Document Format"),
        ReportFormat::Xlsx => text.append("in MS Excel format"),
    }
    text.append(" to ");
    text.append(output_file_path);
    text
}

} // verus!
