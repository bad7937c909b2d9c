//! Trusted wrappers around the workbook writer (the `rust_xlsxwriter` crate).
//!
//! A worksheet under construction is modelled by uninterpreted views of
//! what has been put into it: its cells, column widths, column number
//! formats, table regions, filter region, frozen pane and title.  Each
//! wrapper states, over those views, exactly what the wrapped call does
//! according to the crate's source, and that it touches nothing else.

use rust_xlsxwriter::worksheet::Worksheet;
use vstd::prelude::*;

use crate::cell::CellModel;
use crate::date::Civil;
use crate::error::Error;
use crate::row::fold_eq;
use vstd::utf8::is_ascii_chars;

verus! {

#[verifier::external_type_specification]
#[verifier::external_body]
pub struct ExWorksheet(Worksheet);

/// The cells written so far: (row, column) to stored value.
pub uninterp spec fn ws_cells(ws: Worksheet) -> Map<(int, int), CellModel>;

/// The column print widths set so far, in character units.
pub uninterp spec fn ws_widths(ws: Worksheet) -> Map<int, int>;

/// The number-format patterns set for whole columns.
pub uninterp spec fn ws_col_formats(ws: Worksheet) -> Map<int, Seq<char>>;

/// The structured table regions added so far:
/// (first row, first column, last row, last column).
pub uninterp spec fn ws_tables(ws: Worksheet) -> Set<(int, int, int, int)>;

/// Worksheet-level autofilter regions laid outside any table.  A table
/// region carries its own filter dropdowns, and this writer refuses a
/// worksheet autofilter over a table's rectangle, so a document whose
/// only filter is its table's keeps this empty.
pub uninterp spec fn ws_filter(ws: Worksheet) -> Set<(int, int, int, int)>;

/// The frozen pane anchor: empty, or one (row, column) pair; rows above
/// and columns left of the anchor stay visible on scroll.
pub uninterp spec fn ws_frozen(ws: Worksheet) -> Set<(int, int)>;

/// The worksheet's name.
pub uninterp spec fn ws_title(ws: Worksheet) -> Seq<char>;

/// Largest zero-indexed row the document format accepts.
pub const LAST_ROW: u32 = 1048575;

/// Largest zero-indexed column the document format accepts.
pub const LAST_COL: u16 = 16383;

/// Longest cell text the document format accepts, in characters.
pub const MAX_CELL_TEXT: usize = 32767;

/// A character the document format refuses in a sheet name.
pub open spec fn bad_title_char(c: char) -> bool {
    c == '[' || c == ']' || c == ':' || c == '*' || c == '?' || c == '/' || c == '\\'
}

/// A sheet name the document format accepts.
pub open spec fn valid_title(name: Seq<char>) -> bool {
    &&& 1 <= name.len() <= 31
    &&& forall|i: int| 0 <= i < name.len() ==> !bad_title_char(#[trigger] name[i])
    &&& name[0] != '\''
    &&& name[name.len() - 1] != '\''
}

/// A worksheet into which nothing has been put.
pub open spec fn ws_blank(ws: Worksheet) -> bool {
    &&& ws_cells(ws) == Map::<(int, int), CellModel>::empty()
    &&& ws_widths(ws) == Map::<int, int>::empty()
    &&& ws_col_formats(ws) == Map::<int, Seq<char>>::empty()
    &&& ws_tables(ws) == Set::<(int, int, int, int)>::empty()
    &&& ws_filter(ws) == Set::<(int, int, int, int)>::empty()
    &&& ws_frozen(ws) == Set::<(int, int)>::empty()
}

/// Relies on `Worksheet::new`: a fresh worksheet holds nothing.
#[verifier::external_body]
pub(crate) fn ws_new() -> (ws: Worksheet)
    ensures
        ws_blank(ws),
{
    Worksheet::new()
}

/// Relies on `Worksheet::set_name`: names the sheet; a valid name is
/// always accepted, and nothing else changes.
#[verifier::external_body]
pub(crate) fn ws_set_name(ws: &mut Worksheet, name: &str)
    requires
        valid_title(name@),
    ensures
        ws_title(*final(ws)) == name@,
        ws_cells(*final(ws)) == ws_cells(*old(ws)),
        ws_widths(*final(ws)) == ws_widths(*old(ws)),
        ws_col_formats(*final(ws)) == ws_col_formats(*old(ws)),
        ws_tables(*final(ws)) == ws_tables(*old(ws)),
        ws_filter(*final(ws)) == ws_filter(*old(ws)),
        ws_frozen(*final(ws)) == ws_frozen(*old(ws)),
{
    let _ = ws.set_name(name);
}

/// Relies on `Worksheet::write_string`: stores text at (row, col), or
/// refuses exactly the texts longer than the format's limit.  An empty
/// text leaves the stored file untouched, which reads back the same as an
/// empty cell.
#[verifier::external_body]
pub(crate) fn ws_write_text(ws: &mut Worksheet, row: u32, col: u16, s: &str) -> (r: Result<(), Error>)
    requires
        row <= LAST_ROW,
        col <= LAST_COL,
    ensures
        r is Ok <==> s@.len() <= MAX_CELL_TEXT,
        r is Ok ==> ws_cells(*final(ws)) == ws_cells(*old(ws)).insert(
            (row as int, col as int),
            CellModel::Text(s@),
        ),
        r is Err ==> ws_cells(*final(ws)) == ws_cells(*old(ws)),
        r matches Err(e) ==> e is WorkStationError,
        ws_widths(*final(ws)) == ws_widths(*old(ws)),
        ws_col_formats(*final(ws)) == ws_col_formats(*old(ws)),
        ws_tables(*final(ws)) == ws_tables(*old(ws)),
        ws_filter(*final(ws)) == ws_filter(*old(ws)),
        ws_frozen(*final(ws)) == ws_frozen(*old(ws)),
        ws_title(*final(ws)) == ws_title(*old(ws)),
{
    match ws.write_string(row, col, s) {
        Ok(_) => Ok(()),
        Err(e) => Err(Error::WorkStationError(format!("{e}"))),
    }
}

/// Relies on `Worksheet::write_string_with_format`: as [`ws_write_text`],
/// but the cell is styled bold.  The styling is not part of the model.
#[verifier::external_body]
pub(crate) fn ws_write_text_bold(ws: &mut Worksheet, row: u32, col: u16, s: &str) -> (r: Result<
    (),
    Error,
>)
    requires
        row <= LAST_ROW,
        col <= LAST_COL,
    ensures
        r is Ok <==> s@.len() <= MAX_CELL_TEXT,
        r is Ok ==> ws_cells(*final(ws)) == ws_cells(*old(ws)).insert(
            (row as int, col as int),
            CellModel::Text(s@),
        ),
        r is Err ==> ws_cells(*final(ws)) == ws_cells(*old(ws)),
        r matches Err(e) ==> e is WorkStationError,
        ws_widths(*final(ws)) == ws_widths(*old(ws)),
        ws_col_formats(*final(ws)) == ws_col_formats(*old(ws)),
        ws_tables(*final(ws)) == ws_tables(*old(ws)),
        ws_filter(*final(ws)) == ws_filter(*old(ws)),
        ws_frozen(*final(ws)) == ws_frozen(*old(ws)),
        ws_title(*final(ws)) == ws_title(*old(ws)),
{
    let bold = rust_xlsxwriter::Format::new().set_bold();
    match ws.write_string_with_format(row, col, s, &bold) {
        Ok(_) => Ok(()),
        Err(e) => Err(Error::WorkStationError(format!("{e}"))),
    }
}

/// Relies on `ExcelDateTime::from_ymd`/`and_hms` and
/// `Worksheet::write_datetime`: stores the timestamp the civil parts
/// denote as a typed date value (a day-count serial), never as text.
/// Valid parts in the supported years are always accepted.
#[verifier::external_body]
pub(crate) fn ws_write_datetime(ws: &mut Worksheet, row: u32, col: u16, c: Civil)
    requires
        row <= LAST_ROW,
        col <= LAST_COL,
        c.valid(),
    ensures
        ws_cells(*final(ws)) == ws_cells(*old(ws)).insert(
            (row as int, col as int),
            CellModel::Stamp(c.stamp()),
        ),
        ws_widths(*final(ws)) == ws_widths(*old(ws)),
        ws_col_formats(*final(ws)) == ws_col_formats(*old(ws)),
        ws_tables(*final(ws)) == ws_tables(*old(ws)),
        ws_filter(*final(ws)) == ws_filter(*old(ws)),
        ws_frozen(*final(ws)) == ws_frozen(*old(ws)),
        ws_title(*final(ws)) == ws_title(*old(ws)),
{
    let date = rust_xlsxwriter::ExcelDateTime::from_ymd(c.year, c.month, c.day).expect(
        "date parts are valid",
    );
    let dt = date.and_hms(c.hour as u16, c.minute, c.second).expect("time parts are valid");
    let _ = ws.write_datetime(row, col, dt);
}

/// Relies on `Worksheet::set_column_width`: sets one column's print width
/// in character units; an in-range column with a positive width is always
/// accepted.  The view records the requested width; the stored file caps
/// a column's physical width at 255 character units.
#[verifier::external_body]
pub(crate) fn ws_set_column_width(ws: &mut Worksheet, col: u16, width: u32)
    requires
        col <= LAST_COL,
        width >= 1,
    ensures
        ws_widths(*final(ws)) == ws_widths(*old(ws)).insert(col as int, width as int),
        ws_cells(*final(ws)) == ws_cells(*old(ws)),
        ws_col_formats(*final(ws)) == ws_col_formats(*old(ws)),
        ws_tables(*final(ws)) == ws_tables(*old(ws)),
        ws_filter(*final(ws)) == ws_filter(*old(ws)),
        ws_frozen(*final(ws)) == ws_frozen(*old(ws)),
        ws_title(*final(ws)) == ws_title(*old(ws)),
{
    let _ = ws.set_column_width(col, width);
}

/// Relies on `Format::set_num_format` and `Worksheet::set_column_format`:
/// gives a whole column a number-format pattern (here: how the date column
/// displays its serial values).
#[verifier::external_body]
pub(crate) fn ws_set_column_format(ws: &mut Worksheet, col: u16, pattern: &str)
    requires
        col <= LAST_COL,
    ensures
        ws_col_formats(*final(ws)) == ws_col_formats(*old(ws)).insert(col as int, pattern@),
        ws_cells(*final(ws)) == ws_cells(*old(ws)),
        ws_widths(*final(ws)) == ws_widths(*old(ws)),
        ws_tables(*final(ws)) == ws_tables(*old(ws)),
        ws_filter(*final(ws)) == ws_filter(*old(ws)),
        ws_frozen(*final(ws)) == ws_frozen(*old(ws)),
        ws_title(*final(ws)) == ws_title(*old(ws)),
{
    let fmt = rust_xlsxwriter::Format::new().set_num_format(pattern);
    let _ = ws.set_column_format(col, &fmt);
}

/// Two header cells whose texts coincide after case folding.
pub open spec fn headers_fold_clash(a: CellModel, b: CellModel) -> bool {
    &&& a matches CellModel::Text(t1)
    &&& b matches CellModel::Text(t2)
    &&& fold_eq(t1, t2)
}

/// The header cells a table region needs: one written, nonempty ASCII
/// text cell per column, short enough for a cell, and pairwise distinct
/// even after case folding (the writer compares table column names after
/// case folding).
pub open spec fn table_headers_ok(
    cells: Map<(int, int), CellModel>,
    first_row: int,
    first_col: int,
    last_col: int,
) -> bool {
    &&& forall|c: int|
        first_col <= c <= last_col ==> cells.contains_key((first_row, c)) && ((#[trigger] cells[
            (first_row, c)
        ]) matches CellModel::Text(t) && 1 <= t.len() <= MAX_CELL_TEXT && is_ascii_chars(t))
    &&& forall|c1: int, c2: int|
        first_col <= c1 < c2 <= last_col ==> !headers_fold_clash(
            cells[(first_row, c1)],
            cells[(first_row, c2)],
        )
}

/// Relies on `Worksheet::add_table`: marks the rectangle as a structured
/// table (medium banded style) with filter dropdowns over its header,
/// whose column names are the header texts already written on its first
/// row.  The table takes those names over and re-writes them verbatim,
/// so the cells stay as they are.  Under the premises -- in-range, at
/// least one data row, no earlier table or worksheet filter, and header
/// names that stay distinct after case folding -- the writer's checks
/// (dimension and order tests, duplicate folded names, table and filter
/// overlap) all pass, so the call always succeeds.
#[verifier::external_body]
pub(crate) fn ws_add_table(
    ws: &mut Worksheet,
    first_row: u32,
    first_col: u16,
    last_row: u32,
    last_col: u16,
)
    requires
        last_row <= LAST_ROW,
        last_col <= LAST_COL,
        first_row < last_row,
        first_col <= last_col,
        ws_tables(*old(ws)) == Set::<(int, int, int, int)>::empty(),
        ws_filter(*old(ws)) == Set::<(int, int, int, int)>::empty(),
        table_headers_ok(
            ws_cells(*old(ws)),
            first_row as int,
            first_col as int,
            last_col as int,
        ),
    ensures
        ws_tables(*final(ws)) == ws_tables(*old(ws)).insert(
            (first_row as int, first_col as int, last_row as int, last_col as int),
        ),
        ws_cells(*final(ws)) == ws_cells(*old(ws)),
        ws_widths(*final(ws)) == ws_widths(*old(ws)),
        ws_col_formats(*final(ws)) == ws_col_formats(*old(ws)),
        ws_filter(*final(ws)) == ws_filter(*old(ws)),
        ws_frozen(*final(ws)) == ws_frozen(*old(ws)),
        ws_title(*final(ws)) == ws_title(*old(ws)),
{
    let table = rust_xlsxwriter::Table::new().set_style(rust_xlsxwriter::TableStyle::Medium9);
    let _ = ws.add_table(first_row, first_col, last_row, last_col, &table);
}

/// Relies on `Worksheet::set_freeze_panes`: freezes the rows above and the
/// columns left of the anchor cell, replacing any earlier anchor; an
/// in-range anchor is always accepted.
#[verifier::external_body]
pub(crate) fn ws_set_freeze_panes(ws: &mut Worksheet, row: u32, col: u16)
    requires
        row <= LAST_ROW,
        col <= LAST_COL,
    ensures
        ws_frozen(*final(ws)) == set![(row as int, col as int)],
        ws_cells(*final(ws)) == ws_cells(*old(ws)),
        ws_widths(*final(ws)) == ws_widths(*old(ws)),
        ws_col_formats(*final(ws)) == ws_col_formats(*old(ws)),
        ws_tables(*final(ws)) == ws_tables(*old(ws)),
        ws_filter(*final(ws)) == ws_filter(*old(ws)),
        ws_title(*final(ws)) == ws_title(*old(ws)),
{
    let _ = ws.set_freeze_panes(row, col);
}

/// Relies on `Workbook::new`, `Workbook::push_worksheet` and
/// `Workbook::save_to_buffer`: renders a workbook holding this one sheet
/// to document bytes.  The bytes are opaque (they embed the render
/// time); what the sheet holds is stated where it is built.
#[verifier::external_body]
pub(crate) fn save_worksheet(ws: Worksheet) -> (r: Result<Vec<u8>, Error>)
    ensures
        r matches Err(e) ==> e is WorkStationError,
{
    let mut workbook = rust_xlsxwriter::workbook::Workbook::new();
    workbook.push_worksheet(ws);
    match workbook.save_to_buffer() {
        Ok(bytes) => Ok(bytes),
        Err(e) => Err(Error::WorkStationError(format!("{e}"))),
    }
}

} // verus!
