//! Trusted wrappers around the workbook reader (the `calamine` crate).
//!
//! A stored document is opaque bytes; these wrappers hand its cells to the
//! verified codec as plain values.  Nothing is assumed about what a
//! document contains: the codec is verified for every cell value these
//! wrappers can return.

use calamine::{DataType, Reader};
use vstd::prelude::*;

use crate::cell::{Cell, CellRead, date_view, text_view};
use crate::error::Error;

verus! {

#[verifier::external_type_specification]
#[verifier::external_body]
#[verifier::reject_recursive_types(T)]
pub struct ExRange<T>(calamine::Range<T>);

#[verifier::external_type_specification]
#[verifier::external_body]
pub struct ExData(calamine::Data);

/// What a loaded sheet range holds: its used rectangle as rows of read
/// cells, each cell in both of its faces (calendar and text reading).
/// A function of the range alone.
pub uninterp spec fn range_cells(r: calamine::Range<calamine::Data>) -> Seq<Seq<CellRead>>;

/// Whether the bytes open as a workbook; parsing is a function of the
/// bytes alone.
pub uninterp spec fn opens_as_workbook(bytes: Seq<u8>) -> bool;

/// Whether the named sheet loads from the bytes.  A sheet that exists
/// but cannot be loaded counts as absent, exactly as the reader treats
/// it.  A function of the bytes and the name alone.
pub uninterp spec fn sheet_loads(bytes: Seq<u8>, name: Seq<char>) -> bool;

/// The loaded sheet's rectangle of read cells; a function of the bytes
/// and the name alone.
pub uninterp spec fn sheet_grid(bytes: Seq<u8>, name: Seq<char>) -> Seq<Seq<CellRead>>;

/// Relies on `calamine::Xlsx::new` and `Reader::worksheet_range`: opens the
/// bytes of a stored document and looks up the named sheet.  A document
/// that cannot be opened as a workbook is an error; a sheet that is
/// absent -- or fails to load for any other reason -- is `Ok(None)`, a
/// contentless document rather than a malformed one.
#[verifier::external_body]
pub(crate) fn open_worksheet_range(bytes: Vec<u8>, name: &str) -> (r: Result<
    Option<calamine::Range<calamine::Data>>,
    Error,
>)
    ensures
        (r is Err) == !opens_as_workbook(bytes@),
        r matches Err(e) ==> e is CalamaineXlsxError,
        r matches Ok(opt) ==> ((opt is Some) == sheet_loads(bytes@, name@)) && (opt matches Some(
            range,
        ) ==> range_cells(range) == sheet_grid(bytes@, name@)),
{
    let cursor = std::io::Cursor::new(bytes);
    let mut wb: calamine::Xlsx<_> = match calamine::Xlsx::new(cursor) {
        Ok(wb) => wb,
        Err(e) => {
            return Err(Error::CalamaineXlsxError(format!("{e}")));
        },
    };
    match wb.worksheet_range(name) {
        Ok(range) => Ok(Some(range)),
        Err(_) => Ok(None),
    }
}

/// Relies on `calamine::Range::height`: the number of rows in the sheet's
/// used rectangle, header row included.
#[verifier::external_body]
pub(crate) fn range_height(r: &calamine::Range<calamine::Data>) -> (h: usize)
    ensures
        h == range_cells(*r).len(),
{
    r.height()
}

/// Relies on `calamine::Range::width`: the number of columns in the
/// sheet's used rectangle; the rectangle is dense, so every row has this
/// many cells.
#[verifier::external_body]
pub(crate) fn range_width(r: &calamine::Range<calamine::Data>) -> (w: usize)
    ensures
        forall|i: int|
            0 <= i < range_cells(*r).len() ==> (#[trigger] range_cells(*r)[i]).len() == w,
{
    r.width()
}

/// Relies on `calamine::Range::get` and `DataType::as_datetime`: the cell
/// at the given position, read as a calendar value and brought back to
/// unix seconds; `None` when the cell has no calendar reading, or when
/// the position lies outside the rectangle.
#[verifier::external_body]
pub(crate) fn range_cell_date(r: &calamine::Range<calamine::Data>, row: usize, col: usize) -> (d:
    Option<i64>)
    ensures
        row < range_cells(*r).len() && col < range_cells(*r)[row as int].len() ==> date_view(d)
            == range_cells(*r)[row as int][col as int].date,
        !(row < range_cells(*r).len() && col < range_cells(*r)[row as int].len()) ==> d is None,
{
    match r.get((row, col)) {
        Some(d) => match d.as_datetime() {
            Some(ndt) => Some(ndt.and_utc().timestamp()),
            None => None,
        },
        None => None,
    }
}

/// Relies on `calamine::Range::get` and `DataType::as_string`: the cell at
/// the given position read as text; `None` for an empty or unreadable
/// cell, or when the position lies outside the rectangle.
#[verifier::external_body]
pub(crate) fn range_cell_text(r: &calamine::Range<calamine::Data>, row: usize, col: usize) -> (t:
    Option<String>)
    ensures
        row < range_cells(*r).len() && col < range_cells(*r)[row as int].len() ==> text_view(t)
            == range_cells(*r)[row as int][col as int].text,
        !(row < range_cells(*r).len() && col < range_cells(*r)[row as int].len()) ==> t is None,
{
    match r.get((row, col)) {
        Some(d) => d.as_string(),
        None => None,
    }
}

/// Reads one cell in both of its faces.
pub(crate) fn read_cell(r: &calamine::Range<calamine::Data>, row: usize, col: usize) -> (c: Cell)
    ensures
        row < range_cells(*r).len() && col < range_cells(*r)[row as int].len() ==> c@
            =~= range_cells(*r)[row as int][col as int],
{
    Cell { date: range_cell_date(r, row, col), text: range_cell_text(r, row, col) }
}

} // verus!
