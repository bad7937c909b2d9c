//! The document codec: reads a stored document into records and renders a
//! record list back into a document with header row, typed date column,
//! sized columns, table and filter regions, and a frozen header.

use rust_xlsxwriter::worksheet::Worksheet;
use vstd::prelude::*;

use crate::cell::{Cell, CellModel, read_back};
use crate::date::unix_to_civil;
use crate::error::Error;
use crate::cell::CellRead;
use crate::reader::{
    open_worksheet_range, opens_as_workbook, range_cells, range_height, range_width, read_cell,
    sheet_grid, sheet_loads,
};
use crate::row::{
    COLUMN_COUNT, DATE_COLUMN, Row, RowModel, TEXT_COLUMN_COUNT, cells_read, from_cells, labels_wf,
    parse_row_spec, row_cells, slot_column, slot_to_index,
};
use crate::sheet::{
    LAST_ROW, MAX_CELL_TEXT, bad_title_char, table_headers_ok, valid_title, ws_add_table,
    ws_blank, ws_cells, ws_col_formats, ws_filter, ws_frozen, ws_new, ws_set_column_format,
    ws_set_column_width, ws_set_freeze_panes, ws_set_name, ws_tables, ws_title, ws_widths,
    ws_write_datetime, ws_write_text, ws_write_text_bold,
};
use vstd::string::StrSliceExecFns;

verus! {

/// The fixed name of the one sheet every log document uses.
pub open spec fn sheet_title() -> Seq<char> {
    "Logons"@
}

pub proof fn lemma_sheet_title_valid()
    ensures
        valid_title(sheet_title()),
{
    reveal_strlit("Logons");
    assert(sheet_title().len() == 6);
    assert(forall|i: int| 0 <= i < 6 ==> !bad_title_char(#[trigger] sheet_title()[i]));
    assert(sheet_title()[0] != '\'' && sheet_title()[5] != '\'');
}

/// The fixed sheet name as a value.
pub fn worksheet_name() -> (r: &'static str)
    ensures
        r@ == sheet_title(),
        valid_title(sheet_title()),
{
    proof {
        lemma_sheet_title_valid();
    }
    "Logons"
}

/// The fixed display pattern of the date column: four-digit year, month,
/// day, then twelve-hour time with meridiem marker.
pub open spec fn date_pattern() -> Seq<char> {
    "yyyy/mm/dd hh:mm AM/PM"@
}

/// The date display pattern as a value.
pub fn date_format_pattern() -> (r: &'static str)
    ensures
        r@ == date_pattern(),
{
    "yyyy/mm/dd hh:mm AM/PM"
}

/// No table, filter or frozen-pane regions.
pub open spec fn no_regions() -> Set<(int, int, int, int)> {
    Set::empty()
}

/// The label sequences of a label vector.
pub open spec fn label_views(ls: Seq<&'static str>) -> Seq<Seq<char>> {
    ls.map_values(|s: &'static str| s@)
}

/// Every text of every record fits in one document cell.
pub open spec fn texts_fit(rows: Seq<Row>) -> bool {
    forall|i: int| 0 <= i < rows.len() ==> row_fits(#[trigger] rows[i]@)
}

/// Every text of one record fits in one document cell.
pub open spec fn row_fits(m: RowModel) -> bool {
    forall|j: int| 0 <= j < TEXT_COLUMN_COUNT ==> (#[trigger] m.texts[j]).len() <= MAX_CELL_TEXT
}

/// The widest content of one text slot among the header label and the
/// first `n` records.
pub open spec fn max_content_width(
    labels: Seq<Seq<char>>,
    rows: Seq<Row>,
    slot: int,
    n: int,
) -> int
    decreases n,
{
    if n <= 0 {
        labels[slot_column(slot)].len() as int
    } else {
        let prev = max_content_width(labels, rows, slot, n - 1);
        let cur = rows[n - 1]@.texts[slot].len() as int;
        if cur > prev {
            cur
        } else {
            prev
        }
    }
}

/// The print width given to one text column: the widest content plus a
/// fixed padding of two units.  Content beyond the format's width limit
/// is clamped; the date column's width is not data-driven and is not
/// set.  This is the requested width: the stored file further caps a
/// column's physical width at 255 character units.
pub open spec fn column_width(labels: Seq<Seq<char>>, rows: Seq<Row>, slot: int) -> int {
    let w = max_content_width(labels, rows, slot, rows.len() as int);
    (if w > 65533 {
        65533int
    } else {
        w
    }) + 2
}

/// The widths set on the document: one entry per text column.
pub open spec fn width_map(labels: Seq<Seq<char>>, rows: Seq<Row>) -> Map<int, int> {
    Map::new(
        |c: int| 0 <= c < COLUMN_COUNT && c != DATE_COLUMN,
        |c: int| column_width(labels, rows, slot_to_index(c)),
    )
}

/// The cells of a document holding the header row and the first `n`
/// records, each record `i` on row `i + 1` in list order.
pub open spec fn document_cells_upto(labels: Seq<Seq<char>>, rows: Seq<Row>, n: int) -> Map<
    (int, int),
    CellModel,
> {
    Map::new(
        |k: (int, int)| 0 <= k.1 < COLUMN_COUNT && 0 <= k.0 <= n,
        |k: (int, int)|
            if k.0 == 0 {
                CellModel::Text(labels[k.1])
            } else {
                row_cells(rows[k.0 - 1]@)[k.1]
            },
    )
}

/// The cells of the finished document: header row plus all records.
pub open spec fn document_cells(labels: Seq<Seq<char>>, rows: Seq<Row>) -> Map<
    (int, int),
    CellModel,
> {
    document_cells_upto(labels, rows, rows.len() as int)
}

/// The header cells alone, for the first `n` columns.
pub open spec fn header_cells_upto(labels: Seq<Seq<char>>, n: int) -> Map<(int, int), CellModel> {
    Map::new(
        |k: (int, int)| k.0 == 0 && 0 <= k.1 < n,
        |k: (int, int)| CellModel::Text(labels[k.1]),
    )
}

/// One record's cells on document row `ri`, for the first `n` columns.
pub open spec fn row_cells_upto(ri: int, m: RowModel, n: int) -> Map<(int, int), CellModel> {
    Map::new(|k: (int, int)| k.0 == ri && 0 <= k.1 < n, |k: (int, int)| row_cells(m)[k.1])
}

/// Computes the print width of one text column slot: the widest of the
/// header label and every record's value in that slot, clamped to the
/// format's limit, plus the fixed padding of two units.
pub fn column_content_width(labels: &Vec<&'static str>, rows: &Vec<Row>, slot: usize) -> (w:
    usize)
    requires
        labels@.len() == COLUMN_COUNT,
        slot < TEXT_COLUMN_COUNT,
        forall|i: int| 0 <= i < rows@.len() ==> (#[trigger] rows@[i])@.wf(),
    ensures
        w == column_width(label_views(labels@), rows@, slot as int),
        1 <= w <= 65535,
{
    let ghost ls = label_views(labels@);
    let col: usize = if slot < DATE_COLUMN {
        slot
    } else {
        slot + 1
    };
    proof {
        assert(ls[col as int] == labels@[col as int]@);
    }
    let mut w: usize = labels[col].unicode_len();
    let mut j: usize = 0;
    while j < rows.len()
        invariant
            j <= rows@.len(),
            slot < TEXT_COLUMN_COUNT,
            col == slot_column(slot as int),
            labels@.len() == COLUMN_COUNT,
            ls == label_views(labels@),
            forall|i: int| 0 <= i < rows@.len() ==> (#[trigger] rows@[i])@.wf(),
            w == max_content_width(ls, rows@, slot as int, j as int),
        decreases rows@.len() - j,
    {
        let l = rows[j].texts[slot].as_str().unicode_len();
        if l > w {
            w = l;
        }
        j = j + 1;
    }
    let capped: usize = if w > 65533 {
        65533
    } else {
        w
    };
    capped + 2
}

/// Writes one record's thirteen cells onto document row `ri`: the twelve
/// texts as plain text cells and the timestamp through the typed date
/// path.  Refuses exactly the records with a text too long for a cell;
/// nothing but cells is touched either way.
pub fn write_row(ws: &mut Worksheet, ri: u32, row: &Row) -> (r: Result<(), Error>)
    requires
        ri <= LAST_ROW,
        row@.wf(),
    ensures
        r is Ok <==> row_fits(row@),
        r is Ok ==> ws_cells(*final(ws)) =~= ws_cells(*old(ws)).union_prefer_right(
            row_cells_upto(ri as int, row@, COLUMN_COUNT as int),
        ),
        r matches Err(e) ==> e is WorkStationError,
        ws_widths(*final(ws)) == ws_widths(*old(ws)),
        ws_col_formats(*final(ws)) == ws_col_formats(*old(ws)),
        ws_tables(*final(ws)) == ws_tables(*old(ws)),
        ws_filter(*final(ws)) == ws_filter(*old(ws)),
        ws_frozen(*final(ws)) == ws_frozen(*old(ws)),
        ws_title(*final(ws)) == ws_title(*old(ws)),
{
    let ghost m = row@;
    let mut c: usize = 0;
    while c < COLUMN_COUNT
        invariant
            c <= COLUMN_COUNT,
            ri <= LAST_ROW,
            row@ == m,
            m.wf(),
            forall|j: int| 0 <= j < c && j != DATE_COLUMN ==> m.texts[slot_to_index(j)].len() <= MAX_CELL_TEXT,
            ws_cells(*ws) =~= ws_cells(*old(ws)).union_prefer_right(
                row_cells_upto(ri as int, m, c as int),
            ),
            ws_widths(*ws) == ws_widths(*old(ws)),
            ws_col_formats(*ws) == ws_col_formats(*old(ws)),
            ws_tables(*ws) == ws_tables(*old(ws)),
            ws_filter(*ws) == ws_filter(*old(ws)),
            ws_frozen(*ws) == ws_frozen(*old(ws)),
            ws_title(*ws) == ws_title(*old(ws)),
        decreases COLUMN_COUNT - c,
    {
        if c == DATE_COLUMN {
            let civil = unix_to_civil(row.date_time);
            ws_write_datetime(ws, ri, c as u16, civil);
            proof {
                assert(row_cells(m)[c as int] == CellModel::Stamp(m.date_time));
            }
        } else {
            let slot: usize = if c < DATE_COLUMN {
                c
            } else {
                c - 1
            };
            match ws_write_text(ws, ri, c as u16, row.texts[slot].as_str()) {
                Ok(_) => {
                    proof {
                        assert(row_cells(m)[c as int] == CellModel::Text(m.texts[slot as int]));
                    }
                },
                Err(e) => {
                    proof {
                        assert(m.texts[slot as int].len() > MAX_CELL_TEXT);
                        assert(!row_fits(m));
                    }
                    return Err(e);
                },
            }
        }
        proof {
            assert(ws_cells(*ws) =~= ws_cells(*old(ws)).union_prefer_right(
                row_cells_upto(ri as int, m, c as int + 1),
            ));
        }
        c = c + 1;
    }
    proof {
        assert forall|j: int| 0 <= j < TEXT_COLUMN_COUNT implies (#[trigger] m.texts[j]).len()
            <= MAX_CELL_TEXT by {
            assert(m.texts[slot_to_index(slot_column(j))].len() <= MAX_CELL_TEXT);
        }
    }
    Ok(())
}

/// Renders the whole document model onto a blank sheet: the named sheet
/// holds the bold header row, the date column format, one row per record
/// in list order, data-driven text column widths, and a frozen header;
/// when at least one record is present, a table region with filter
/// dropdowns spans the header and data rectangle, and with zero records
/// no table exists.
/// Succeeds if and only if the record list fits the format's limits: at
/// most the format's row count, every text short enough for a cell.
pub fn fill_worksheet(ws: &mut Worksheet, labels: &Vec<&'static str>, rows: &Vec<Row>) -> (r:
    Result<(), Error>)
    requires
        ws_blank(*old(ws)),
        labels@.len() == COLUMN_COUNT,
        labels_wf(label_views(labels@)),
        forall|i: int| 0 <= i < rows@.len() ==> (#[trigger] rows@[i])@.wf(),
    ensures
        r is Ok ==> ws_cells(*final(ws)) == document_cells(label_views(labels@), rows@),
        r is Ok ==> ws_widths(*final(ws)) == width_map(label_views(labels@), rows@),
        r is Ok ==> ws_col_formats(*final(ws)) == Map::empty().insert(
            DATE_COLUMN as int,
            date_pattern(),
        ),
        r is Ok ==> ws_title(*final(ws)) == sheet_title(),
        r is Ok ==> ws_frozen(*final(ws)) == set![(1int, 0int)],
        r is Ok && rows@.len() > 0 ==> ws_tables(*final(ws)) == set![
            (0int, 0int, rows@.len() as int, COLUMN_COUNT as int - 1),
        ],
        r is Ok && rows@.len() == 0 ==> ws_tables(*final(ws)) == no_regions(),
        r is Ok ==> ws_filter(*final(ws)) == no_regions(),
        r is Ok <==> rows@.len() <= LAST_ROW && texts_fit(rows@),
        r matches Err(e) ==> e is WorkStationError,
{
    let ghost ls = label_views(labels@);
    if rows.len() > LAST_ROW as usize {
        return Err(
            Error::WorkStationError(String::from_str("record list exceeds the document row limit")),
        );
    }
    ws_set_name(ws, worksheet_name());
    ws_set_column_format(ws, DATE_COLUMN as u16, date_format_pattern());

    // Header row, bold, at row 0.
    let mut c: usize = 0;
    proof {
        assert(ws_cells(*ws) =~= header_cells_upto(ls, 0));
    }
    while c < COLUMN_COUNT
        invariant
            c <= COLUMN_COUNT,
            labels@.len() == COLUMN_COUNT,
            ls == label_views(labels@),
            labels_wf(ls),
            ws_cells(*ws) =~= header_cells_upto(ls, c as int),
            ws_widths(*ws) == Map::<int, int>::empty(),
            ws_col_formats(*ws) == Map::<int, Seq<char>>::empty().insert(
                DATE_COLUMN as int,
                date_pattern(),
            ),
            ws_tables(*ws) == Set::<(int, int, int, int)>::empty(),
            ws_filter(*ws) == Set::<(int, int, int, int)>::empty(),
            ws_frozen(*ws) == Set::<(int, int)>::empty(),
            ws_title(*ws) == sheet_title(),
        decreases COLUMN_COUNT - c,
    {
        proof {
            assert(ls[c as int] == labels@[c as int]@);
        }
        match ws_write_text_bold(ws, 0, c as u16, labels[c]) {
            Ok(_) => {},
            Err(_) => {
                proof {
                    assert(false);
                }
            },
        }
        proof {
            assert(ws_cells(*ws) =~= header_cells_upto(ls, c as int + 1));
        }
        c = c + 1;
    }

    // Text column widths: max of header and data, plus padding.
    let mut slot: usize = 0;
    while slot < TEXT_COLUMN_COUNT
        invariant
            slot <= TEXT_COLUMN_COUNT,
            labels@.len() == COLUMN_COUNT,
            ls == label_views(labels@),
            labels_wf(ls),
            forall|i: int| 0 <= i < rows@.len() ==> (#[trigger] rows@[i])@.wf(),
            rows@.len() <= LAST_ROW,
            ws_cells(*ws) =~= header_cells_upto(ls, COLUMN_COUNT as int),
            ws_widths(*ws) =~= Map::new(
                |cc: int| 0 <= cc < COLUMN_COUNT && cc != DATE_COLUMN && slot_to_index(cc) < slot,
                |cc: int| column_width(ls, rows@, slot_to_index(cc)),
            ),
            ws_col_formats(*ws) == Map::<int, Seq<char>>::empty().insert(
                DATE_COLUMN as int,
                date_pattern(),
            ),
            ws_tables(*ws) == Set::<(int, int, int, int)>::empty(),
            ws_filter(*ws) == Set::<(int, int, int, int)>::empty(),
            ws_frozen(*ws) == Set::<(int, int)>::empty(),
            ws_title(*ws) == sheet_title(),
        decreases TEXT_COLUMN_COUNT - slot,
    {
        let col: usize = if slot < DATE_COLUMN {
            slot
        } else {
            slot + 1
        };
        let width = column_content_width(labels, rows, slot);
        ws_set_column_width(ws, col as u16, width as u32);
        proof {
            assert(ws_widths(*ws) =~= Map::new(
                |cc: int|
                    0 <= cc < COLUMN_COUNT && cc != DATE_COLUMN && slot_to_index(cc) < slot + 1,
                |cc: int| column_width(ls, rows@, slot_to_index(cc)),
            ));
        }
        slot = slot + 1;
    }
    proof {
        assert(ws_widths(*ws) =~= width_map(ls, rows@));
        assert(ws_cells(*ws) =~= document_cells_upto(ls, rows@, 0));
    }

    // Data rows, one record per row, list order.
    let mut idx: usize = 0;
    while idx < rows.len()
        invariant
            idx <= rows@.len(),
            rows@.len() <= LAST_ROW,
            labels@.len() == COLUMN_COUNT,
            ls == label_views(labels@),
            labels_wf(ls),
            forall|i: int| 0 <= i < rows@.len() ==> (#[trigger] rows@[i])@.wf(),
            forall|i: int| 0 <= i < idx ==> row_fits((#[trigger] rows@[i])@),
            ws_cells(*ws) =~= document_cells_upto(ls, rows@, idx as int),
            ws_widths(*ws) =~= width_map(ls, rows@),
            ws_col_formats(*ws) == Map::<int, Seq<char>>::empty().insert(
                DATE_COLUMN as int,
                date_pattern(),
            ),
            ws_tables(*ws) == Set::<(int, int, int, int)>::empty(),
            ws_filter(*ws) == Set::<(int, int, int, int)>::empty(),
            ws_frozen(*ws) == Set::<(int, int)>::empty(),
            ws_title(*ws) == sheet_title(),
        decreases rows@.len() - idx,
    {
        match write_row(ws, (idx + 1) as u32, &rows[idx]) {
            Ok(_) => {},
            Err(e) => {
                proof {
                    assert(rows@.len() != 0);
                }
                return Err(e);
            },
        }
        proof {
            assert(ws_cells(*ws) =~= document_cells_upto(ls, rows@, idx as int + 1));
        }
        idx = idx + 1;
    }

    // The table region over header plus data brings its own filter
    // dropdowns over the same rectangle; an empty table region is invalid
    // in the document format, so zero records skip it.
    if rows.len() > 0 {
        proof {
            assert(table_headers_ok(ws_cells(*ws), 0, 0, COLUMN_COUNT - 1));
        }
        ws_add_table(ws, 0, 0, rows.len() as u32, (COLUMN_COUNT - 1) as u16);
    }
    ws_set_freeze_panes(ws, 1, 0);
    Ok(())
}

/// Renders a record list as complete document bytes.  The layout the
/// bytes encode is stated on [`fill_worksheet`]; the bytes themselves are
/// opaque (they embed the render time), so success cannot be promised
/// and nothing further is said of the `Ok` value.  A record list that
/// breaks the format's limits is always refused.
pub fn render_document(labels: &Vec<&'static str>, rows: &Vec<Row>) -> (r: Result<Vec<u8>, Error>)
    requires
        labels@.len() == COLUMN_COUNT,
        labels_wf(label_views(labels@)),
        forall|i: int| 0 <= i < rows@.len() ==> (#[trigger] rows@[i])@.wf(),
    ensures
        r is Ok ==> rows@.len() <= LAST_ROW && texts_fit(rows@),
        (rows@.len() > LAST_ROW || !texts_fit(rows@)) ==> r is Err,
        r matches Err(e) ==> e is WorkStationError,
{
    let mut ws = crate::sheet::ws_new();
    match fill_worksheet(&mut ws, labels, rows) {
        Ok(_) => crate::sheet::save_worksheet(ws),
        Err(e) => Err(e),
    }
}

/// The records a sheet rectangle yields: row 0 is the header and is
/// skipped; each later row contributes its parsed record in row order,
/// and rows that do not parse are dropped silently.
pub open spec fn parsed_records(grid: Seq<Seq<CellRead>>, n: int) -> Seq<RowModel>
    decreases n,
{
    if n <= 1 {
        Seq::empty()
    } else {
        let rest = parsed_records(grid, n - 1);
        match parse_row_spec(grid[n - 1]) {
            Some(m) => rest.push(m),
            None => rest,
        }
    }
}

/// The record views of a record list.
pub open spec fn rows_view(rows: Seq<Row>) -> Seq<RowModel> {
    rows.map_values(|r: Row| r@)
}

/// Parsing reads only the first thirteen cells of a row.
proof fn lemma_parse_prefix(s: Seq<CellRead>, t: Seq<CellRead>)
    requires
        s.len() >= COLUMN_COUNT,
        t.len() >= COLUMN_COUNT,
        forall|c: int| 0 <= c < COLUMN_COUNT ==> s[c] == t[c],
    ensures
        parse_row_spec(s) == parse_row_spec(t),
{
    assert(s[DATE_COLUMN as int] == t[DATE_COLUMN as int]);
    if parse_row_spec(s) is Some {
        let ms = parse_row_spec(s).unwrap();
        let mt = parse_row_spec(t).unwrap();
        assert forall|i: int| 0 <= i < TEXT_COLUMN_COUNT implies #[trigger] ms.texts[i]
            == mt.texts[i] by {
            assert(s[slot_column(i)] == t[slot_column(i)]);
        }
        assert(ms.texts =~= mt.texts);
        assert(ms =~= mt);
    }
}

/// Reads every record of a loaded sheet rectangle: exactly the parseable
/// data rows, in row order, per [`parsed_records`].
fn collect_rows(range: &calamine::Range<calamine::Data>) -> (rows: Vec<Row>)
    ensures
        forall|i: int| 0 <= i < rows@.len() ==> (#[trigger] rows@[i])@.wf(),
        rows_view(rows@) == parsed_records(range_cells(*range), range_cells(*range).len() as int),
{
    let ghost grid = range_cells(*range);
    let height = range_height(range);
    let width = range_width(range);
    let cap: usize = if width < COLUMN_COUNT {
        width
    } else {
        COLUMN_COUNT
    };
    let mut rows: Vec<Row> = Vec::new();
    if height <= 1 {
        proof {
            assert(rows_view(rows@) =~= parsed_records(grid, grid.len() as int));
        }
        return rows;
    }
    let mut i: usize = 1;
    while i < height
        invariant
            1 <= i <= height,
            height == grid.len(),
            grid == range_cells(*range),
            cap <= COLUMN_COUNT,
            cap <= width,
            width < COLUMN_COUNT ==> cap == width,
            width >= COLUMN_COUNT ==> cap == COLUMN_COUNT,
            forall|k: int| 0 <= k < grid.len() ==> (#[trigger] grid[k]).len() == width,
            forall|k: int| 0 <= k < rows@.len() ==> (#[trigger] rows@[k])@.wf(),
            rows_view(rows@) == parsed_records(grid, i as int),
        decreases height - i,
    {
        let mut cells: Vec<Cell> = Vec::new();
        let mut c: usize = 0;
        while c < cap
            invariant
                c <= cap,
                cap <= width,
                1 <= i < height,
                height == grid.len(),
                grid == range_cells(*range),
                forall|k: int| 0 <= k < grid.len() ==> (#[trigger] grid[k]).len() == width,
                cells@.len() == c,
                forall|j: int| 0 <= j < c ==> #[trigger] cells@[j]@ == grid[i as int][j],
            decreases cap - c,
        {
            let cell = read_cell(range, i, c);
            cells.push(cell);
            c = c + 1;
        }
        proof {
            let read = cells_read(cells@);
            assert(forall|j: int| 0 <= j < cap ==> #[trigger] read[j] == cells@[j]@);
            if width >= COLUMN_COUNT {
                lemma_parse_prefix(read, grid[i as int]);
            } else {
                assert(read =~= grid[i as int]);
            }
            assert(parse_row_spec(read) == parse_row_spec(grid[i as int]));
        }
        let ghost old_rows = rows@;
        match from_cells(&cells) {
            Some(row) => {
                rows.push(row);
                proof {
                    assert(rows_view(rows@) =~= rows_view(old_rows).push(rows@.last()@));
                }
            },
            None => {},
        }
        proof {
            assert(rows_view(rows@) =~= parsed_records(grid, i as int + 1));
        }
        i = i + 1;
    }
    rows
}

/// Reads all previously stored records of a document.  A missing
/// document (`None`) or one whose named sheet does not load is an empty
/// record list, not an error; a document that cannot be opened as a
/// workbook is a fatal reader error.  When the sheet loads, the result
/// is exactly the parseable data rows of its rectangle, in row order
/// ([`parsed_records`]): successes kept, malformed rows dropped.
pub fn read_document(bytes: Option<Vec<u8>>, sheet: &str) -> (r: Result<Vec<Row>, Error>)
    ensures
        r matches Ok(rows) ==> forall|i: int|
            0 <= i < rows@.len() ==> (#[trigger] rows@[i])@.wf(),
        bytes is None ==> (r matches Ok(rows) && rows@.len() == 0),
        bytes matches Some(b) ==> ((r is Err) == !opens_as_workbook(b@)),
        r matches Err(e) ==> e is CalamaineXlsxError,
        (bytes is Some && opens_as_workbook(bytes.unwrap()@) && !sheet_loads(
            bytes.unwrap()@,
            sheet@,
        )) ==> (r matches Ok(rows) && rows@.len() == 0),
        (bytes is Some && opens_as_workbook(bytes.unwrap()@) && sheet_loads(
            bytes.unwrap()@,
            sheet@,
        )) ==> (r matches Ok(rows) && rows_view(rows@) == parsed_records(
            sheet_grid(bytes.unwrap()@, sheet@),
            sheet_grid(bytes.unwrap()@, sheet@).len() as int,
        )),
{
    match bytes {
        None => Ok(Vec::new()),
        Some(b) => match open_worksheet_range(b, sheet) {
            Err(e) => Err(e),
            Ok(None) => Ok(Vec::new()),
            Ok(Some(range)) => Ok(collect_rows(&range)),
        },
    }
}

/// Written-then-read law: in a rendered document, the cells of data row
/// `i + 1` read back and parse to exactly the record `rows[i]` they were
/// written from, to the second.  [`read_back`] is the modelled fidelity
/// of cell storage: a date cell returns its timestamp, a text cell its
/// text, with empty text stored as an empty cell.
pub proof fn lemma_document_round_trip(labels: Seq<Seq<char>>, rows: Seq<Row>, i: int)
    requires
        0 <= i < rows.len(),
        rows[i]@.wf(),
    ensures
        parse_row_spec(
            Seq::new(
                COLUMN_COUNT as nat,
                |c: int| read_back(document_cells(labels, rows)[(i + 1, c)]),
            ),
        ) == Some(rows[i]@),
{
    let cells = document_cells(labels, rows);
    let read = Seq::new(COLUMN_COUNT as nat, |c: int| read_back(cells[(i + 1, c)]));
    assert(read =~= row_cells(rows[i]@).map_values(|c: CellModel| read_back(c)));
    crate::row::lemma_row_round_trip(rows[i]@);
}

} // verus!
