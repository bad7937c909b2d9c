//! The canonical record shape and its row codec.
//!
//! Every log schema is thirteen columns wide: twelve text columns and one
//! typed date column, hard-wired at column 2 by the document layout.  A
//! [`Row`] carries the twelve text values in schema order together with the
//! timestamp; the schemas only differ in their header labels and in how
//! their named fields map onto the twelve slots.

use vstd::prelude::*;
use vstd::utf8::is_ascii_chars;

use crate::cell::{Cell, CellModel, CellRead, read_back, storable_stamp, text_or_empty};

verus! {

/// Columns per row, including the date column.
pub const COLUMN_COUNT: usize = 13;

/// The position of the typed date column, fixed across all schemas.
pub const DATE_COLUMN: usize = 2;

/// Text columns per row.
pub const TEXT_COLUMN_COUNT: usize = 12;

/// The column a text slot is stored in: slots 0 and 1 sit left of the date
/// column, the rest one to its right.
pub open spec fn slot_column(i: int) -> int {
    if i < DATE_COLUMN {
        i
    } else {
        i + 1
    }
}

/// Whether two characters coincide after ASCII case folding (the
/// document writer compares table column names after case folding).
pub open spec fn fold_eq_char(a: char, b: char) -> bool {
    ||| a == b
    ||| ('A' <= a && a <= 'Z' && b as u32 == a as u32 + 32)
    ||| ('A' <= b && b <= 'Z' && a as u32 == b as u32 + 32)
}

/// Whether two texts coincide after ASCII case folding.
pub open spec fn fold_eq(s: Seq<char>, t: Seq<char>) -> bool {
    s.len() == t.len() && forall|i: int| 0 <= i < s.len() ==> fold_eq_char(#[trigger] s[i], t[i])
}

/// Texts of different lengths, or differing case-insensitively in their
/// first character, stay distinct after case folding.
pub proof fn lemma_fold_distinct(s: Seq<char>, t: Seq<char>)
    requires
        s.len() != t.len() || (s.len() > 0 && !fold_eq_char(s[0], t[0])),
    ensures
        !fold_eq(s, t),
{
}

/// Well-formed header labels: one per column, nonempty ASCII, short
/// enough for the document format, and pairwise distinct even after case
/// folding (the structured table region compares its column names after
/// case folding).
pub open spec fn labels_wf(ls: Seq<Seq<char>>) -> bool {
    &&& ls.len() == COLUMN_COUNT
    &&& forall|i: int| 0 <= i < ls.len() ==> 1 <= #[trigger] ls[i].len() <= 32767
    &&& forall|i: int| 0 <= i < ls.len() ==> is_ascii_chars(#[trigger] ls[i])
    &&& forall|i: int, j: int| 0 <= i < j < ls.len() ==> !fold_eq(ls[i], ls[j])
}

/// The abstract value of a [`Row`].
#[verifier::ext_equal]
pub struct RowModel {
    pub date_time: int,
    pub texts: Seq<Seq<char>>,
}

impl RowModel {
    /// Well-formed: twelve text slots and a timestamp the codec can store.
    pub open spec fn wf(self) -> bool {
        self.texts.len() == TEXT_COLUMN_COUNT && storable_stamp(self.date_time)
    }
}

/// One record in canonical shape: the timestamp and the twelve text values
/// in schema order.
pub struct Row {
    pub date_time: i64,
    pub texts: Vec<String>,
}

impl View for Row {
    type V = RowModel;

    open spec fn view(&self) -> RowModel {
        RowModel { date_time: self.date_time as int, texts: self.texts.deep_view() }
    }
}

impl Row {
    pub open spec fn wf(self) -> bool {
        self@.wf()
    }
}

/// The thirteen cells the writer stores for a record.
pub open spec fn row_cells(m: RowModel) -> Seq<CellModel> {
    Seq::new(
        COLUMN_COUNT as nat,
        |c: int|
            if c == DATE_COLUMN {
                CellModel::Stamp(m.date_time)
            } else {
                CellModel::Text(m.texts[slot_to_index(c)])
            },
    )
}

/// The text slot stored in column `c` (for `c != DATE_COLUMN`).
pub open spec fn slot_to_index(c: int) -> int {
    if c < DATE_COLUMN {
        c
    } else {
        c - 1
    }
}

/// The record parsed from a sequence of read cells, if any.  A row with
/// fewer cells than the schema expects, or whose date column has no
/// storable calendar reading, is unparseable and yields `None`; text cells
/// without a text reading yield empty strings.
pub open spec fn parse_row_spec(cells: Seq<CellRead>) -> Option<RowModel> {
    if cells.len() < COLUMN_COUNT {
        None
    } else {
        match cells[DATE_COLUMN as int].date {
            Some(ts) => if storable_stamp(ts) {
                Some(
                    RowModel {
                        date_time: ts,
                        texts: Seq::new(
                            TEXT_COLUMN_COUNT as nat,
                            |i: int| text_or_empty(cells[slot_column(i)]),
                        ),
                    },
                )
            } else {
                None
            },
            None => None,
        }
    }
}

/// The abstract values of a vector of read cells.
pub open spec fn cells_read(cells: Seq<Cell>) -> Seq<CellRead> {
    cells.map_values(|c: Cell| c@)
}

/// Parses one data row.  Follows [`parse_row_spec`] exactly: short rows and
/// rows without a storable date are discarded, missing text reads as empty.
pub fn from_cells(cells: &Vec<Cell>) -> (r: Option<Row>)
    ensures
        (r is Some) == (parse_row_spec(cells_read(cells@)) is Some),
        r is Some ==> r.unwrap()@ == parse_row_spec(cells_read(cells@)).unwrap(),
        r is Some ==> r.unwrap().wf(),
{
    if cells.len() < COLUMN_COUNT {
        return None;
    }
    let ts: i64 = match cells[DATE_COLUMN].date {
        Some(d) => {
            if crate::date::MIN_LOG_STAMP <= d && d <= crate::date::MAX_LOG_STAMP {
                d
            } else {
                return None;
            }
        },
        None => {
            return None;
        },
    };
    let mut texts: Vec<String> = Vec::new();
    let mut i: usize = 0;
    while i < TEXT_COLUMN_COUNT
        invariant
            cells@.len() >= COLUMN_COUNT,
            i <= TEXT_COLUMN_COUNT,
            texts@.len() == i,
            forall|j: int|
                0 <= j < i ==> texts@[j]@ == text_or_empty(
                    #[trigger] cells_read(cells@)[slot_column(j)],
                ),
        decreases TEXT_COLUMN_COUNT - i,
    {
        let col: usize = if i < DATE_COLUMN {
            i
        } else {
            i + 1
        };
        let t: String = match &cells[col].text {
            Some(t) => t.clone(),
            None => String::new(),
        };
        texts.push(t);
        i = i + 1;
    }
    let row = Row { date_time: ts, texts };
    proof {
        let m = parse_row_spec(cells_read(cells@)).unwrap();
        assert(row@.texts =~= m.texts);
        assert(row@ =~= m);
    }
    Some(row)
}

/// Round trip at the row level: the cells the writer stores for a
/// well-formed record parse back to exactly that record.  Together with the
/// date round trip this pins the written-then-read record down to the
/// second; anything below one second is not representable.
pub proof fn lemma_row_round_trip(m: RowModel)
    requires
        m.wf(),
    ensures
        parse_row_spec(row_cells(m).map_values(|c: CellModel| read_back(c))) == Some(m),
{
    let rv = row_cells(m).map_values(|c: CellModel| read_back(c));
    assert(rv[DATE_COLUMN as int].date == Some(m.date_time));
    let parsed = parse_row_spec(rv).unwrap();
    assert forall|i: int| 0 <= i < TEXT_COLUMN_COUNT implies #[trigger] parsed.texts[i]
        == m.texts[i] by {
        assert(rv[slot_column(i)] == read_back(CellModel::Text(m.texts[i])));
    }
    assert(parsed.texts =~= m.texts);
    assert(parsed =~= m);
}

} // verus!
