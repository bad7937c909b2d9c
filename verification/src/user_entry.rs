//! The user log schema: the same facts as the workstation log, keyed by
//! user, so the first two columns swap roles (the user's OU leads and the
//! workstation's name becomes the `ComputerName` column).

use vstd::prelude::*;
use vstd::string::StrSliceExecFns;

use crate::cell::{Cell, CellModel, CellRead, read_back, storable_stamp};
use crate::row::{
    COLUMN_COUNT, Row, RowModel, TEXT_COLUMN_COUNT, cells_read, fold_eq, labels_wf, lemma_fold_distinct,
    parse_row_spec, row_cells,
};
use vstd::utf8::is_ascii_chars;
use crate::workstation::WorkStationEntry;

verus! {

/// One user-log record.  The twelve text fields appear in the document in
/// declaration order, with the timestamp between `computer_name` and
/// `period` (column 2).
#[derive(Clone)]
pub struct UserEntry {
    pub user_ou: String,
    pub computer_name: String,
    pub date_time: i64,
    pub period: String,
    pub description: String,
    pub ws_ou: String,
    pub os_version: String,
    pub model: String,
    pub os: String,
    pub full_ou: String,
    pub make: String,
    pub uuid: String,
    pub serial_number: String,
}

/// The user schema's header labels, in column order.
pub open spec fn user_columns() -> Seq<Seq<char>> {
    seq![
        "UserOU"@,
        "ComputerName"@,
        "DateTime"@,
        "Period"@,
        "Description"@,
        "WS_OU"@,
        "OSVersion"@,
        "Model"@,
        "OS"@,
        "Full_OU"@,
        "Make"@,
        "UUID"@,
        "Serial_Number"@,
    ]
}

/// The user labels are well-formed: thirteen nonempty, pairwise distinct
/// labels of storable length.
pub proof fn lemma_user_labels_wf()
    ensures
        labels_wf(user_columns()),
{
    reveal_strlit("UserOU");
    reveal_strlit("ComputerName");
    reveal_strlit("DateTime");
    reveal_strlit("Period");
    reveal_strlit("Description");
    reveal_strlit("WS_OU");
    reveal_strlit("OSVersion");
    reveal_strlit("Model");
    reveal_strlit("OS");
    reveal_strlit("Full_OU");
    reveal_strlit("Make");
    reveal_strlit("UUID");
    reveal_strlit("Serial_Number");
    let ls = user_columns();
    // Every label is ASCII, and length together with the first character
    // (case-insensitively) distinguishes every pair.
    assert(ls[0].len() == 6 && ls[0][0] == 'U');
    assert(is_ascii_chars(ls[0]));
    assert(ls[1].len() == 12 && ls[1][0] == 'C');
    assert(is_ascii_chars(ls[1]));
    assert(ls[2].len() == 8 && ls[2][0] == 'D');
    assert(is_ascii_chars(ls[2]));
    assert(ls[3].len() == 6 && ls[3][0] == 'P');
    assert(is_ascii_chars(ls[3]));
    assert(ls[4].len() == 11 && ls[4][0] == 'D');
    assert(is_ascii_chars(ls[4]));
    assert(ls[5].len() == 5 && ls[5][0] == 'W');
    assert(is_ascii_chars(ls[5]));
    assert(ls[6].len() == 9 && ls[6][0] == 'O');
    assert(is_ascii_chars(ls[6]));
    assert(ls[7].len() == 5 && ls[7][0] == 'M');
    assert(is_ascii_chars(ls[7]));
    assert(ls[8].len() == 2 && ls[8][0] == 'O');
    assert(is_ascii_chars(ls[8]));
    assert(ls[9].len() == 7 && ls[9][0] == 'F');
    assert(is_ascii_chars(ls[9]));
    assert(ls[10].len() == 4 && ls[10][0] == 'M');
    assert(is_ascii_chars(ls[10]));
    assert(ls[11].len() == 4 && ls[11][0] == 'U');
    assert(is_ascii_chars(ls[11]));
    assert(ls[12].len() == 13 && ls[12][0] == 'S');
    assert(is_ascii_chars(ls[12]));
    assert(forall|i: int| 0 <= i < ls.len() ==> 1 <= #[trigger] ls[i].len() <= 32767);
    assert(forall|i: int| 0 <= i < ls.len() ==> is_ascii_chars(#[trigger] ls[i]));
    assert forall|i: int, j: int| 0 <= i < j < ls.len() implies !fold_eq(ls[i], ls[j]) by {
        lemma_fold_distinct(ls[i], ls[j]);
    }
}

impl View for UserEntry {
    type V = RowModel;

    open spec fn view(&self) -> RowModel {
        RowModel {
            date_time: self.date_time as int,
            texts: seq![
                self.user_ou@,
                self.computer_name@,
                self.period@,
                self.description@,
                self.ws_ou@,
                self.os_version@,
                self.model@,
                self.os@,
                self.full_ou@,
                self.make@,
                self.uuid@,
                self.serial_number@,
            ],
        }
    }
}

impl UserEntry {
    /// Well-formed: the timestamp is one the document codec can store.
    pub open spec fn wf(self) -> bool {
        storable_stamp(self.date_time as int)
    }

    /// The user-log view of a workstation record: the workstation's
    /// `username` column becomes `ComputerName`, every other fact is
    /// carried over verbatim.
    pub fn from(entry: &WorkStationEntry) -> (r: Self)
        ensures
            r@.date_time == entry@.date_time,
            r@.texts == seq![
                entry.user_ou@,
                entry.username@,
                entry.period@,
                entry.description@,
                entry.ws_ou@,
                entry.os_version@,
                entry.model@,
                entry.os@,
                entry.full_ou@,
                entry.make@,
                entry.uuid@,
                entry.serial_number@,
            ],
    {
        let r = UserEntry {
            user_ou: entry.user_ou.clone(),
            computer_name: entry.username.clone(),
            date_time: entry.date_time,
            period: entry.period.clone(),
            description: entry.description.clone(),
            ws_ou: entry.ws_ou.clone(),
            os_version: entry.os_version.clone(),
            model: entry.model.clone(),
            os: entry.os.clone(),
            full_ou: entry.full_ou.clone(),
            make: entry.make.clone(),
            uuid: entry.uuid.clone(),
            serial_number: entry.serial_number.clone(),
        };
        proof {
            assert(r@.texts =~= seq![
                entry.user_ou@,
                entry.username@,
                entry.period@,
                entry.description@,
                entry.ws_ou@,
                entry.os_version@,
                entry.model@,
                entry.os@,
                entry.full_ou@,
                entry.make@,
                entry.uuid@,
                entry.serial_number@,
            ]);
        }
        r
    }

    /// The header labels, fixed for this schema and never computed from data.
    pub fn columns() -> (r: Vec<&'static str>)
        ensures
            r@.len() == COLUMN_COUNT,
            forall|i: int| 0 <= i < COLUMN_COUNT ==> r@[i]@ == user_columns()[i],
            labels_wf(user_columns()),
    {
        proof {
            lemma_user_labels_wf();
        }
        let mut v: Vec<&'static str> = Vec::new();
        v.push("UserOU");
        v.push("ComputerName");
        v.push("DateTime");
        v.push("Period");
        v.push("Description");
        v.push("WS_OU");
        v.push("OSVersion");
        v.push("Model");
        v.push("OS");
        v.push("Full_OU");
        v.push("Make");
        v.push("UUID");
        v.push("Serial_Number");
        v
    }

    /// The record in canonical row shape.
    pub fn to_row(&self) -> (r: Row)
        ensures
            r@ == self@,
    {
        let mut texts: Vec<String> = Vec::new();
        texts.push(self.user_ou.clone());
        texts.push(self.computer_name.clone());
        texts.push(self.period.clone());
        texts.push(self.description.clone());
        texts.push(self.ws_ou.clone());
        texts.push(self.os_version.clone());
        texts.push(self.model.clone());
        texts.push(self.os.clone());
        texts.push(self.full_ou.clone());
        texts.push(self.make.clone());
        texts.push(self.uuid.clone());
        texts.push(self.serial_number.clone());
        let r = Row { date_time: self.date_time, texts };
        proof {
            assert(r@.texts =~= self@.texts);
            assert(r@ =~= self@);
        }
        r
    }

    /// Rebuilds the record from its canonical row shape.
    pub fn from_row(r: &Row) -> (e: Self)
        requires
            r@.wf(),
        ensures
            e@ == r@,
    {
        let e = UserEntry {
            user_ou: r.texts[0].clone(),
            computer_name: r.texts[1].clone(),
            date_time: r.date_time,
            period: r.texts[2].clone(),
            description: r.texts[3].clone(),
            ws_ou: r.texts[4].clone(),
            os_version: r.texts[5].clone(),
            model: r.texts[6].clone(),
            os: r.texts[7].clone(),
            full_ou: r.texts[8].clone(),
            make: r.texts[9].clone(),
            uuid: r.texts[10].clone(),
            serial_number: r.texts[11].clone(),
        };
        proof {
            assert(e@.texts =~= r@.texts);
            assert(e@ =~= r@);
        }
        e
    }

    /// Parses one data row of this schema; unparseable rows yield `None`.
    pub fn parse_row(cells: &Vec<Cell>) -> (r: Option<Self>)
        ensures
            (r is Some) == (parse_row_spec(cells_read(cells@)) is Some),
            r is Some ==> r.unwrap()@ == parse_row_spec(cells_read(cells@)).unwrap(),
            r is Some ==> r.unwrap().wf(),
    {
        match crate::row::from_cells(cells) {
            Some(row) => Some(Self::from_row(&row)),
            None => None,
        }
    }

    /// The sort/merge key.
    pub fn date_time(&self) -> (r: i64)
        ensures
            r == self@.date_time,
    {
        self.date_time
    }

    /// The display width each text column needs for this record, in
    /// characters, one entry per text column in column order.
    pub fn field_lengths(&self) -> (r: Vec<usize>)
        ensures
            r@.len() == TEXT_COLUMN_COUNT,
            forall|i: int| 0 <= i < TEXT_COLUMN_COUNT ==> r@[i] == self@.texts[i].len(),
    {
        let mut v: Vec<usize> = Vec::new();
        v.push(self.user_ou.as_str().unicode_len());
        v.push(self.computer_name.as_str().unicode_len());
        v.push(self.period.as_str().unicode_len());
        v.push(self.description.as_str().unicode_len());
        v.push(self.ws_ou.as_str().unicode_len());
        v.push(self.os_version.as_str().unicode_len());
        v.push(self.model.as_str().unicode_len());
        v.push(self.os.as_str().unicode_len());
        v.push(self.full_ou.as_str().unicode_len());
        v.push(self.make.as_str().unicode_len());
        v.push(self.uuid.as_str().unicode_len());
        v.push(self.serial_number.as_str().unicode_len());
        v
    }

    /// Writes this record's cells onto document row `ri`, texts as text
    /// cells and the timestamp through the typed date path; refuses exactly
    /// the records with a text too long for a cell.
    pub fn write_entry(
        &self,
        ws: &mut rust_xlsxwriter::worksheet::Worksheet,
        ri: u32,
    ) -> (r: Result<(), crate::error::Error>)
        requires
            ri <= crate::sheet::LAST_ROW,
            self.wf(),
        ensures
            r is Ok <==> crate::codec::row_fits(self@),
            r is Ok ==> crate::sheet::ws_cells(*final(ws)) =~= crate::sheet::ws_cells(
                *old(ws),
            ).union_prefer_right(
                crate::codec::row_cells_upto(ri as int, self@, COLUMN_COUNT as int),
            ),
            crate::sheet::ws_widths(*final(ws)) == crate::sheet::ws_widths(*old(ws)),
            crate::sheet::ws_col_formats(*final(ws)) == crate::sheet::ws_col_formats(*old(ws)),
            crate::sheet::ws_tables(*final(ws)) == crate::sheet::ws_tables(*old(ws)),
            crate::sheet::ws_filter(*final(ws)) == crate::sheet::ws_filter(*old(ws)),
            crate::sheet::ws_frozen(*final(ws)) == crate::sheet::ws_frozen(*old(ws)),
            crate::sheet::ws_title(*final(ws)) == crate::sheet::ws_title(*old(ws)),
    {
        let row = self.to_row();
        crate::codec::write_row(ws, ri, &row)
    }
}

/// Round trip: the cells [`UserEntry::write_entry`] stores for a
/// well-formed record, read back, parse to exactly that record: every
/// text field verbatim and the timestamp to the second.  Precision below
/// one second is outside the date-serial path altogether.
pub proof fn lemma_user_round_trip(e: UserEntry)
    requires
        e.wf(),
    ensures
        parse_row_spec(row_cells(e@).map_values(|c: CellModel| read_back(c))) == Some(e@),
{
    crate::row::lemma_row_round_trip(e@);
}

/// Column contract: the schema's label count, the cell count written per
/// record, and the cell count the parser expects all agree.
pub proof fn lemma_user_column_contract(e: UserEntry, cells: Seq<CellRead>)
    ensures
        user_columns().len() == COLUMN_COUNT,
        row_cells(e@).len() == COLUMN_COUNT,
        parse_row_spec(cells) is Some ==> cells.len() >= COLUMN_COUNT,
{
}

} // verus!
