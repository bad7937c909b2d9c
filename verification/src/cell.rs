//! Cell models for the document codec.
//!
//! A cell has two faces.  [`Cell`] is what the reader reports: a stored cell
//! may be readable as a calendar value (a unix timestamp recovered from the
//! day-count serial), as text, as both, or as neither.  [`CellModel`] is what
//! the writer puts into a sheet: either a text cell or a typed date cell.

use vstd::prelude::*;

use crate::date::{MAX_LOG_STAMP, MIN_LOG_STAMP};

verus! {

/// A cell as the document reader reports it.
pub struct Cell {
    /// The cell read as a calendar value, in unix seconds, when the stored
    /// value is a date serial (or an ISO date); `None` otherwise.
    pub date: Option<i64>,
    /// The cell read as text, when the stored value has a text reading;
    /// `None` for an empty or unreadable cell.
    pub text: Option<String>,
}

/// The abstract value of a [`Cell`].
#[verifier::ext_equal]
pub struct CellRead {
    pub date: Option<int>,
    pub text: Option<Seq<char>>,
}

/// The abstract value of an optional calendar reading.
pub open spec fn date_view(d: Option<i64>) -> Option<int> {
    match d {
        Some(v) => Some(v as int),
        None => None,
    }
}

/// The abstract value of an optional text reading.
pub open spec fn text_view(t: Option<String>) -> Option<Seq<char>> {
    match t {
        Some(s) => Some(s@),
        None => None,
    }
}

impl View for Cell {
    type V = CellRead;

    open spec fn view(&self) -> CellRead {
        CellRead { date: date_view(self.date), text: text_view(self.text) }
    }
}

/// A cell as the document writer stores it.
#[verifier::ext_equal]
pub enum CellModel {
    /// An ordinary text cell.
    Text(Seq<char>),
    /// The typed date cell: a unix timestamp stored through the day-count
    /// serial path, so that the document keeps a real date value.
    Stamp(int),
}

/// How a written cell comes back through the reader: a date cell reads back
/// as its timestamp and has no text reading; a text cell reads back as its
/// text, except that the document format drops empty text cells entirely.
pub open spec fn read_back(c: CellModel) -> CellRead {
    match c {
        CellModel::Stamp(ts) => CellRead { date: Some(ts), text: None },
        CellModel::Text(s) => if s.len() == 0 {
            CellRead { date: None, text: None }
        } else {
            CellRead { date: None, text: Some(s) }
        },
    }
}

/// The text reading of a cell, with a missing reading taken as empty text.
pub open spec fn text_or_empty(c: CellRead) -> Seq<char> {
    match c.text {
        Some(t) => t,
        None => Seq::empty(),
    }
}

/// A timestamp the document codec can store: the day-count serial path
/// covers the format's own window, 1900-01-01 through 9999-12-31, in
/// whole seconds.
pub open spec fn storable_stamp(ts: int) -> bool {
    MIN_LOG_STAMP <= ts <= MAX_LOG_STAMP
}

} // verus!
