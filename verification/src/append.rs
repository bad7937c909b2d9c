//! The merge step of the append engine: one new record joins the list read
//! from the document, and the whole list is ordered newest-first.

use vstd::prelude::*;

use vstd::multiset::Multiset;

use crate::codec::{label_views, read_document, render_document, row_fits, texts_fit, worksheet_name};
use crate::error::Error;
use crate::reader::opens_as_workbook;
use crate::row::{COLUMN_COUNT, Row, labels_wf};

verus! {

/// Records ordered by timestamp, newest first.  Ties carry no further
/// guarantee: the ordering key is the timestamp alone.
pub open spec fn sorted_desc(s: Seq<Row>) -> bool {
    forall|i: int, j: int| 0 <= i < j < s.len() ==> s[i]@.date_time >= s[j]@.date_time
}

/// Merges one new record into the list read from the document: the result
/// holds exactly the old records plus the new one, ordered newest first.
pub fn merge_records(rows: Vec<Row>, new_row: Row) -> (out: Vec<Row>)
    ensures
        sorted_desc(out@),
        out@.len() == rows@.len() + 1,
        out@.to_multiset() == rows@.push(new_row).to_multiset(),
        forall|x: Row| out@.contains(x) ==> rows@.push(new_row).contains(x),
{
    broadcast use vstd::seq_lib::group_to_multiset_ensures;

    let ghost total: Seq<Row> = rows@.push(new_row);
    let mut input = rows;
    input.push(new_row);
    let mut out: Vec<Row> = Vec::new();
    while input.len() > 0
        invariant
            sorted_desc(out@),
            out@.to_multiset().add(input@.to_multiset()) =~= total.to_multiset(),
            out@.len() + input@.len() == total.len(),
            forall|i: int, j: int|
                0 <= i < out@.len() && 0 <= j < input@.len() ==> out@[i]@.date_time
                    >= input@[j]@.date_time,
        decreases input@.len(),
    {
        let mut best: usize = 0;
        let mut j: usize = 1;
        while j < input.len()
            invariant
                best < j <= input@.len(),
                input@.len() > 0,
                forall|k: int|
                    0 <= k < j ==> input@[best as int]@.date_time >= #[trigger] input@[k]@.date_time,
            decreases input@.len() - j,
        {
            if input[j].date_time > input[best].date_time {
                best = j;
            }
            j = j + 1;
        }
        let ghost old_input = input@;
        let ghost old_out = out@;
        let x = input.remove(best);
        out.push(x);
        proof {
            old_out.to_multiset_ensures();
            old_input.to_multiset_ensures();
            assert(out@ == old_out.push(x));
            assert(old_out.push(x).to_multiset() =~= old_out.to_multiset().insert(x));
            assert(input@ == old_input.remove(best as int));
            assert(old_input.remove(best as int).to_multiset() =~= old_input.to_multiset().remove(
                old_input[best as int],
            ));
            assert(input@.to_multiset() =~= old_input.to_multiset().remove(x));
            assert(out@.to_multiset().add(input@.to_multiset()) =~= total.to_multiset());
            assert forall|i: int, j2: int|
                0 <= i < out@.len() && 0 <= j2 < input@.len() implies out@[i]@.date_time
                >= input@[j2]@.date_time by {
                if i < out@.len() - 1 {
                    assert(old_input.contains(input@[j2]));
                } else {
                    if j2 < best {
                        assert(input@[j2] == old_input[j2]);
                    } else {
                        assert(input@[j2] == old_input[j2 + 1]);
                    }
                }
            }
        }
    }
    proof {
        assert(input@ =~= Seq::<Row>::empty());
        assert(input@.to_multiset() =~= Multiset::<Row>::empty());
        assert(out@.to_multiset() =~= total.to_multiset());
        assert forall|x: Row| out@.contains(x) implies total.contains(x) by {
            assert(out@.to_multiset().count(x) > 0);
        }
    }
    out
}

/// One logical append: reads all records stored in the given document
/// bytes (none for a missing document), merges the new record in, orders
/// the list newest first, and renders the complete replacement document.
///
/// The parts carry the layout and merge laws: what the stored bytes
/// parse to is stated on [`read_document`], the orderedness and exact
/// contents of the merged list on [`merge_records`], and the rendered
/// document's layout on [`crate::codec::fill_worksheet`].  The returned
/// bytes themselves are opaque (the render embeds the save time), so
/// success of the final render cannot be promised; what is promised here
/// is the failure taxonomy: unreadable existing bytes are exactly the
/// reader errors, everything else that can fail is the writer, and a
/// record whose texts overflow a cell is always refused.
pub fn append_log(existing: Option<Vec<u8>>, labels: &Vec<&'static str>, new_row: Row) -> (r:
    Result<Vec<u8>, Error>)
    requires
        labels@.len() == COLUMN_COUNT,
        labels_wf(label_views(labels@)),
        new_row@.wf(),
    ensures
        r is Ok ==> row_fits(new_row@),
        !row_fits(new_row@) ==> r is Err,
        existing is None ==> !(r matches Err(Error::CalamaineXlsxError(_))),
        (existing is Some && !opens_as_workbook(existing.unwrap()@)) ==> (r matches Err(e) && (
        e is CalamaineXlsxError)),
        r matches Err(e) ==> (e is CalamaineXlsxError || e is WorkStationError),
{
    broadcast use vstd::seq_lib::group_to_multiset_ensures;

    let stored = match read_document(existing, worksheet_name()) {
        Ok(rows) => rows,
        Err(e) => {
            return Err(e);
        },
    };
    let ghost stored_view = stored@;
    let merged = merge_records(stored, new_row);
    proof {
        let all = stored_view.push(new_row);
        assert forall|i: int| 0 <= i < merged@.len() implies (#[trigger] merged@[i])@.wf() by {
            assert(merged@.contains(merged@[i]));
            assert(all.contains(merged@[i]));
            let j = choose|j: int| 0 <= j < all.len() && all[j] == merged@[i];
            if j < stored_view.len() {
                assert(stored_view[j]@.wf());
            }
        }
        // The new record sits in the merged list, so a merged list whose
        // texts all fit gives a fitting new record, and an overflowing
        // new record spoils the merged list.
        stored_view.to_multiset_ensures();
        assert(all.to_multiset() =~= stored_view.to_multiset().insert(new_row));
        assert(merged@.to_multiset().count(new_row) > 0);
        assert(merged@.contains(new_row));
        let k = choose|k: int| 0 <= k < merged@.len() && merged@[k] == new_row;
        assert(texts_fit(merged@) ==> row_fits(new_row@)) by {
            if texts_fit(merged@) {
                assert(row_fits(merged@[k]@));
            }
        }
        assert(!row_fits(new_row@) ==> !texts_fit(merged@));
    }
    render_document(labels, &merged)
}

} // verus!
