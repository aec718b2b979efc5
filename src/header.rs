use vstd::prelude::*;

use crate::cell::{Cell, cell_text, coerce};
use crate::error::Error;

verus! {

/// The header row of a worksheet, each cell as text, in column order.
#[derive(Debug, Clone, PartialEq, Eq)]
pub struct RowsPayload {
    pub rows: Vec<String>,
}

/// The texts of a row of cells, in column order.
pub open spec fn row_text(row: Seq<Cell>) -> Seq<Seq<char>> {
    row.map_values(|c: Cell| cell_text(c))
}

/// The views of a sequence of strings.
pub open spec fn texts(v: Seq<String>) -> Seq<Seq<char>> {
    v.map_values(|s: String| s@)
}

/// The header of a sheet given by its rows: the text of its first row,
/// or nothing when the sheet has no rows.
pub open spec fn header_of(rows: Seq<Vec<Cell>>) -> Seq<Seq<char>> {
    if rows.len() == 0 {
        Seq::empty()
    } else {
        row_text(rows[0]@)
    }
}

/// The message given when a workbook has no worksheet.
pub open spec fn no_sheet_message() -> Seq<char> {
    "No sheet found in excel file"@
}

/// Coercion leaves out no cell: the text of a row has one entry per
/// cell, in column order, and an empty cell gives the empty string.
pub proof fn lemma_coercion_keeps_every_cell(row: Seq<Cell>)
    ensures
        row_text(row).len() == row.len(),
        forall|i: int| 0 <= i < row.len() ==> #[trigger] row_text(row)[i] == cell_text(row[i]),
        forall|i: int| 0 <= i < row.len() && row[i] is Empty ==> #[trigger] row_text(row)[i]
            == Seq::<char>::empty(),
{
}

/// A sheet without rows has an empty header, not a failure.
pub proof fn lemma_empty_sheet_empty_header(rows: Seq<Vec<Cell>>)
    requires
        rows.len() == 0,
    ensures
        header_of(rows) == Seq::<Seq<char>>::empty(),
{
}

/// Every cell of `row` coerced to text, in column order.
pub fn row_texts(row: &Vec<Cell>) -> (r: Vec<String>)
    ensures
        texts(r@) == row_text(row@),
{
    let mut out: Vec<String> = Vec::new();
    let mut i: usize = 0;
    while i < row.len()
        invariant
            i <= row@.len(),
            texts(out@) =~= row_text(row@.take(i as int)),
        decreases row@.len() - i,
    {
        let s = coerce(&row[i]);
        let ghost prev = out@;
        out.push(s);
        proof {
            assert(texts(out@) =~= texts(prev).push(cell_text(row@[i as int])));
            assert(row@.take(i + 1) =~= row@.take(i as int).push(row@[i as int]));
            assert(row_text(row@.take(i + 1)) =~= row_text(row@.take(i as int)).push(
                cell_text(row@[i as int]),
            ));
        }
        i += 1;
    }
    proof {
        assert(row@.take(i as int) =~= row@);
    }
    out
}

/// The header row of a sheet given by its rows: the first row as text,
/// and an empty row when the sheet has no rows.
pub fn header_row(rows: &Vec<Vec<Cell>>) -> (r: Vec<String>)
    ensures
        texts(r@) == header_of(rows@),
{
    if rows.len() == 0 {
        let out: Vec<String> = Vec::new();
        proof {
            assert(texts(out@) =~= Seq::empty());
        }
        out
    } else {
        row_texts(&rows[0])
    }
}

/// The answer to a header request, given what reading the workbook's
/// first worksheet gave: `None` when the workbook has no worksheet, an
/// error message when the sheet could not be read, or its rows.
pub fn header_from_sheet(first_sheet: Option<Result<Vec<Vec<Cell>>, String>>) -> (r: Result<
    RowsPayload,
    Error,
>)
    ensures
        first_sheet is None ==> (r matches Err(Error::Generic(m)) && m@ == no_sheet_message()),
        first_sheet matches Some(Err(e)) ==> (r matches Err(Error::Generic(m)) && m@ == e@),
        first_sheet matches Some(Ok(rows)) ==> (r matches Ok(p) && texts(p.rows@) == header_of(
            rows@,
        )),
{
    match first_sheet {
        None => {
            proof {
                reveal_strlit("No sheet found in excel file");
            }
            Err(Error::Generic(String::from_str("No sheet found in excel file")))
        },
        Some(Err(e)) => Err(Error::Generic(e)),
        Some(Ok(rows)) => Ok(RowsPayload { rows: header_row(&rows) }),
    }
}

} // verus!
