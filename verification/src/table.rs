//! Rows laid out as a table of text.

use crate::rows::{CodeCount, JoinYearMembers, OnlyCount};
use crate::text::{decimal, decimal_text};
use vstd::prelude::*;
use vstd::string::*;

verus! {

/// The texts that a row of cells holds.
pub open spec fn texts(cells: Seq<String>) -> Seq<Seq<char>> {
    cells.map_values(|cell: String| cell@)
}

/// The texts that the records of a table hold, row by row.
pub open spec fn grid(records: Seq<Vec<String>>) -> Seq<Seq<Seq<char>>> {
    records.map_values(|cells: Vec<String>| texts(cells@))
}

/// The text that the `tabled` crate lays out for the given records, the
/// first of which is the header.
pub uninterp spec fn table_text(records: Seq<Seq<Seq<char>>>) -> Seq<char>;

/// Lays out the records with `tabled::builder::Builder::from`, `build` and
/// the table's `to_string`, in the crate's default style.
///
/// Trusted: the text is a function of the cells' texts.
#[verifier::external_body]
fn render_table(records: Vec<Vec<String>>) -> (text: String)
    ensures
        text@ == table_text(grid(records@)),
{
    tabled::builder::Builder::from(records).build().to_string()
}

/// The cells of one row of study codes.
pub open spec fn code_count_cells(row: CodeCount) -> Seq<Seq<char>> {
    seq![row.code@, decimal_text(row.count as int)]
}

/// The cells of one row of join years.
pub open spec fn join_year_cells(row: JoinYearMembers) -> Seq<Seq<char>> {
    seq![decimal_text(row.join_year as int), decimal_text(row.members as int)]
}

/// The records of a table of study codes: the header, then one record for
/// each row, in the order of the rows, none left out.
pub open spec fn code_count_grid(rows: Seq<CodeCount>) -> Seq<Seq<Seq<char>>> {
    seq![seq!["code"@, "count"@]] + rows.map_values(|row: CodeCount| code_count_cells(row))
}

/// The records of a table of join years: the header, then one record for
/// each row, in the order of the rows, none left out.
pub open spec fn join_year_grid(rows: Seq<JoinYearMembers>) -> Seq<Seq<Seq<char>>> {
    seq![seq!["join_year"@, "members"@]] + rows.map_values(
        |row: JoinYearMembers| join_year_cells(row),
    )
}

/// The records of a table of a single count.
pub open spec fn only_count_grid(row: OnlyCount) -> Seq<Seq<Seq<char>>> {
    seq![seq!["count"@], seq![decimal_text(row.count as int)]]
}

/// A table of study codes shows every row, in the order of the rows:
/// whatever its count, the row at place `i` is the record under the header
/// and the `i` rows before it.
pub proof fn lemma_code_count_rows_shown(rows: Seq<CodeCount>, i: int)
    requires
        0 <= i < rows.len(),
    ensures
        code_count_grid(rows).len() == rows.len() + 1,
        code_count_grid(rows)[i + 1] == code_count_cells(rows[i]),
{
}

/// A table of join years shows every row, in the order of the rows: also
/// a year without members is the record under the header and the rows
/// before it.
pub proof fn lemma_join_year_rows_shown(rows: Seq<JoinYearMembers>, i: int)
    requires
        0 <= i < rows.len(),
    ensures
        join_year_grid(rows).len() == rows.len() + 1,
        join_year_grid(rows)[i + 1] == join_year_cells(rows[i]),
{
}

fn pair(first: String, second: String) -> (cells: Vec<String>)
    ensures
        texts(cells@) == seq![first@, second@],
{
    let mut cells = Vec::new();
    cells.push(first);
    cells.push(second);
    assert(texts(cells@) =~= seq![first@, second@]);
    cells
}

fn single(only: String) -> (cells: Vec<String>)
    ensures
        texts(cells@) == seq![only@],
{
    let mut cells = Vec::new();
    cells.push(only);
    assert(texts(cells@) =~= seq![only@]);
    cells
}

/// The records of a table of study codes.
pub fn code_count_records(rows: &Vec<CodeCount>) -> (records: Vec<Vec<String>>)
    ensures
        grid(records@) == code_count_grid(rows@),
{
    let mut records = Vec::new();
    records.push(pair(String::from_str("code"), String::from_str("count")));
    let mut i: usize = 0;
    while i < rows.len()
        invariant
            i <= rows.len(),
            records@.len() == i + 1,
            texts(records@[0]@) == seq!["code"@, "count"@],
            forall|k: int| 1 <= k <= i ==> texts(#[trigger] records@[k]@) == code_count_cells(rows@[k - 1]),
        decreases rows.len() - i,
    {
        let row = &rows[i];
        records.push(pair(row.code.clone(), decimal(row.count as i128)));
        i = i + 1;
    }
    assert forall|k: int| 0 <= k < records@.len() implies grid(records@)[k] == code_count_grid(
        rows@,
    )[k] by {
        assert(grid(records@)[k] == texts(records@[k]@));
    }
    assert(grid(records@) =~= code_count_grid(rows@));
    records
}

/// The records of a table of join years.
pub fn join_year_records(rows: &Vec<JoinYearMembers>) -> (records: Vec<Vec<String>>)
    ensures
        grid(records@) == join_year_grid(rows@),
{
    let mut records = Vec::new();
    records.push(pair(String::from_str("join_year"), String::from_str("members")));
    let mut i: usize = 0;
    while i < rows.len()
        invariant
            i <= rows.len(),
            records@.len() == i + 1,
            texts(records@[0]@) == seq!["join_year"@, "members"@],
            forall|k: int| 1 <= k <= i ==> texts(#[trigger] records@[k]@) == join_year_cells(rows@[k - 1]),
        decreases rows.len() - i,
    {
        let row = &rows[i];
        records.push(pair(decimal(row.join_year as i128), decimal(row.members as i128)));
        i = i + 1;
    }
    assert forall|k: int| 0 <= k < records@.len() implies grid(records@)[k] == join_year_grid(
        rows@,
    )[k] by {
        assert(grid(records@)[k] == texts(records@[k]@));
    }
    assert(grid(records@) =~= join_year_grid(rows@));
    records
}

/// The records of a table of a single count.
pub fn only_count_records(row: &OnlyCount) -> (records: Vec<Vec<String>>)
    ensures
        grid(records@) == only_count_grid(*row),
{
    let mut records = Vec::new();
    records.push(single(String::from_str("count")));
    records.push(single(decimal(row.count as i128)));
    assert(grid(records@) =~= only_count_grid(*row));
    records
}

/// Lays out rows of study codes as a table under the header `code`,
/// `count`.
pub fn code_count_table(rows: &Vec<CodeCount>) -> (text: String)
    ensures
        text@ == table_text(code_count_grid(rows@)),
{
    render_table(code_count_records(rows))
}

/// Lays out rows of join years as a table under the header `join_year`,
/// `members`.
pub fn join_year_table(rows: &Vec<JoinYearMembers>) -> (text: String)
    ensures
        text@ == table_text(join_year_grid(rows@)),
{
    render_table(join_year_records(rows))
}

/// Lays out a single count as a table under the header `count`.
pub fn only_count_table(row: &OnlyCount) -> (text: String)
    ensures
        text@ == table_text(only_count_grid(*row)),
{
    render_table(only_count_records(row))
}

} // verus!
