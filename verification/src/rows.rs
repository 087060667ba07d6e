//! The rows that the queries of a report return, and the totals taken of
//! their count columns.

use vstd::prelude::*;

verus! {

/// The number of members counted under one study code.
#[derive(Debug)]
pub struct CodeCount {
    pub code: String,
    pub count: i64,
}

/// The number of members who joined in the year that starts in `join_year`.
#[derive(Clone, Copy, Debug, PartialEq, Eq, Structural)]
pub struct JoinYearMembers {
    pub join_year: i32,
    pub members: i64,
}

/// A single count.
#[derive(Clone, Copy, Debug, PartialEq, Eq, Structural)]
pub struct OnlyCount {
    pub count: i64,
}

/// An activity, by its id and its name.
#[derive(Debug)]
pub struct IdName {
    pub id: i32,
    pub name: String,
}

/// The sum of the count column of `rows`.
pub open spec fn total_count(rows: Seq<CodeCount>) -> int
    decreases rows.len(),
{
    if rows.len() == 0 {
        0
    } else {
        total_count(rows.drop_last()) + rows.last().count
    }
}

/// The sum of the members column of `rows`.
pub open spec fn total_members(rows: Seq<JoinYearMembers>) -> int
    decreases rows.len(),
{
    if rows.len() == 0 {
        0
    } else {
        total_members(rows.drop_last()) + rows.last().members
    }
}

/// The total of a count column lies within the number of rows times the
/// largest magnitude of one count.
pub proof fn lemma_total_count_bounds(rows: Seq<CodeCount>)
    ensures
        -0x8000_0000_0000_0000 * rows.len() <= total_count(rows) <= 0x7fff_ffff_ffff_ffff
            * rows.len(),
    decreases rows.len(),
{
    if rows.len() > 0 {
        lemma_total_count_bounds(rows.drop_last());
    }
}

/// The total of a members column lies within the number of rows times the
/// largest magnitude of one count.
pub proof fn lemma_total_members_bounds(rows: Seq<JoinYearMembers>)
    ensures
        -0x8000_0000_0000_0000 * rows.len() <= total_members(rows) <= 0x7fff_ffff_ffff_ffff
            * rows.len(),
    decreases rows.len(),
{
    if rows.len() > 0 {
        lemma_total_members_bounds(rows.drop_last());
    }
}

/// The total over two runs of rows, one after the other, is the sum of
/// their totals.
pub proof fn lemma_total_count_concat(first: Seq<CodeCount>, second: Seq<CodeCount>)
    ensures
        total_count(first + second) == total_count(first) + total_count(second),
    decreases second.len(),
{
    if second.len() == 0 {
        assert(first + second =~= first);
    } else {
        lemma_total_count_concat(first, second.drop_last());
        assert((first + second).drop_last() =~= first + second.drop_last());
    }
}

/// The total over two runs of rows, one after the other, is the sum of
/// their totals.
pub proof fn lemma_total_members_concat(first: Seq<JoinYearMembers>, second: Seq<JoinYearMembers>)
    ensures
        total_members(first + second) == total_members(first) + total_members(second),
    decreases second.len(),
{
    if second.len() == 0 {
        assert(first + second =~= first);
    } else {
        lemma_total_members_concat(first, second.drop_last());
        assert((first + second).drop_last() =~= first + second.drop_last());
    }
}

/// Adds up the count column of `rows`: the exact total, whatever the rows
/// hold, and 0 where there are none.
pub fn sum_counts(rows: &Vec<CodeCount>) -> (total: i128)
    ensures
        total == total_count(rows@),
{
    let mut total: i128 = 0;
    let mut i: usize = 0;
    while i < rows.len()
        invariant
            i <= rows.len(),
            total == total_count(rows@.take(i as int)),
        decreases rows.len() - i,
    {
        proof {
            lemma_total_count_bounds(rows@.take(i as int));
            assert(rows@.take(i + 1).drop_last() =~= rows@.take(i as int));
        }
        total = total + rows[i].count as i128;
        i = i + 1;
    }
    assert(rows@.take(i as int) =~= rows@);
    total
}

/// Adds up the members column of `rows`: the exact total, whatever the
/// rows hold, and 0 where there are none.
pub fn sum_members(rows: &Vec<JoinYearMembers>) -> (total: i128)
    ensures
        total == total_members(rows@),
{
    let mut total: i128 = 0;
    let mut i: usize = 0;
    while i < rows.len()
        invariant
            i <= rows.len(),
            total == total_members(rows@.take(i as int)),
        decreases rows.len() - i,
    {
        proof {
            lemma_total_members_bounds(rows@.take(i as int));
            assert(rows@.take(i + 1).drop_last() =~= rows@.take(i as int));
        }
        total = total + rows[i].members as i128;
        i = i + 1;
    }
    assert(rows@.take(i as int) =~= rows@);
    total
}

} // verus!
