//! A report as a run of steps: each step takes the reply to the query that
//! was asked last, hands back the lines to print for it and names the
//! query to ask next. The caller talks to the database and prints.

use crate::activities::{
    extern_activity_ids, extern_ids, is_extern_name, lemma_extern_ids_of_none,
};
use crate::calendar::CalendarDate;
use crate::queries::{Binding, Query, Shape, QUERY_COUNT};
use crate::rows::{
    sum_counts, sum_members, total_count, total_members, CodeCount, IdName, JoinYearMembers,
    OnlyCount,
};
use crate::table::{
    code_count_grid, code_count_table, join_year_grid, join_year_table, only_count_grid,
    only_count_table, table_text, texts,
};
use crate::text::{decimal, decimal_text};
use vstd::prelude::*;
use vstd::string::*;

verus! {

/// What stands before the total in the line under a table.
pub const SUM_LABEL: &'static str = "Sum: ";

/// What follows the total of the new active members per study code, where
/// a member with two studies is counted under both.
pub const DOUBLE_STUDY_NOTE: &'static str =
    " (Kan anders zijn dan het getal van A7, i.v.m dubbele studies)";

/// The values that a query is run with, in the order of its placeholders.
#[derive(Debug)]
pub enum Params {
    Nothing,
    Start(CalendarDate),
    StartAndCutoff(CalendarDate, CalendarDate),
    ActivityIds(Vec<i32>),
}

/// A query to run: which one, its text and its values.
#[derive(Debug)]
pub struct Request {
    pub query: Query,
    pub sql: String,
    pub params: Params,
}

/// The rows that came back for a query.
#[derive(Debug)]
pub enum Reply {
    CodeCounts(Vec<CodeCount>),
    Count(OnlyCount),
    JoinYears(Vec<JoinYearMembers>),
    Activities(Vec<IdName>),
}

/// What a step hands back: the lines to print, each on a line of its own,
/// and the query to run next, if the report is not complete.
#[derive(Debug)]
pub struct Step {
    pub lines: Vec<String>,
    pub next: Option<Request>,
}

/// Why a reply was not taken.
#[derive(Clone, Copy, Debug, PartialEq, Eq, Structural)]
pub enum ReportError {
    /// The report is complete: no reply is awaited.
    Finished,
    /// The rows are not of the shape that the awaited query returns.
    UnexpectedReply { awaited: Query, received: Shape },
}

/// A report in the making: the two dates it is made for and the query
/// whose reply it awaits.
#[derive(Debug)]
pub struct Report {
    start: CalendarDate,
    cutoff: CalendarDate,
    awaited: Option<Query>,
}

/// The line under a table that gives the total of its count column.
pub open spec fn summary_text(query: Query, total: int) -> Seq<char> {
    if query == Query::NewActiveDistribution {
        SUM_LABEL@ + decimal_text(total) + DOUBLE_STUDY_NOTE@
    } else {
        SUM_LABEL@ + decimal_text(total)
    }
}

/// The text of a line that may be absent.
pub open spec fn optional_text(line: Option<String>) -> Option<Seq<char>> {
    match line {
        Some(text) => Some(text@),
        None => None,
    }
}

/// The lines of a section: the heading, the table, the line with the total
/// where there is one, and an empty line.
pub open spec fn section_layout(
    title: Seq<char>,
    table: Seq<char>,
    summary: Option<Seq<char>>,
) -> Seq<Seq<char>> {
    match summary {
        Some(line) => seq![title, table, line, Seq::empty()],
        None => seq![title, table, Seq::empty()],
    }
}

/// The lines to print once `reply` has come back for `query`. Tables of
/// many rows are followed by the total of their count column; the looked-up
/// activities print nothing.
pub open spec fn section_lines(query: Query, reply: Reply) -> Seq<Seq<char>> {
    match reply {
        Reply::CodeCounts(rows) => section_layout(
            query.title_text(),
            table_text(code_count_grid(rows@)),
            Some(summary_text(query, total_count(rows@))),
        ),
        Reply::Count(row) => section_layout(
            query.title_text(),
            table_text(only_count_grid(row)),
            None,
        ),
        Reply::JoinYears(rows) => section_layout(
            query.title_text(),
            table_text(join_year_grid(rows@)),
            Some(summary_text(query, total_members(rows@))),
        ),
        Reply::Activities(_) => Seq::empty(),
    }
}

/// The ids that a reply yields for the query after it: those of the extern
/// activities among the rows of a lookup, none for any other reply.
pub open spec fn reply_ids(reply: Reply) -> Seq<i32> {
    match reply {
        Reply::Activities(activities) => extern_ids(activities@),
        _ => Seq::empty(),
    }
}

impl Params {
    /// The values are those that `binding` asks for, taken from the two
    /// dates and the ids.
    pub open spec fn fits(
        self,
        binding: Binding,
        start: CalendarDate,
        cutoff: CalendarDate,
        ids: Seq<i32>,
    ) -> bool {
        match binding {
            Binding::Nothing => self is Nothing,
            Binding::Start => self matches Params::Start(first) && first == start,
            Binding::StartAndCutoff => self matches Params::StartAndCutoff(first, second) && first
                == start && second == cutoff,
            Binding::ActivityIds => self matches Params::ActivityIds(given) && given@ == ids,
        }
    }
}

impl Request {
    /// The request is the one for `query`: its text, and its values taken
    /// from the two dates and the ids.
    pub open spec fn is_for(
        self,
        query: Query,
        start: CalendarDate,
        cutoff: CalendarDate,
        ids: Seq<i32>,
    ) -> bool {
        &&& self.query == query
        &&& self.sql@ == query.sql_text()
        &&& self.params.fits(query.binding(), start, cutoff, ids)
    }
}

impl Reply {
    /// The shape of the rows.
    pub open spec fn shape(self) -> Shape {
        match self {
            Reply::CodeCounts(_) => Shape::CodeCounts,
            Reply::Count(_) => Shape::Count,
            Reply::JoinYears(_) => Shape::JoinYears,
            Reply::Activities(_) => Shape::Activities,
        }
    }

    /// The shape of the rows.
    pub fn shape_of(&self) -> (shape: Shape)
        ensures
            shape == self.shape(),
    {
        match self {
            Reply::CodeCounts(_) => Shape::CodeCounts,
            Reply::Count(_) => Shape::Count,
            Reply::JoinYears(_) => Shape::JoinYears,
            Reply::Activities(_) => Shape::Activities,
        }
    }
}

/// The line under the table of `query` for the given total.
pub fn summary_line(query: Query, total: i128) -> (line: String)
    ensures
        line@ == summary_text(query, total as int),
{
    let mut line = String::from_str(SUM_LABEL);
    line.append(decimal(total).as_str());
    if query == Query::NewActiveDistribution {
        line.append(DOUBLE_STUDY_NOTE);
    }
    line
}

/// Puts a section together from its heading, its table and the line with
/// the total, where there is one.
pub fn section(title: &str, table: String, summary: Option<String>) -> (lines: Vec<String>)
    ensures
        texts(lines@) == section_layout(title@, table@, optional_text(summary)),
{
    let ghost wanted = section_layout(title@, table@, optional_text(summary));
    let mut lines = Vec::new();
    lines.push(String::from_str(title));
    lines.push(table);
    match summary {
        Some(line) => {
            lines.push(line);
        },
        None => {},
    }
    lines.push(String::new());
    assert(texts(lines@) =~= wanted);
    lines
}

/// The lines to print once `reply` has come back for `query`.
pub fn render_reply(query: Query, reply: &Reply) -> (lines: Vec<String>)
    ensures
        texts(lines@) == section_lines(query, *reply),
{
    match reply {
        Reply::CodeCounts(rows) => section(
            query.title(),
            code_count_table(rows),
            Some(summary_line(query, sum_counts(rows))),
        ),
        Reply::Count(row) => section(query.title(), only_count_table(row), None),
        Reply::JoinYears(rows) => section(
            query.title(),
            join_year_table(rows),
            Some(summary_line(query, sum_members(rows))),
        ),
        Reply::Activities(_) => {
            let lines: Vec<String> = Vec::new();
            assert(texts(lines@) =~= Seq::<Seq<char>>::empty());
            lines
        },
    }
}

/// The request for `query`, with its values taken from the two dates and
/// the ids.
pub fn request_for(query: Query, start: CalendarDate, cutoff: CalendarDate, ids: Vec<i32>) -> (request:
    Request)
    ensures
        request.is_for(query, start, cutoff, ids@),
{
    let params = match query.bound_to() {
        Binding::Nothing => Params::Nothing,
        Binding::Start => Params::Start(start),
        Binding::StartAndCutoff => Params::StartAndCutoff(start, cutoff),
        Binding::ActivityIds => Params::ActivityIds(ids),
    };
    Request { query, sql: query.sql(), params }
}

impl Report {
    /// The first day of the study year that the report is made for.
    pub closed spec fn start_date(self) -> CalendarDate {
        self.start
    }

    /// The day after the last introduction activity.
    pub closed spec fn cutoff_date(self) -> CalendarDate {
        self.cutoff
    }

    /// The query whose reply the report awaits; none once it is complete.
    pub closed spec fn awaited_query(self) -> Option<Query> {
        self.awaited
    }

    /// The number of replies that the report still needs.
    pub open spec fn remaining(self) -> int {
        match self.awaited_query() {
            Some(query) => QUERY_COUNT - query.position(),
            None => 0,
        }
    }

    /// Starts a report for the two dates, and hands back the first query
    /// to run.
    pub fn begin(start: CalendarDate, cutoff: CalendarDate) -> (begun: (Report, Request))
        ensures
            begun.0.start_date() == start,
            begun.0.cutoff_date() == cutoff,
            begun.0.awaited_query() == Some(Query::StudyDistribution),
            begun.0.remaining() == QUERY_COUNT,
            begun.1.is_for(Query::StudyDistribution, start, cutoff, Seq::empty()),
    {
        let query = Query::first();
        (Report { start, cutoff, awaited: Some(query) }, request_for(query, start, cutoff, Vec::new()))
    }

    /// The first day of the study year that the report is made for.
    pub fn start(&self) -> (date: CalendarDate)
        ensures
            date == self.start_date(),
    {
        self.start
    }

    /// The day after the last introduction activity.
    pub fn cutoff(&self) -> (date: CalendarDate)
        ensures
            date == self.cutoff_date(),
    {
        self.cutoff
    }

    /// The query whose reply the report awaits; none once it is complete.
    pub fn awaited(&self) -> (query: Option<Query>)
        ensures
            query == self.awaited_query(),
    {
        self.awaited
    }

    /// Whether every query has been answered.
    pub fn is_complete(&self) -> (complete: bool)
        ensures
            complete == (self.awaited_query() is None),
            complete == (self.remaining() == 0),
    {
        self.awaited.is_none()
    }

    /// Takes the reply to the awaited query.
    ///
    /// Where the rows have the shape that the query returns, the step
    /// holds the lines of the query's section and the request for the
    /// query that follows, made with the two dates of the report and, after
    /// the lookup of activities, with the ids of the extern ones, however
    /// many they are. The report then awaits that query, or is complete
    /// after the last one. Any other reply is refused, and the report
    /// stays as it was.
    pub fn advance(&mut self, reply: Reply) -> (outcome: Result<Step, ReportError>)
        ensures
            final(self).start_date() == old(self).start_date(),
            final(self).cutoff_date() == old(self).cutoff_date(),
            match old(self).awaited_query() {
                None => {
                    &&& outcome == Err::<Step, ReportError>(ReportError::Finished)
                    &&& final(self).awaited_query() is None
                },
                Some(query) => if reply.shape() != query.shape() {
                    &&& outcome == Err::<Step, ReportError>(
                        ReportError::UnexpectedReply { awaited: query, received: reply.shape() },
                    )
                    &&& final(self).awaited_query() == Some(query)
                } else {
                    &&& outcome matches Ok(step)
                    &&& texts(step.lines@) == section_lines(query, reply)
                    &&& final(self).awaited_query() == query.successor()
                    &&& final(self).remaining() == old(self).remaining() - 1
                    &&& match query.successor() {
                        Some(following) => step.next matches Some(request) && request.is_for(
                            following,
                            old(self).start_date(),
                            old(self).cutoff_date(),
                            reply_ids(reply),
                        ),
                        None => step.next is None,
                    }
                },
            },
    {
        let query = match self.awaited {
            Some(query) => query,
            None => {
                return Err(ReportError::Finished);
            },
        };
        let received = reply.shape_of();
        if received != query.reply_shape() {
            return Err(ReportError::UnexpectedReply { awaited: query, received });
        }
        let lines = render_reply(query, &reply);
        let following = query.next();
        let next = match following {
            Some(following) => {
                let ids = match &reply {
                    Reply::Activities(activities) => extern_activity_ids(activities),
                    _ => Vec::new(),
                };
                Some(request_for(following, self.start, self.cutoff, ids))
            },
            None => None,
        };
        self.awaited = following;
        Ok(Step { lines, next })
    }
}

/// The line under a table is made of the exact total of the rows shown.
pub proof fn lemma_sum_line_is_total(query: Query, reply: Reply)
    ensures
        reply matches Reply::CodeCounts(rows) ==> section_lines(query, reply)[2] == summary_text(
            query,
            total_count(rows@),
        ),
        reply matches Reply::JoinYears(rows) ==> section_lines(query, reply)[2] == summary_text(
            query,
            total_members(rows@),
        ),
{
}

/// Rows that are none add up to 0, and the line under their table reads
/// `Sum: 0`, before the note where the section has one.
pub proof fn lemma_summary_of_no_rows(query: Query)
    ensures
        total_count(Seq::empty()) == 0,
        total_members(Seq::empty()) == 0,
        summary_text(query, 0) == if query == Query::NewActiveDistribution {
            SUM_LABEL@ + seq!['0'] + DOUBLE_STUDY_NOTE@
        } else {
            SUM_LABEL@ + seq!['0']
        },
{
    assert(decimal_text(0) =~= seq!['0']);
}

/// The lookup of activities prints nothing and is always followed by the
/// count of their participants, run with the ids of the extern ones: with
/// no id at all where no activity has an extern name.
pub proof fn lemma_lookup_then_count(activities: Vec<IdName>)
    ensures
        section_lines(Query::ExternActivities, Reply::Activities(activities)).len() == 0,
        Query::ExternActivities.successor() == Some(Query::ExternParticipants),
        Query::ExternParticipants.binding() == Binding::ActivityIds,
        (forall|i: int|
            0 <= i < activities@.len() ==> !is_extern_name(
                #[trigger] activities@[i].name@,
            )) ==> reply_ids(Reply::Activities(activities)).len() == 0,
{
    if forall|i: int|
        0 <= i < activities@.len() ==> !is_extern_name(
            #[trigger] activities@[i].name@,
        ) {
        lemma_extern_ids_of_none(activities@);
    }
}

} // verus!
