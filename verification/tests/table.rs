use alv_metrics::rows::{CodeCount, JoinYearMembers, OnlyCount};
use alv_metrics::table::{
    code_count_records, code_count_table, join_year_records, join_year_table, only_count_records,
    only_count_table,
};
use std::borrow::Cow;
use tabled::{Table, Tabled};

fn code(code: &str, count: i64) -> CodeCount {
    CodeCount { code: code.to_string(), count }
}

struct CodeRow(&'static str, i64);

impl Tabled for CodeRow {
    const LENGTH: usize = 2;

    fn fields(&self) -> Vec<Cow<'_, str>> {
        vec![Cow::Owned(format!("{}", self.0)), Cow::Owned(format!("{}", self.1))]
    }

    fn headers() -> Vec<Cow<'static, str>> {
        vec![Cow::Borrowed("code"), Cow::Borrowed("count")]
    }
}

struct YearRow(i32, i64);

impl Tabled for YearRow {
    const LENGTH: usize = 2;

    fn fields(&self) -> Vec<Cow<'_, str>> {
        vec![Cow::Owned(format!("{}", self.0)), Cow::Owned(format!("{}", self.1))]
    }

    fn headers() -> Vec<Cow<'static, str>> {
        vec![Cow::Borrowed("join_year"), Cow::Borrowed("members")]
    }
}

struct CountRow(i64);

impl Tabled for CountRow {
    const LENGTH: usize = 1;

    fn fields(&self) -> Vec<Cow<'_, str>> {
        vec![Cow::Owned(format!("{}", self.0))]
    }

    fn headers() -> Vec<Cow<'static, str>> {
        vec![Cow::Borrowed("count")]
    }
}

#[test]
fn makes_a_record_of_each_row_under_the_header() {
    let records = code_count_records(&vec![code("TCS", 12), code("BIT", 0), code("", -3)]);
    assert_eq!(
        records,
        vec![vec!["code", "count"], vec!["TCS", "12"], vec!["BIT", "0"], vec!["", "-3"]]
    );
    assert_eq!(code_count_records(&Vec::new()), vec![vec!["code", "count"]]);

    let rows = vec![
        JoinYearMembers { join_year: 2010, members: 0 },
        JoinYearMembers { join_year: 2011, members: 57 },
    ];
    assert_eq!(
        join_year_records(&rows),
        vec![vec!["join_year", "members"], vec!["2010", "0"], vec!["2011", "57"]]
    );
    assert_eq!(join_year_records(&Vec::new()), vec![vec!["join_year", "members"]]);

    assert_eq!(only_count_records(&OnlyCount { count: 31 }), vec![vec!["count"], vec!["31"]]);
}

#[test]
fn lays_out_study_codes() {
    let text = code_count_table(&vec![code("TCS", 12), code("BIT", 3)]);
    let lines = [
        "+------+-------+",
        "| code | count |",
        "+------+-------+",
        "| TCS  | 12    |",
        "+------+-------+",
        "| BIT  | 3     |",
        "+------+-------+",
    ];
    assert_eq!(text, lines.join("\n"));
}

#[test]
fn lays_out_a_table_without_rows() {
    let text = code_count_table(&Vec::new());
    let lines = ["+------+-------+", "| code | count |", "+------+-------+"];
    assert_eq!(text, lines.join("\n"));
}

#[test]
fn lays_out_join_years_with_years_of_no_members() {
    let rows = vec![
        JoinYearMembers { join_year: 2010, members: 0 },
        JoinYearMembers { join_year: 2011, members: 140 },
        JoinYearMembers { join_year: 2012, members: 0 },
    ];
    let lines = [
        "+-----------+---------+",
        "| join_year | members |",
        "+-----------+---------+",
        "| 2010      | 0       |",
        "+-----------+---------+",
        "| 2011      | 140     |",
        "+-----------+---------+",
        "| 2012      | 0       |",
        "+-----------+---------+",
    ];
    assert_eq!(join_year_table(&rows), lines.join("\n"));
}

#[test]
fn lays_out_a_single_count() {
    let lines = ["+-------+", "| count |", "+-------+", "| 0     |", "+-------+"];
    assert_eq!(only_count_table(&OnlyCount { count: 0 }), lines.join("\n"));
    let lines = ["+---------+", "| count   |", "+---------+", "| 1234567 |", "+---------+"];
    assert_eq!(only_count_table(&OnlyCount { count: 1234567 }), lines.join("\n"));
}

#[test]
fn lays_out_as_a_table_of_rows_does() {
    let ours = code_count_table(&vec![code("TCS", 12), code("Mod 5", -3), code("", 0)]);
    let theirs = Table::new(vec![CodeRow("TCS", 12), CodeRow("Mod 5", -3), CodeRow("", 0)]);
    assert_eq!(ours, theirs.to_string());

    let ours = code_count_table(&Vec::new());
    let theirs = Table::new(Vec::<CodeRow>::new());
    assert_eq!(ours, theirs.to_string());

    let ours = join_year_table(&vec![
        JoinYearMembers { join_year: 2010, members: 0 },
        JoinYearMembers { join_year: 2023, members: 99 },
    ]);
    let theirs = Table::new(vec![YearRow(2010, 0), YearRow(2023, 99)]);
    assert_eq!(ours, theirs.to_string());

    let ours = only_count_table(&OnlyCount { count: 17 });
    let theirs = Table::new(vec![CountRow(17)]);
    assert_eq!(ours, theirs.to_string());
}
