use alv_metrics::calendar::CalendarDate;
use alv_metrics::dates::DateField;
use alv_metrics::settings::{Args, DB_HOST, DB_PORT};

fn args(study_year_start: &str, date_after_nova: &str) -> Args {
    Args {
        db_name: "koala".to_string(),
        db_user: "koala_manual".to_string(),
        db_password: "geheim".to_string(),
        study_year_start: study_year_start.to_string(),
        date_after_nova: date_after_nova.to_string(),
    }
}

#[test]
fn opens_the_database_at_the_fixed_host_and_port() {
    assert_eq!(DB_HOST, "127.0.0.1");
    assert_eq!(DB_PORT, 5432);
    let target = args("2022-09-01", "2022-10-01").target();
    assert_eq!(target.host, "127.0.0.1");
    assert_eq!(target.port, 5432);
    assert_eq!(target.database, "koala");
    assert_eq!(target.user, "koala_manual");
    assert_eq!(target.password, "geheim");
}

#[test]
fn settles_a_run_with_two_dates() {
    let plan = args("2022-09-01", "2022-10-01").plan().unwrap();
    assert_eq!(plan.study_year_start, CalendarDate::new(2022, 9, 1).unwrap());
    assert_eq!(plan.date_after_nova, CalendarDate::new(2022, 10, 1).unwrap());
    assert_eq!(plan.target.host, DB_HOST);
    assert_eq!(plan.target.port, DB_PORT);
    assert_eq!(plan.target.database, "koala");
    assert_eq!(plan.target.user, "koala_manual");
    assert_eq!(plan.target.password, "geheim");
}

#[test]
fn settles_no_run_without_both_dates() {
    let error = args("2022-9-1", "2022-10-01").plan().err().unwrap();
    assert_eq!(error.field, DateField::StudyYearStart);
    assert_eq!(error.input, "2022-9-1");
    let error = args("2022-09-01", "2022-10-32").plan().err().unwrap();
    assert_eq!(error.field, DateField::DateAfterNova);
    assert_eq!(error.input, "2022-10-32");
    let error = args("", "").plan().err().unwrap();
    assert_eq!(error.field, DateField::StudyYearStart);
}
