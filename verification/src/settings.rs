//! What a run is started with, and what is settled before the database is
//! touched.

use crate::calendar::CalendarDate;
use crate::dates::{date_of, parse_dates, DateError, DateField};
use vstd::prelude::*;
use vstd::string::*;

verus! {

/// The host of the database. It is fixed.
pub const DB_HOST: &'static str = "127.0.0.1";

/// The port of the database. It is fixed.
pub const DB_PORT: u16 = 5432;

/// The arguments of a run, in the order in which they are given.
pub struct Args {
    /// The name of the database.
    pub db_name: String,
    /// The user to open the database as.
    pub db_user: String,
    /// The password of that user.
    pub db_password: String,
    /// The first day of the study year, written as year, month and day.
    pub study_year_start: String,
    /// The day after the last introduction activity, written likewise.
    pub date_after_nova: String,
}

/// Where and as whom to open the database.
pub struct Target {
    pub host: String,
    pub port: u16,
    pub database: String,
    pub user: String,
    pub password: String,
}

/// All that a run needs before it opens the database.
pub struct Plan {
    pub target: Target,
    pub study_year_start: CalendarDate,
    pub date_after_nova: CalendarDate,
}

impl Target {
    /// The target is the fixed host and port, with the database, user and
    /// password of `args`.
    pub open spec fn is_of(self, args: Args) -> bool {
        &&& self.host@ == DB_HOST@
        &&& self.port == DB_PORT
        &&& self.database@ == args.db_name@
        &&& self.user@ == args.db_user@
        &&& self.password@ == args.db_password@
    }
}

impl Args {
    /// Where and as whom to open the database: at the fixed host and port,
    /// with the database, user and password as given.
    pub fn target(&self) -> (target: Target)
        ensures
            target.is_of(*self),
    {
        Target {
            host: String::from_str(DB_HOST),
            port: DB_PORT,
            database: self.db_name.clone(),
            user: self.db_user.clone(),
            password: self.db_password.clone(),
        }
    }

    /// Settles a run: reads the two dates, and only where both are dates
    /// hands out where to open the database.
    ///
    /// A failure is that of the start of the study year where that text is
    /// no date, else that of the other one.
    pub fn plan(&self) -> (outcome: Result<Plan, DateError>)
        ensures
            match outcome {
                Ok(plan) => {
                    &&& plan.target.is_of(*self)
                    &&& plan.study_year_start.wf()
                    &&& plan.date_after_nova.wf()
                    &&& date_of(self.study_year_start@) == Some(plan.study_year_start.ymd())
                    &&& date_of(self.date_after_nova@) == Some(plan.date_after_nova.ymd())
                },
                Err(error) => if date_of(self.study_year_start@) is None {
                    error.field == DateField::StudyYearStart && error.input@
                        == self.study_year_start@
                } else {
                    &&& date_of(self.date_after_nova@) is None
                    &&& error.field == DateField::DateAfterNova
                    &&& error.input@ == self.date_after_nova@
                },
            },
    {
        match parse_dates(self.study_year_start.as_str(), self.date_after_nova.as_str()) {
            Ok((study_year_start, date_after_nova)) => Ok(
                Plan { target: self.target(), study_year_start, date_after_nova },
            ),
            Err(error) => Err(error),
        }
    }
}

} // verus!
