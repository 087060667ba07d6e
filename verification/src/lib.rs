//! Report logic for the yearly membership metrics of a study association.
//!
//! The library parses the two dates a report is made for, walks the fixed
//! sequence of queries that make up the report, picks the "extern"
//! activities by name, sums count columns and lays out each section as
//! text. Talking to the database and printing are left to the caller.

pub mod calendar;
pub mod dates;
pub mod text;
pub mod rows;
pub mod table;
pub mod activities;
pub mod queries;
pub mod report;
pub mod settings;

pub use crate::calendar::CalendarDate;
pub use crate::report::{Params, Reply, Report, ReportError, Request, Step};
pub use crate::rows::{CodeCount, IdName, JoinYearMembers, OnlyCount};
pub use crate::settings::{Args, Plan, Target};
