//! The queries of a report: their order, their text, what each one is
//! given and what it returns.

use crate::text::{decimal, decimal_text};
use vstd::prelude::*;
use vstd::string::*;

verus! {

/// Studies with an id below this one are bachelor's programmes.
pub const BACHELOR_BELOW: i32 = 5;

/// Studies with an id above this one are master's programmes.
pub const MASTER_ABOVE: i32 = 4;

/// The two kinds of study programme.
#[derive(Clone, Copy, Debug, PartialEq, Eq, Structural)]
pub enum StudyLevel {
    Bachelor,
    Master,
}

/// Whether a study id is that of a bachelor's programme.
pub open spec fn is_bachelor(study_id: int) -> bool {
    study_id < BACHELOR_BELOW
}

/// Whether a study id is that of a master's programme.
pub open spec fn is_master(study_id: int) -> bool {
    study_id > MASTER_ABOVE
}

/// Every study id is that of a bachelor's programme or of a master's
/// programme, and never of both.
pub proof fn lemma_levels_partition(study_id: int)
    ensures
        is_bachelor(study_id) != is_master(study_id),
{
}

/// The level of the study with the given id.
pub fn study_level(study_id: i32) -> (level: StudyLevel)
    ensures
        level == StudyLevel::Bachelor <==> is_bachelor(study_id as int),
        level == StudyLevel::Master <==> is_master(study_id as int),
{
    if study_id < BACHELOR_BELOW {
        StudyLevel::Bachelor
    } else {
        StudyLevel::Master
    }
}

/// The queries that make up a report, in the order in which they are run.
#[derive(Clone, Copy, Debug, PartialEq, Eq, Structural)]
pub enum Query {
    /// A2: active enrolments per study code.
    StudyDistribution,
    /// A3: members who joined since the start of the study year.
    NewMembers,
    /// A4: new members in a bachelor's programme.
    NewBachelors,
    /// A5: new members in a master's programme.
    NewMasters,
    /// A6: new members per study code.
    NewMemberDistribution,
    /// A7: new members who are in a group.
    NewActiveMembers,
    /// A8: members per year of joining, since 2010.
    JoinYears,
    /// A11: new members who are in a group, per study code.
    NewActiveDistribution,
    /// A12: new members who took part in an activity after the cutoff.
    NewMembersAtActivities,
    /// The activities since the start of the study year, from which the
    /// extern ones are picked for A13.
    ExternActivities,
    /// A13: members who took part in one of the picked activities.
    ExternParticipants,
}

/// What the rows of a reply look like.
#[derive(Clone, Copy, Debug, PartialEq, Eq, Structural)]
pub enum Shape {
    /// Any number of rows of a study code and a count.
    CodeCounts,
    /// One row with one count.
    Count,
    /// Any number of rows of a year and a count.
    JoinYears,
    /// Any number of rows of an activity's id and name.
    Activities,
}

/// What a query is given.
#[derive(Clone, Copy, Debug, PartialEq, Eq, Structural)]
pub enum Binding {
    /// Nothing.
    Nothing,
    /// The start of the study year.
    Start,
    /// The start of the study year, then the cutoff date.
    StartAndCutoff,
    /// The ids of the picked activities.
    ActivityIds,
}

/// The members with an active enrolment, counted per study code.
pub const STUDY_DISTRIBUTION_SQL: &'static str =
    "SELECT studies.code, COUNT(DISTINCT(members.id)) FROM members \
     JOIN educations ON members.id = educations.member_id \
     JOIN studies ON educations.study_id = studies.id \
     WHERE educations.status = 0 \
     GROUP BY studies.code";

/// The members with an active enrolment who joined after the start of
/// the study year.
pub const NEW_MEMBERS_SQL: &'static str =
    "SELECT COUNT(DISTINCT(members.id)) FROM members \
     JOIN educations ON members.id = educations.member_id \
     JOIN studies ON educations.study_id = studies.id \
     WHERE educations.status = 0 AND members.join_date > $1";

/// The query for the new bachelor students, up to the study id that
/// bounds them.
pub const NEW_BACHELORS_SQL_STEM: &'static str =
    "SELECT COUNT(DISTINCT(members.id)) FROM members \
     INNER JOIN educations ON members.id = educations.member_id \
     WHERE members.join_date > $1 AND educations.study_id < ";

/// The query for the new master students, up to the study id that bounds
/// them.
pub const NEW_MASTERS_SQL_STEM: &'static str =
    "SELECT COUNT(DISTINCT(members.id)) FROM members \
     INNER JOIN educations ON members.id = educations.member_id \
     WHERE members.join_date > $1 AND educations.study_id > ";

/// The members with an active enrolment who joined after the start of
/// the study year, counted per study code.
pub const NEW_MEMBER_DISTRIBUTION_SQL: &'static str =
    "SELECT studies.code, COUNT(DISTINCT(members.id)) FROM members \
     JOIN educations ON members.id = educations.member_id \
     JOIN studies ON educations.study_id = studies.id \
     WHERE educations.status = 0 AND members.join_date > $1 \
     GROUP BY studies.code";

/// The members in a group who joined after the start of the study year.
pub const NEW_ACTIVE_MEMBERS_SQL: &'static str =
    "SELECT COUNT(DISTINCT(member_id)) FROM members \
     INNER JOIN group_members ON members.id = group_members.member_id \
     WHERE members.join_date > $1";

/// The members per year of joining: one row for each year that starts on
/// the first of August, from 2010 up to the start of the study year, also
/// for a year in which nobody joined.
pub const JOIN_YEARS_SQL: &'static str =
    "SELECT EXTRACT(YEAR FROM generate_series)::int AS join_year, \
     COUNT(DISTINCT(members.id)) FILTER (\
     WHERE members.join_date > generate_series \
     AND members.join_date <= generate_series + interval '1 year') AS members \
     FROM generate_series('2010-08-01'::date, $1::date, '1 year') AS generate_series \
     LEFT JOIN members ON members.join_date > generate_series \
     AND members.join_date <= generate_series + interval '1 year' \
     GROUP BY join_year";

/// The members in a group with an active enrolment who joined after the
/// start of the study year, counted per study code.
pub const NEW_ACTIVE_DISTRIBUTION_SQL: &'static str =
    "SELECT studies.code, COUNT(DISTINCT(members.id)) FROM members \
     INNER JOIN group_members ON members.id = group_members.member_id \
     JOIN educations ON members.id = educations.member_id \
     JOIN studies ON educations.study_id = studies.id \
     WHERE educations.status = 0 AND members.join_date > $1 \
     GROUP BY studies.code";

/// The members who joined after the start of the study year and took part
/// in an activity that started after the cutoff date.
pub const NEW_MEMBERS_AT_ACTIVITIES_SQL: &'static str =
    "SELECT COUNT(DISTINCT(lid_id)) FROM (\
     SELECT DISTINCT(members.id) AS lid_id, members.first_name, members.last_name, \
     participants.activity_id FROM members \
     INNER JOIN participants ON members.id = participants.member_id \
     WHERE members.join_date > $1) AS dinges \
     INNER JOIN activities ON dinges.activity_id = activities.id \
     WHERE activities.start_date > $2";

/// The activities that started after the start of the study year.
pub const EXTERN_ACTIVITIES_SQL: &'static str =
    "SELECT id, name FROM activities WHERE start_date > $1";

/// The members who took part in one of the activities whose ids are
/// given.
pub const EXTERN_PARTICIPANTS_SQL: &'static str =
    "SELECT COUNT(DISTINCT(lid_id)) FROM (\
     SELECT DISTINCT(members.id) AS lid_id, participants.activity_id FROM members \
     INNER JOIN participants ON members.id = participants.member_id) AS dinges \
     INNER JOIN activities ON dinges.activity_id = activities.id \
     WHERE activities.id IN (SELECT unnest($1::integer[]))";

/// The number of queries in a report.
pub const QUERY_COUNT: u8 = 11;

impl Query {
    /// The place of the query in the run, from 0.
    pub open spec fn position(self) -> int {
        match self {
            Query::StudyDistribution => 0,
            Query::NewMembers => 1,
            Query::NewBachelors => 2,
            Query::NewMasters => 3,
            Query::NewMemberDistribution => 4,
            Query::NewActiveMembers => 5,
            Query::JoinYears => 6,
            Query::NewActiveDistribution => 7,
            Query::NewMembersAtActivities => 8,
            Query::ExternActivities => 9,
            Query::ExternParticipants => 10,
        }
    }

    /// The query that is run after this one, if any.
    pub open spec fn successor(self) -> Option<Query> {
        match self {
            Query::StudyDistribution => Some(Query::NewMembers),
            Query::NewMembers => Some(Query::NewBachelors),
            Query::NewBachelors => Some(Query::NewMasters),
            Query::NewMasters => Some(Query::NewMemberDistribution),
            Query::NewMemberDistribution => Some(Query::NewActiveMembers),
            Query::NewActiveMembers => Some(Query::JoinYears),
            Query::JoinYears => Some(Query::NewActiveDistribution),
            Query::NewActiveDistribution => Some(Query::NewMembersAtActivities),
            Query::NewMembersAtActivities => Some(Query::ExternActivities),
            Query::ExternActivities => Some(Query::ExternParticipants),
            Query::ExternParticipants => None,
        }
    }

    /// What the rows of the query's reply look like.
    pub open spec fn shape(self) -> Shape {
        match self {
            Query::StudyDistribution
            | Query::NewMemberDistribution
            | Query::NewActiveDistribution => Shape::CodeCounts,
            Query::JoinYears => Shape::JoinYears,
            Query::ExternActivities => Shape::Activities,
            _ => Shape::Count,
        }
    }

    /// What the query is given.
    pub open spec fn binding(self) -> Binding {
        match self {
            Query::StudyDistribution => Binding::Nothing,
            Query::NewMembersAtActivities => Binding::StartAndCutoff,
            Query::ExternParticipants => Binding::ActivityIds,
            _ => Binding::Start,
        }
    }

    /// The heading of the section that the query serves.
    pub open spec fn title_text(self) -> Seq<char> {
        match self {
            Query::StudyDistribution => "A2 - Verdeling studies"@,
            Query::NewMembers => "A3 - Nieuwe leden"@,
            Query::NewBachelors => "A4 - Nieuwe bachelor"@,
            Query::NewMasters => "A5 - Nieuew master"@,
            Query::NewMemberDistribution => "A6 - Verdeling studies nieuwe leden"@,
            Query::NewActiveMembers => "A7 - Nieuwe actieve leden"@,
            Query::JoinYears => "A8 - Nieuwe leden sinds 2010"@,
            Query::NewActiveDistribution => "A11 - Verdeling nieuwe actieve leden"@,
            Query::NewMembersAtActivities => "A12 - Sjaars bij activiteiten"@,
            Query::ExternActivities | Query::ExternParticipants =>
                "A13 - Leden bij Extern activiteiten"@,
        }
    }

    /// The text of the query. The two study ids that part bachelor's from
    /// master's programmes stand in the text in decimal.
    pub open spec fn sql_text(self) -> Seq<char> {
        match self {
            Query::StudyDistribution => STUDY_DISTRIBUTION_SQL@,
            Query::NewMembers => NEW_MEMBERS_SQL@,
            Query::NewBachelors => NEW_BACHELORS_SQL_STEM@ + decimal_text(BACHELOR_BELOW as int),
            Query::NewMasters => NEW_MASTERS_SQL_STEM@ + decimal_text(MASTER_ABOVE as int),
            Query::NewMemberDistribution => NEW_MEMBER_DISTRIBUTION_SQL@,
            Query::NewActiveMembers => NEW_ACTIVE_MEMBERS_SQL@,
            Query::JoinYears => JOIN_YEARS_SQL@,
            Query::NewActiveDistribution => NEW_ACTIVE_DISTRIBUTION_SQL@,
            Query::NewMembersAtActivities => NEW_MEMBERS_AT_ACTIVITIES_SQL@,
            Query::ExternActivities => EXTERN_ACTIVITIES_SQL@,
            Query::ExternParticipants => EXTERN_PARTICIPANTS_SQL@,
        }
    }

    /// The query that a report starts with.
    pub fn first() -> (query: Query)
        ensures
            query == Query::StudyDistribution,
            query.position() == 0,
    {
        Query::StudyDistribution
    }

    /// The place of the query in the run, from 0.
    pub fn index(self) -> (place: u8)
        ensures
            place == self.position(),
            place < QUERY_COUNT,
    {
        match self {
            Query::StudyDistribution => 0,
            Query::NewMembers => 1,
            Query::NewBachelors => 2,
            Query::NewMasters => 3,
            Query::NewMemberDistribution => 4,
            Query::NewActiveMembers => 5,
            Query::JoinYears => 6,
            Query::NewActiveDistribution => 7,
            Query::NewMembersAtActivities => 8,
            Query::ExternActivities => 9,
            Query::ExternParticipants => 10,
        }
    }

    /// The query that is run after this one, if any.
    pub fn next(self) -> (following: Option<Query>)
        ensures
            following == self.successor(),
    {
        match self {
            Query::StudyDistribution => Some(Query::NewMembers),
            Query::NewMembers => Some(Query::NewBachelors),
            Query::NewBachelors => Some(Query::NewMasters),
            Query::NewMasters => Some(Query::NewMemberDistribution),
            Query::NewMemberDistribution => Some(Query::NewActiveMembers),
            Query::NewActiveMembers => Some(Query::JoinYears),
            Query::JoinYears => Some(Query::NewActiveDistribution),
            Query::NewActiveDistribution => Some(Query::NewMembersAtActivities),
            Query::NewMembersAtActivities => Some(Query::ExternActivities),
            Query::ExternActivities => Some(Query::ExternParticipants),
            Query::ExternParticipants => None,
        }
    }

    /// What the rows of the query's reply look like.
    pub fn reply_shape(self) -> (shape: Shape)
        ensures
            shape == self.shape(),
    {
        match self {
            Query::StudyDistribution
            | Query::NewMemberDistribution
            | Query::NewActiveDistribution => Shape::CodeCounts,
            Query::JoinYears => Shape::JoinYears,
            Query::ExternActivities => Shape::Activities,
            _ => Shape::Count,
        }
    }

    /// What the query is given.
    pub fn bound_to(self) -> (binding: Binding)
        ensures
            binding == self.binding(),
    {
        match self {
            Query::StudyDistribution => Binding::Nothing,
            Query::NewMembersAtActivities => Binding::StartAndCutoff,
            Query::ExternParticipants => Binding::ActivityIds,
            _ => Binding::Start,
        }
    }

    /// The heading of the section that the query serves.
    pub fn title(self) -> (text: &'static str)
        ensures
            text@ == self.title_text(),
    {
        match self {
            Query::StudyDistribution => "A2 - Verdeling studies",
            Query::NewMembers => "A3 - Nieuwe leden",
            Query::NewBachelors => "A4 - Nieuwe bachelor",
            Query::NewMasters => "A5 - Nieuew master",
            Query::NewMemberDistribution => "A6 - Verdeling studies nieuwe leden",
            Query::NewActiveMembers => "A7 - Nieuwe actieve leden",
            Query::JoinYears => "A8 - Nieuwe leden sinds 2010",
            Query::NewActiveDistribution => "A11 - Verdeling nieuwe actieve leden",
            Query::NewMembersAtActivities => "A12 - Sjaars bij activiteiten",
            Query::ExternActivities | Query::ExternParticipants =>
                "A13 - Leden bij Extern activiteiten",
        }
    }

    /// The text of the query.
    pub fn sql(self) -> (text: String)
        ensures
            text@ == self.sql_text(),
    {
        match self {
            Query::StudyDistribution => String::from_str(STUDY_DISTRIBUTION_SQL),
            Query::NewMembers => String::from_str(NEW_MEMBERS_SQL),
            Query::NewBachelors => String::from_str(NEW_BACHELORS_SQL_STEM).concat(
                decimal(BACHELOR_BELOW as i128).as_str(),
            ),
            Query::NewMasters => String::from_str(NEW_MASTERS_SQL_STEM).concat(
                decimal(MASTER_ABOVE as i128).as_str(),
            ),
            Query::NewMemberDistribution => String::from_str(NEW_MEMBER_DISTRIBUTION_SQL),
            Query::NewActiveMembers => String::from_str(NEW_ACTIVE_MEMBERS_SQL),
            Query::JoinYears => String::from_str(JOIN_YEARS_SQL),
            Query::NewActiveDistribution => String::from_str(NEW_ACTIVE_DISTRIBUTION_SQL),
            Query::NewMembersAtActivities => String::from_str(NEW_MEMBERS_AT_ACTIVITIES_SQL),
            Query::ExternActivities => String::from_str(EXTERN_ACTIVITIES_SQL),
            Query::ExternParticipants => String::from_str(EXTERN_PARTICIPANTS_SQL),
        }
    }
}

/// The run is fixed: it starts with the query at place 0, each query is
/// followed by the one at the next place, and only the query at the last
/// place is followed by none.
pub proof fn lemma_run_is_fixed(query: Query)
    ensures
        0 <= query.position() < QUERY_COUNT,
        query.successor() matches Some(following) ==> following.position() == query.position()
            + 1,
        query.successor() is None <==> query.position() == QUERY_COUNT - 1,
{
}

/// No two queries share a place in the run.
pub proof fn lemma_places_differ(first: Query, second: Query)
    requires
        first.position() == second.position(),
    ensures
        first == second,
{
}

/// The activities are looked up right before the query that is given
/// their ids, and no other query is given ids.
pub proof fn lemma_ids_follow_lookup(query: Query)
    ensures
        query.binding() == Binding::ActivityIds <==> query == Query::ExternParticipants,
        query.shape() == Shape::Activities <==> query == Query::ExternActivities,
        Query::ExternActivities.successor() == Some(Query::ExternParticipants),
{
}

} // verus!
