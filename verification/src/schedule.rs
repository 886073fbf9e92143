//! Rows of the schedule store and the values that go into them.
//!
//! The store keeps courses, their sections and the meetings of each section.
//! What a row holds is computed here; reading and writing the store is left
//! to the caller.

use vstd::prelude::*;
use crate::text::split_fields;
use crate::text::texts;
use crate::text::whitespace_fields;

verus! {

/// A course as stored.
#[derive(Debug, Clone, PartialEq, Eq)]
pub struct DbCourse {
    pub course_id: i64,
    pub term: String,
    pub subj_code: String,
    pub course_code: String,
    pub subj_course_id: String,
}

/// A section as stored.
#[derive(Debug, Clone, PartialEq, Eq)]
pub struct DbSection {
    pub section_id_pk: i64,
    pub course_id: i64,
    pub section_id: String,
    pub section_code: String,
}

/// A meeting as stored. Days and instructors are held as JSON text.
#[derive(Debug, Clone, PartialEq, Eq)]
pub struct DbMeeting {
    pub meeting_id: i64,
    pub section_id_pk: i64,
    pub meeting_type: Option<String>,
    pub meeting_days_type: String,
    pub meeting_days: Option<String>,
    pub start_hr: Option<i32>,
    pub start_min: Option<i32>,
    pub end_hr: Option<i32>,
    pub end_min: Option<i32>,
    pub building: Option<String>,
    pub room: Option<String>,
    pub instructors: Option<String>,
}

/// When a meeting takes place.
#[derive(Debug, Clone, PartialEq, Eq)]
pub enum MeetingDays {
    /// Every week on these days.
    Repeated(Vec<String>),
    /// Once, on this date.
    OneTime(String),
    /// Never.
    Never,
}

/// The day columns and the instructor column of a meeting row.
#[derive(Debug, Clone, PartialEq, Eq)]
pub struct MeetingColumns {
    /// `repeated`, `onetime` or `none`.
    pub days_type: String,
    /// The days as a JSON list, or the date, or nothing.
    pub days: Option<String>,
    /// The instructors as a JSON list.
    pub instructors: String,
}

/// Why a row could not be made.
#[derive(Debug, Clone, Copy, PartialEq, Eq, Structural)]
pub enum ScheduleError {
    /// A list could not be written as JSON.
    Encoding,
}

/// Kind of a meeting that repeats.
pub const KIND_REPEATED: &'static str = "repeated";

/// Kind of a meeting that takes place once.
pub const KIND_ONE_TIME: &'static str = "onetime";

/// Kind of a meeting that does not take place.
pub const KIND_NONE: &'static str = "none";

/// The JSON text that the serde_json crate writes for a list of strings;
/// `None` where it fails.
pub uninterp spec fn strings_json(items: Seq<Seq<char>>) -> Option<Seq<char>>;

/// The error of the serde_json crate.
#[verifier::external_type_specification]
#[verifier::external_body]
pub struct ExJsonError(serde_json::Error);

/// Calls `serde_json::to_string` on the list.
#[verifier::external_body]
fn json_of_strings(items: &Vec<String>) -> (r: Result<String, serde_json::Error>)
    ensures
        r matches Ok(json) ==> strings_json(texts(items@)) == Some(json@),
        r is Err ==> strings_json(texts(items@)) is None,
{
    serde_json::to_string(items)
}

/// The subject code and the course code in a course name such as `CSE 100`:
/// its first two parts. A name of fewer than two parts is a subject code as
/// a whole, with an empty course code.
pub open spec fn subject_and_course(name: Seq<char>) -> (Seq<char>, Seq<char>) {
    let fields = whitespace_fields(name);
    if fields.len() >= 2 {
        (fields[0], fields[1])
    } else {
        (name, Seq::empty())
    }
}

/// Splits a course name into subject code and course code.
pub fn split_subject_course(subj_course_id: &str) -> (r: (String, String))
    ensures
        (r.0@, r.1@) == subject_and_course(subj_course_id@),
{
    let mut fields = split_fields(subj_course_id);
    if fields.len() >= 2 {
        assert(texts(fields@)[0] == fields@[0]@);
        assert(texts(fields@)[1] == fields@[1]@);
        let course = fields.swap_remove(1);
        let subject = fields.swap_remove(0);
        (subject, course)
    } else {
        assert(texts(fields@).len() == fields@.len());
        (subj_course_id.to_string(), String::new())
    }
}

/// The columns of a meeting, as values: the kind of its days, the days
/// themselves and the instructors; `None` where a list cannot be written.
pub open spec fn columns_of(days: MeetingDays, instructors: Seq<Seq<char>>) -> Option<
    (Seq<char>, Option<Seq<char>>, Seq<char>),
> {
    match strings_json(instructors) {
        Some(names) => match days {
            MeetingDays::Repeated(list) => match strings_json(texts(list@)) {
                Some(json) => Some((KIND_REPEATED@, Some(json), names)),
                None => None,
            },
            MeetingDays::OneTime(date) => Some((KIND_ONE_TIME@, Some(date@), names)),
            MeetingDays::Never => Some((KIND_NONE@, None, names)),
        },
        None => None,
    }
}

/// The columns of a meeting row: repeated days as a JSON list under the kind
/// `repeated`, a single date as it is under `onetime`, no days under `none`,
/// and the instructors as a JSON list.
pub fn meeting_columns(days: &MeetingDays, instructors: &Vec<String>) -> (r: Result<
    MeetingColumns,
    ScheduleError,
>)
    ensures
        r matches Ok(c) ==> columns_of(*days, texts(instructors@)) == Some(
            (c.days_type@, c.days.deep_view(), c.instructors@),
        ),
        r is Err ==> columns_of(*days, texts(instructors@)) is None,
{
    let names = match json_of_strings(instructors) {
        Ok(json) => json,
        Err(_) => {
            return Err(ScheduleError::Encoding);
        },
    };
    match days {
        MeetingDays::Repeated(list) => match json_of_strings(list) {
            Ok(json) => Ok(
                MeetingColumns {
                    days_type: KIND_REPEATED.to_string(),
                    days: Some(json),
                    instructors: names,
                },
            ),
            Err(_) => Err(ScheduleError::Encoding),
        },
        MeetingDays::OneTime(date) => Ok(
            MeetingColumns {
                days_type: KIND_ONE_TIME.to_string(),
                days: Some(date.clone()),
                instructors: names,
            },
        ),
        MeetingDays::Never => Ok(
            MeetingColumns { days_type: KIND_NONE.to_string(), days: None, instructors: names },
        ),
    }
}

} // verus!
