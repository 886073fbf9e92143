//! Readings of single values on the report page.
//!
//! Taking the report apart needs an HTML parser and is left to the caller.
//! What a class attribute, a heading or a grade means is decided here.

use vstd::prelude::*;
use crate::job::find_first;
use crate::job::first_match;
use crate::text;
use crate::text::contains_seq;
use crate::text::trimmed;
use crate::types::CourseStatus;
use crate::types::RequirementStatus;

verus! {

/// Pattern for the category in the class of a requirement.
pub const CATEGORY_PATTERN: &'static str = "category_(\\w+)";

/// Pattern for the major in the heading of the report.
pub const MAJOR_PATTERN: &'static str = "Major\\(s\\):\\s*([A-Z0-9]+)";

/// Category of a requirement whose class names none.
pub const UNKNOWN_CATEGORY: &'static str = "Unknown";

/// Grade of a course that is under way.
pub const GRADE_IN_PROGRESS: &'static str = "IP";

/// The status that the class of a requirement shows: fulfilled, under way,
/// not begun, or not applicable where the class says none of these.
pub open spec fn status_in_class(class_attr: Seq<char>) -> RequirementStatus {
    if contains_seq(class_attr, "Status_OK"@) {
        RequirementStatus::Complete
    } else if contains_seq(class_attr, "Status_IP"@) {
        RequirementStatus::InProgress
    } else if contains_seq(class_attr, "Status_NO"@) {
        RequirementStatus::NotStarted
    } else {
        RequirementStatus::NotApplicable
    }
}

/// The category that the class of a requirement names.
pub open spec fn category_in_class(class_attr: Seq<char>) -> Seq<char> {
    match first_match(CATEGORY_PATTERN@, class_attr, 1) {
        Some(category) => category,
        None => UNKNOWN_CATEGORY@,
    }
}

/// The status of a course with the given grade: under way where the grade
/// says so, completed otherwise.
pub open spec fn status_for_grade(grade: Option<Seq<char>>) -> CourseStatus {
    if grade == Some(GRADE_IN_PROGRESS@) {
        CourseStatus::InProgress
    } else {
        CourseStatus::Completed
    }
}

/// The text of a cell, trimmed; nothing where nothing is left.
pub open spec fn cell_text(text: Seq<char>) -> Option<Seq<char>> {
    if trimmed(text).len() == 0 {
        None
    } else {
        Some(trimmed(text))
    }
}

/// The status that the class of a requirement shows.
pub fn requirement_status(class_attr: &str) -> (r: RequirementStatus)
    ensures
        r == status_in_class(class_attr@),
{
    let c = text::chars_of(class_attr);
    if text::contains_str(&c, "Status_OK") {
        RequirementStatus::Complete
    } else if text::contains_str(&c, "Status_IP") {
        RequirementStatus::InProgress
    } else if text::contains_str(&c, "Status_NO") {
        RequirementStatus::NotStarted
    } else {
        RequirementStatus::NotApplicable
    }
}

/// The category that the class of a requirement names, `Unknown` where it
/// names none.
pub fn requirement_category(class_attr: &str) -> (r: String)
    ensures
        r@ == category_in_class(class_attr@),
{
    match find_first(CATEGORY_PATTERN, class_attr, 1) {
        Some(category) => category,
        None => UNKNOWN_CATEGORY.to_string(),
    }
}

/// The major that the heading of the report names.
pub fn student_major(heading: &str) -> (r: Option<String>)
    ensures
        r.deep_view() == first_match(MAJOR_PATTERN@, heading@, 1),
{
    find_first(MAJOR_PATTERN, heading, 1)
}

/// The text of a cell, trimmed; nothing where nothing is left.
pub fn non_empty_cell(cell: &str) -> (r: Option<String>)
    ensures
        r.deep_view() == cell_text(cell@),
{
    let t = text::trim(cell);
    if text::chars_of(t.as_str()).len() == 0 {
        None
    } else {
        Some(t)
    }
}

/// The status of a course with the given grade.
pub fn course_status(grade: &Option<String>) -> (r: CourseStatus)
    ensures
        r == status_for_grade(grade.deep_view()),
{
    match grade {
        Some(g) => {
            if text::same_text(g.as_str(), GRADE_IN_PROGRESS) {
                CourseStatus::InProgress
            } else {
                CourseStatus::Completed
            }
        },
        None => CourseStatus::Completed,
    }
}

} // verus!
