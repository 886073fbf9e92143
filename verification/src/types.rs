//! The degree audit as data: the raw report page and the structured audit
//! made of it.

use vstd::prelude::*;

verus! {

/// The report page as fetched, before it is taken apart.
#[derive(Debug, Clone, PartialEq, Eq)]
pub struct DegreeAuditResponse {
    /// The token of the job that produced the report.
    pub audit_id: String,
    /// When the page was fetched, as an RFC 3339 timestamp.
    pub scraped_at: String,
    /// The address the page was fetched from.
    pub url: String,
    /// The page itself.
    pub html: String,
}

/// A raw report with its texts as character sequences.
pub struct ResponseView {
    pub audit_id: Seq<char>,
    pub scraped_at: Seq<char>,
    pub url: Seq<char>,
    pub html: Seq<char>,
}

impl View for DegreeAuditResponse {
    type V = ResponseView;

    open spec fn view(&self) -> ResponseView {
        ResponseView {
            audit_id: self.audit_id@,
            scraped_at: self.scraped_at@,
            url: self.url@,
            html: self.html@,
        }
    }
}

/// An amount of credit units, held as the 32 bits of the IEEE 754
/// single-precision number that the report parser produced.
#[derive(Debug, Clone, Copy, PartialEq, Eq, Structural)]
pub struct Credits {
    pub bits: u32,
}

/// How far a requirement is fulfilled.
#[derive(Debug, Clone, Copy, PartialEq, Eq, Structural)]
pub enum RequirementStatus {
    Complete,
    InProgress,
    NotStarted,
    NotApplicable,
}

/// Where a course stands.
#[derive(Debug, Clone, Copy, PartialEq, Eq, Structural)]
pub enum CourseStatus {
    Completed,
    InProgress,
    Planned,
    Required,
}

/// What the report says of the student.
#[derive(Debug, Clone, PartialEq, Eq)]
pub struct StudentInfo {
    pub student_id: Option<String>,
    pub name: Option<String>,
    pub major: Option<String>,
    pub college: Option<String>,
}

/// Student details with their texts as character sequences.
pub struct StudentView {
    pub student_id: Option<Seq<char>>,
    pub name: Option<Seq<char>>,
    pub major: Option<Seq<char>>,
    pub college: Option<Seq<char>>,
}

impl View for StudentInfo {
    type V = StudentView;

    open spec fn view(&self) -> StudentView {
        StudentView {
            student_id: self.student_id.deep_view(),
            name: self.name.deep_view(),
            major: self.major.deep_view(),
            college: self.college.deep_view(),
        }
    }
}

/// A course listed under a requirement.
#[derive(Debug, Clone, PartialEq, Eq)]
pub struct CourseRequirement {
    pub course_code: String,
    pub title: Option<String>,
    pub units: Option<Credits>,
    pub grade: Option<String>,
    pub term: Option<String>,
    pub status: CourseStatus,
}

/// A course with its texts as character sequences.
pub struct CourseView {
    pub course_code: Seq<char>,
    pub title: Option<Seq<char>>,
    pub units: Option<Credits>,
    pub grade: Option<Seq<char>>,
    pub term: Option<Seq<char>>,
    pub status: CourseStatus,
}

impl View for CourseRequirement {
    type V = CourseView;

    open spec fn view(&self) -> CourseView {
        CourseView {
            course_code: self.course_code@,
            title: self.title.deep_view(),
            units: self.units,
            grade: self.grade.deep_view(),
            term: self.term.deep_view(),
            status: self.status,
        }
    }
}

/// The views of the courses of a list.
pub open spec fn course_views(courses: Seq<CourseRequirement>) -> Seq<CourseView> {
    courses.map_values(|c: CourseRequirement| c@)
}

/// One requirement of the degree with the courses counted towards it.
#[derive(Debug, Clone, PartialEq, Eq)]
pub struct Requirement {
    pub category: String,
    pub name: String,
    pub status: RequirementStatus,
    pub credits_required: Option<Credits>,
    pub credits_completed: Option<Credits>,
    pub courses: Vec<CourseRequirement>,
}

/// A requirement with its texts as character sequences.
pub struct RequirementView {
    pub category: Seq<char>,
    pub name: Seq<char>,
    pub status: RequirementStatus,
    pub credits_required: Option<Credits>,
    pub credits_completed: Option<Credits>,
    pub courses: Seq<CourseView>,
}

impl View for Requirement {
    type V = RequirementView;

    open spec fn view(&self) -> RequirementView {
        RequirementView {
            category: self.category@,
            name: self.name@,
            status: self.status,
            credits_required: self.credits_required,
            credits_completed: self.credits_completed,
            courses: course_views(self.courses@),
        }
    }
}

/// The views of the requirements of a list.
pub open spec fn requirement_views(requirements: Seq<Requirement>) -> Seq<RequirementView> {
    requirements.map_values(|r: Requirement| r@)
}

/// The structured audit: what callers receive and what the cache holds.
#[derive(Debug, Clone, PartialEq, Eq)]
pub struct DegreeAudit {
    pub audit_id: String,
    pub student_info: StudentInfo,
    pub requirements: Vec<Requirement>,
    pub scraped_at: String,
}

/// An audit with its texts as character sequences.
pub struct AuditView {
    pub audit_id: Seq<char>,
    pub student_info: StudentView,
    pub requirements: Seq<RequirementView>,
    pub scraped_at: Seq<char>,
}

impl View for DegreeAudit {
    type V = AuditView;

    open spec fn view(&self) -> AuditView {
        AuditView {
            audit_id: self.audit_id@,
            student_info: self.student_info@,
            requirements: requirement_views(self.requirements@),
            scraped_at: self.scraped_at@,
        }
    }
}

/// The view of an audit that may be absent.
pub open spec fn audit_view(audit: Option<DegreeAudit>) -> Option<AuditView> {
    match audit {
        Some(a) => Some(a@),
        None => None,
    }
}

/// A copy of an optional text.
pub fn duplicate_text(text: &Option<String>) -> (r: Option<String>)
    ensures
        r.deep_view() == text.deep_view(),
{
    match text {
        Some(t) => Some(t.clone()),
        None => None,
    }
}

impl StudentInfo {
    /// A copy with the same contents.
    pub fn duplicate(&self) -> (r: StudentInfo)
        ensures
            r@ == self@,
    {
        StudentInfo {
            student_id: duplicate_text(&self.student_id),
            name: duplicate_text(&self.name),
            major: duplicate_text(&self.major),
            college: duplicate_text(&self.college),
        }
    }
}

impl CourseRequirement {
    /// A copy with the same contents.
    pub fn duplicate(&self) -> (r: CourseRequirement)
        ensures
            r@ == self@,
    {
        CourseRequirement {
            course_code: self.course_code.clone(),
            title: duplicate_text(&self.title),
            units: self.units,
            grade: duplicate_text(&self.grade),
            term: duplicate_text(&self.term),
            status: self.status,
        }
    }
}

impl Requirement {
    /// A copy with the same contents.
    pub fn duplicate(&self) -> (r: Requirement)
        ensures
            r@ == self@,
    {
        let mut courses: Vec<CourseRequirement> = Vec::new();
        let mut i: usize = 0;
        while i < self.courses.len()
            invariant
                i <= self.courses.len(),
                course_views(courses@) == course_views(self.courses@).take(i as int),
            decreases self.courses.len() - i,
        {
            let ghost before = courses@;
            let copy = self.courses[i].duplicate();
            courses.push(copy);
            i += 1;
            assert(course_views(courses@) =~= course_views(before).push(copy@));
            assert(course_views(self.courses@).take(i as int) =~= course_views(
                self.courses@,
            ).take(i - 1).push(self.courses@[i - 1]@));
        }
        assert(course_views(self.courses@).take(i as int) =~= course_views(self.courses@));
        Requirement {
            category: self.category.clone(),
            name: self.name.clone(),
            status: self.status,
            credits_required: self.credits_required,
            credits_completed: self.credits_completed,
            courses,
        }
    }
}

impl DegreeAudit {
    /// A copy with the same contents.
    pub fn duplicate(&self) -> (r: DegreeAudit)
        ensures
            r@ == self@,
    {
        let mut requirements: Vec<Requirement> = Vec::new();
        let mut i: usize = 0;
        while i < self.requirements.len()
            invariant
                i <= self.requirements.len(),
                requirement_views(requirements@) == requirement_views(self.requirements@).take(
                    i as int,
                ),
            decreases self.requirements.len() - i,
        {
            let ghost before = requirements@;
            let copy = self.requirements[i].duplicate();
            requirements.push(copy);
            i += 1;
            assert(requirement_views(requirements@) =~= requirement_views(before).push(copy@));
            assert(requirement_views(self.requirements@).take(i as int) =~= requirement_views(
                self.requirements@,
            ).take(i - 1).push(self.requirements@[i - 1]@));
        }
        assert(requirement_views(self.requirements@).take(i as int) =~= requirement_views(
            self.requirements@,
        ));
        DegreeAudit {
            audit_id: self.audit_id.clone(),
            student_info: self.student_info.duplicate(),
            requirements,
            scraped_at: self.scraped_at.clone(),
        }
    }
}

} // verus!
