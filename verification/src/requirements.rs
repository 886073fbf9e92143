//! Subrequirements and the matching of courses against them.

use vstd::prelude::*;
use crate::text;
use crate::text::split_fields;
use crate::text::texts;
use crate::text::whitespace_fields;
use crate::text::contains_seq;
use crate::types::course_views;
use crate::types::CourseRequirement;
use crate::types::CourseView;
use crate::types::Credits;

verus! {

/// One subrequirement of a program: what counts towards it.
#[derive(Debug, Clone)]
pub struct SubrequirementConfig {
    pub title: String,
    pub required_units: Credits,
    /// Course codes that count. Where this list is not empty, it alone
    /// decides.
    pub eligible_courses: Vec<String>,
    /// Departments whose courses count, where no course codes are listed.
    pub departments: Vec<String>,
    /// Course levels that count: `l`, `u` or `g`.
    pub level_filters: Vec<String>,
}

/// One of the listed codes stands in the course code.
pub open spec fn names_course(eligible: Seq<Seq<char>>, course_code: Seq<char>) -> bool {
    exists|i: int| 0 <= i < eligible.len() && contains_seq(course_code, #[trigger] eligible[i])
}

/// The department of a course: the first part of its code, empty where the
/// code has no part.
pub open spec fn department_of(course_code: Seq<char>) -> Seq<char> {
    if whitespace_fields(course_code).len() > 0 {
        whitespace_fields(course_code)[0]
    } else {
        Seq::empty()
    }
}

/// The text is one of those listed.
pub open spec fn is_among(listed: Seq<Seq<char>>, text: Seq<char>) -> bool {
    exists|i: int| 0 <= i < listed.len() && #[trigger] listed[i] == text
}

/// The course counts towards the subrequirement. Listed course codes decide
/// where there are any; else listed departments; with neither, no course
/// counts.
pub open spec fn counts_towards(
    course_code: Seq<char>,
    eligible: Seq<Seq<char>>,
    departments: Seq<Seq<char>>,
) -> bool {
    if eligible.len() > 0 {
        names_course(eligible, course_code)
    } else if departments.len() > 0 {
        is_among(departments, department_of(course_code))
    } else {
        false
    }
}

/// The courses that count towards the subrequirement, in order.
pub open spec fn matching_courses(
    courses: Seq<CourseView>,
    eligible: Seq<Seq<char>>,
    departments: Seq<Seq<char>>,
) -> Seq<CourseView>
    decreases courses.len(),
{
    if courses.len() == 0 {
        Seq::empty()
    } else {
        let before = matching_courses(courses.drop_last(), eligible, departments);
        if counts_towards(courses.last().course_code, eligible, departments) {
            before.push(courses.last())
        } else {
            before
        }
    }
}

/// Whether one of the listed codes stands in the course code.
pub fn code_is_listed(eligible: &Vec<String>, course_code: &str) -> (r: bool)
    ensures
        r == names_course(texts(eligible@), course_code@),
{
    let code = text::chars_of(course_code);
    let mut i: usize = 0;
    while i < eligible.len()
        invariant
            i <= eligible.len(),
            code@ == course_code@,
            forall|k: int| 0 <= k < i ==> !contains_seq(course_code@, #[trigger] texts(eligible@)[k]),
        decreases eligible.len() - i,
    {
        assert(texts(eligible@)[i as int] == eligible@[i as int]@);
        if text::contains_str(&code, eligible[i].as_str()) {
            return true;
        }
        i += 1;
    }
    false
}

/// Whether the text is one of those listed.
pub fn is_listed(listed: &Vec<String>, text: &str) -> (r: bool)
    ensures
        r == is_among(texts(listed@), text@),
{
    let mut i: usize = 0;
    while i < listed.len()
        invariant
            i <= listed.len(),
            forall|k: int| 0 <= k < i ==> #[trigger] texts(listed@)[k] != text@,
        decreases listed.len() - i,
    {
        assert(texts(listed@)[i as int] == listed@[i as int]@);
        if text::same_text(listed[i].as_str(), text) {
            return true;
        }
        i += 1;
    }
    false
}

/// The department of a course.
pub fn course_department(course_code: &str) -> (r: String)
    ensures
        r@ == department_of(course_code@),
{
    let mut fields = split_fields(course_code);
    assert(texts(fields@).len() == fields@.len());
    if fields.len() > 0 {
        assert(texts(fields@)[0] == fields@[0]@);
        fields.swap_remove(0)
    } else {
        String::new()
    }
}

/// Whether the course counts towards the subrequirement.
pub fn course_counts(course: &CourseRequirement, config: &SubrequirementConfig) -> (r: bool)
    ensures
        r == counts_towards(
            course@.course_code,
            texts(config.eligible_courses@),
            texts(config.departments@),
        ),
{
    assert(texts(config.eligible_courses@).len() == config.eligible_courses@.len());
    assert(texts(config.departments@).len() == config.departments@.len());
    if config.eligible_courses.len() > 0 {
        code_is_listed(&config.eligible_courses, course.course_code.as_str())
    } else if config.departments.len() > 0 {
        let department = course_department(course.course_code.as_str());
        is_listed(&config.departments, department.as_str())
    } else {
        false
    }
}

/// The completed courses that count towards a subrequirement, in the order
/// given.
pub fn match_courses_to_subrequirement(
    completed_courses: &Vec<CourseRequirement>,
    subreq_config: &SubrequirementConfig,
) -> (matched: Vec<CourseRequirement>)
    ensures
        course_views(matched@) == matching_courses(
            course_views(completed_courses@),
            texts(subreq_config.eligible_courses@),
            texts(subreq_config.departments@),
        ),
{
    let mut matched: Vec<CourseRequirement> = Vec::new();
    let ghost eligible = texts(subreq_config.eligible_courses@);
    let ghost departments = texts(subreq_config.departments@);
    let mut i: usize = 0;
    while i < completed_courses.len()
        invariant
            i <= completed_courses.len(),
            eligible == texts(subreq_config.eligible_courses@),
            departments == texts(subreq_config.departments@),
            course_views(matched@) == matching_courses(
                course_views(completed_courses@).take(i as int),
                eligible,
                departments,
            ),
        decreases completed_courses.len() - i,
    {
        let ghost before = matched@;
        proof {
            let upto = course_views(completed_courses@).take(i + 1);
            assert(upto.drop_last() =~= course_views(completed_courses@).take(i as int));
            assert(upto.last() == completed_courses@[i as int]@);
        }
        if course_counts(&completed_courses[i], subreq_config) {
            let copy = completed_courses[i].duplicate();
            matched.push(copy);
            assert(course_views(matched@) =~= course_views(before).push(copy@));
        }
        i += 1;
    }
    assert(course_views(completed_courses@).take(i as int) =~= course_views(completed_courses@));
    matched
}

/// What the choice of recommendations reads of one subrequirement.
#[derive(Debug, Clone, PartialEq, Eq)]
pub struct SubrequirementProgress {
    pub title: String,
    /// Whether it is fulfilled, itself or with the requirement it belongs to.
    pub complete: bool,
    /// Whether units are still missing.
    pub units_remain: bool,
    /// The codes of the courses that count towards it.
    pub eligible_courses: Vec<String>,
}

/// A subrequirement to work on next.
#[derive(Debug, Clone, PartialEq, Eq)]
pub struct Recommendation {
    /// The position of the subrequirement in the list that was given.
    pub index: usize,
    pub subrequirement_title: String,
    /// Its rank among the recommendations, from one.
    pub priority: usize,
    /// The eligible courses that have not been passed.
    pub eligible_courses: Vec<String>,
}

/// A subrequirement as values.
pub struct ProgressView {
    pub title: Seq<char>,
    pub complete: bool,
    pub units_remain: bool,
    pub eligible_courses: Seq<Seq<char>>,
}

impl View for SubrequirementProgress {
    type V = ProgressView;

    open spec fn view(&self) -> ProgressView {
        ProgressView {
            title: self.title@,
            complete: self.complete,
            units_remain: self.units_remain,
            eligible_courses: texts(self.eligible_courses@),
        }
    }
}

/// A recommendation as values.
pub struct RecommendationView {
    pub index: nat,
    pub subrequirement_title: Seq<char>,
    pub priority: nat,
    pub eligible_courses: Seq<Seq<char>>,
}

impl View for Recommendation {
    type V = RecommendationView;

    open spec fn view(&self) -> RecommendationView {
        RecommendationView {
            index: self.index as nat,
            subrequirement_title: self.subrequirement_title@,
            priority: self.priority as nat,
            eligible_courses: texts(self.eligible_courses@),
        }
    }
}

/// The views of the subrequirements of a list.
pub open spec fn progress_views(items: Seq<SubrequirementProgress>) -> Seq<ProgressView> {
    items.map_values(|item: SubrequirementProgress| item@)
}

/// The views of the recommendations of a list.
pub open spec fn recommendation_views(items: Seq<Recommendation>) -> Seq<RecommendationView> {
    items.map_values(|item: Recommendation| item@)
}

/// The eligible courses that are not among the completed ones, in order.
pub open spec fn still_open(eligible: Seq<Seq<char>>, completed: Seq<Seq<char>>) -> Seq<Seq<char>>
    decreases eligible.len(),
{
    if eligible.len() == 0 {
        Seq::empty()
    } else {
        let before = still_open(eligible.drop_last(), completed);
        if is_among(completed, eligible.last()) {
            before
        } else {
            before.push(eligible.last())
        }
    }
}

/// The recommendations for the first subrequirements of a list. A
/// subrequirement is recommended where it is not fulfilled, units are still
/// missing and at least one eligible course has not been passed. The
/// recommendations are ranked in the order of the subrequirements.
pub open spec fn recommended(items: Seq<ProgressView>, completed: Seq<Seq<char>>) -> Seq<
    RecommendationView,
>
    decreases items.len(),
{
    if items.len() == 0 {
        Seq::empty()
    } else {
        let before = recommended(items.drop_last(), completed);
        let item = items.last();
        let open = still_open(item.eligible_courses, completed);
        if !item.complete && item.units_remain && open.len() > 0 {
            before.push(
                RecommendationView {
                    index: (items.len() - 1) as nat,
                    subrequirement_title: item.title,
                    priority: before.len() + 1,
                    eligible_courses: open,
                },
            )
        } else {
            before
        }
    }
}

/// There are never more recommendations than subrequirements.
pub proof fn recommendations_are_bounded(items: Seq<ProgressView>, completed: Seq<Seq<char>>)
    ensures
        recommended(items, completed).len() <= items.len(),
    decreases items.len(),
{
    if items.len() > 0 {
        recommendations_are_bounded(items.drop_last(), completed);
    }
}

/// The recommendations are ranked one, two, three and so on, and follow the
/// order of the subrequirements they stand for.
pub proof fn recommendations_are_ranked(items: Seq<ProgressView>, completed: Seq<Seq<char>>)
    ensures
        forall|i: int|
            0 <= i < recommended(items, completed).len() ==> (#[trigger] recommended(
                items,
                completed,
            )[i]).priority == i + 1 && recommended(items, completed)[i].index < items.len(),
        forall|i: int, j: int|
            0 <= i < j < recommended(items, completed).len() ==> (#[trigger] recommended(
                items,
                completed,
            )[i]).index < (#[trigger] recommended(items, completed)[j]).index,
    decreases items.len(),
{
    if items.len() > 0 {
        recommendations_are_ranked(items.drop_last(), completed);
        recommendations_are_bounded(items.drop_last(), completed);
    }
}

/// The eligible courses that have not been completed, in order.
pub fn open_courses(eligible: &Vec<String>, completed: &Vec<String>) -> (open: Vec<String>)
    ensures
        texts(open@) == still_open(texts(eligible@), texts(completed@)),
{
    let mut open: Vec<String> = Vec::new();
    let mut i: usize = 0;
    assert(texts(open@) =~= Seq::<Seq<char>>::empty());
    while i < eligible.len()
        invariant
            i <= eligible.len(),
            texts(open@) == still_open(texts(eligible@).take(i as int), texts(completed@)),
        decreases eligible.len() - i,
    {
        let ghost before = open@;
        proof {
            let upto = texts(eligible@).take(i + 1);
            assert(upto.drop_last() =~= texts(eligible@).take(i as int));
            assert(upto.last() == eligible@[i as int]@);
        }
        if !is_listed(completed, eligible[i].as_str()) {
            let code = eligible[i].clone();
            open.push(code);
            assert(texts(open@) =~= texts(before).push(code@));
        }
        i += 1;
    }
    assert(texts(eligible@).take(i as int) =~= texts(eligible@));
    open
}

/// Chooses the subrequirements to work on next: those that are not
/// fulfilled and still miss units, each with the eligible courses that have
/// not been passed, where there are any. They are ranked from one in the
/// order in which the subrequirements were given.
pub fn recommend(subrequirements: &Vec<SubrequirementProgress>, completed: &Vec<String>) -> (chosen:
    Vec<Recommendation>)
    ensures
        recommendation_views(chosen@) == recommended(
            progress_views(subrequirements@),
            texts(completed@),
        ),
{
    let mut chosen: Vec<Recommendation> = Vec::new();
    let ghost done = texts(completed@);
    let mut i: usize = 0;
    assert(recommendation_views(chosen@) =~= Seq::<RecommendationView>::empty());
    while i < subrequirements.len()
        invariant
            i <= subrequirements.len(),
            done == texts(completed@),
            recommendation_views(chosen@) == recommended(
                progress_views(subrequirements@).take(i as int),
                done,
            ),
        decreases subrequirements.len() - i,
    {
        let ghost before = chosen@;
        let item = &subrequirements[i];
        proof {
            let upto = progress_views(subrequirements@).take(i + 1);
            assert(upto.drop_last() =~= progress_views(subrequirements@).take(i as int));
            assert(upto.last() == subrequirements@[i as int]@);
            recommendations_are_bounded(progress_views(subrequirements@).take(i as int), done);
            assert(recommendation_views(before).len() == before.len());
        }
        if !item.complete && item.units_remain {
            let open = open_courses(&item.eligible_courses, completed);
            assert(texts(open@).len() == open@.len());
            if open.len() > 0 {
                let next = Recommendation {
                    index: i,
                    subrequirement_title: item.title.clone(),
                    priority: chosen.len() + 1,
                    eligible_courses: open,
                };
                chosen.push(next);
                assert(recommendation_views(chosen@) =~= recommendation_views(before).push(next@));
            }
        }
        i += 1;
    }
    assert(progress_views(subrequirements@).take(i as int) =~= progress_views(subrequirements@));
    chosen
}

} // verus!
