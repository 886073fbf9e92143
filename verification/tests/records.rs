use webreg::report::course_status;
use webreg::report::non_empty_cell;
use webreg::report::requirement_category;
use webreg::report::requirement_status;
use webreg::report::student_major;
use webreg::requirements::course_counts;
use webreg::requirements::course_department;
use webreg::requirements::match_courses_to_subrequirement;
use webreg::requirements::open_courses;
use webreg::requirements::recommend;
use webreg::requirements::Recommendation;
use webreg::requirements::SubrequirementProgress;
use webreg::requirements::SubrequirementConfig;
use webreg::schedule::meeting_columns;
use webreg::schedule::split_subject_course;
use webreg::schedule::MeetingColumns;
use webreg::schedule::MeetingDays;
use webreg::types::CourseRequirement;
use webreg::types::CourseStatus;
use webreg::types::Credits;
use webreg::types::RequirementStatus;

fn course(code: &str) -> CourseRequirement {
    CourseRequirement {
        course_code: code.to_string(),
        title: None,
        units: Some(Credits { bits: 0x4080_0000 }),
        grade: Some("A".to_string()),
        term: None,
        status: CourseStatus::Completed,
    }
}

fn subrequirement(eligible: &[&str], departments: &[&str]) -> SubrequirementConfig {
    SubrequirementConfig {
        title: "Lower Division".to_string(),
        required_units: Credits { bits: 0x4140_0000 },
        eligible_courses: eligible.iter().map(|s| s.to_string()).collect(),
        departments: departments.iter().map(|s| s.to_string()).collect(),
        level_filters: Vec::new(),
    }
}

#[test]
fn course_name_is_split_at_white_space() {
    assert_eq!(split_subject_course("CSE 100"), ("CSE".to_string(), "100".to_string()));
    assert_eq!(
        split_subject_course("  MATH \t 20A  extra"),
        ("MATH".to_string(), "20A".to_string())
    );
    assert_eq!(split_subject_course("CSE100"), ("CSE100".to_string(), String::new()));
    assert_eq!(split_subject_course(" CSE "), (" CSE ".to_string(), String::new()));
    assert_eq!(split_subject_course(""), (String::new(), String::new()));
}

#[test]
fn meeting_days_become_columns() {
    let instructors = vec!["Ada \"A\" L".to_string(), "Bob".to_string()];
    assert_eq!(
        meeting_columns(&MeetingDays::Repeated(vec!["M".to_string(), "W".to_string()]), &instructors),
        Ok(MeetingColumns {
            days_type: "repeated".to_string(),
            days: Some("[\"M\",\"W\"]".to_string()),
            instructors: "[\"Ada \\\"A\\\" L\",\"Bob\"]".to_string(),
        })
    );
    assert_eq!(
        meeting_columns(&MeetingDays::OneTime("2024-03-20".to_string()), &Vec::new()),
        Ok(MeetingColumns {
            days_type: "onetime".to_string(),
            days: Some("2024-03-20".to_string()),
            instructors: "[]".to_string(),
        })
    );
    assert_eq!(
        meeting_columns(&MeetingDays::Never, &Vec::new()),
        Ok(MeetingColumns {
            days_type: "none".to_string(),
            days: None,
            instructors: "[]".to_string(),
        })
    );
}

#[test]
fn listed_courses_decide_where_there_are_any() {
    let courses = vec![course("MATH 20A"), course("CSE 100"), course("MATH 20B"), course("MATH 109")];
    let config = subrequirement(&["MATH 20"], &["CSE"]);
    assert_eq!(
        match_courses_to_subrequirement(&courses, &config),
        vec![course("MATH 20A"), course("MATH 20B")]
    );
    assert!(course_counts(&course("XMATH 20"), &config));
    assert!(!course_counts(&course("CSE 100"), &config));
}

#[test]
fn departments_decide_where_no_courses_are_listed() {
    let courses = vec![course("MATH 20A"), course("CSE 100"), course("  CSE   8B"), course("CSEX 1")];
    let config = subrequirement(&[], &["PHYS", "CSE"]);
    assert_eq!(
        match_courses_to_subrequirement(&courses, &config),
        vec![course("CSE 100"), course("  CSE   8B")]
    );
    assert_eq!(course_department("CSE 100"), "CSE");
    assert_eq!(course_department(""), "");
    assert!(course_counts(&course(""), &subrequirement(&[], &[""])));
}

#[test]
fn nothing_matches_an_empty_subrequirement() {
    let courses = vec![course("MATH 20A")];
    assert_eq!(
        match_courses_to_subrequirement(&courses, &subrequirement(&[], &[])),
        Vec::<CourseRequirement>::new()
    );
    assert_eq!(
        match_courses_to_subrequirement(&Vec::new(), &subrequirement(&["MATH"], &[])),
        Vec::<CourseRequirement>::new()
    );
}

#[test]
fn requirement_class_shows_status_and_category() {
    assert_eq!(
        requirement_status("requirement Status_OK category_Major"),
        RequirementStatus::Complete
    );
    assert_eq!(requirement_status("Status_IP"), RequirementStatus::InProgress);
    assert_eq!(requirement_status("x Status_NO y"), RequirementStatus::NotStarted);
    assert_eq!(requirement_status("Status_IP Status_OK"), RequirementStatus::Complete);
    assert_eq!(requirement_status("status_ok"), RequirementStatus::NotApplicable);
    assert_eq!(requirement_status(""), RequirementStatus::NotApplicable);
    assert_eq!(requirement_category("requirement Status_OK category_Major"), "Major");
    assert_eq!(requirement_category("category_Overall_GPA x"), "Overall_GPA");
    assert_eq!(requirement_category("category_ x"), "Unknown");
    assert_eq!(requirement_category(""), "Unknown");
}

#[test]
fn heading_names_the_major() {
    assert_eq!(student_major("Major(s):  MA30 College: WA"), Some("MA30".to_string()));
    assert_eq!(student_major("Major(s):CS25"), Some("CS25".to_string()));
    assert_eq!(student_major("Major(s): cs25"), None);
    assert_eq!(student_major("Majors: MA30"), None);
}

#[test]
fn grade_decides_the_course_status() {
    assert_eq!(course_status(&Some("IP".to_string())), CourseStatus::InProgress);
    assert_eq!(course_status(&Some("A".to_string())), CourseStatus::Completed);
    assert_eq!(course_status(&Some("ip".to_string())), CourseStatus::Completed);
    assert_eq!(course_status(&None), CourseStatus::Completed);
    assert_eq!(non_empty_cell("  A- \n"), Some("A-".to_string()));
    assert_eq!(non_empty_cell(" \t "), None);
    assert_eq!(non_empty_cell(""), None);
}

fn progress(title: &str, complete: bool, units_remain: bool, eligible: &[&str]) -> SubrequirementProgress {
    SubrequirementProgress {
        title: title.to_string(),
        complete,
        units_remain,
        eligible_courses: eligible.iter().map(|s| s.to_string()).collect(),
    }
}

#[test]
fn recommendations_skip_what_is_done_and_are_ranked_in_order() {
    let completed = vec!["MATH 20A".to_string(), "CSE 8A".to_string()];
    let items = vec![
        progress("done", true, true, &["MATH 20B"]),
        progress("calculus", false, true, &["MATH 20A", "MATH 20B", "MATH 20C"]),
        progress("no units missing", false, false, &["PHYS 2A"]),
        progress("all passed", false, true, &["CSE 8A"]),
        progress("nothing eligible", false, true, &[]),
        progress("programming", false, true, &["CSE 8A", "CSE 11"]),
    ];
    assert_eq!(
        recommend(&items, &completed),
        vec![
            Recommendation {
                index: 1,
                subrequirement_title: "calculus".to_string(),
                priority: 1,
                eligible_courses: vec!["MATH 20B".to_string(), "MATH 20C".to_string()],
            },
            Recommendation {
                index: 5,
                subrequirement_title: "programming".to_string(),
                priority: 2,
                eligible_courses: vec!["CSE 11".to_string()],
            },
        ]
    );
    assert_eq!(recommend(&Vec::new(), &completed), Vec::<Recommendation>::new());
    assert_eq!(
        open_courses(&vec!["A".to_string(), "B".to_string(), "A".to_string()], &vec!["B".to_string()]),
        vec!["A".to_string(), "A".to_string()]
    );
}
