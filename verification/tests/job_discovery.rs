use webreg::error::DegreeAuditError;
use webreg::job::extract_job_id_from_href;
use webreg::job::extract_status_from_row;
use webreg::job::find_first;
use webreg::job::job_from_row;
use webreg::job::jobs_from_rows;
use webreg::job::list_hrefs;
use webreg::job::list_rows;
use webreg::job::lowered_page_says_processing;
use webreg::job::page_indicates_processing;
use webreg::job::parse_all_jobs;
use webreg::job::parse_newest_job;
use webreg::job::status_from_lowered;
use webreg::job::urlencoding_decode;
use webreg::job::AuditJob;
use webreg::job::JobStatus;
use webreg::job::ListRow;
use webreg::job::ID_PARAM_PATTERN;
use webreg::job::JOB_TOKEN_PATTERN;
use webreg::urlencoding;

#[test]
fn test_url_encoding() {
    assert_eq!(
        urlencoding::encode("JobQueueRun!!!!ABC"),
        "JobQueueRun%21%21%21%21ABC"
    );
}

#[test]
fn test_extract_job_id_standard() {
    let href = "read.html?id=JobQueueRun!!!!ABC123";
    let job_id = extract_job_id_from_href(href);
    assert_eq!(job_id, Some("JobQueueRun!!!!ABC123".to_string()));
}

#[test]
fn test_extract_job_id_encoded() {
    let href = "read.html?id=JobQueueRun%21%21%21%21ABC123";
    let job_id = extract_job_id_from_href(href);
    assert_eq!(job_id, Some("JobQueueRun!!!!ABC123".to_string()));
}

#[test]
fn test_extract_job_id_with_jsessionid() {
    let href = "read.html;jsessionid=XYZ123?id=JobQueueRun!!!!ABC123";
    let job_id = extract_job_id_from_href(href);
    assert_eq!(job_id, Some("JobQueueRun!!!!ABC123".to_string()));
}

#[test]
fn test_parse_status_complete() {
    assert!(matches!(
        parse_status_text("Complete"),
        JobStatus::Complete
    ));
    assert!(matches!(parse_status_text("Ready"), JobStatus::Complete));
}

#[test]
fn test_parse_status_processing() {
    assert!(matches!(
        parse_status_text("Processing"),
        JobStatus::Processing
    ));
    assert!(matches!(
        parse_status_text("In Progress"),
        JobStatus::Processing
    ));
}

fn parse_status_text(text: &str) -> JobStatus {
    let lower = text.to_lowercase();
    if lower.contains("complete") || lower.contains("ready") {
        JobStatus::Complete
    } else if lower.contains("processing") || lower.contains("progress") {
        JobStatus::Processing
    } else {
        JobStatus::Unknown(text.to_string())
    }
}

fn row(text: &str, class_attr: Option<&str>, link_href: Option<&str>) -> ListRow {
    ListRow {
        text: text.to_string(),
        class_attr: class_attr.map(String::from),
        link_href: link_href.map(String::from),
    }
}

#[test]
fn encoding_leaves_unreserved_bytes_alone() {
    assert_eq!(urlencoding::encode("AZaz09-_.~"), "AZaz09-_.~");
    assert_eq!(urlencoding::encode(""), "");
    assert_eq!(urlencoding::encode("a b&c=d/e?f"), "a%20b%26c%3Dd%2Fe%3Ff");
    assert_eq!(urlencoding::encode("é"), "%C3%A9");
    assert_eq!(urlencoding::encode("\u{0}\u{7f}"), "%00%7F");
}

#[test]
fn job_id_with_encoded_segment_and_session() {
    assert_eq!(
        extract_job_id_from_href("read.html;jsessionid=XYZ123?id=JobQueueRun%21%21%21%21ABC123"),
        Some("JobQueueRun!!!!ABC123".to_string())
    );
}

#[test]
fn job_id_ends_at_the_next_parameter() {
    assert_eq!(
        extract_job_id_from_href("read.html?x=1&id=JobQueueRun!!!!A1&y=2"),
        Some("JobQueueRun!!!!A1".to_string())
    );
    assert_eq!(
        extract_job_id_from_href("read.html?id=abc def"),
        Some("abc".to_string())
    );
}

#[test]
fn job_id_falls_back_to_the_token() {
    assert_eq!(
        extract_job_id_from_href("/audit/JobQueueRun%21%21%21%21Q9/view"),
        Some("JobQueueRun!!!!Q9".to_string())
    );
    assert_eq!(extract_job_id_from_href("read.html"), None);
    assert_eq!(extract_job_id_from_href(""), None);
    assert_eq!(extract_job_id_from_href("read.html?id="), None);
}

#[test]
fn decode_handles_the_seven_escapes_only() {
    assert_eq!(urlencoding_decode("%21%20%2F%3A%3D%26%3F"), "! /:=&?");
    assert_eq!(urlencoding_decode("%2f%3a"), "%2f%3a");
    assert_eq!(urlencoding_decode("%41%2"), "%41%2");
    assert_eq!(urlencoding_decode(""), "");
    assert_eq!(urlencoding_decode("%%21%"), "%!%");
    assert_eq!(urlencoding_decode("%2%211"), "%2!1");
}

#[test]
fn first_match_uses_the_pattern() {
    assert_eq!(
        find_first(ID_PARAM_PATTERN, "a?id=77&b", 1),
        Some("77".to_string())
    );
    assert_eq!(
        find_first(ID_PARAM_PATTERN, "a?id=77&b", 0),
        Some("?id=77".to_string())
    );
    assert_eq!(
        find_first(JOB_TOKEN_PATTERN, "xx JobQueueRun!!21 yy", 0),
        Some("JobQueueRun!!21".to_string())
    );
    assert_eq!(find_first(JOB_TOKEN_PATTERN, "JobQueueRun!!", 0), None);
    assert_eq!(find_first("(", "anything", 0), None);
    assert_eq!(find_first("a(b)?", "a", 1), None);
}

#[test]
fn status_from_text_comes_first() {
    assert_eq!(status_from_lowered("audit complete", "error"), JobStatus::Complete);
    assert_eq!(status_from_lowered("ready", ""), JobStatus::Complete);
    assert_eq!(status_from_lowered("finished", ""), JobStatus::Complete);
    assert_eq!(status_from_lowered("still running", "complete"), JobStatus::Processing);
    assert_eq!(status_from_lowered("pending", ""), JobStatus::Processing);
    assert_eq!(status_from_lowered("queued", ""), JobStatus::Processing);
    assert_eq!(status_from_lowered("in progress", ""), JobStatus::Processing);
    assert_eq!(status_from_lowered("processing", ""), JobStatus::Processing);
    assert_eq!(
        status_from_lowered("  job failed \n", "complete"),
        JobStatus::Error("job failed".to_string())
    );
    assert_eq!(
        status_from_lowered("an error", ""),
        JobStatus::Error("an error".to_string())
    );
    assert_eq!(
        status_from_lowered("failure", ""),
        JobStatus::Error("failure".to_string())
    );
    assert_eq!(
        status_from_lowered("ready but failed", ""),
        JobStatus::Complete
    );
}

#[test]
fn status_from_class_comes_second() {
    assert_eq!(status_from_lowered("view", "row complete"), JobStatus::Complete);
    assert_eq!(status_from_lowered("view", "success"), JobStatus::Complete);
    assert_eq!(status_from_lowered("view", "pending"), JobStatus::Processing);
    assert_eq!(status_from_lowered("view", "processing"), JobStatus::Processing);
    assert_eq!(
        status_from_lowered("view", "error"),
        JobStatus::Error("status class indicates failure".to_string())
    );
    assert_eq!(
        status_from_lowered("view", "fail"),
        JobStatus::Error("status class indicates failure".to_string())
    );
}

#[test]
fn status_defaults_to_complete() {
    assert_eq!(status_from_lowered("view", "odd"), JobStatus::Complete);
    assert_eq!(status_from_lowered("", ""), JobStatus::Complete);
}

#[test]
fn row_status_ignores_letter_case() {
    assert_eq!(
        extract_status_from_row(&row("PROCESSING", None, None)),
        JobStatus::Processing
    );
    assert_eq!(
        extract_status_from_row(&row("View", Some("Status-PENDING"), None)),
        JobStatus::Processing
    );
    assert_eq!(
        extract_status_from_row(&row("  Job FAILED  ", None, None)),
        JobStatus::Error("job failed".to_string())
    );
    assert_eq!(extract_status_from_row(&row("View", None, None)), JobStatus::Complete);
}

#[test]
fn job_from_row_needs_a_link_with_a_token() {
    assert_eq!(job_from_row(&row("Complete", None, None)), None);
    assert_eq!(job_from_row(&row("Complete", None, Some("read.html"))), None);
    assert_eq!(
        job_from_row(&row("Processing", None, Some("read.html?id=J%211"))),
        Some(AuditJob {
            job_id: "J!1".to_string(),
            status: JobStatus::Processing,
            raw_href: Some("read.html?id=J%211".to_string()),
        })
    );
    let rows = vec![
        row("a", None, None),
        row("running", None, Some("read.html?id=1")),
        row("b", None, Some("nothing")),
        row("done", Some("complete"), Some("read.html?id=2")),
    ];
    let jobs = jobs_from_rows(&rows);
    assert_eq!(jobs.len(), 2);
    assert_eq!(jobs[0].job_id, "1");
    assert_eq!(jobs[0].status, JobStatus::Processing);
    assert_eq!(jobs[1].job_id, "2");
    assert_eq!(jobs[1].status, JobStatus::Complete);
}

const TABLE_PAGE: &str = "<html><body><table>\
<tr><th>Job</th><th>Status</th></tr>\
<tr class=\"odd\"><td><a href=\"read.html?id=JobQueueRun%21%21%21%21NEW\">View</a></td><td>Processing</td></tr>\
<tr class=\"Complete\"><td><a href=\"read.html?id=JobQueueRun!!!!OLD\">View</a></td><td></td></tr>\
</table></body></html>";

#[test]
fn rows_are_read_with_text_class_and_link() {
    let rows = list_rows(TABLE_PAGE);
    assert_eq!(rows.len(), 3);
    assert_eq!(rows[0], row("JobStatus", None, None));
    assert_eq!(
        rows[1],
        row(
            "ViewProcessing",
            Some("odd"),
            Some("read.html?id=JobQueueRun%21%21%21%21NEW")
        )
    );
    assert_eq!(
        rows[2],
        row("View", Some("Complete"), Some("read.html?id=JobQueueRun!!!!OLD"))
    );
    assert_eq!(list_rows("no table here"), Vec::<ListRow>::new());
}

#[test]
fn hrefs_are_read_in_document_order() {
    let page = "<a href=\"one\">1</a><p><a name=\"x\">2</a></p><a href=\"three\">3</a>";
    assert_eq!(
        list_hrefs(page, "a"),
        vec![Some("one".to_string()), None, Some("three".to_string())]
    );
    assert_eq!(list_hrefs(page, "a[href*='thr']"), vec![Some("three".to_string())]);
    assert_eq!(list_hrefs(page, "a[["), Vec::<Option<String>>::new());
}

#[test]
fn newest_job_is_the_first_row_with_a_token() {
    let job = parse_newest_job(TABLE_PAGE).unwrap();
    assert_eq!(job.job_id, "JobQueueRun!!!!NEW");
    assert_eq!(job.status, JobStatus::Processing);
    assert_eq!(
        job.raw_href,
        Some("read.html?id=JobQueueRun%21%21%21%21NEW".to_string())
    );
    let all = parse_all_jobs(TABLE_PAGE);
    assert_eq!(all.len(), 2);
    assert_eq!(all[1].job_id, "JobQueueRun!!!!OLD");
    assert_eq!(all[1].status, JobStatus::Complete);
}

#[test]
fn newest_job_from_a_link_outside_any_row() {
    let page = "<div><a href=\"/audit/read.html?id=JobQueueRun!!!!L1\">report</a></div>";
    let job = parse_newest_job(page).unwrap();
    assert_eq!(job.job_id, "JobQueueRun!!!!L1");
    assert_eq!(job.status, JobStatus::Unknown("fallback extraction".to_string()));
    assert_eq!(job.raw_href, Some("/audit/read.html?id=JobQueueRun!!!!L1".to_string()));
    assert!(parse_all_jobs(page).is_empty());
}

#[test]
fn newest_job_from_a_token_in_any_link() {
    let page = "<a href=\"/open/JobQueueRun%21%21%21%21P7\">x</a>";
    let job = parse_newest_job(page).unwrap();
    assert_eq!(job.job_id, "JobQueueRun!!!!P7");
    assert_eq!(job.status, JobStatus::Unknown("pattern match".to_string()));
    assert_eq!(job.raw_href, Some("/open/JobQueueRun%21%21%21%21P7".to_string()));
}

#[test]
fn newest_job_from_the_page_text() {
    let page = "<script>var job = 'JobQueueRun!!!!T5';</script>";
    let job = parse_newest_job(page).unwrap();
    assert_eq!(job.job_id, "JobQueueRun!!!!T5");
    assert_eq!(job.status, JobStatus::Unknown("text extraction".to_string()));
    assert_eq!(job.raw_href, None);
    let encoded = parse_newest_job("<p>job JobQueueRun%21%21%21%21T6 queued</p>").unwrap();
    assert_eq!(encoded.job_id, "JobQueueRun!!!!T6");
    assert_eq!(encoded.status, JobStatus::Unknown("text extraction".to_string()));
}

#[test]
fn no_job_found_when_every_way_fails() {
    assert_eq!(
        parse_newest_job("<html><body><p>nothing</p></body></html>"),
        Err(DegreeAuditError::NoJobFound)
    );
    assert_eq!(parse_newest_job(""), Err(DegreeAuditError::NoJobFound));
}

#[test]
fn status_predicates_follow_the_variant() {
    assert!(JobStatus::Complete.is_ready());
    assert!(!JobStatus::Complete.is_processing());
    assert!(!JobStatus::Complete.is_failed());
    assert!(JobStatus::Processing.is_processing());
    assert!(!JobStatus::Processing.is_ready());
    assert!(JobStatus::Error("x".to_string()).is_failed());
    assert!(!JobStatus::Error("x".to_string()).is_ready());
    let unknown = JobStatus::Unknown("y".to_string());
    assert!(!unknown.is_ready() && !unknown.is_processing() && !unknown.is_failed());
    assert_eq!(unknown.clone(), unknown);
}

#[test]
fn page_says_processing_in_any_letter_case() {
    assert!(page_indicates_processing("<body>Please WAIT</body>"));
    assert!(page_indicates_processing("list.html?autoPoll=true"));
    assert!(page_indicates_processing("Generating your audit"));
    assert!(page_indicates_processing("IN PROGRESS"));
    assert!(page_indicates_processing("Processing"));
    assert!(!page_indicates_processing("<body>Complete</body>"));
    assert!(!page_indicates_processing(""));
    assert!(lowered_page_says_processing("autopoll"));
    assert!(!lowered_page_says_processing("AUTOPOLL"));
}

#[test]
fn token_in_a_link_to_another_page_is_decoded() {
    let page = "<a href='view.html?job=JobQueueRun%21%21%21%21K3'>Open</a>";
    let job = parse_newest_job(page).unwrap();
    assert_eq!(job.job_id, "JobQueueRun!!!!K3");
    assert_eq!(job.status, JobStatus::Unknown("pattern match".to_string()));
    assert_eq!(job.raw_href, Some("view.html?job=JobQueueRun%21%21%21%21K3".to_string()));
}
