//! Audit jobs and their discovery on the job list page.
//!
//! The list page has no fixed format. Discovery tries four ways of finding a
//! job in turn and takes the first job of the first way that finds any.

use vstd::prelude::*;
use regex::Regex;
use scraper::Html;
use scraper::Selector;
use crate::error::DegreeAuditError;
use crate::text;
use crate::text::contains_seq;
use crate::text::lowercase;
use crate::text::replaced;
use crate::text::trimmed;

verus! {

/// Selector for the rows of the job table.
pub const ROW_SELECTOR: &'static str = "table tr, tr";

/// Selector for links to the report page.
pub const LINK_SELECTOR: &'static str = "a[href*='read.html'], a[href*='read']";

/// Selector for every link.
pub const ANY_LINK_SELECTOR: &'static str = "a";

/// Pattern for the `id` query parameter; its first group is the value.
pub const ID_PARAM_PATTERN: &'static str = "[?&]id=([^&\\s]+)";

/// Pattern for a job token standing anywhere in a text.
pub const JOB_TOKEN_PATTERN: &'static str = "JobQueueRun[!%21]+[A-Za-z0-9_\\-]+";

/// Note on a job found by the second way.
pub const NOTE_FALLBACK: &'static str = "fallback extraction";

/// Note on a job found by the third way.
pub const NOTE_PATTERN: &'static str = "pattern match";

/// Note on a job found by the fourth way.
pub const NOTE_TEXT: &'static str = "text extraction";

/// Reason given when only the row's class says that the job failed.
pub const REASON_CLASS: &'static str = "status class indicates failure";

/// Progress of an audit job as shown on the job list page.
#[derive(Debug, Clone, PartialEq, Eq)]
pub enum JobStatus {
    /// The job is still being generated.
    Processing,
    /// The job has finished and its report can be fetched.
    Complete,
    /// The job ended in failure, with the reason shown.
    Error(String),
    /// The page gave no indication; the text says how the job was found.
    Unknown(String),
}

/// A job status with its texts as character sequences.
pub enum StatusView {
    Processing,
    Complete,
    Error(Seq<char>),
    Unknown(Seq<char>),
}

impl View for JobStatus {
    type V = StatusView;

    open spec fn view(&self) -> StatusView {
        match self {
            JobStatus::Processing => StatusView::Processing,
            JobStatus::Complete => StatusView::Complete,
            JobStatus::Error(reason) => StatusView::Error(reason@),
            JobStatus::Unknown(note) => StatusView::Unknown(note@),
        }
    }
}

impl JobStatus {
    /// True exactly for a finished job.
    pub fn is_ready(&self) -> (r: bool)
        ensures
            r == (self@ is Complete),
    {
        matches!(self, JobStatus::Complete)
    }

    /// True exactly for a job that is still being generated.
    pub fn is_processing(&self) -> (r: bool)
        ensures
            r == (self@ is Processing),
    {
        matches!(self, JobStatus::Processing)
    }

    /// True exactly for a job that ended in failure.
    pub fn is_failed(&self) -> (r: bool)
        ensures
            r == (self@ is Error),
    {
        matches!(self, JobStatus::Error(_))
    }
}

/// A job as found on the list page.
#[derive(Debug, Clone, PartialEq, Eq)]
pub struct AuditJob {
    /// The token that the portal gave the job.
    pub job_id: String,
    /// What the page says of its progress.
    pub status: JobStatus,
    /// The link it was taken from, where there was one.
    pub raw_href: Option<String>,
}

/// An audit job with its texts as character sequences.
pub struct JobView {
    pub job_id: Seq<char>,
    pub status: StatusView,
    pub raw_href: Option<Seq<char>>,
}

impl View for AuditJob {
    type V = JobView;

    open spec fn view(&self) -> JobView {
        JobView {
            job_id: self.job_id@,
            status: self.status@,
            raw_href: self.raw_href.deep_view(),
        }
    }
}

/// The views of the jobs of a list.
pub open spec fn job_views(jobs: Seq<AuditJob>) -> Seq<JobView> {
    jobs.map_values(|j: AuditJob| j@)
}

/// What discovery reads of one row of the job table.
#[derive(Debug, Clone, PartialEq, Eq)]
pub struct ListRow {
    /// The text of the row and of everything in it.
    pub text: String,
    /// The row's `class` attribute.
    pub class_attr: Option<String>,
    /// The `href` of the first report link in the row.
    pub link_href: Option<String>,
}

/// A table row with its texts as character sequences.
pub struct RowView {
    pub text: Seq<char>,
    pub class_attr: Option<Seq<char>>,
    pub link_href: Option<Seq<char>>,
}

impl View for ListRow {
    type V = RowView;

    open spec fn view(&self) -> RowView {
        RowView {
            text: self.text@,
            class_attr: self.class_attr.deep_view(),
            link_href: self.link_href.deep_view(),
        }
    }
}

/// The views of the rows of a list.
pub open spec fn row_views(rows: Seq<ListRow>) -> Seq<RowView> {
    rows.map_values(|r: ListRow| r@)
}

/// The views of a list of optional texts.
pub open spec fn href_views(hrefs: Seq<Option<String>>) -> Seq<Option<Seq<char>>> {
    hrefs.map_values(|h: Option<String>| h.deep_view())
}

/// The rows that the document `html` holds under the selector `rows`, in
/// the order in which `Html::select` yields them, each with the first
/// element under `links` inside it;
/// `None` where one of the selectors is not valid.
pub uninterp spec fn selected_rows(html: Seq<char>, rows: Seq<char>, links: Seq<char>) -> Option<
    Seq<RowView>,
>;

/// The `href` attributes of the elements that the document `html` holds under
/// `selector`, in the order in which `Html::select` yields them; `None`
/// where the selector is not valid.
pub uninterp spec fn selected_hrefs(html: Seq<char>, selector: Seq<char>) -> Option<
    Seq<Option<Seq<char>>>,
>;

/// The text of capture group `group` in the first match of `pattern` in
/// `text`: `None` where the pattern does not compile, `Some(None)` where it
/// does not match or the group took no part in the match.
pub uninterp spec fn regex_capture(pattern: Seq<char>, text: Seq<char>, group: nat) -> Option<
    Option<Seq<char>>,
>;

/// The error of the regex crate for a pattern that does not compile.
#[verifier::external_type_specification]
#[verifier::external_body]
pub struct ExRegexError(regex::Error);

/// The error of the scraper crate for a selector that is not valid.
#[verifier::external_type_specification]
#[verifier::external_body]
pub struct ExSelectorErrorKind(scraper::error::SelectorErrorKind);

/// Parses `html` with `Html::parse_document` of the scraper crate and walks
/// the elements under `rows` with `Html::select`. Of each it takes the text
/// (`ElementRef::text`), the `class` attribute and the `href` of the first
/// element under `links` inside it (`ElementRef::select`). Fails where
/// `Selector::parse` refuses a selector.
#[verifier::external_body]
fn select_rows(html: &str, rows: &str, links: &str) -> (r: Result<
    Vec<ListRow>,
    scraper::error::SelectorErrorKind,
>)
    ensures
        r matches Ok(found) ==> selected_rows(html@, rows@, links@) == Some(row_views(found@)),
        r is Err ==> selected_rows(html@, rows@, links@) is None,
{
    let rows = Selector::parse(rows)?;
    let links = Selector::parse(links)?;
    let document = Html::parse_document(html);
    Ok(document.select(&rows).map(|row| ListRow {
        text: row.text().collect(),
        class_attr: row.attr("class").map(String::from),
        link_href: row.select(&links).next().and_then(|a| a.attr("href")).map(String::from),
    }).collect())
}

/// Parses `html` with `Html::parse_document` of the scraper crate and takes
/// the `href` attribute of each element that `Html::select` finds under
/// `selector`. Fails where `Selector::parse` refuses the selector.
#[verifier::external_body]
fn select_hrefs(html: &str, selector: &str) -> (r: Result<
    Vec<Option<String>>,
    scraper::error::SelectorErrorKind,
>)
    ensures
        r matches Ok(found) ==> selected_hrefs(html@, selector@) == Some(href_views(found@)),
        r is Err ==> selected_hrefs(html@, selector@) is None,
{
    let selector = Selector::parse(selector)?;
    let document = Html::parse_document(html);
    Ok(document.select(&selector).map(|a| a.attr("href").map(String::from)).collect())
}

/// Compiles `pattern` with `Regex::new` of the regex crate and searches `text`
/// with `Regex::captures` for the first match, of which it takes capture
/// group `group`. Fails where the pattern does not compile.
#[verifier::external_body]
fn capture(pattern: &str, text: &str, group: usize) -> (r: Result<Option<String>, regex::Error>)
    ensures
        r matches Ok(found) ==> regex_capture(pattern@, text@, group as nat) == Some(
            found.deep_view(),
        ),
        r is Err ==> regex_capture(pattern@, text@, group as nat) is None,
{
    let re = Regex::new(pattern)?;
    Ok(re.captures(text).and_then(|c| c.get(group)).map(|m| m.as_str().to_string()))
}

/// The text of group `group` in the first match of `pattern` in `text`, if
/// there is one.
pub open spec fn first_match(pattern: Seq<char>, text: Seq<char>, group: nat) -> Option<
    Seq<char>,
> {
    match regex_capture(pattern, text, group) {
        Some(found) => found,
        None => None,
    }
}

/// The rows of the job table of `html`.
pub open spec fn rows_of(html: Seq<char>) -> Seq<RowView> {
    match selected_rows(html, ROW_SELECTOR@, LINK_SELECTOR@) {
        Some(rows) => rows,
        None => Seq::empty(),
    }
}

/// The `href` attributes of the elements of `html` under `selector`.
pub open spec fn hrefs_of(html: Seq<char>, selector: Seq<char>) -> Seq<Option<Seq<char>>> {
    match selected_hrefs(html, selector) {
        Some(hrefs) => hrefs,
        None => Seq::empty(),
    }
}

/// `s` with the escapes `%21`, `%20`, `%2F`, `%3A`, `%3D`, `%26` and `%3F`
/// replaced, in this order, by the characters they stand for.
pub open spec fn url_decoded(s: Seq<char>) -> Seq<char> {
    let s1 = replaced(s, "%21"@, "!"@);
    let s2 = replaced(s1, "%20"@, " "@);
    let s3 = replaced(s2, "%2F"@, "/"@);
    let s4 = replaced(s3, "%3A"@, ":"@);
    let s5 = replaced(s4, "%3D"@, "="@);
    let s6 = replaced(s5, "%26"@, "&"@);
    replaced(s6, "%3F"@, "?"@)
}

/// The job token that a link carries: the decoded value of its `id`
/// parameter, else a decoded job token standing anywhere in it.
pub open spec fn job_id_in(href: Seq<char>) -> Option<Seq<char>> {
    match first_match(ID_PARAM_PATTERN@, href, 1) {
        Some(value) => Some(url_decoded(value)),
        None => match first_match(JOB_TOKEN_PATTERN@, href, 0) {
            Some(token) => Some(url_decoded(token)),
            None => None,
        },
    }
}

/// The lower-cased text says that the job is finished.
pub open spec fn text_says_complete(text: Seq<char>) -> bool {
    contains_seq(text, "complete"@) || contains_seq(text, "ready"@) || contains_seq(
        text,
        "finished"@,
    )
}

/// The lower-cased text says that the job is under way.
pub open spec fn text_says_processing(text: Seq<char>) -> bool {
    contains_seq(text, "processing"@) || contains_seq(text, "running"@) || contains_seq(
        text,
        "pending"@,
    ) || contains_seq(text, "queued"@) || contains_seq(text, "in progress"@)
}

/// The lower-cased text says that the job failed.
pub open spec fn text_says_failed(text: Seq<char>) -> bool {
    contains_seq(text, "error"@) || contains_seq(text, "failed"@) || contains_seq(
        text,
        "failure"@,
    )
}

/// The status that a row shows, from its lower-cased text and its lower-cased
/// class. The text is asked first, then the class, each for completion, then
/// progress, then failure. A row that says nothing counts as finished.
pub open spec fn status_shown(text: Seq<char>, class_attr: Seq<char>) -> StatusView {
    if text_says_complete(text) {
        StatusView::Complete
    } else if text_says_processing(text) {
        StatusView::Processing
    } else if text_says_failed(text) {
        StatusView::Error(trimmed(text))
    } else if contains_seq(class_attr, "complete"@) || contains_seq(class_attr, "success"@) {
        StatusView::Complete
    } else if contains_seq(class_attr, "pending"@) || contains_seq(class_attr, "processing"@) {
        StatusView::Processing
    } else if contains_seq(class_attr, "error"@) || contains_seq(class_attr, "fail"@) {
        StatusView::Error(REASON_CLASS@)
    } else {
        StatusView::Complete
    }
}

/// The status of a table row.
pub open spec fn row_status(row: RowView) -> StatusView {
    status_shown(
        lowercase(row.text),
        lowercase(
            match row.class_attr {
                Some(class_attr) => class_attr,
                None => Seq::empty(),
            },
        ),
    )
}

/// The job that a table row stands for, if its report link carries a token.
pub open spec fn job_in_row(row: RowView) -> Option<JobView> {
    match row.link_href {
        Some(href) => match job_id_in(href) {
            Some(job_id) => Some(
                JobView { job_id, status: row_status(row), raw_href: Some(href) },
            ),
            None => None,
        },
        None => None,
    }
}

/// The job that a report link stands for, if it carries a token.
pub open spec fn job_in_link(href: Option<Seq<char>>) -> Option<JobView> {
    match href {
        Some(href) => match job_id_in(href) {
            Some(job_id) => Some(
                JobView {
                    job_id,
                    status: StatusView::Unknown(NOTE_FALLBACK@),
                    raw_href: Some(href),
                },
            ),
            None => None,
        },
        None => None,
    }
}

/// The job that any link stands for, if a job token stands in it: the
/// token, decoded.
pub open spec fn job_in_any_link(href: Option<Seq<char>>) -> Option<JobView> {
    match href {
        Some(href) => match first_match(JOB_TOKEN_PATTERN@, href, 0) {
            Some(token) => Some(
                JobView {
                    job_id: url_decoded(token),
                    status: StatusView::Unknown(NOTE_PATTERN@),
                    raw_href: Some(href),
                },
            ),
            None => None,
        },
        None => None,
    }
}

/// The job whose token stands first in the text of the page: the token,
/// decoded.
pub open spec fn job_in_text(html: Seq<char>) -> Option<JobView> {
    match first_match(JOB_TOKEN_PATTERN@, html, 0) {
        Some(token) => Some(
            JobView {
                job_id: url_decoded(token),
                status: StatusView::Unknown(NOTE_TEXT@),
                raw_href: None,
            },
        ),
        None => None,
    }
}

/// The items of `items` for which `pick` gives a job, in order.
pub open spec fn picked<T>(items: Seq<T>, pick: spec_fn(T) -> Option<JobView>) -> Seq<JobView>
    decreases items.len(),
{
    if items.len() == 0 {
        Seq::empty()
    } else {
        let before = picked(items.drop_last(), pick);
        match pick(items.last()) {
            Some(job) => before.push(job),
            None => before,
        }
    }
}

/// The jobs of the rows of the job table, in the order of the rows.
pub open spec fn jobs_in_rows(rows: Seq<RowView>) -> Seq<JobView> {
    picked(rows, |row: RowView| job_in_row(row))
}

/// The jobs of the report links, in the order of the links.
pub open spec fn jobs_in_links(hrefs: Seq<Option<Seq<char>>>) -> Seq<JobView> {
    picked(hrefs, |href: Option<Seq<char>>| job_in_link(href))
}

/// The jobs of all links that hold a job token, in the order of the links.
pub open spec fn jobs_in_any_links(hrefs: Seq<Option<Seq<char>>>) -> Seq<JobView> {
    picked(hrefs, |href: Option<Seq<char>>| job_in_any_link(href))
}

/// The first job of a list.
pub open spec fn first_of(jobs: Seq<JobView>) -> Option<JobView> {
    if jobs.len() > 0 {
        Some(jobs[0])
    } else {
        None
    }
}

/// The newest job of the list page `html`: the first job of the first of
/// the four ways that finds any.
pub open spec fn newest_job(html: Seq<char>) -> Option<JobView> {
    let by_rows = jobs_in_rows(rows_of(html));
    let by_links = jobs_in_links(hrefs_of(html, LINK_SELECTOR@));
    let by_any_links = jobs_in_any_links(hrefs_of(html, ANY_LINK_SELECTOR@));
    if by_rows.len() > 0 {
        first_of(by_rows)
    } else if by_links.len() > 0 {
        first_of(by_links)
    } else if by_any_links.len() > 0 {
        first_of(by_any_links)
    } else {
        job_in_text(html)
    }
}

/// Whether the lower-cased page text says that a job is being generated.
pub open spec fn says_processing(lower: Seq<char>) -> bool {
    contains_seq(lower, "autopoll"@) || contains_seq(lower, "processing"@) || contains_seq(
        lower,
        "please wait"@,
    ) || contains_seq(lower, "generating"@) || contains_seq(lower, "in progress"@)
}

/// Replaces the escapes for `!`, space, `/`, `:`, `=`, `&` and `?` by those
/// characters. Other escapes stay as they are.
pub fn urlencoding_decode(s: &str) -> (r: String)
    ensures
        r@ == url_decoded(s@),
{
    let c = text::chars_of(s);
    let c = text::replace_str(&c, "%21", "!");
    let c = text::replace_str(&c, "%20", " ");
    let c = text::replace_str(&c, "%2F", "/");
    let c = text::replace_str(&c, "%3A", ":");
    let c = text::replace_str(&c, "%3D", "=");
    let c = text::replace_str(&c, "%26", "&");
    let c = text::replace_str(&c, "%3F", "?");
    text::string_of(c)
}

/// The text of group `group` in the first match of `pattern` in `text`.
/// A pattern that does not compile matches nothing.
pub fn find_first(pattern: &str, text: &str, group: usize) -> (r: Option<String>)
    ensures
        r.deep_view() == first_match(pattern@, text@, group as nat),
{
    match capture(pattern, text, group) {
        Ok(found) => found,
        Err(_) => None,
    }
}

/// Takes the job token out of a link to the report page: the value of the
/// `id` parameter, decoded, also where a session segment stands before the
/// query; failing that, a job token standing anywhere in the link, decoded.
pub fn extract_job_id_from_href(href: &str) -> (r: Option<String>)
    ensures
        r.deep_view() == job_id_in(href@),
{
    match find_first(ID_PARAM_PATTERN, href, 1) {
        Some(value) => Some(urlencoding_decode(value.as_str())),
        None => match find_first(JOB_TOKEN_PATTERN, href, 0) {
            Some(token) => Some(urlencoding_decode(token.as_str())),
            None => None,
        },
    }
}

/// The status that a row shows, given its text and its class, both already
/// in lower case.
pub fn status_from_lowered(text: &str, class_attr: &str) -> (r: JobStatus)
    ensures
        r@ == status_shown(text@, class_attr@),
{
    let t = text::chars_of(text);
    let c = text::chars_of(class_attr);
    if text::contains_str(&t, "complete") || text::contains_str(&t, "ready") || text::contains_str(
        &t,
        "finished",
    ) {
        JobStatus::Complete
    } else if text::contains_str(&t, "processing") || text::contains_str(&t, "running")
        || text::contains_str(&t, "pending") || text::contains_str(&t, "queued")
        || text::contains_str(&t, "in progress") {
        JobStatus::Processing
    } else if text::contains_str(&t, "error") || text::contains_str(&t, "failed")
        || text::contains_str(&t, "failure") {
        JobStatus::Error(text::trim(text))
    } else if text::contains_str(&c, "complete") || text::contains_str(&c, "success") {
        JobStatus::Complete
    } else if text::contains_str(&c, "pending") || text::contains_str(&c, "processing") {
        JobStatus::Processing
    } else if text::contains_str(&c, "error") || text::contains_str(&c, "fail") {
        JobStatus::Error(REASON_CLASS.to_string())
    } else {
        JobStatus::Complete
    }
}

/// The status that a table row shows. Text and class are compared in lower
/// case; a row without a class counts as one with an empty class.
pub fn extract_status_from_row(row: &ListRow) -> (r: JobStatus)
    ensures
        r@ == row_status(row@),
{
    let lowered = text::to_lowercase(row.text.as_str());
    let class_lowered = match &row.class_attr {
        Some(class_attr) => text::to_lowercase(class_attr.as_str()),
        None => text::to_lowercase(""),
    };
    proof {
        reveal_strlit("");
        assert(""@ =~= Seq::<char>::empty());
    }
    status_from_lowered(lowered.as_str(), class_lowered.as_str())
}

/// The job that a table row stands for.
pub fn job_from_row(row: &ListRow) -> (r: Option<AuditJob>)
    ensures
        r is Some <==> job_in_row(row@) is Some,
        r matches Some(job) ==> job_in_row(row@) == Some(job@),
{
    match &row.link_href {
        Some(href) => match extract_job_id_from_href(href.as_str()) {
            Some(job_id) => Some(
                AuditJob {
                    job_id,
                    status: extract_status_from_row(row),
                    raw_href: Some(href.clone()),
                },
            ),
            None => None,
        },
        None => None,
    }
}

/// The job that a link to the report page stands for.
pub fn job_from_link(href: &Option<String>) -> (r: Option<AuditJob>)
    ensures
        r is Some <==> job_in_link(href.deep_view()) is Some,
        r matches Some(job) ==> job_in_link(href.deep_view()) == Some(job@),
{
    match href {
        Some(href) => match extract_job_id_from_href(href.as_str()) {
            Some(job_id) => Some(
                AuditJob {
                    job_id,
                    status: JobStatus::Unknown(NOTE_FALLBACK.to_string()),
                    raw_href: Some(href.clone()),
                },
            ),
            None => None,
        },
        None => None,
    }
}

/// The job that a link holding a job token stands for.
pub fn job_from_any_link(href: &Option<String>) -> (r: Option<AuditJob>)
    ensures
        r is Some <==> job_in_any_link(href.deep_view()) is Some,
        r matches Some(job) ==> job_in_any_link(href.deep_view()) == Some(job@),
{
    match href {
        Some(href) => match find_first(JOB_TOKEN_PATTERN, href.as_str(), 0) {
            Some(token) => Some(
                AuditJob {
                    job_id: urlencoding_decode(token.as_str()),
                    status: JobStatus::Unknown(NOTE_PATTERN.to_string()),
                    raw_href: Some(href.clone()),
                },
            ),
            None => None,
        },
        None => None,
    }
}

/// The job whose token stands first in the text of the page.
pub fn job_from_text(html: &str) -> (r: Option<AuditJob>)
    ensures
        r is Some <==> job_in_text(html@) is Some,
        r matches Some(job) ==> job_in_text(html@) == Some(job@),
{
    match find_first(JOB_TOKEN_PATTERN, html, 0) {
        Some(token) => Some(
            AuditJob {
                job_id: urlencoding_decode(token.as_str()),
                status: JobStatus::Unknown(NOTE_TEXT.to_string()),
                raw_href: None,
            },
        ),
        None => None,
    }
}

/// The jobs of the given table rows, in order.
pub fn jobs_from_rows(rows: &Vec<ListRow>) -> (jobs: Vec<AuditJob>)
    ensures
        job_views(jobs@) == jobs_in_rows(row_views(rows@)),
{
    let mut jobs: Vec<AuditJob> = Vec::new();
    let ghost pick = |row: RowView| job_in_row(row);
    let mut i: usize = 0;
    while i < rows.len()
        invariant
            i <= rows.len(),
            pick == (|row: RowView| job_in_row(row)),
            job_views(jobs@) == picked(row_views(rows@).take(i as int), pick),
        decreases rows.len() - i,
    {
        let ghost before = jobs@;
        let found = job_from_row(&rows[i]);
        proof {
            let upto = row_views(rows@).take(i + 1);
            assert(upto.drop_last() =~= row_views(rows@).take(i as int));
            assert(upto.last() == rows@[i as int]@);
        }
        match found {
            Some(job) => {
                jobs.push(job);
                assert(job_views(jobs@) =~= job_views(before).push(job@));
            },
            None => {},
        }
        i += 1;
    }
    assert(row_views(rows@).take(i as int) =~= row_views(rows@));
    jobs
}

/// The jobs of the given report links, in order.
pub fn jobs_from_links(hrefs: &Vec<Option<String>>) -> (jobs: Vec<AuditJob>)
    ensures
        job_views(jobs@) == jobs_in_links(href_views(hrefs@)),
{
    let mut jobs: Vec<AuditJob> = Vec::new();
    let ghost pick = |href: Option<Seq<char>>| job_in_link(href);
    let mut i: usize = 0;
    while i < hrefs.len()
        invariant
            i <= hrefs.len(),
            pick == (|href: Option<Seq<char>>| job_in_link(href)),
            job_views(jobs@) == picked(href_views(hrefs@).take(i as int), pick),
        decreases hrefs.len() - i,
    {
        let ghost before = jobs@;
        let found = job_from_link(&hrefs[i]);
        proof {
            let upto = href_views(hrefs@).take(i + 1);
            assert(upto.drop_last() =~= href_views(hrefs@).take(i as int));
            assert(upto.last() == hrefs@[i as int].deep_view());
        }
        match found {
            Some(job) => {
                jobs.push(job);
                assert(job_views(jobs@) =~= job_views(before).push(job@));
            },
            None => {},
        }
        i += 1;
    }
    assert(href_views(hrefs@).take(i as int) =~= href_views(hrefs@));
    jobs
}

/// The jobs of the given links that hold a job token, in order.
pub fn jobs_from_any_links(hrefs: &Vec<Option<String>>) -> (jobs: Vec<AuditJob>)
    ensures
        job_views(jobs@) == jobs_in_any_links(href_views(hrefs@)),
{
    let mut jobs: Vec<AuditJob> = Vec::new();
    let ghost pick = |href: Option<Seq<char>>| job_in_any_link(href);
    let mut i: usize = 0;
    while i < hrefs.len()
        invariant
            i <= hrefs.len(),
            pick == (|href: Option<Seq<char>>| job_in_any_link(href)),
            job_views(jobs@) == picked(href_views(hrefs@).take(i as int), pick),
        decreases hrefs.len() - i,
    {
        let ghost before = jobs@;
        let found = job_from_any_link(&hrefs[i]);
        proof {
            let upto = href_views(hrefs@).take(i + 1);
            assert(upto.drop_last() =~= href_views(hrefs@).take(i as int));
            assert(upto.last() == hrefs@[i as int].deep_view());
        }
        match found {
            Some(job) => {
                jobs.push(job);
                assert(job_views(jobs@) =~= job_views(before).push(job@));
            },
            None => {},
        }
        i += 1;
    }
    assert(href_views(hrefs@).take(i as int) =~= href_views(hrefs@));
    jobs
}

/// The rows of the job table of the page. A page is read with fixed
/// selectors; were one of them refused, the page would count as empty.
pub fn list_rows(html: &str) -> (rows: Vec<ListRow>)
    ensures
        row_views(rows@) == rows_of(html@),
{
    match select_rows(html, ROW_SELECTOR, LINK_SELECTOR) {
        Ok(rows) => rows,
        Err(_) => {
            let none: Vec<ListRow> = Vec::new();
            assert(row_views(none@) =~= Seq::<RowView>::empty());
            none
        },
    }
}

/// The `href` attributes of the elements of the page under `selector`.
pub fn list_hrefs(html: &str, selector: &str) -> (hrefs: Vec<Option<String>>)
    ensures
        href_views(hrefs@) == hrefs_of(html@, selector@),
{
    match select_hrefs(html, selector) {
        Ok(hrefs) => hrefs,
        Err(_) => {
            let none: Vec<Option<String>> = Vec::new();
            assert(href_views(none@) =~= Seq::<Option<Seq<char>>>::empty());
            none
        },
    }
}

/// Takes the first job out of a list.
fn take_first(jobs: Vec<AuditJob>) -> (r: Option<AuditJob>)
    ensures
        r is Some <==> jobs@.len() > 0,
        r matches Some(job) ==> job@ == job_views(jobs@)[0],
{
    let mut jobs = jobs;
    if jobs.len() > 0 {
        Some(jobs.swap_remove(0))
    } else {
        None
    }
}

/// Finds the newest job on the list page. Four ways are tried in turn: the
/// rows of the job table that link to a report; report links wherever they
/// stand; any link that holds a job token; a job token anywhere in the page
/// text. The first job of the first way that finds any is the newest. Fails
/// with `NoJobFound` exactly when none of the four finds a job.
pub fn parse_newest_job(html: &str) -> (r: Result<AuditJob, DegreeAuditError>)
    ensures
        r matches Ok(job) ==> newest_job(html@) == Some(job@),
        r matches Err(e) ==> e is NoJobFound && newest_job(html@) is None,
{
    let by_rows = jobs_from_rows(&list_rows(html));
    assert(job_views(by_rows@).len() == by_rows@.len());
    if let Some(job) = take_first(by_rows) {
        return Ok(job);
    }
    let by_links = jobs_from_links(&list_hrefs(html, LINK_SELECTOR));
    assert(job_views(by_links@).len() == by_links@.len());
    if let Some(job) = take_first(by_links) {
        return Ok(job);
    }
    let by_any_links = jobs_from_any_links(&list_hrefs(html, ANY_LINK_SELECTOR));
    assert(job_views(by_any_links@).len() == by_any_links@.len());
    if let Some(job) = take_first(by_any_links) {
        return Ok(job);
    }
    match job_from_text(html) {
        Some(job) => Ok(job),
        None => Err(DegreeAuditError::NoJobFound),
    }
}

/// All jobs of the job table of the list page, in the order in which the
/// rows of the page are read.
pub fn parse_all_jobs(html: &str) -> (jobs: Vec<AuditJob>)
    ensures
        job_views(jobs@) == jobs_in_rows(rows_of(html@)),
{
    jobs_from_rows(&list_rows(html))
}

/// Whether a page text, already in lower case, says that a job is being
/// generated.
pub fn lowered_page_says_processing(lower: &str) -> (r: bool)
    ensures
        r == says_processing(lower@),
{
    let t = text::chars_of(lower);
    text::contains_str(&t, "autopoll") || text::contains_str(&t, "processing")
        || text::contains_str(&t, "please wait") || text::contains_str(&t, "generating")
        || text::contains_str(&t, "in progress")
}

/// Whether the list page says that a job is still being generated: it
/// mentions polling, processing, waiting, generating or progress, in any
/// letter case.
pub fn page_indicates_processing(html: &str) -> (r: bool)
    ensures
        r == says_processing(lowercase(html@)),
{
    let lower = text::to_lowercase(html);
    lowered_page_says_processing(lower.as_str())
}

} // verus!
