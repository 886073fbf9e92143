//! The steps of the job-queue protocol, as decisions.
//!
//! The portal is driven in four steps: a request that creates a job, the job
//! list that names it, repeated looks at the list until the job is ready,
//! and the report page. What to do with each response is decided here, on
//! plain values; sending the requests is left to the caller.

use vstd::prelude::*;
use rand::Rng;
use url::Url;
use crate::clock::NANOS_PER_MILLI;
use crate::error::DegreeAuditError;
use crate::job;
use crate::job::AuditJob;
use crate::job::JobStatus;
use crate::job::JobView;
use crate::job::StatusView;
use crate::text;
use crate::text::contains_seq;
use crate::text::decimal;
use crate::text::lowercase;
use crate::text::starts_with_seq;
use crate::types::DegreeAuditResponse;
use crate::types::ResponseView;
use crate::urlencoding;
use vstd::string::StringSliceAdditionalSpecFns;

verus! {

/// Where the portal lives.
pub const DARS_BASE_URL: &'static str = "https://act.ucsd.edu/studentDarsSelfservice";

/// Path of the page that creates a job.
pub const CREATE_PATH: &'static str = "/audit/create.html";

/// Path of the job list.
pub const LIST_PATH: &'static str = "/audit/list.html";

/// Path of the report page.
pub const READ_PATH: &'static str = "/audit/read.html";

/// Query that makes the job list refresh itself.
pub const AUTO_POLL_QUERY: &'static str = "?autoPoll=true";

/// Query prefix of the report page.
pub const ID_QUERY: &'static str = "?id=";

/// The user agent that requests carry by default.
pub const DEFAULT_USER_AGENT: &'static str =
    "Mozilla/5.0 (Windows NT 10.0; Win64; x64) AppleWebKit/537.36 (KHTML, like Gecko) Chrome/120.0.0.0 Safari/537.36";

/// Looks at the job list that are allowed by default.
pub const DEFAULT_MAX_POLL_ATTEMPTS: u32 = 30;

/// Delay before the first look at the job list, by default: half a second.
pub const DEFAULT_POLL_INTERVAL: u128 = 500_000_000;

/// Time allowed for a job to get ready, by default: two minutes.
pub const DEFAULT_POLL_TIMEOUT: u128 = 120_000_000_000;

/// No delay between two looks is longer than this many milliseconds.
pub const MAX_DELAY_MILLIS: u64 = 10_000;

/// A report shorter than this many bytes is suspicious.
pub const SHORT_REPORT_BYTES: usize = 1000;

/// Message for a redirect that does not say where to.
pub const MSG_NO_LOCATION: &'static str = "302 response missing Location header";

/// Start of the message for a creation request answered out of turn.
pub const MSG_CREATE_STATUS: &'static str = "Expected 302 redirect from create.html, got ";

/// Start of the message for a job list that was not delivered.
pub const MSG_LIST_STATUS: &'static str = "list.html returned status ";

/// Start of the message for a report that was not delivered.
pub const MSG_READ_STATUS: &'static str = "read.html returned status ";

/// Settings of the protocol. Times are in nanoseconds.
#[derive(Debug, Clone, PartialEq, Eq)]
pub struct DegreeAuditConfig {
    /// Where the portal lives.
    pub base_url: String,
    /// How many looks at the job list are allowed.
    pub max_poll_attempts: u32,
    /// The delay before the first look; later delays grow from it.
    pub poll_interval_base: u128,
    /// How long a job may take to get ready.
    pub max_poll_timeout: u128,
    /// The user agent that requests carry.
    pub user_agent: String,
}

/// Settings as values.
pub struct ConfigView {
    pub base_url: Seq<char>,
    pub max_poll_attempts: nat,
    pub poll_interval_base: nat,
    pub max_poll_timeout: nat,
    pub user_agent: Seq<char>,
}

impl View for DegreeAuditConfig {
    type V = ConfigView;

    open spec fn view(&self) -> ConfigView {
        ConfigView {
            base_url: self.base_url@,
            max_poll_attempts: self.max_poll_attempts as nat,
            poll_interval_base: self.poll_interval_base as nat,
            max_poll_timeout: self.max_poll_timeout as nat,
            user_agent: self.user_agent@,
        }
    }
}

/// The default settings.
pub open spec fn default_config() -> ConfigView {
    ConfigView {
        base_url: DARS_BASE_URL@,
        max_poll_attempts: DEFAULT_MAX_POLL_ATTEMPTS as nat,
        poll_interval_base: DEFAULT_POLL_INTERVAL as nat,
        max_poll_timeout: DEFAULT_POLL_TIMEOUT as nat,
        user_agent: DEFAULT_USER_AGENT@,
    }
}

impl Default for DegreeAuditConfig {
    fn default() -> (config: DegreeAuditConfig)
        ensures
            config@ == default_config(),
    {
        DegreeAuditConfig {
            base_url: DARS_BASE_URL.to_string(),
            max_poll_attempts: DEFAULT_MAX_POLL_ATTEMPTS,
            poll_interval_base: DEFAULT_POLL_INTERVAL,
            max_poll_timeout: DEFAULT_POLL_TIMEOUT,
            user_agent: DEFAULT_USER_AGENT.to_string(),
        }
    }
}

/// What the protocol reads of a response.
#[derive(Debug, Clone, PartialEq, Eq)]
pub struct HttpReply {
    /// The status code.
    pub status: u16,
    /// The status as the transport prints it, code and reason.
    pub status_text: String,
    /// The address that answered, after any redirects that were followed.
    pub url: String,
    /// The host of that address, where it has one.
    pub host: Option<String>,
    /// The path of that address.
    pub path: String,
    /// The `Location` header, where there is one that is text.
    pub location: Option<String>,
    /// The body, where it was read.
    pub body: String,
}

/// A response as values.
pub struct ReplyView {
    pub status: u16,
    pub status_text: Seq<char>,
    pub url: Seq<char>,
    pub host: Option<Seq<char>>,
    pub path: Seq<char>,
    pub location: Option<Seq<char>>,
    pub body: Seq<char>,
}

impl View for HttpReply {
    type V = ReplyView;

    open spec fn view(&self) -> ReplyView {
        ReplyView {
            status: self.status,
            status_text: self.status_text@,
            url: self.url@,
            host: self.host.deep_view(),
            path: self.path@,
            location: self.location.deep_view(),
            body: self.body@,
        }
    }
}

/// The factor by which the delay has grown at a given look: it doubles from
/// look to look, five times at most.
pub open spec fn growth(attempt: nat) -> nat {
    if attempt <= 1 {
        1
    } else if attempt == 2 {
        2
    } else if attempt == 3 {
        4
    } else if attempt == 4 {
        8
    } else if attempt == 5 {
        16
    } else {
        32
    }
}

/// The delay in milliseconds before look number `attempt`, without jitter:
/// the base delay times the growth, and ten seconds at most.
pub open spec fn backoff_millis(base_millis: nat, attempt: nat) -> nat {
    if base_millis * growth(attempt) <= MAX_DELAY_MILLIS {
        base_millis * growth(attempt)
    } else {
        MAX_DELAY_MILLIS as nat
    }
}

/// The largest jitter that is added to a delay: a fifth of it.
pub open spec fn jitter_limit(delay_millis: nat) -> nat {
    delay_millis / 5
}

/// The growth is two to the power of the looks before this one, five at most.
pub proof fn growth_is_power_of_two(attempt: nat)
    ensures
        growth(attempt) == vstd::arithmetic::power2::pow2(
            if attempt == 0 {
                0
            } else if attempt <= 6 {
                (attempt - 1) as nat
            } else {
                5
            },
        ),
{
    vstd::arithmetic::power2::lemma2_to64();
}

/// The delay never shrinks from one look to the next and never exceeds ten
/// seconds; while it is below ten seconds it grows strictly from look to
/// look, up to the sixth.
pub proof fn backoff_is_monotonic(base_millis: nat, earlier: nat, later: nat)
    requires
        earlier <= later,
    ensures
        backoff_millis(base_millis, earlier) <= backoff_millis(base_millis, later),
        backoff_millis(base_millis, later) <= MAX_DELAY_MILLIS,
        base_millis > 0 && 1 <= earlier < later <= 6 && backoff_millis(base_millis, later)
            < MAX_DELAY_MILLIS ==> backoff_millis(base_millis, earlier) < backoff_millis(
            base_millis,
            later,
        ),
{
    assert(growth(earlier) <= growth(later));
    assert(base_millis * growth(earlier) <= base_millis * growth(later)) by (nonlinear_arith)
        requires
            growth(earlier) <= growth(later),
    ;
    if base_millis > 0 && 1 <= earlier < later <= 6 {
        assert(growth(earlier) < growth(later));
        assert(base_millis * growth(earlier) < base_millis * growth(later)) by (nonlinear_arith)
            requires
                growth(earlier) < growth(later),
                base_millis > 0,
        ;
    }
}

/// The growth factor at look number `attempt`.
pub fn growth_factor(attempt: u32) -> (factor: u64)
    ensures
        factor == growth(attempt as nat),
{
    if attempt <= 1 {
        1
    } else if attempt == 2 {
        2
    } else if attempt == 3 {
        4
    } else if attempt == 4 {
        8
    } else if attempt == 5 {
        16
    } else {
        32
    }
}

/// The delay in milliseconds before look number `attempt`, without jitter.
pub fn backoff(base_millis: u128, attempt: u32) -> (delay: u64)
    ensures
        delay == backoff_millis(base_millis as nat, attempt as nat),
        delay <= MAX_DELAY_MILLIS,
{
    let factor = growth_factor(attempt);
    if base_millis > MAX_DELAY_MILLIS as u128 {
        assert(base_millis * growth(attempt as nat) > MAX_DELAY_MILLIS) by (nonlinear_arith)
            requires
                base_millis > MAX_DELAY_MILLIS,
                growth(attempt as nat) >= 1,
        ;
        MAX_DELAY_MILLIS
    } else {
        let base = base_millis as u64;
        assert(base * factor <= MAX_DELAY_MILLIS * 32) by (nonlinear_arith)
            requires
                base <= MAX_DELAY_MILLIS,
                factor <= 32,
        ;
        let grown = base * factor;
        if grown <= MAX_DELAY_MILLIS {
            grown
        } else {
            MAX_DELAY_MILLIS
        }
    }
}

/// The delay in nanoseconds before look number `attempt`, with `jitter`
/// milliseconds added. Jitter beyond a fifth of the delay is cut down to
/// that.
pub open spec fn delay_with_jitter(config: ConfigView, attempt: nat, jitter: nat) -> nat {
    let delay = backoff_millis(config.poll_interval_base / (NANOS_PER_MILLI as nat), attempt);
    let added = if jitter <= jitter_limit(delay) {
        jitter
    } else {
        jitter_limit(delay)
    };
    ((delay + added) * NANOS_PER_MILLI) as nat
}

/// Calls `Rng::gen_range` on the thread's generator (`rand::thread_rng`)
/// with the range from zero to `limit`, both included: some number in that
/// range.
#[verifier::external_body]
fn random_upto(limit: u64) -> (r: u64)
    ensures
        r <= limit,
{
    rand::thread_rng().gen_range(0..=limit)
}

/// Draws the jitter for the delay before look number `attempt`: a random
/// number of milliseconds from zero up to a fifth of the delay.
pub fn draw_jitter(config: &DegreeAuditConfig, attempt: u32) -> (jitter: u64)
    ensures
        jitter <= jitter_limit(
            backoff_millis(
                config@.poll_interval_base / (NANOS_PER_MILLI as nat),
                attempt as nat,
            ),
        ),
{
    let capped = backoff(config.poll_interval_base / NANOS_PER_MILLI, attempt);
    random_upto(capped / 5)
}

/// Scheme, host and port of the URL that `text` is parsed as; `None` where
/// it does not parse as an absolute URL. The port is given only where the
/// URL names one that is not the usual port of its scheme.
pub uninterp spec fn parsed_origin(text: Seq<char>) -> Option<
    (Seq<char>, Option<Seq<char>>, Option<u16>),
>;

/// The error of the url crate for a text that is not a URL.
#[verifier::external_type_specification]
#[verifier::external_body]
pub struct ExUrlParseError(url::ParseError);

/// Parses `text` with `Url::parse` of the url crate and takes the scheme
/// (`Url::scheme`), the host (`Url::host_str`) and the port (`Url::port`) of
/// the result.
#[verifier::external_body]
fn url_origin(text: &str) -> (r: Result<(String, Option<String>, Option<u16>), url::ParseError>)
    ensures
        r matches Ok(origin) ==> parsed_origin(text@) == Some(
            (origin.0@, origin.1.deep_view(), origin.2),
        ),
        r is Err ==> parsed_origin(text@) is None,
{
    let url = Url::parse(text)?;
    Ok((url.scheme().to_string(), url.host_str().map(String::from), url.port()))
}

/// The text that the url crate gives for a parse error.
#[verifier::external_body]
fn url_error_text(e: &url::ParseError) -> String {
    e.to_string()
}

/// The lower-cased host or path belongs to the sign-on pages.
pub open spec fn is_sign_on_address(lower: Seq<char>) -> bool {
    ||| contains_seq(lower, "login.ucsd.edu"@)
    ||| contains_seq(lower, "sso.ucsd.edu"@)
    ||| contains_seq(lower, "shib"@)
    ||| contains_seq(lower, "shibboleth"@)
    ||| contains_seq(lower, "idp"@)
    ||| contains_seq(lower, "saml"@)
    ||| contains_seq(lower, "login?"@)
    ||| contains_seq(lower, "/login"@)
    ||| contains_seq(lower, "auth.ucsd.edu"@)
}

/// The response came from the sign-on pages: the host or the path of the
/// address that answered gives them away. The query is not looked at, so
/// that a job token in it cannot be taken for a sign-on page.
pub open spec fn session_expired(reply: ReplyView) -> bool {
    is_sign_on_address(lowercase(host_text(reply.host))) || is_sign_on_address(
        lowercase(reply.path),
    )
}

/// The status says that the request succeeded.
pub open spec fn is_success(status: u16) -> bool {
    200 <= status <= 299
}

/// The status is one of the redirects that the creation request is
/// answered with.
pub open spec fn is_redirect(status: u16) -> bool {
    status == 301 || status == 302 || status == 303
}

/// The address of the page that creates a job.
pub open spec fn create_address(config: ConfigView) -> Seq<char> {
    config.base_url + CREATE_PATH@
}

/// The address of the job list.
pub open spec fn list_address(config: ConfigView) -> Seq<char> {
    config.base_url + LIST_PATH@ + AUTO_POLL_QUERY@
}

/// The address of the report of a job, with the token encoded for a query.
pub open spec fn read_address(config: ConfigView, job_id: Seq<char>) -> Seq<char> {
    config.base_url + READ_PATH@ + ID_QUERY@ + urlencoding::encoded(
        vstd::utf8::encode_utf8(job_id),
    )
}

/// The address under which a report is filed: as `read_address`, with the
/// token as it stands.
pub open spec fn source_address(config: ConfigView, job_id: Seq<char>) -> Seq<char> {
    config.base_url + READ_PATH@ + ID_QUERY@ + job_id
}

/// The host of an origin, empty where it has none.
pub open spec fn host_text(host: Option<Seq<char>>) -> Seq<char> {
    match host {
        Some(h) => h,
        None => Seq::empty(),
    }
}

/// The port of an origin as it stands in an address: a colon and the
/// number, or nothing where the origin has none.
pub open spec fn port_text(port: Option<u16>) -> Seq<char> {
    match port {
        Some(p) => ":"@ + decimal(p as nat),
        None => Seq::empty(),
    }
}

/// The absolute address that a redirect points to. A location that starts
/// with `http` is taken as it is; one that starts with `/` is put behind
/// scheme, host and port of the portal; any other is put behind the
/// portal's address and a `/`. `None` where the origin is needed and the
/// portal's address does not parse.
pub open spec fn absolute_address(config: ConfigView, location: Seq<char>) -> Option<Seq<char>> {
    if starts_with_seq(location, "http"@) {
        Some(location)
    } else if starts_with_seq(location, "/"@) {
        match parsed_origin(config.base_url) {
            Some(origin) => Some(
                origin.0 + "://"@ + host_text(origin.1) + port_text(origin.2) + location,
            ),
            None => None,
        }
    } else {
        Some(config.base_url + "/"@ + location)
    }
}

/// Why a step of the protocol did not succeed, as a value.
pub enum Failure {
    /// The transport failed; the text is its message.
    Network(Seq<char>),
    /// The credential is no longer valid; the address is that of the sign-on
    /// page.
    Expired(Seq<char>),
    /// The response was not provided for; the text says why.
    Unexpected(Seq<char>),
    /// The portal's address does not parse.
    BadAddress,
    /// The job list names no job.
    NoJob,
    /// The portal says that the job failed; the text is the reason given on.
    JobFailed(Seq<char>),
    /// The limits are used up after this many looks and this many
    /// milliseconds.
    TimedOut(nat, nat),
    /// The report could not be parsed; the text is the parser's message.
    Unparsed(Seq<char>),
    /// The flow was handed an event that does not fit its state.
    OutOfTurn,
}

/// What a step of the protocol comes to, as a value.
pub type Outcome<T> = Result<T, Failure>;

/// What the answer to the creation request means: the address of the job
/// list, or why there is none.
pub open spec fn create_outcome(config: ConfigView, reply: ReplyView) -> Outcome<Seq<char>> {
    if session_expired(reply) {
        Err(Failure::Expired(reply.url))
    } else if is_redirect(reply.status) {
        match reply.location {
            Some(location) => match absolute_address(config, location) {
                Some(address) => Ok(address),
                None => Err(Failure::BadAddress),
            },
            None => Err(Failure::Unexpected(MSG_NO_LOCATION@)),
        }
    } else if reply.status == 200 {
        Ok(list_address(config))
    } else {
        Err(Failure::Unexpected(MSG_CREATE_STATUS@ + reply.status_text))
    }
}

/// What a job list response means: the newest job, or why there is none.
pub open spec fn list_outcome(reply: ReplyView) -> Outcome<JobView> {
    if session_expired(reply) {
        Err(Failure::Expired(reply.url))
    } else if !is_success(reply.status) {
        Err(Failure::Unexpected(MSG_LIST_STATUS@ + reply.status_text))
    } else {
        match job::newest_job(reply.body) {
            Some(found) => Ok(found),
            None => Err(Failure::NoJob),
        }
    }
}

/// What a report response means: the report page, or why there is none.
pub open spec fn report_outcome(reply: ReplyView) -> Outcome<Seq<char>> {
    if session_expired(reply) {
        Err(Failure::Expired(reply.url))
    } else if !is_success(reply.status) {
        Err(Failure::Unexpected(MSG_READ_STATUS@ + reply.status_text))
    } else {
        Ok(reply.body)
    }
}

/// The error reports the failure.
pub open spec fn reports(e: DegreeAuditError, failure: Failure) -> bool {
    match failure {
        Failure::Network(text) => e matches DegreeAuditError::Network { message } && message@
            == text,
        Failure::Expired(address) => e matches DegreeAuditError::SessionExpired { redirect_url }
            && redirect_url@ == address,
        Failure::Unexpected(text) => e matches DegreeAuditError::UnexpectedResponse { message }
            && message@ == text,
        Failure::BadAddress => e is UrlError,
        Failure::NoJob => e is NoJobFound,
        Failure::JobFailed(text) => e matches DegreeAuditError::JobFailed { reason } && reason@
            == text,
        Failure::TimedOut(looks, millis) => e matches DegreeAuditError::PollTimeout {
            attempts,
            elapsed_millis,
        } && attempts == looks && elapsed_millis == millis,
        Failure::Unparsed(text) => e matches DegreeAuditError::ParseError { message } && message@
            == text,
        Failure::OutOfTurn => e is OperationInProgress,
    }
}

/// The error reports the failure that the outcome is.
pub open spec fn error_is<T>(e: DegreeAuditError, outcome: Outcome<T>) -> bool {
    outcome matches Err(failure) && reports(e, failure)
}

/// What to do about a job that is not known to be ready.
pub enum PollVerdict {
    /// The job is ready: fetch its report.
    Ready,
    /// Give up.
    GiveUp(Failure),
    /// Look again: this is look number so-and-so.
    Wait(nat),
}

/// The count of looks after one more, as far as it can be held.
pub open spec fn one_more(attempts: nat) -> nat {
    if attempts < u32::MAX {
        attempts + 1
    } else {
        attempts
    }
}

/// The whole milliseconds of a span of nanoseconds, as far as they can be
/// held.
pub open spec fn whole_millis(nanos: nat) -> nat {
    if nanos / (NANOS_PER_MILLI as nat) <= u64::MAX {
        nanos / (NANOS_PER_MILLI as nat)
    } else {
        u64::MAX as nat
    }
}

/// The verdict on a job after `attempts` looks, `elapsed` nanoseconds into
/// polling. A finished job is ready; a failed one fails; otherwise the look
/// is counted, and the limits on looks and on time decide between waiting
/// and giving up.
pub open spec fn poll_verdict(
    config: ConfigView,
    status: StatusView,
    attempts: nat,
    elapsed: nat,
) -> PollVerdict {
    match status {
        StatusView::Complete => PollVerdict::Ready,
        StatusView::Error(reason) => PollVerdict::GiveUp(Failure::JobFailed(reason)),
        _ => if one_more(attempts) > config.max_poll_attempts || elapsed
            > config.max_poll_timeout {
            PollVerdict::GiveUp(Failure::TimedOut(one_more(attempts), whole_millis(elapsed)))
        } else {
            PollVerdict::Wait(one_more(attempts))
        },
    }
}

/// A verdict as the caller acts on it.
#[derive(Debug, Clone, PartialEq, Eq)]
pub enum PollStep {
    /// Fetch the report.
    Ready,
    /// Give up with this error.
    GiveUp(DegreeAuditError),
    /// Look again; this is the count of looks.
    Wait(u32),
}

/// The step says what the verdict says.
pub open spec fn step_is(step: PollStep, verdict: PollVerdict) -> bool {
    match verdict {
        PollVerdict::Ready => step is Ready,
        PollVerdict::GiveUp(failure) => step matches PollStep::GiveUp(e) && reports(e, failure),
        PollVerdict::Wait(attempts) => step matches PollStep::Wait(a) && a == attempts,
    }
}

/// Whether a status code says that the request succeeded.
pub fn status_is_success(status: u16) -> (r: bool)
    ensures
        r == is_success(status),
{
    200 <= status && status <= 299
}

/// Joins two texts.
pub fn joined(head: &str, tail: &str) -> (r: String)
    ensures
        r@ == head@ + tail@,
{
    let mut out = text::chars_of(head);
    text::push_str(&mut out, tail);
    text::string_of(out)
}

/// Checks that a response did not come from the sign-on pages. Host and
/// path of the address that answered give them away, whatever the status:
/// the portal answers 200 for its own login page.
pub fn check_session_valid(reply: &HttpReply) -> (r: Result<(), DegreeAuditError>)
    ensures
        r is Ok <==> !session_expired(reply@),
        r matches Err(e) ==> e matches DegreeAuditError::SessionExpired { redirect_url }
            && redirect_url@ == reply@.url,
{
    let host_gives_away = match &reply.host {
        Some(host) => names_sign_on(host.as_str()),
        None => {
            proof {
                reveal_strlit("");
                assert(""@ =~= Seq::<char>::empty());
            }
            names_sign_on("")
        },
    };
    if host_gives_away || names_sign_on(reply.path.as_str()) {
        Err(DegreeAuditError::SessionExpired { redirect_url: reply.url.clone() })
    } else {
        Ok(())
    }
}

/// Whether a host or a path, in any letter case, belongs to the sign-on
/// pages.
pub fn names_sign_on(part: &str) -> (r: bool)
    ensures
        r == is_sign_on_address(lowercase(part@)),
{
    let lower = text::to_lowercase(part);
    let l = text::chars_of(lower.as_str());
    text::contains_str(&l, "login.ucsd.edu") || text::contains_str(&l, "sso.ucsd.edu")
        || text::contains_str(&l, "shib") || text::contains_str(&l, "shibboleth")
        || text::contains_str(&l, "idp") || text::contains_str(&l, "saml") || text::contains_str(
        &l,
        "login?",
    ) || text::contains_str(&l, "/login") || text::contains_str(&l, "auth.ucsd.edu")
}

impl DegreeAuditConfig {
    /// A copy of the settings.
    pub fn duplicate(&self) -> (r: DegreeAuditConfig)
        ensures
            r@ == self@,
    {
        DegreeAuditConfig {
            base_url: self.base_url.clone(),
            max_poll_attempts: self.max_poll_attempts,
            poll_interval_base: self.poll_interval_base,
            max_poll_timeout: self.max_poll_timeout,
            user_agent: self.user_agent.clone(),
        }
    }

    /// The address of the page that creates a job.
    pub fn create_url(&self) -> (url: String)
        ensures
            url@ == create_address(self@),
    {
        joined(self.base_url.as_str(), CREATE_PATH)
    }

    /// The address of the job list.
    pub fn list_url(&self) -> (url: String)
        ensures
            url@ == list_address(self@),
    {
        let mut out = text::chars_of(self.base_url.as_str());
        text::push_str(&mut out, LIST_PATH);
        text::push_str(&mut out, AUTO_POLL_QUERY);
        text::string_of(out)
    }

    /// The address of the report of a job. Every byte of the token outside
    /// letters, digits, `-`, `_`, `.` and `~` is percent-encoded.
    pub fn read_url(&self, job_id: &str) -> (url: String)
        ensures
            url@ == read_address(self@, job_id@),
    {
        let mut out = text::chars_of(self.base_url.as_str());
        text::push_str(&mut out, READ_PATH);
        text::push_str(&mut out, ID_QUERY);
        let encoded = urlencoding::encode(job_id);
        text::push_str(&mut out, encoded.as_str());
        text::string_of(out)
    }

    /// The delay in nanoseconds before look number `attempt` where `jitter`
    /// milliseconds were drawn.
    pub fn poll_delay_with(&self, attempt: u32, jitter: u64) -> (delay: u128)
        ensures
            delay == delay_with_jitter(self@, attempt as nat, jitter as nat),
    {
        let capped = backoff(self.poll_interval_base / NANOS_PER_MILLI, attempt);
        let limit = capped / 5;
        let added = if jitter <= limit {
            jitter
        } else {
            limit
        };
        (capped + added) as u128 * NANOS_PER_MILLI
    }

    /// The delay in nanoseconds before look number `attempt`: the delay of
    /// the backoff schedule and, on top, a random share of up to a fifth of
    /// it.
    pub fn calculate_poll_delay(&self, attempt: u32) -> (delay: u128)
        ensures
            exists|jitter: nat| delay == #[trigger] delay_with_jitter(self@, attempt as nat, jitter),
            delay >= backoff_millis(
                self@.poll_interval_base / (NANOS_PER_MILLI as nat),
                attempt as nat,
            ) * NANOS_PER_MILLI,
            delay <= 12_000 * NANOS_PER_MILLI,
    {
        let jitter = draw_jitter(self, attempt);
        let delay = self.poll_delay_with(attempt, jitter);
        assert(delay == delay_with_jitter(self@, attempt as nat, jitter as nat));
        delay
    }

    /// The absolute address that the location of a redirect points to.
    pub fn absolute_url(&self, location: &str) -> (r: Result<String, DegreeAuditError>)
        ensures
            r matches Ok(address) ==> absolute_address(self@, location@) == Some(address@),
            r matches Err(e) ==> e is UrlError && absolute_address(self@, location@) is None,
    {
        let l = text::chars_of(location);
        if text::starts_with_str(&l, "http") {
            Ok(location.to_string())
        } else if text::starts_with_str(&l, "/") {
            match url_origin(self.base_url.as_str()) {
                Ok(origin) => {
                    let mut out = text::chars_of(origin.0.as_str());
                    text::push_str(&mut out, "://");
                    match &origin.1 {
                        Some(host) => {
                            text::push_str(&mut out, host.as_str());
                        },
                        None => {
                            assert(out@ + Seq::<char>::empty() =~= out@);
                        },
                    }
                    let ghost with_host = out@;
                    match origin.2 {
                        Some(port) => {
                            text::push_str(&mut out, ":");
                            text::push_decimal(&mut out, port as u64);
                            assert(out@ =~= with_host + port_text(origin.2));
                        },
                        None => {
                            assert(out@ + Seq::<char>::empty() =~= out@);
                        },
                    }
                    text::push_str(&mut out, location);
                    Ok(text::string_of(out))
                },
                Err(e) => Err(DegreeAuditError::UrlError { message: url_error_text(&e) }),
            }
        } else {
            let mut out = text::chars_of(self.base_url.as_str());
            text::push_str(&mut out, "/");
            text::push_str(&mut out, location);
            Ok(text::string_of(out))
        }
    }

    /// Reads the answer to the creation request, which is sent without
    /// following redirects. A redirect names the job list; its location may
    /// be absolute, relative to the host or relative to the portal. A plain
    /// 200 stands for the job list at its usual address. A response from the
    /// sign-on pages means that the session has expired, whatever its
    /// status. Anything else is not provided for.
    pub fn after_create(&self, reply: &HttpReply) -> (r: Result<String, DegreeAuditError>)
        ensures
            r matches Ok(list_url) ==> create_outcome(self@, reply@) == Outcome::Ok(list_url@),
            r matches Err(e) ==> error_is(e, create_outcome(self@, reply@)),
    {
        match check_session_valid(reply) {
            Err(e) => {
                return Err(e);
            },
            Ok(_) => {},
        }
        if reply.status == 301 || reply.status == 302 || reply.status == 303 {
            match &reply.location {
                Some(location) => self.absolute_url(location.as_str()),
                None => Err(
                    DegreeAuditError::UnexpectedResponse { message: MSG_NO_LOCATION.to_string() },
                ),
            }
        } else if reply.status == 200 {
            Ok(self.list_url())
        } else {
            Err(
                DegreeAuditError::UnexpectedResponse {
                    message: joined(MSG_CREATE_STATUS, reply.status_text.as_str()),
                },
            )
        }
    }

    /// Reads a job list response and finds the newest job on the page.
    pub fn after_list(&self, reply: &HttpReply) -> (r: Result<AuditJob, DegreeAuditError>)
        ensures
            r matches Ok(found) ==> list_outcome(reply@) == Outcome::Ok(found@),
            r matches Err(e) ==> error_is(e, list_outcome(reply@)),
    {
        match check_session_valid(reply) {
            Err(e) => {
                return Err(e);
            },
            Ok(_) => {},
        }
        if !status_is_success(reply.status) {
            return Err(
                DegreeAuditError::UnexpectedResponse {
                    message: joined(MSG_LIST_STATUS, reply.status_text.as_str()),
                },
            );
        }
        job::parse_newest_job(reply.body.as_str())
    }

    /// Reads the response that should carry the report. The page is handed
    /// on as it is: whether it is a report is for the parser to say.
    pub fn after_read(&self, reply: HttpReply) -> (r: Result<String, DegreeAuditError>)
        ensures
            r matches Ok(html) ==> report_outcome(reply@) == Outcome::Ok(html@),
            r matches Err(e) ==> error_is(e, report_outcome(reply@)),
    {
        match check_session_valid(&reply) {
            Err(e) => {
                return Err(e);
            },
            Ok(_) => {},
        }
        if !status_is_success(reply.status) {
            return Err(
                DegreeAuditError::UnexpectedResponse {
                    message: joined(MSG_READ_STATUS, reply.status_text.as_str()),
                },
            );
        }
        Ok(reply.body)
    }

    /// Decides what to do about a job after `attempts` looks, `elapsed`
    /// nanoseconds into polling.
    pub fn poll_step(&self, status: &JobStatus, attempts: u32, elapsed: u128) -> (step: PollStep)
        ensures
            step_is(step, poll_verdict(self@, status@, attempts as nat, elapsed as nat)),
    {
        match status {
            JobStatus::Complete => PollStep::Ready,
            JobStatus::Error(reason) => PollStep::GiveUp(
                DegreeAuditError::JobFailed { reason: reason.clone() },
            ),
            _ => {
                let counted: u32 = if attempts < u32::MAX {
                    attempts + 1
                } else {
                    attempts
                };
                if counted > self.max_poll_attempts || elapsed > self.max_poll_timeout {
                    let millis = elapsed / NANOS_PER_MILLI;
                    let elapsed_millis: u64 = if millis <= u64::MAX as u128 {
                        millis as u64
                    } else {
                        u64::MAX
                    };
                    PollStep::GiveUp(
                        DegreeAuditError::PollTimeout { attempts: counted, elapsed_millis },
                    )
                } else {
                    PollStep::Wait(counted)
                }
            },
        }
    }

    /// The raw report of a job, as it is handed to the parser: the page
    /// with the job's token, the time it was fetched and the address it is
    /// filed under.
    pub fn raw_response(&self, job_id: String, scraped_at: String, html: String) -> (r:
        DegreeAuditResponse)
        ensures
            r@ == (ResponseView {
                audit_id: job_id@,
                scraped_at: scraped_at@,
                url: source_address(self@, job_id@),
                html: html@,
            }),
    {
        let mut out = text::chars_of(self.base_url.as_str());
        text::push_str(&mut out, READ_PATH);
        text::push_str(&mut out, ID_QUERY);
        text::push_str(&mut out, job_id.as_str());
        DegreeAuditResponse { audit_id: job_id, scraped_at, url: text::string_of(out), html }
    }
}

/// Whether a report page is so short that it is likely not a report. This
/// is for diagnostics only; the page is parsed all the same.
pub fn report_is_short(html: &str) -> (r: bool)
    ensures
        r == (html.spec_bytes().len() < SHORT_REPORT_BYTES),
{
    html.as_bytes().len() < SHORT_REPORT_BYTES
}

} // verus!
