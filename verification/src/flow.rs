//! The protocol as a state machine.
//!
//! A flow takes one audit from the creation request to the parsed report.
//! It never sends anything itself: each step takes what happened last and
//! says what to do next. The caller performs that and reports back, until
//! the flow says that it has finished.

use vstd::prelude::*;
use crate::client;
use crate::client::ConfigView;
use crate::client::DegreeAuditConfig;
use crate::client::Failure;
use crate::client::HttpReply;
use crate::client::PollStep;
use crate::client::PollVerdict;
use crate::client::ReplyView;
use crate::clock;
use crate::clock::elapsed_between;
use crate::clock::Clock;
use crate::clock::NANOS_PER_MILLI;
use crate::error::DegreeAuditError;
use crate::job::AuditJob;
use crate::job::JobView;
use crate::types::AuditView;
use crate::types::DegreeAudit;

verus! {

/// How far a flow has come.
#[derive(Debug, Clone, PartialEq, Eq)]
pub enum FlowState {
    /// Nothing has been sent.
    Idle,
    /// The creation request has been sent.
    Submitted,
    /// The job has been created and the job list has been asked for.
    Created,
    /// The job is not ready; the flow waits before look number `attempts`,
    /// having begun to poll at `started`.
    Sleeping { attempts: u32, started: u128 },
    /// The job list has been asked for again, as look number `attempts`.
    Polling { attempts: u32, started: u128 },
    /// The job is ready and its report has been asked for.
    Ready { job_id: String },
    /// The report has been fetched and handed to the parser.
    Fetched,
    /// The audit has been delivered.
    Parsed,
    /// The flow has ended without an audit.
    Failed,
}

/// The state of a flow as a value.
pub enum StateView {
    Idle,
    Submitted,
    Created,
    Sleeping { attempts: nat, started: nat },
    Polling { attempts: nat, started: nat },
    Ready { job_id: Seq<char> },
    Fetched,
    Parsed,
    Failed,
}

impl View for FlowState {
    type V = StateView;

    open spec fn view(&self) -> StateView {
        match self {
            FlowState::Idle => StateView::Idle,
            FlowState::Submitted => StateView::Submitted,
            FlowState::Created => StateView::Created,
            FlowState::Sleeping { attempts, started } => StateView::Sleeping {
                attempts: *attempts as nat,
                started: *started as nat,
            },
            FlowState::Polling { attempts, started } => StateView::Polling {
                attempts: *attempts as nat,
                started: *started as nat,
            },
            FlowState::Ready { job_id } => StateView::Ready { job_id: job_id@ },
            FlowState::Fetched => StateView::Fetched,
            FlowState::Parsed => StateView::Parsed,
            FlowState::Failed => StateView::Failed,
        }
    }
}

/// What happened since the last step.
#[derive(Debug, Clone, PartialEq, Eq)]
pub enum FlowEvent {
    /// The caller wants the flow to begin.
    Begin,
    /// The request was answered.
    Reply(HttpReply),
    /// The request failed in transport; the text is the transport's message.
    TransportFailed(String),
    /// The wait is over.
    Woke,
    /// The parser made an audit of the report.
    Parsed(DegreeAudit),
    /// The parser refused the report; the text is its message.
    ParseFailed(String),
}

/// An event as a value.
pub enum EventView {
    Begin,
    Reply(ReplyView),
    TransportFailed(Seq<char>),
    Woke,
    Parsed(AuditView),
    ParseFailed(Seq<char>),
}

impl View for FlowEvent {
    type V = EventView;

    open spec fn view(&self) -> EventView {
        match self {
            FlowEvent::Begin => EventView::Begin,
            FlowEvent::Reply(reply) => EventView::Reply(reply@),
            FlowEvent::TransportFailed(message) => EventView::TransportFailed(message@),
            FlowEvent::Woke => EventView::Woke,
            FlowEvent::Parsed(audit) => EventView::Parsed(audit@),
            FlowEvent::ParseFailed(message) => EventView::ParseFailed(message@),
        }
    }
}

/// What the caller is to do next.
#[derive(Debug, PartialEq, Eq)]
pub enum FlowAction {
    /// Send a GET request with the session's cookies, following redirects
    /// or not, and report the reply.
    Get { url: String, follow_redirects: bool },
    /// Wait this many nanoseconds and report back.
    Sleep { nanos: u128 },
    /// Hand the report of the job to the parser and report what it made.
    Parse { job_id: String, html: String },
    /// The flow has ended with this result.
    Finish(Result<DegreeAudit, DegreeAuditError>),
}

/// An action as a value.
pub enum ActionView {
    Get { url: Seq<char>, follow_redirects: bool },
    Sleep { nanos: nat },
    Parse { job_id: Seq<char>, html: Seq<char> },
    Deliver(AuditView),
    Fail(Failure),
}

/// The action is the one that the value describes.
pub open spec fn shows(action: FlowAction, view: ActionView) -> bool {
    match view {
        ActionView::Get { url, follow_redirects } => action matches FlowAction::Get {
            url: u,
            follow_redirects: f,
        } && u@ == url && f == follow_redirects,
        ActionView::Sleep { nanos } => action matches FlowAction::Sleep { nanos: n } && n == nanos,
        ActionView::Parse { job_id, html } => action matches FlowAction::Parse {
            job_id: j,
            html: h,
        } && j@ == job_id && h@ == html,
        ActionView::Deliver(audit) => action matches FlowAction::Finish(Ok(a)) && a@ == audit,
        ActionView::Fail(failure) => action matches FlowAction::Finish(Err(e)) && client::reports(
            e,
            failure,
        ),
    }
}

/// What a step comes to before any jitter is drawn.
pub enum Decided {
    /// Move to this state and do this.
    Go(StateView, ActionView),
    /// Wait before look number so-and-so; polling began at the given time.
    Pause(nat, nat),
}

/// The flow ends in failure.
pub open spec fn fails(failure: Failure) -> Decided {
    Decided::Go(StateView::Failed, ActionView::Fail(failure))
}

/// What follows a look at the job list that found `job`, after `attempts`
/// earlier looks, polling having begun at `started`.
pub open spec fn after_look(
    config: ConfigView,
    job: JobView,
    attempts: nat,
    started: nat,
    now: nat,
) -> Decided {
    match client::poll_verdict(config, job.status, attempts, elapsed_between(started, now)) {
        PollVerdict::Ready => Decided::Go(
            StateView::Ready { job_id: job.job_id },
            ActionView::Get {
                url: client::read_address(config, job.job_id),
                follow_redirects: true,
            },
        ),
        PollVerdict::GiveUp(failure) => fails(failure),
        PollVerdict::Wait(look) => Decided::Pause(look, started),
    }
}

/// What a flow in `state` makes of `event` at `now`.
///
/// The flow begins with the creation request, sent without following
/// redirects. Its answer names the job list, which is fetched and searched
/// for the newest job. A job that is finished is fetched at once; one that
/// failed ends the flow; any other is looked at again after a wait, until
/// the limits on looks and time are used up. The report goes to the parser,
/// and what the parser makes of it ends the flow. A request that fails in
/// transport ends the flow, and so does an event that does not fit the
/// state.
pub open spec fn decided(config: ConfigView, state: StateView, event: EventView, now: nat) -> Decided {
    match (state, event) {
        (StateView::Idle, EventView::Begin) => Decided::Go(
            StateView::Submitted,
            ActionView::Get { url: client::create_address(config), follow_redirects: false },
        ),
        (StateView::Submitted, EventView::Reply(reply)) => match client::create_outcome(
            config,
            reply,
        ) {
            Ok(list) => Decided::Go(
                StateView::Created,
                ActionView::Get { url: list, follow_redirects: true },
            ),
            Err(failure) => fails(failure),
        },
        (StateView::Created, EventView::Reply(reply)) => match client::list_outcome(reply) {
            Ok(job) => after_look(config, job, 0, now, now),
            Err(failure) => fails(failure),
        },
        (StateView::Sleeping { attempts, started }, EventView::Woke) => Decided::Go(
            StateView::Polling { attempts, started },
            ActionView::Get { url: client::list_address(config), follow_redirects: true },
        ),
        (StateView::Polling { attempts, started }, EventView::Reply(reply)) => {
            match client::list_outcome(reply) {
                Ok(job) => after_look(config, job, attempts, started, now),
                Err(failure) => fails(failure),
            }
        },
        (StateView::Ready { job_id }, EventView::Reply(reply)) => match client::report_outcome(
            reply,
        ) {
            Ok(html) => Decided::Go(StateView::Fetched, ActionView::Parse { job_id, html }),
            Err(failure) => fails(failure),
        },
        (StateView::Fetched, EventView::Parsed(audit)) => Decided::Go(
            StateView::Parsed,
            ActionView::Deliver(audit),
        ),
        (StateView::Fetched, EventView::ParseFailed(message)) => fails(Failure::Unparsed(message)),
        (StateView::Submitted, EventView::TransportFailed(message)) => fails(
            Failure::Network(message),
        ),
        (StateView::Created, EventView::TransportFailed(message)) => fails(
            Failure::Network(message),
        ),
        (StateView::Polling { .. }, EventView::TransportFailed(message)) => fails(
            Failure::Network(message),
        ),
        (StateView::Ready { .. }, EventView::TransportFailed(message)) => fails(
            Failure::Network(message),
        ),
        _ => fails(Failure::OutOfTurn),
    }
}

/// The state and the action that a step comes to, `jitter` milliseconds
/// having been drawn for the case that the flow waits.
pub open spec fn transition(
    config: ConfigView,
    state: StateView,
    event: EventView,
    now: nat,
    jitter: nat,
) -> (StateView, ActionView) {
    match decided(config, state, event, now) {
        Decided::Go(next, action) => (next, action),
        Decided::Pause(look, started) => (
            StateView::Sleeping { attempts: look, started },
            ActionView::Sleep { nanos: client::delay_with_jitter(config, look, jitter) },
        ),
    }
}

/// The flow has ended.
pub open spec fn is_final(state: StateView) -> bool {
    state is Parsed || state is Failed
}

/// A response from the sign-on pages ends the flow with the session
/// reported as expired, whatever its status code and whichever request it
/// answers.
pub proof fn expired_session_ends_flow(
    config: ConfigView,
    state: StateView,
    reply: ReplyView,
    now: nat,
    jitter: nat,
)
    requires
        client::session_expired(reply),
        state is Submitted || state is Created || state is Polling || state is Ready,
    ensures
        transition(config, state, EventView::Reply(reply), now, jitter) == (
            StateView::Failed,
            ActionView::Fail(Failure::Expired(reply.url)),
        ),
{
}

/// A job that the first job list shows as finished is fetched at once: the
/// flow asks for its report and does not wait.
pub proof fn finished_job_skips_polling(config: ConfigView, reply: ReplyView, now: nat, jitter: nat)
    requires
        client::list_outcome(reply) matches Ok(job) && job.status is Complete,
    ensures
        transition(config, StateView::Created, EventView::Reply(reply), now, jitter) == (
            StateView::Ready { job_id: client::list_outcome(reply)->Ok_0.job_id },
            ActionView::Get {
                url: client::read_address(config, client::list_outcome(reply)->Ok_0.job_id),
                follow_redirects: true,
            },
        ),
{
}

/// Polling is bounded: the flow waits for another look only while the looks
/// taken, this one included, are within the limit on looks and the time
/// spent polling is within the limit on time. The wait is the delay of the
/// backoff schedule with at most a fifth added, twelve seconds at most.
pub proof fn polling_is_bounded(
    config: ConfigView,
    state: StateView,
    event: EventView,
    now: nat,
    jitter: nat,
)
    requires
        transition(config, state, event, now, jitter).1 is Sleep,
    ensures
        transition(config, state, event, now, jitter).0 matches StateView::Sleeping {
            attempts,
            started,
        } && attempts <= config.max_poll_attempts && elapsed_between(started, now)
            <= config.max_poll_timeout && transition(
            config,
            state,
            event,
            now,
            jitter,
        ).1->Sleep_nanos == client::delay_with_jitter(config, attempts, jitter),
        transition(config, state, event, now, jitter).1->Sleep_nanos <= 12_000 * NANOS_PER_MILLI,
{
    let base = config.poll_interval_base / (NANOS_PER_MILLI as nat);
    match decided(config, state, event, now) {
        Decided::Pause(look, started) => {
            client::backoff_is_monotonic(base, look, look);
        },
        Decided::Go(_, _) => {},
    }
}

/// A flow that has ended stays ended, whatever it is handed.
pub proof fn ended_flow_stays_ended(
    config: ConfigView,
    state: StateView,
    event: EventView,
    now: nat,
    jitter: nat,
)
    requires
        is_final(state),
    ensures
        is_final(transition(config, state, event, now, jitter).0),
        transition(config, state, event, now, jitter).1 == ActionView::Fail(Failure::OutOfTurn),
{
}

/// A step as it is held between deciding and drawing jitter.
enum Decision {
    Go(FlowState, FlowAction),
    Pause(u32, u128),
}

/// The decision is the one that the value describes.
spec fn decision_is(decision: Decision, view: Decided) -> bool {
    match view {
        Decided::Go(state, action) => decision matches Decision::Go(s, a) && s@ == state && shows(
            a,
            action,
        ),
        Decided::Pause(look, started) => decision matches Decision::Pause(l, s) && l == look && s
            == started,
    }
}

/// One audit on its way through the protocol.
pub struct AuditFlow {
    config: DegreeAuditConfig,
    state: FlowState,
    clock: Clock,
}

impl AuditFlow {
    /// The settings of the flow.
    pub closed spec fn config(&self) -> ConfigView {
        self.config@
    }

    /// The state of the flow.
    pub closed spec fn state(&self) -> StateView {
        self.state@
    }

    /// A flow that has sent nothing yet.
    pub fn new(config: DegreeAuditConfig) -> (flow: AuditFlow)
        ensures
            flow.config() == config@,
            flow.state() == StateView::Idle,
    {
        AuditFlow { config, state: FlowState::Idle, clock: Clock::start() }
    }

    /// Whether the flow has ended.
    pub fn is_finished(&self) -> (r: bool)
        ensures
            r == is_final(self.state()),
    {
        match &self.state {
            FlowState::Parsed => true,
            FlowState::Failed => true,
            _ => false,
        }
    }

    /// The end of the flow with the given error.
    fn fail(e: DegreeAuditError) -> (d: Decision)
        ensures
            forall|failure: Failure|
                #![trigger fails(failure)]
                #![trigger client::reports(e, failure)]
                client::reports(e, failure) ==> decision_is(d, fails(failure)),
    {
        Decision::Go(FlowState::Failed, FlowAction::Finish(Err(e)))
    }

    /// What follows a look at the job list that found `job`.
    fn look(&self, job: AuditJob, attempts: u32, started: u128, now: u128) -> (d: Decision)
        ensures
            decision_is(
                d,
                after_look(self.config@, job@, attempts as nat, started as nat, now as nat),
            ),
    {
        let step = self.config.poll_step(&job.status, attempts, clock::elapsed(started, now));
        match step {
            PollStep::Ready => {
                let url = self.config.read_url(job.job_id.as_str());
                Decision::Go(
                    FlowState::Ready { job_id: job.job_id },
                    FlowAction::Get { url, follow_redirects: true },
                )
            },
            PollStep::GiveUp(e) => AuditFlow::fail(e),
            PollStep::Wait(look) => Decision::Pause(look, started),
        }
    }

    /// What the flow makes of `event` at `now`, before any jitter is drawn.
    fn decide(&self, event: FlowEvent, now: u128) -> (d: Decision)
        ensures
            decision_is(d, decided(self.config@, self.state@, event@, now as nat)),
    {
        match &self.state {
            FlowState::Idle => match event {
                FlowEvent::Begin => Decision::Go(
                    FlowState::Submitted,
                    FlowAction::Get { url: self.config.create_url(), follow_redirects: false },
                ),
                _ => AuditFlow::fail(DegreeAuditError::OperationInProgress),
            },
            FlowState::Submitted => match event {
                FlowEvent::Reply(reply) => match self.config.after_create(&reply) {
                    Ok(url) => Decision::Go(
                        FlowState::Created,
                        FlowAction::Get { url, follow_redirects: true },
                    ),
                    Err(e) => AuditFlow::fail(e),
                },
                FlowEvent::TransportFailed(message) => AuditFlow::fail(
                    DegreeAuditError::Network { message },
                ),
                _ => AuditFlow::fail(DegreeAuditError::OperationInProgress),
            },
            FlowState::Created => match event {
                FlowEvent::Reply(reply) => match self.config.after_list(&reply) {
                    Ok(job) => self.look(job, 0, now, now),
                    Err(e) => AuditFlow::fail(e),
                },
                FlowEvent::TransportFailed(message) => AuditFlow::fail(
                    DegreeAuditError::Network { message },
                ),
                _ => AuditFlow::fail(DegreeAuditError::OperationInProgress),
            },
            FlowState::Sleeping { attempts, started } => match event {
                FlowEvent::Woke => Decision::Go(
                    FlowState::Polling { attempts: *attempts, started: *started },
                    FlowAction::Get { url: self.config.list_url(), follow_redirects: true },
                ),
                _ => AuditFlow::fail(DegreeAuditError::OperationInProgress),
            },
            FlowState::Polling { attempts, started } => match event {
                FlowEvent::Reply(reply) => match self.config.after_list(&reply) {
                    Ok(job) => self.look(job, *attempts, *started, now),
                    Err(e) => AuditFlow::fail(e),
                },
                FlowEvent::TransportFailed(message) => AuditFlow::fail(
                    DegreeAuditError::Network { message },
                ),
                _ => AuditFlow::fail(DegreeAuditError::OperationInProgress),
            },
            FlowState::Ready { job_id } => match event {
                FlowEvent::Reply(reply) => match self.config.after_read(reply) {
                    Ok(html) => Decision::Go(
                        FlowState::Fetched,
                        FlowAction::Parse { job_id: job_id.clone(), html },
                    ),
                    Err(e) => AuditFlow::fail(e),
                },
                FlowEvent::TransportFailed(message) => AuditFlow::fail(
                    DegreeAuditError::Network { message },
                ),
                _ => AuditFlow::fail(DegreeAuditError::OperationInProgress),
            },
            FlowState::Fetched => match event {
                FlowEvent::Parsed(audit) => Decision::Go(
                    FlowState::Parsed,
                    FlowAction::Finish(Ok(audit)),
                ),
                FlowEvent::ParseFailed(message) => AuditFlow::fail(
                    DegreeAuditError::ParseError { message },
                ),
                _ => AuditFlow::fail(DegreeAuditError::OperationInProgress),
            },
            FlowState::Parsed => AuditFlow::fail(DegreeAuditError::OperationInProgress),
            FlowState::Failed => AuditFlow::fail(DegreeAuditError::OperationInProgress),
        }
    }

    /// Carries a decision out, with `jitter` milliseconds for a wait.
    fn settle(&mut self, decision: Decision, jitter: u64) -> (action: FlowAction)
        ensures
            final(self).config@ == old(self).config@,
            forall|view: Decided|
                decision_is(decision, view) ==> {
                    let next = match view {
                        Decided::Go(state, act) => (state, act),
                        Decided::Pause(look, started) => (
                            StateView::Sleeping { attempts: look, started },
                            ActionView::Sleep {
                                nanos: client::delay_with_jitter(
                                    old(self).config@,
                                    look,
                                    jitter as nat,
                                ),
                            },
                        ),
                    };
                    final(self).state@ == next.0 && shows(action, next.1)
                },
    {
        match decision {
            Decision::Go(state, action) => {
                self.state = state;
                action
            },
            Decision::Pause(look, started) => {
                let nanos = self.config.poll_delay_with(look, jitter);
                self.state = FlowState::Sleeping { attempts: look, started };
                FlowAction::Sleep { nanos }
            },
        }
    }

    /// Takes a step at `now`: the flow moves on as `transition` says and
    /// returns what is to be done next. Where the flow waits, `jitter`
    /// milliseconds are added to the delay, a fifth of the delay at most.
    pub fn step_at(&mut self, event: FlowEvent, now: u128, jitter: u64) -> (action: FlowAction)
        ensures
            final(self).config() == old(self).config(),
            final(self).state() == transition(
                old(self).config(),
                old(self).state(),
                event@,
                now as nat,
                jitter as nat,
            ).0,
            shows(
                action,
                transition(
                    old(self).config(),
                    old(self).state(),
                    event@,
                    now as nat,
                    jitter as nat,
                ).1,
            ),
    {
        let ghost view = decided(self.config@, self.state@, event@, now as nat);
        let decision = self.decide(event, now);
        assert(decision_is(decision, view));
        self.settle(decision, jitter)
    }

    /// Takes a step now. The clock is read, and where the flow waits, the
    /// jitter is drawn at random from zero up to a fifth of the delay: the
    /// step is the one that `step_at` takes for some time and some jitter.
    pub fn step(&mut self, event: FlowEvent) -> (action: FlowAction)
        ensures
            final(self).config() == old(self).config(),
            exists|now: nat, jitter: nat|
                final(self).state() == (#[trigger] transition(
                    old(self).config(),
                    old(self).state(),
                    event@,
                    now,
                    jitter,
                )).0 && shows(
                    action,
                    transition(old(self).config(), old(self).state(), event@, now, jitter).1,
                ),
    {
        let now = self.clock.now();
        let ghost view = decided(self.config@, self.state@, event@, now as nat);
        let decision = self.decide(event, now);
        assert(decision_is(decision, view));
        let jitter: u64 = match &decision {
            Decision::Pause(look, _) => client::draw_jitter(&self.config, *look),
            Decision::Go(_, _) => 0,
        };
        let ghost before = (self.config@, self.state@);
        let action = self.settle(decision, jitter);
        proof {
            let n = now as nat;
            let j = jitter as nat;
            let next = transition(old(self).config(), old(self).state(), event@, n, j);
            assert(self.state() == next.0);
            assert(shows(action, next.1));
        }
        action
    }
}

} // verus!
