use crate::config::{BenchmarkConfig, BenchmarkError, EndpointConfig, Header};
use crate::metrics::{lemma_successes_and_failures, BenchmarkMetrics};
use crate::sample::RequestMetrics;
use crate::selection::{is_weighted_pick, select_weighted_index};
use vstd::prelude::*;
use vstd::string::StringExecFns;

verus! {

/// Seconds after which a request that got no response counts as failed.
pub const REQUEST_TIMEOUT_SECONDS: u64 = 30;

/// Milliseconds that a virtual user pauses between two requests.
pub const REQUEST_PAUSE_MILLIS: u64 = 10;

/// Nanoseconds in one second.
pub const NANOS_PER_SECOND: u64 = 1_000_000_000;

/// The request methods that a benchmark sends.
#[derive(Clone, Copy, Debug, PartialEq, Eq, Structural)]
pub enum HttpMethod {
    Get,
    Post,
    Put,
    Delete,
}

/// The method that a name stands for: `GET` for any name that is not one of
/// `POST`, `PUT` and `DELETE`.
pub open spec fn method_named(name: Seq<char>) -> HttpMethod {
    if name == "POST"@ {
        HttpMethod::Post
    } else if name == "PUT"@ {
        HttpMethod::Put
    } else if name == "DELETE"@ {
        HttpMethod::Delete
    } else {
        HttpMethod::Get
    }
}

/// The method that `name` stands for.
pub fn parse_method(name: &str) -> (method: HttpMethod)
    ensures
        method == method_named(name@),
{
    let owned = name.to_owned();
    if owned == "POST".to_owned() {
        HttpMethod::Post
    } else if owned == "PUT".to_owned() {
        HttpMethod::Put
    } else if owned == "DELETE".to_owned() {
        HttpMethod::Delete
    } else {
        HttpMethod::Get
    }
}

/// One request, ready to be sent.
#[derive(Debug)]
pub struct RequestPlan<'a> {
    pub method: HttpMethod,
    pub url: String,
    pub headers: &'a Vec<Header>,
    pub body: &'a Option<String>,
}

/// The request that an endpoint stands for against `target_url`: its method,
/// the URL made of `target_url` and the endpoint's path, all its headers,
/// and its body where it has one, whatever the method.
pub fn plan_request<'a>(target_url: &str, endpoint: &'a EndpointConfig) -> (plan: RequestPlan<'a>)
    ensures
        plan.method == method_named(endpoint.method@),
        plan.url@ == target_url@ + endpoint.path@,
        *plan.headers == endpoint.headers,
        *plan.body == endpoint.body,
{
    let mut url = String::from_str(target_url);
    url.append(endpoint.path.as_str());
    RequestPlan {
        method: parse_method(endpoint.method.as_str()),
        url,
        headers: &endpoint.headers,
        body: &endpoint.body,
    }
}

/// Where a virtual user stands in its run.
#[derive(Clone, Copy, Debug, PartialEq, Eq, Structural)]
pub enum WorkerPhase {
    /// Not launched yet.
    Created,
    /// Waiting for its turn in the ramp-up.
    Delayed,
    /// A request is under way.
    InFlight,
    /// Pausing between two requests.
    Paused,
    /// The run is over; no event changes anything any more.
    Finished,
}

/// What happened to a virtual user since its last action.
#[derive(Clone, Copy, Debug, PartialEq, Eq, Structural)]
pub enum WorkerEvent {
    /// The user was launched.
    Launched,
    /// The sleep that the user asked for is over.
    Woke,
    /// The request that the user asked for got a response.
    Responded { status_code: u16, content_length: Option<u64> },
    /// The request that the user asked for got no response.
    Failed,
}

/// What a virtual user asks for next.
#[derive(Clone, Copy, Debug, PartialEq, Eq, Structural)]
pub enum WorkerAction {
    /// Sleep, then report `Woke`.
    Sleep { millis: u64 },
    /// Send the request of the endpoint at this index, then report
    /// `Responded` or `Failed`.
    Send { endpoint: usize },
    /// Nothing: the user is done.
    Stop,
}

/// The state of a virtual user as contracts see it.
pub struct WorkerView {
    pub user_id: u32,
    pub start_delay_millis: u64,
    pub duration_seconds: u64,
    pub phase: WorkerPhase,
    pub started_at: u64,
    pub request_started_at: u64,
    pub current_endpoint: usize,
    pub samples: Seq<RequestMetrics>,
}

/// Whether a user that started at `started_at` still has time at `now`:
/// whether less than `duration_seconds` have passed.
pub open spec fn has_time_left(started_at: u64, duration_seconds: u64, now: u64) -> bool {
    now < started_at || now - started_at < duration_seconds * NANOS_PER_SECOND
}

impl WorkerView {
    /// The user at the top of its loop at `now`: with time left it sends the
    /// request of endpoint `pick`, without it stops.
    pub open spec fn at_loop_top(self, now: u64, pick: usize) -> (WorkerView, WorkerAction) {
        if has_time_left(self.started_at, self.duration_seconds, now) {
            (
                WorkerView {
                    phase: WorkerPhase::InFlight,
                    request_started_at: now,
                    current_endpoint: pick,
                    ..self
                },
                WorkerAction::Send { endpoint: pick },
            )
        } else {
            (WorkerView { phase: WorkerPhase::Finished, ..self }, WorkerAction::Stop)
        }
    }

    /// The user with one more sample, pausing before its next request.
    pub open spec fn with_sample(self, sample: RequestMetrics) -> (WorkerView, WorkerAction) {
        (
            WorkerView { phase: WorkerPhase::Paused, samples: self.samples.push(sample), ..self },
            WorkerAction::Sleep { millis: REQUEST_PAUSE_MILLIS },
        )
    }

    /// The user's next state and action after `event`, seen at `now`, where
    /// `pick` is the endpoint to use should a request be due.
    ///
    /// An event that the phase does not expect ends the run: the user stops
    /// and keeps the samples it has.
    pub open spec fn step(
        self,
        endpoints: Seq<EndpointConfig>,
        now: u64,
        event: WorkerEvent,
        pick: usize,
    ) -> (WorkerView, WorkerAction) {
        match (self.phase, event) {
            (WorkerPhase::Created, WorkerEvent::Launched) => {
                if self.start_delay_millis > 0 {
                    (
                        WorkerView { phase: WorkerPhase::Delayed, ..self },
                        WorkerAction::Sleep { millis: self.start_delay_millis },
                    )
                } else {
                    (WorkerView { started_at: now, ..self }).at_loop_top(now, pick)
                }
            },
            (WorkerPhase::Delayed, WorkerEvent::Woke) => {
                (WorkerView { started_at: now, ..self }).at_loop_top(now, pick)
            },
            (WorkerPhase::Paused, WorkerEvent::Woke) => self.at_loop_top(now, pick),
            (
                WorkerPhase::InFlight,
                WorkerEvent::Responded { status_code, content_length },
            ) if self.current_endpoint < endpoints.len() => {
                self.with_sample(
                    RequestMetrics {
                        start_time: self.request_started_at,
                        end_time: now,
                        status_code,
                        response_size: match content_length {
                            Some(n) => n,
                            None => 0,
                        },
                        endpoint: endpoints[self.current_endpoint as int].path,
                        success: crate::sample::is_success_status(status_code),
                    },
                )
            },
            (WorkerPhase::InFlight, WorkerEvent::Failed) if self.current_endpoint
                < endpoints.len() => {
                self.with_sample(
                    RequestMetrics {
                        start_time: self.request_started_at,
                        end_time: now,
                        status_code: 0,
                        response_size: 0,
                        endpoint: endpoints[self.current_endpoint as int].path,
                        success: false,
                    },
                )
            },
            _ => (WorkerView { phase: WorkerPhase::Finished, ..self }, WorkerAction::Stop),
        }
    }
}

/// A step never takes a sample away: afterwards the user has the samples it
/// had, and at most one more after them.
pub proof fn lemma_step_keeps_samples(
    worker: WorkerView,
    endpoints: Seq<EndpointConfig>,
    now: u64,
    event: WorkerEvent,
    pick: usize,
)
    ensures
        ({
            let after = worker.step(endpoints, now, event, pick).0;
            after.samples == worker.samples || (after.samples.len() == worker.samples.len() + 1
                && after.samples.drop_last() == worker.samples)
        }),
{
    let after = worker.step(endpoints, now, event, pick).0;
    if after.samples != worker.samples {
        assert(after.samples.drop_last() =~= worker.samples);
    }
}

/// A user that has finished stays finished, whatever happens.
pub proof fn lemma_finished_is_final(
    worker: WorkerView,
    endpoints: Seq<EndpointConfig>,
    now: u64,
    event: WorkerEvent,
    pick: usize,
)
    requires
        worker.phase == WorkerPhase::Finished,
    ensures
        worker.step(endpoints, now, event, pick) == (worker, WorkerAction::Stop),
{
}

/// A request under way is never cut short: whenever its outcome arrives, it
/// becomes a sample, and the user pauses before it looks at the time again.
pub proof fn lemma_request_in_flight_completes(
    worker: WorkerView,
    endpoints: Seq<EndpointConfig>,
    now: u64,
    event: WorkerEvent,
    pick: usize,
)
    requires
        worker.phase == WorkerPhase::InFlight,
        worker.current_endpoint < endpoints.len(),
        event is Responded || event is Failed,
    ensures
        ({
            let (after, action) = worker.step(endpoints, now, event, pick);
            &&& after.phase == WorkerPhase::Paused
            &&& action == WorkerAction::Sleep { millis: REQUEST_PAUSE_MILLIS }
            &&& after.samples.len() == worker.samples.len() + 1
            &&& after.samples.last().start_time == worker.request_started_at
            &&& after.samples.last().end_time == now
            &&& after.samples.last().consistent()
        }),
{
}

/// A user sends a request exactly while it has time left: at the top of
/// its loop it sends where less than its duration has passed since it
/// started, and stops where not.
pub proof fn lemma_loop_is_bounded_by_time(worker: WorkerView, now: u64, pick: usize)
    ensures
        worker.at_loop_top(now, pick).1 == (WorkerAction::Send { endpoint: pick })
            <==> has_time_left(worker.started_at, worker.duration_seconds, now),
        worker.at_loop_top(now, pick).1 == WorkerAction::Stop <==> !has_time_left(
            worker.started_at,
            worker.duration_seconds,
            now,
        ),
{
}

/// One thing that happens to a user: when it happens, what it is, and the
/// endpoint that a request would go to.
pub struct Occurrence {
    pub now: u64,
    pub event: WorkerEvent,
    pub pick: usize,
}

/// The user after everything in `history` has happened to it, in order.
pub open spec fn after_history(
    worker: WorkerView,
    endpoints: Seq<EndpointConfig>,
    history: Seq<Occurrence>,
) -> WorkerView
    decreases history.len(),
{
    if history.len() == 0 {
        worker
    } else {
        after_history(worker, endpoints, history.drop_last()).step(
            endpoints,
            history.last().now,
            history.last().event,
            history.last().pick,
        ).0
    }
}

/// Whether time never runs backwards in a history.
pub open spec fn time_moves_forward(history: Seq<Occurrence>) -> bool {
    forall|i: int, j: int|
        0 <= i <= j < history.len() ==> (#[trigger] history[i]).now <= (#[trigger] history[j]).now
}

/// Whether samples stand in the order of their requests: none ends before
/// it starts, and none starts before the one before it has ended.
pub open spec fn chronological(samples: Seq<RequestMetrics>) -> bool {
    &&& forall|i: int|
        0 <= i < samples.len() ==> (#[trigger] samples[i]).start_time <= samples[i].end_time
    &&& forall|i: int, j: int|
        0 <= i < j < samples.len() ==> (#[trigger] samples[i]).end_time <= (
        #[trigger] samples[j]).start_time
}

/// What holds of a user at the instant `latest` of a history in which time
/// moves forward.
pub open spec fn in_step_with(worker: WorkerView, latest: u64) -> bool {
    &&& chronological(worker.samples)
    &&& forall|i: int|
        0 <= i < worker.samples.len() ==> (#[trigger] worker.samples[i]).end_time <= latest
    &&& worker.phase == WorkerPhase::InFlight ==> {
        &&& worker.request_started_at <= latest
        &&& forall|i: int|
            0 <= i < worker.samples.len() ==> (#[trigger] worker.samples[i]).end_time
                <= worker.request_started_at
    }
}

/// One step at a later instant keeps a user in step with time.
pub proof fn lemma_step_in_step_with(
    worker: WorkerView,
    endpoints: Seq<EndpointConfig>,
    latest: u64,
    now: u64,
    event: WorkerEvent,
    pick: usize,
)
    requires
        in_step_with(worker, latest),
        latest <= now,
    ensures
        in_step_with(worker.step(endpoints, now, event, pick).0, now),
{
    let after = worker.step(endpoints, now, event, pick).0;
    if after.samples != worker.samples {
        assert(after.samples.len() == worker.samples.len() + 1);
        assert(forall|i: int|
            0 <= i < worker.samples.len() ==> after.samples[i] == worker.samples[i]);
    }
}

/// Within one user, samples come in the order of their requests: whatever
/// happens to a fresh user, as long as time moves forward, each of its
/// samples starts when or after the one before it ended.
pub proof fn lemma_samples_are_chronological(
    worker: WorkerView,
    endpoints: Seq<EndpointConfig>,
    history: Seq<Occurrence>,
)
    requires
        worker.phase == WorkerPhase::Created,
        worker.samples.len() == 0,
        time_moves_forward(history),
    ensures
        chronological(after_history(worker, endpoints, history).samples),
        history.len() > 0 ==> in_step_with(
            after_history(worker, endpoints, history),
            history.last().now,
        ),
        history.len() == 0 ==> in_step_with(after_history(worker, endpoints, history), 0),
    decreases history.len(),
{
    if history.len() > 0 {
        let earlier = history.drop_last();
        assert forall|i: int, j: int| 0 <= i <= j < earlier.len() implies (
        #[trigger] earlier[i]).now <= (#[trigger] earlier[j]).now by {
            assert(history[i].now <= history[j].now);
        }
        lemma_samples_are_chronological(worker, endpoints, earlier);
        let latest: u64 = if earlier.len() > 0 {
            earlier.last().now
        } else {
            0
        };
        if earlier.len() > 0 {
            assert(history[earlier.len() - 1].now <= history[history.len() - 1].now);
        }
        lemma_step_in_step_with(
            after_history(worker, endpoints, earlier),
            endpoints,
            latest,
            history.last().now,
            history.last().event,
            history.last().pick,
        );
    }
}

/// One virtual user: its place in the run and the samples it has gathered.
///
/// Instants are nanoseconds counted from a reference instant that all the
/// users of one run share.
#[derive(Debug)]
pub struct Worker {
    user_id: u32,
    start_delay_millis: u64,
    duration_seconds: u64,
    phase: WorkerPhase,
    started_at: u64,
    request_started_at: u64,
    current_endpoint: usize,
    samples: Vec<RequestMetrics>,
}

impl View for Worker {
    type V = WorkerView;

    closed spec fn view(&self) -> WorkerView {
        WorkerView {
            user_id: self.user_id,
            start_delay_millis: self.start_delay_millis,
            duration_seconds: self.duration_seconds,
            phase: self.phase,
            started_at: self.started_at,
            request_started_at: self.request_started_at,
            current_endpoint: self.current_endpoint,
            samples: self.samples@,
        }
    }
}

impl Worker {
    /// A user that has not been launched yet.
    pub fn new(user_id: u32, start_delay_millis: u64, duration_seconds: u64) -> (worker: Worker)
        ensures
            worker@ == (WorkerView {
                user_id,
                start_delay_millis,
                duration_seconds,
                phase: WorkerPhase::Created,
                started_at: 0,
                request_started_at: 0,
                current_endpoint: 0,
                samples: Seq::empty(),
            }),
    {
        Worker {
            user_id,
            start_delay_millis,
            duration_seconds,
            phase: WorkerPhase::Created,
            started_at: 0,
            request_started_at: 0,
            current_endpoint: 0,
            samples: Vec::new(),
        }
    }

    pub fn user_id(&self) -> (id: u32)
        ensures
            id == self@.user_id,
    {
        self.user_id
    }

    pub fn phase(&self) -> (phase: WorkerPhase)
        ensures
            phase == self@.phase,
    {
        self.phase
    }

    pub fn start_delay_millis(&self) -> (millis: u64)
        ensures
            millis == self@.start_delay_millis,
    {
        self.start_delay_millis
    }

    /// The samples gathered so far, oldest first.
    pub fn samples(&self) -> (samples: &Vec<RequestMetrics>)
        ensures
            samples@ == self@.samples,
    {
        &self.samples
    }

    /// Ends the user and hands out its samples, oldest first.
    pub fn into_samples(self) -> (samples: Vec<RequestMetrics>)
        ensures
            samples@ == self@.samples,
    {
        self.samples
    }

    /// Whether the user still has time at `now`.
    fn has_time_left(&self, now: u64) -> (left: bool)
        ensures
            left == has_time_left(self.started_at, self.duration_seconds, now),
    {
        if now < self.started_at {
            true
        } else {
            assert(self.duration_seconds * 1_000_000_000 <= 0xffff_ffff_ffff_ffff * 1_000_000_000)
                by (nonlinear_arith)
                requires
                    self.duration_seconds <= 0xffff_ffff_ffff_ffff,
            ;
            let limit: u128 = (self.duration_seconds as u128) * 1_000_000_000;
            ((now - self.started_at) as u128) < limit
        }
    }

    fn at_loop_top(&mut self, now: u64, pick: usize) -> (action: WorkerAction)
        ensures
            (final(self)@, action) == old(self)@.at_loop_top(now, pick),
    {
        if self.has_time_left(now) {
            self.phase = WorkerPhase::InFlight;
            self.request_started_at = now;
            self.current_endpoint = pick;
            WorkerAction::Send { endpoint: pick }
        } else {
            self.phase = WorkerPhase::Finished;
            WorkerAction::Stop
        }
    }

    fn finish(&mut self) -> (action: WorkerAction)
        ensures
            final(self)@ == (WorkerView { phase: WorkerPhase::Finished, ..old(self)@ }),
            action == WorkerAction::Stop,
    {
        self.phase = WorkerPhase::Finished;
        WorkerAction::Stop
    }

    /// Takes the user one step further: from its state and what happened to
    /// its next state and what it asks for.
    pub fn step(
        &mut self,
        endpoints: &[EndpointConfig],
        now: u64,
        event: WorkerEvent,
        pick: usize,
    ) -> (action: WorkerAction)
        ensures
            (final(self)@, action) == old(self)@.step(endpoints@, now, event, pick),
    {
        match self.phase {
            WorkerPhase::Created => match event {
                WorkerEvent::Launched => {
                    if self.start_delay_millis > 0 {
                        self.phase = WorkerPhase::Delayed;
                        WorkerAction::Sleep { millis: self.start_delay_millis }
                    } else {
                        self.started_at = now;
                        self.at_loop_top(now, pick)
                    }
                },
                _ => self.finish(),
            },
            WorkerPhase::Delayed => match event {
                WorkerEvent::Woke => {
                    self.started_at = now;
                    self.at_loop_top(now, pick)
                },
                _ => self.finish(),
            },
            WorkerPhase::Paused => match event {
                WorkerEvent::Woke => self.at_loop_top(now, pick),
                _ => self.finish(),
            },
            WorkerPhase::InFlight => {
                if self.current_endpoint >= endpoints.len() {
                    return self.finish();
                }
                let path = endpoints[self.current_endpoint].path.clone();
                match event {
                    WorkerEvent::Responded { status_code, content_length } => {
                        let sample = RequestMetrics::from_response(
                            self.request_started_at,
                            now,
                            status_code,
                            content_length,
                            path,
                        );
                        self.samples.push(sample);
                        self.phase = WorkerPhase::Paused;
                        WorkerAction::Sleep { millis: REQUEST_PAUSE_MILLIS }
                    },
                    WorkerEvent::Failed => {
                        let sample = RequestMetrics::transport_failure(
                            self.request_started_at,
                            now,
                            path,
                        );
                        self.samples.push(sample);
                        self.phase = WorkerPhase::Paused;
                        WorkerAction::Sleep { millis: REQUEST_PAUSE_MILLIS }
                    },
                    _ => self.finish(),
                }
            },
            WorkerPhase::Finished => self.finish(),
        }
    }

    /// Takes the user one step further, picking at random the endpoint for a
    /// request that may be due: an endpoint that some draw over the total
    /// weight selects, or the last where no endpoint has any weight.
    pub fn advance(&mut self, endpoints: &[EndpointConfig], now: u64, event: WorkerEvent) -> (action:
        WorkerAction)
        requires
            endpoints@.len() > 0,
        ensures
            exists|pick: usize|
                is_weighted_pick(endpoints@, pick as int) && (final(self)@, action)
                    == #[trigger] old(self)@.step(endpoints@, now, event, pick),
    {
        let pick = select_weighted_index(endpoints);
        self.step(endpoints, now, event, pick)
    }
}

/// The samples of all workers, one worker after the other.
pub open spec fn all_samples(workers: Seq<Vec<RequestMetrics>>) -> Seq<RequestMetrics>
    decreases workers.len(),
{
    if workers.len() == 0 {
        Seq::empty()
    } else {
        all_samples(workers.drop_last()) + workers.last()@
    }
}

/// The number of samples of all workers together.
pub open spec fn count_samples(workers: Seq<Vec<RequestMetrics>>) -> nat
    decreases workers.len(),
{
    if workers.len() == 0 {
        0
    } else {
        count_samples(workers.drop_last()) + workers.last()@.len()
    }
}

/// Merged, the workers' samples are as many as the workers have together.
pub proof fn lemma_all_samples_len(workers: Seq<Vec<RequestMetrics>>)
    ensures
        all_samples(workers).len() == count_samples(workers),
    decreases workers.len(),
{
    if workers.len() > 0 {
        lemma_all_samples_len(workers.drop_last());
    }
}

/// Runs a benchmark's bookkeeping: it schedules the virtual users and merges
/// what they bring back.
#[derive(Debug)]
pub struct LoadTester {
    config: BenchmarkConfig,
}

impl LoadTester {
    pub closed spec fn spec_config(&self) -> BenchmarkConfig {
        self.config
    }

    pub fn new(config: BenchmarkConfig) -> (tester: LoadTester)
        ensures
            tester.spec_config() == config,
    {
        LoadTester { config }
    }

    pub fn config(&self) -> (config: &BenchmarkConfig)
        ensures
            *config == self.spec_config(),
    {
        &self.config
    }

    /// The virtual users of a run, none launched yet: one for each index
    /// below `concurrent_users`, each with its place in the ramp-up.
    /// `InvalidConfig` where the configuration cannot be run.
    pub fn schedule(&self) -> (workers: Result<Vec<Worker>, BenchmarkError>)
        ensures
            workers is Ok <==> self.spec_config().valid(),
            workers matches Err(e) ==> e is InvalidConfig,
            workers matches Ok(list) ==> {
                &&& list@.len() == self.spec_config().concurrent_users
                &&& forall|i: int|
                    0 <= i < list@.len() ==> (#[trigger] list@[i])@ == (WorkerView {
                        user_id: i as u32,
                        start_delay_millis: self.spec_config().spec_start_delay_millis(
                            i as u32,
                        ) as u64,
                        duration_seconds: self.spec_config().duration_seconds,
                        phase: WorkerPhase::Created,
                        started_at: 0,
                        request_started_at: 0,
                        current_endpoint: 0,
                        samples: Seq::empty(),
                    })
            },
    {
        match self.config.validate() {
            Err(e) => {
                return Err(BenchmarkError::InvalidConfig);
            },
            Ok(_) => {},
        }
        let users = self.config.concurrent_users;
        let mut list: Vec<Worker> = Vec::new();
        let mut user_id: u32 = 0;
        while user_id < users
            invariant
                self.config.valid(),
                users == self.config.concurrent_users,
                user_id <= users,
                list@.len() == user_id,
                forall|i: int|
                    0 <= i < list@.len() ==> (#[trigger] list@[i])@ == (WorkerView {
                        user_id: i as u32,
                        start_delay_millis: self.config.spec_start_delay_millis(i as u32) as u64,
                        duration_seconds: self.config.duration_seconds,
                        phase: WorkerPhase::Created,
                        started_at: 0,
                        request_started_at: 0,
                        current_endpoint: 0,
                        samples: Seq::empty(),
                    }),
            decreases users - user_id,
        {
            let delay = self.config.start_delay_millis(user_id);
            list.push(Worker::new(user_id, delay, self.config.duration_seconds));
            user_id = user_id + 1;
        }
        Ok(list)
    }

    /// The aggregate of a run that went from `start_time` to `end_time`:
    /// every sample of every worker, one worker after the other.
    pub fn collect(
        framework_name: String,
        start_time: i64,
        end_time: i64,
        workers: Vec<Vec<RequestMetrics>>,
    ) -> (metrics: BenchmarkMetrics)
        ensures
            metrics.wf(),
            metrics.label() == framework_name@,
            metrics.spec_start_time() == start_time,
            metrics.spec_end_time() == end_time,
            metrics.samples() == all_samples(workers@),
            metrics.spec_total_requests() == count_samples(workers@),
            metrics.spec_successful_requests() + metrics.spec_failed_requests()
                == metrics.spec_total_requests(),
    {
        let mut metrics = BenchmarkMetrics::with_start_time(framework_name, start_time);
        let ghost all = workers@;
        for samples in it: workers.into_iter()
            invariant
                metrics.wf(),
                it.seq() == all,
                metrics.samples() == all_samples(all.take(it.index() as int)),
                metrics.label() == framework_name@,
                metrics.spec_start_time() == start_time,
        {
            assert(all.take(it.index() + 1).drop_last() == all.take(it.index() as int));
            metrics.add_requests(samples);
        }
        assert(all.take(all.len() as int) == all);
        metrics.finalize_at(end_time);
        proof {
            lemma_all_samples_len(all);
            lemma_successes_and_failures(metrics.samples());
        }
        metrics
    }
}

} // verus!
