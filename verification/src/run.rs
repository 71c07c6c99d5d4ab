use crate::config::EndpointConfig;
use crate::load_tester::{
    after_history, all_samples, count_samples, lemma_all_samples_len, Occurrence, WorkerAction,
    WorkerEvent, WorkerPhase, WorkerView,
};
use crate::metrics::{
    count_failures, count_failures_with_status, count_successes, histogram_count,
    lemma_success_rate_bound, lemma_successes_and_failures, success_rate_of, BenchmarkMetrics,
};
use crate::sample::RequestMetrics;
use vstd::prelude::*;

verus! {

/// Whether a user is as `Worker::new` makes it: not launched, without
/// samples.
pub open spec fn is_fresh(worker: WorkerView) -> bool {
    worker.phase == WorkerPhase::Created && worker.samples.len() == 0
}

/// Whether every occurrence of a history picks an endpoint of the list.
pub open spec fn picks_in_range(endpoints: Seq<EndpointConfig>, history: Seq<Occurrence>) -> bool {
    forall|i: int| 0 <= i < history.len() ==> (#[trigger] history[i]).pick < endpoints.len()
}

/// What the user asks for after the last occurrence of a history that is
/// not empty.
pub open spec fn action_after(
    worker: WorkerView,
    endpoints: Seq<EndpointConfig>,
    history: Seq<Occurrence>,
) -> WorkerAction {
    after_history(worker, endpoints, history.drop_last()).step(
        endpoints,
        history.last().now,
        history.last().event,
        history.last().pick,
    ).1
}

/// Whether an event is what comes of an action: waking of a sleep, and a
/// response or a failure of a request. Nothing comes of stopping.
pub open spec fn answers(action: WorkerAction, event: WorkerEvent) -> bool {
    match action {
        WorkerAction::Sleep { .. } => event is Woke,
        WorkerAction::Send { .. } => event is Responded || event is Failed,
        WorkerAction::Stop => false,
    }
}

/// Whether a history is one of a user that is launched and from then on
/// told, each time, what came of what it asked for.
pub open spec fn follows_protocol(
    worker: WorkerView,
    endpoints: Seq<EndpointConfig>,
    history: Seq<Occurrence>,
) -> bool
    decreases history.len(),
{
    if history.len() == 0 {
        true
    } else if history.len() == 1 {
        history[0].event is Launched
    } else {
        follows_protocol(worker, endpoints, history.drop_last()) && answers(
            action_after(worker, endpoints, history.drop_last()),
            history.last().event,
        )
    }
}

/// Whether a history is a whole run: it follows the protocol until the user
/// stops.
pub open spec fn is_whole_run(
    worker: WorkerView,
    endpoints: Seq<EndpointConfig>,
    history: Seq<Occurrence>,
) -> bool {
    &&& history.len() > 0
    &&& follows_protocol(worker, endpoints, history)
    &&& action_after(worker, endpoints, history) == WorkerAction::Stop
}

/// What holds of a user and of what it asks for while it is told what came
/// of what it asked for: it asks for what its phase is about, a request
/// under way goes to an endpoint of the list, and once it has paused or
/// finished it has a sample.
pub open spec fn on_course(
    worker: WorkerView,
    action: WorkerAction,
    endpoints: Seq<EndpointConfig>,
) -> bool {
    match worker.phase {
        WorkerPhase::Created => false,
        WorkerPhase::Delayed => action is Sleep && worker.samples.len() == 0,
        WorkerPhase::InFlight => action is Send && worker.current_endpoint < endpoints.len(),
        WorkerPhase::Paused => action is Sleep && worker.samples.len() >= 1,
        WorkerPhase::Finished => action is Stop && worker.samples.len() >= 1,
    }
}

/// A user that runs for a second or more stays on course as long as it is
/// told what came of what it asked for.
pub proof fn lemma_protocol_keeps_course(
    worker: WorkerView,
    endpoints: Seq<EndpointConfig>,
    history: Seq<Occurrence>,
)
    requires
        is_fresh(worker),
        worker.duration_seconds >= 1,
        history.len() > 0,
        picks_in_range(endpoints, history),
        follows_protocol(worker, endpoints, history),
    ensures
        on_course(
            after_history(worker, endpoints, history),
            action_after(worker, endpoints, history),
            endpoints,
        ),
        after_history(worker, endpoints, history).duration_seconds == worker.duration_seconds,
    decreases history.len(),
{
    let earlier = history.drop_last();
    let last = history.last();
    assert(last.pick < endpoints.len());
    if history.len() == 1 {
        assert(after_history(worker, endpoints, earlier) == worker);
        assert(worker.duration_seconds * 1_000_000_000 >= 1_000_000_000) by (nonlinear_arith)
            requires
                worker.duration_seconds >= 1,
        ;
    } else {
        assert forall|i: int| 0 <= i < earlier.len() implies (#[trigger] earlier[i]).pick
            < endpoints.len() by {
            assert(history[i].pick < endpoints.len());
        }
        lemma_protocol_keeps_course(worker, endpoints, earlier);
        let before = after_history(worker, endpoints, earlier);
        assert(before.duration_seconds * 1_000_000_000 >= 1_000_000_000) by (nonlinear_arith)
            requires
                before.duration_seconds >= 1,
        ;
    }
}

/// Every user of a run sends at least one request: a user that runs for a
/// second or more has a sample once its run is over.
pub proof fn lemma_whole_run_has_a_sample(
    worker: WorkerView,
    endpoints: Seq<EndpointConfig>,
    history: Seq<Occurrence>,
)
    requires
        is_fresh(worker),
        worker.duration_seconds >= 1,
        picks_in_range(endpoints, history),
        is_whole_run(worker, endpoints, history),
    ensures
        after_history(worker, endpoints, history).phase == WorkerPhase::Finished,
        after_history(worker, endpoints, history).samples.len() >= 1,
{
    lemma_protocol_keeps_course(worker, endpoints, history);
}

/// Whether every request of a history got a response with `status_code`.
pub open spec fn all_answered_with(history: Seq<Occurrence>, status_code: u16) -> bool {
    forall|i: int|
        0 <= i < history.len() ==> match (#[trigger] history[i]).event {
            WorkerEvent::Responded { status_code: answered, .. } => answered == status_code,
            WorkerEvent::Failed => false,
            _ => true,
        }
}

/// Whether no request of a history got a response.
pub open spec fn none_answered(history: Seq<Occurrence>) -> bool {
    forall|i: int| 0 <= i < history.len() ==> !((#[trigger] history[i]).event is Responded)
}

/// Whether a sample is one of a response with `status_code` from an endpoint
/// of the list.
pub open spec fn is_answer_with(
    sample: RequestMetrics,
    endpoints: Seq<EndpointConfig>,
    status_code: u16,
) -> bool {
    &&& sample.status_code == status_code
    &&& sample.success == crate::sample::is_success_status(status_code)
    &&& exists|k: int| 0 <= k < endpoints.len() && sample.endpoint == (#[trigger] endpoints[k]).path
}

/// Whether a sample is one of a request that got no response: status 0, no
/// bytes, no success.
pub open spec fn is_transport_failure(sample: RequestMetrics) -> bool {
    sample.status_code == 0 && sample.response_size == 0 && !sample.success
}

/// Where every request gets a response with one status, every sample of
/// the user has that status, is a success or not as the status says, and
/// names an endpoint of the list.
pub proof fn lemma_answers_become_samples(
    worker: WorkerView,
    endpoints: Seq<EndpointConfig>,
    history: Seq<Occurrence>,
    status_code: u16,
)
    requires
        worker.samples.len() == 0,
        all_answered_with(history, status_code),
    ensures
        forall|k: int|
            0 <= k < after_history(worker, endpoints, history).samples.len() ==> is_answer_with(
                #[trigger] after_history(worker, endpoints, history).samples[k],
                endpoints,
                status_code,
            ),
    decreases history.len(),
{
    if history.len() > 0 {
        let earlier = history.drop_last();
        assert forall|i: int| 0 <= i < earlier.len() implies match (#[trigger] earlier[i]).event {
            WorkerEvent::Responded { status_code: answered, .. } => answered == status_code,
            WorkerEvent::Failed => false,
            _ => true,
        } by {
            assert(earlier[i] == history[i]);
        }
        lemma_answers_become_samples(worker, endpoints, earlier, status_code);
        let before = after_history(worker, endpoints, earlier);
        let after = after_history(worker, endpoints, history);
        let last = history.last();
        assert(last == history[history.len() - 1]);
        assert forall|k: int| 0 <= k < after.samples.len() implies is_answer_with(
            #[trigger] after.samples[k],
            endpoints,
            status_code,
        ) by {
            if k < before.samples.len() {
                assert(after.samples[k] == before.samples[k]);
            } else {
                assert(after.samples[k].endpoint == endpoints[before.current_endpoint as int].path);
            }
        }
    }
}

/// Where no request gets a response, every sample of the user is a
/// transport failure.
pub proof fn lemma_failures_become_samples(
    worker: WorkerView,
    endpoints: Seq<EndpointConfig>,
    history: Seq<Occurrence>,
)
    requires
        worker.samples.len() == 0,
        none_answered(history),
    ensures
        forall|k: int|
            0 <= k < after_history(worker, endpoints, history).samples.len()
                ==> is_transport_failure(
                #[trigger] after_history(worker, endpoints, history).samples[k],
            ),
    decreases history.len(),
{
    if history.len() > 0 {
        let earlier = history.drop_last();
        assert forall|i: int| 0 <= i < earlier.len() implies !((#[trigger] earlier[i]).event
            is Responded) by {
            assert(earlier[i] == history[i]);
        }
        lemma_failures_become_samples(worker, endpoints, earlier);
        let before = after_history(worker, endpoints, earlier);
        let after = after_history(worker, endpoints, history);
        assert(history.last() == history[history.len() - 1]);
        assert forall|k: int| 0 <= k < after.samples.len() implies is_transport_failure(
            #[trigger] after.samples[k],
        ) by {
            if k < before.samples.len() {
                assert(after.samples[k] == before.samples[k]);
            }
        }
    }
}

/// Samples that all succeeded count no failure, under no status.
pub proof fn lemma_all_successes(samples: Seq<RequestMetrics>)
    requires
        forall|i: int| 0 <= i < samples.len() ==> (#[trigger] samples[i]).success,
    ensures
        count_successes(samples) == samples.len(),
        count_failures(samples) == 0,
        forall|status_code: u16| #[trigger] count_failures_with_status(samples, status_code) == 0,
    decreases samples.len(),
{
    if samples.len() > 0 {
        assert(samples.last() == samples[samples.len() - 1]);
        assert forall|i: int| 0 <= i < samples.drop_last().len() implies (
        #[trigger] samples.drop_last()[i]).success by {
            assert(samples.drop_last()[i] == samples[i]);
        }
        lemma_all_successes(samples.drop_last());
        assert forall|status_code: u16| #[trigger]
            count_failures_with_status(samples, status_code) == 0 by {
            assert(count_failures_with_status(samples.drop_last(), status_code) == 0);
        }
    }
}

/// Samples that are all transport failures count as failures, all of them
/// under status 0 and none under any other.
pub proof fn lemma_all_transport_failures(samples: Seq<RequestMetrics>)
    requires
        forall|i: int| 0 <= i < samples.len() ==> is_transport_failure(#[trigger] samples[i]),
    ensures
        count_successes(samples) == 0,
        count_failures(samples) == samples.len(),
        count_failures_with_status(samples, 0) == samples.len(),
        forall|status_code: u16|
            status_code != 0 ==> #[trigger] count_failures_with_status(samples, status_code) == 0,
    decreases samples.len(),
{
    if samples.len() > 0 {
        assert(is_transport_failure(samples[samples.len() - 1]));
        assert forall|i: int| 0 <= i < samples.drop_last().len() implies is_transport_failure(
            #[trigger] samples.drop_last()[i],
        ) by {
            assert(samples.drop_last()[i] == samples[i]);
        }
        lemma_all_transport_failures(samples.drop_last());
        assert forall|status_code: u16| status_code != 0 implies #[trigger]
            count_failures_with_status(samples, status_code) == 0 by {
            assert(count_failures_with_status(samples.drop_last(), status_code) == 0);
        }
    }
}

/// Every merged sample is a sample of some worker.
pub proof fn lemma_merged_sample_has_a_worker(workers: Seq<Vec<RequestMetrics>>, k: int)
    requires
        0 <= k < all_samples(workers).len(),
    ensures
        exists|w: int, i: int|
            0 <= w < workers.len() && 0 <= i < workers[w]@.len() && all_samples(workers)[k]
                == #[trigger] workers[w]@[i],
    decreases workers.len(),
{
    let earlier = all_samples(workers.drop_last());
    if k < earlier.len() {
        lemma_merged_sample_has_a_worker(workers.drop_last(), k);
        let (w, i) = choose|w: int, i: int|
            0 <= w < workers.drop_last().len() && 0 <= i < workers.drop_last()[w]@.len()
                && earlier[k] == #[trigger] workers.drop_last()[w]@[i];
        assert(workers[w]@[i] == all_samples(workers)[k]);
    } else {
        let w = workers.len() - 1;
        let i = k - earlier.len();
        assert(workers[w]@[i] == all_samples(workers)[k]);
    }
}

/// Workers that each bring a sample or more bring as many samples as there
/// are workers, or more.
pub proof fn lemma_every_worker_counts(workers: Seq<Vec<RequestMetrics>>)
    requires
        forall|w: int| 0 <= w < workers.len() ==> (#[trigger] workers[w])@.len() >= 1,
    ensures
        count_samples(workers) >= workers.len(),
        all_samples(workers).len() >= workers.len(),
    decreases workers.len(),
{
    lemma_all_samples_len(workers);
    if workers.len() > 0 {
        assert(workers.last() == workers[workers.len() - 1]);
        assert forall|w: int| 0 <= w < workers.drop_last().len() implies (
        #[trigger] workers.drop_last()[w])@.len() >= 1 by {
            assert(workers.drop_last()[w] == workers[w]);
        }
        lemma_every_worker_counts(workers.drop_last());
    }
}

/// A run against a target that answers every request with a success: where
/// every worker brought a sample or more and every sample is a success,
/// the aggregate counts a request or more for each worker and no failure,
/// its error histogram is empty, and its success rate is a hundred percent.
pub proof fn lemma_healthy_run(metrics: BenchmarkMetrics, workers: Seq<Vec<RequestMetrics>>)
    requires
        metrics.wf(),
        metrics.samples() == all_samples(workers),
        workers.len() >= 1,
        forall|w: int| 0 <= w < workers.len() ==> (#[trigger] workers[w])@.len() >= 1,
        forall|w: int, i: int|
            0 <= w < workers.len() && 0 <= i < workers[w]@.len() ==> (
            #[trigger] workers[w]@[i]).success,
    ensures
        metrics.spec_total_requests() >= workers.len(),
        metrics.spec_total_requests() > 0,
        metrics.spec_successful_requests() == metrics.spec_total_requests(),
        metrics.spec_failed_requests() == 0,
        metrics.histogram() == Map::<u16, u64>::empty(),
        success_rate_of(metrics.samples()).thousandths == 100_000,
{
    let samples = metrics.samples();
    lemma_every_worker_counts(workers);
    assert forall|k: int| 0 <= k < samples.len() implies (#[trigger] samples[k]).success by {
        lemma_merged_sample_has_a_worker(workers, k);
    }
    lemma_all_successes(samples);
    lemma_success_rate_bound(samples);
    crate::metrics::lemma_no_failures_no_histogram(metrics);
}

/// A run against a target that cannot be reached: where every worker
/// brought a sample or more and every sample is a transport failure, the
/// aggregate counts a request or more for each worker and every one as a
/// failure, its error histogram holds them all under status 0, and its
/// success rate is zero.
pub proof fn lemma_unreachable_run(metrics: BenchmarkMetrics, workers: Seq<Vec<RequestMetrics>>)
    requires
        metrics.wf(),
        metrics.samples() == all_samples(workers),
        workers.len() >= 1,
        forall|w: int| 0 <= w < workers.len() ==> (#[trigger] workers[w])@.len() >= 1,
        forall|w: int, i: int|
            0 <= w < workers.len() && 0 <= i < workers[w]@.len() ==> is_transport_failure(
                #[trigger] workers[w]@[i],
            ),
    ensures
        metrics.spec_total_requests() >= workers.len(),
        metrics.spec_total_requests() > 0,
        metrics.spec_successful_requests() == 0,
        metrics.spec_failed_requests() == metrics.spec_total_requests(),
        metrics.histogram().contains_key(0u16),
        metrics.histogram()[0u16] == metrics.spec_total_requests(),
        forall|status_code: u16|
            metrics.histogram().contains_key(status_code) ==> status_code == 0,
        success_rate_of(metrics.samples()).thousandths == 0,
{
    let samples = metrics.samples();
    lemma_every_worker_counts(workers);
    assert forall|k: int| 0 <= k < samples.len() implies is_transport_failure(
        #[trigger] samples[k],
    ) by {
        lemma_merged_sample_has_a_worker(workers, k);
    }
    lemma_all_transport_failures(samples);
    lemma_success_rate_bound(samples);
    crate::metrics::lemma_histogram_follows_samples(metrics, 0);
    assert forall|status_code: u16| metrics.histogram().contains_key(status_code) implies status_code
        == 0 by {
        crate::metrics::lemma_histogram_follows_samples(metrics, status_code);
    }
}

/// Whether `samples` are what the users `fresh` bring back from the whole
/// runs `histories`, one user for each list of samples: each user starts
/// fresh, runs for a second or more, picks endpoints of the list, and is
/// told what came of what it asked for until it stops.
pub open spec fn are_whole_runs(
    endpoints: Seq<EndpointConfig>,
    fresh: Seq<WorkerView>,
    histories: Seq<Seq<Occurrence>>,
    samples: Seq<Vec<RequestMetrics>>,
) -> bool {
    &&& fresh.len() == samples.len()
    &&& histories.len() == samples.len()
    &&& forall|w: int|
        0 <= w < samples.len() ==> {
            &&& is_fresh(#[trigger] fresh[w])
            &&& fresh[w].duration_seconds >= 1
            &&& picks_in_range(endpoints, histories[w])
            &&& is_whole_run(fresh[w], endpoints, histories[w])
            &&& samples[w]@ == after_history(fresh[w], endpoints, histories[w]).samples
        }
}

/// A run against a target that answers every request with one status of
/// success: every user made a request or more, so the aggregate counts a
/// request or more for each user; it counts no failure, its error histogram
/// is empty, its success rate is a hundred percent, and every sample has
/// that status and names an endpoint of the list.
pub proof fn lemma_run_against_healthy_target(
    metrics: BenchmarkMetrics,
    endpoints: Seq<EndpointConfig>,
    fresh: Seq<WorkerView>,
    histories: Seq<Seq<Occurrence>>,
    workers: Seq<Vec<RequestMetrics>>,
    status_code: u16,
)
    requires
        metrics.wf(),
        metrics.samples() == all_samples(workers),
        workers.len() >= 1,
        are_whole_runs(endpoints, fresh, histories, workers),
        crate::sample::is_success_status(status_code),
        forall|w: int|
            0 <= w < workers.len() ==> all_answered_with(#[trigger] histories[w], status_code),
    ensures
        metrics.spec_total_requests() >= workers.len(),
        metrics.spec_total_requests() > 0,
        metrics.spec_successful_requests() == metrics.spec_total_requests(),
        metrics.spec_failed_requests() == 0,
        metrics.histogram() == Map::<u16, u64>::empty(),
        success_rate_of(metrics.samples()).thousandths == 100_000,
        forall|k: int|
            0 <= k < metrics.samples().len() ==> is_answer_with(
                #[trigger] metrics.samples()[k],
                endpoints,
                status_code,
            ),
{
    assert forall|w: int| 0 <= w < workers.len() implies (#[trigger] workers[w])@.len() >= 1 by {
        assert(is_fresh(fresh[w]));
        lemma_whole_run_has_a_sample(fresh[w], endpoints, histories[w]);
    }
    assert forall|w: int, i: int| 0 <= w < workers.len() && 0 <= i < workers[w]@.len() implies (
    #[trigger] workers[w]@[i]).success && is_answer_with(workers[w]@[i], endpoints, status_code) by {
        assert(is_fresh(fresh[w]));
        assert(all_answered_with(histories[w], status_code));
        lemma_answers_become_samples(fresh[w], endpoints, histories[w], status_code);
        assert(is_answer_with(
            after_history(fresh[w], endpoints, histories[w]).samples[i],
            endpoints,
            status_code,
        ));
    }
    lemma_healthy_run(metrics, workers);
    assert forall|k: int| 0 <= k < metrics.samples().len() implies is_answer_with(
        #[trigger] metrics.samples()[k],
        endpoints,
        status_code,
    ) by {
        lemma_merged_sample_has_a_worker(workers, k);
    }
}

/// A run against a target that cannot be reached: every user made a request
/// or more, so the aggregate counts a request or more for each user; every
/// request is a failure, the error histogram holds them all under status 0
/// and nothing else, and the success rate is zero.
pub proof fn lemma_run_against_unreachable_target(
    metrics: BenchmarkMetrics,
    endpoints: Seq<EndpointConfig>,
    fresh: Seq<WorkerView>,
    histories: Seq<Seq<Occurrence>>,
    workers: Seq<Vec<RequestMetrics>>,
)
    requires
        metrics.wf(),
        metrics.samples() == all_samples(workers),
        workers.len() >= 1,
        are_whole_runs(endpoints, fresh, histories, workers),
        forall|w: int| 0 <= w < workers.len() ==> none_answered(#[trigger] histories[w]),
    ensures
        metrics.spec_total_requests() >= workers.len(),
        metrics.spec_total_requests() > 0,
        metrics.spec_successful_requests() == 0,
        metrics.spec_failed_requests() == metrics.spec_total_requests(),
        metrics.histogram().contains_key(0u16),
        metrics.histogram()[0u16] == metrics.spec_total_requests(),
        forall|status_code: u16|
            metrics.histogram().contains_key(status_code) ==> status_code == 0,
        success_rate_of(metrics.samples()).thousandths == 0,
{
    assert forall|w: int| 0 <= w < workers.len() implies (#[trigger] workers[w])@.len() >= 1 by {
        assert(is_fresh(fresh[w]));
        lemma_whole_run_has_a_sample(fresh[w], endpoints, histories[w]);
    }
    assert forall|w: int, i: int|
        0 <= w < workers.len() && 0 <= i < workers[w]@.len() implies is_transport_failure(
        #[trigger] workers[w]@[i],
    ) by {
        assert(is_fresh(fresh[w]));
        assert(none_answered(histories[w]));
        lemma_failures_become_samples(fresh[w], endpoints, histories[w]);
        assert(is_transport_failure(
            after_history(fresh[w], endpoints, histories[w]).samples[i],
        ));
    }
    lemma_unreachable_run(metrics, workers);
}

} // verus!
