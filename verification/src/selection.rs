use crate::config::{
    cumulative_weight, lemma_cumulative_weight_bound, lemma_cumulative_weight_monotonic,
    sum_weights, total_weight, EndpointConfig,
};
use vstd::prelude::*;
use vstd::set_lib::{lemma_int_range, set_int_range};

verus! {

/// The sum of the weights of the endpoints up to and including `index`.
pub open spec fn weight_through(endpoints: Seq<EndpointConfig>, index: int) -> int {
    cumulative_weight(endpoints, index + 1)
}

/// Whether the draw `ticket` selects the endpoint at `index`.
///
/// A draw is a point of the weight line, counted in thousandths. Each
/// endpoint's weight is taken from the draw in the order of the list, and the
/// first endpoint at which nothing is left of the draw is selected: the first
/// whose weights, summed from the start of the list, reach the draw. Where
/// none does, the last endpoint is selected.
pub open spec fn is_selected(endpoints: Seq<EndpointConfig>, ticket: int, index: int) -> bool {
    &&& 0 <= index < endpoints.len()
    &&& forall|j: int| 0 <= j < index ==> #[trigger] weight_through(endpoints, j) < ticket
    &&& (index == endpoints.len() - 1 || weight_through(endpoints, index) >= ticket)
}

/// Whether `index` can come of a weighted pick: some draw from the first
/// thousandth to the last selects it, or, where no endpoint has any weight
/// and so nothing can be drawn, it is the last endpoint.
pub open spec fn is_weighted_pick(endpoints: Seq<EndpointConfig>, index: int) -> bool {
    &&& 0 <= index < endpoints.len()
    &&& total_weight(endpoints) > 0 ==> exists|ticket: int|
        1 <= ticket <= total_weight(endpoints) && #[trigger] is_selected(endpoints, ticket, index)
    &&& total_weight(endpoints) == 0 ==> index == endpoints.len() - 1
}

/// A draw selects one endpoint only.
pub proof fn lemma_selection_unique(endpoints: Seq<EndpointConfig>, ticket: int, a: int, b: int)
    requires
        is_selected(endpoints, ticket, a),
        is_selected(endpoints, ticket, b),
    ensures
        a == b,
{
    if a < b {
        assert(weight_through(endpoints, a) < ticket);
    } else if b < a {
        assert(weight_through(endpoints, b) < ticket);
    }
}

/// In a list of one endpoint every draw selects that endpoint, whatever its
/// weight.
pub proof fn lemma_single_endpoint_selected(endpoints: Seq<EndpointConfig>, ticket: int)
    requires
        endpoints.len() == 1,
    ensures
        is_selected(endpoints, ticket, 0),
        forall|index: int| is_selected(endpoints, ticket, index) ==> index == 0,
{
}

/// A draw of nothing selects the first endpoint: nothing is left of it
/// before any weight is taken.
pub proof fn lemma_empty_draw_selects_first(endpoints: Seq<EndpointConfig>)
    requires
        endpoints.len() > 0,
    ensures
        is_selected(endpoints, 0, 0),
{
    lemma_cumulative_weight_monotonic(endpoints, 0, 1);
}

/// A draw from the first thousandth to the last selects the endpoint in
/// whose stretch of the weight line it falls. The end of a stretch belongs
/// to it, so a draw that falls exactly on a sum of weights selects the
/// endpoint at which that sum is reached, not the one after it.
pub proof fn lemma_selection_interval(endpoints: Seq<EndpointConfig>, ticket: int, index: int)
    requires
        0 <= index < endpoints.len(),
        1 <= ticket <= total_weight(endpoints),
    ensures
        is_selected(endpoints, ticket, index) <==> cumulative_weight(endpoints, index) < ticket
            <= cumulative_weight(endpoints, index + 1),
{
    if is_selected(endpoints, ticket, index) {
        if index > 0 {
            assert(weight_through(endpoints, index - 1) < ticket);
        }
    }
    if cumulative_weight(endpoints, index) < ticket <= cumulative_weight(endpoints, index + 1) {
        assert forall|j: int| 0 <= j < index implies #[trigger] weight_through(endpoints, j)
            < ticket by {
            lemma_cumulative_weight_monotonic(endpoints, j + 1, index);
        }
    }
}

/// An endpoint without weight is selected by no draw from the first
/// thousandth to the last.
pub proof fn lemma_weightless_never_selected(
    endpoints: Seq<EndpointConfig>,
    ticket: int,
    index: int,
)
    requires
        0 <= index < endpoints.len(),
        1 <= ticket <= total_weight(endpoints),
        endpoints[index].weight.thousandths == 0,
    ensures
        !is_selected(endpoints, ticket, index),
{
    lemma_selection_interval(endpoints, ticket, index);
}

/// Of the draws from the first thousandth to the last, an endpoint is
/// selected by as many as its weight has thousandths, and they lie side by
/// side: drawn uniformly, a draw selects each endpoint with probability
/// `weight / total_weight`.
pub proof fn lemma_selection_share(endpoints: Seq<EndpointConfig>, index: int)
    requires
        0 <= index < endpoints.len(),
    ensures
        Set::new(
            |ticket: int|
                1 <= ticket <= total_weight(endpoints) && is_selected(endpoints, ticket, index),
        ) == set_int_range(
            cumulative_weight(endpoints, index) + 1,
            cumulative_weight(endpoints, index + 1) + 1,
        ),
        Set::new(
            |ticket: int|
                1 <= ticket <= total_weight(endpoints) && is_selected(endpoints, ticket, index),
        ).finite(),
        Set::new(
            |ticket: int|
                1 <= ticket <= total_weight(endpoints) && is_selected(endpoints, ticket, index),
        ).len() == endpoints[index].weight.thousandths,
{
    let selecting = Set::new(
        |ticket: int|
            1 <= ticket <= total_weight(endpoints) && is_selected(endpoints, ticket, index),
    );
    let low = cumulative_weight(endpoints, index) + 1;
    let high = cumulative_weight(endpoints, index + 1) + 1;
    lemma_cumulative_weight_monotonic(endpoints, 0, index);
    lemma_cumulative_weight_monotonic(endpoints, index + 1, endpoints.len() as int);
    assert forall|ticket: int| selecting.contains(ticket) <==> set_int_range(low, high).contains(
        ticket,
    ) by {
        if 1 <= ticket <= total_weight(endpoints) {
            lemma_selection_interval(endpoints, ticket, index);
        }
    }
    assert(selecting =~= set_int_range(low, high));
    lemma_int_range(low, high);
}

/// The index of the endpoint that the draw `ticket` selects.
pub fn select_by_ticket(endpoints: &[EndpointConfig], ticket: u128) -> (index: usize)
    requires
        endpoints@.len() > 0,
    ensures
        is_selected(endpoints@, ticket as int, index as int),
{
    let last: usize = endpoints.len() - 1;
    let mut running: u128 = 0;
    let mut i: usize = 0;
    while i < last
        invariant
            last == endpoints@.len() - 1,
            i <= last,
            running == cumulative_weight(endpoints@, i as int),
            forall|j: int| 0 <= j < i ==> #[trigger] weight_through(endpoints@, j) < ticket,
        decreases last - i,
    {
        proof {
            lemma_cumulative_weight_bound(endpoints@, i + 1);
            assert((i + 1) * 0xffff_ffff_ffff_ffff <= 0xffff_ffff_ffff_ffff
                * 0xffff_ffff_ffff_ffff) by (nonlinear_arith)
                requires
                    i + 1 <= 0xffff_ffff_ffff_ffff,
            ;
        }
        running = running + endpoints[i].weight.thousandths as u128;
        if running >= ticket {
            return i;
        }
        i = i + 1;
    }
    last
}

/// `rand`'s `Rng::gen_range` for the range `0..bound`, on the generator of
/// the calling thread: some value of that range.
#[verifier::external_body]
fn random_below(bound: u128) -> (ticket: u128)
    requires
        bound > 0,
    ensures
        ticket < bound,
{
    rand::Rng::gen_range(&mut rand::thread_rng(), 0..bound)
}

/// Picks the index of an endpoint at random, each with a probability in
/// proportion to its weight: the draw is one of the thousandths from the
/// first to the last of the total weight, each as likely as any other.
/// Where no endpoint has any weight, the pick is the last endpoint.
pub fn select_weighted_index(endpoints: &[EndpointConfig]) -> (index: usize)
    requires
        endpoints@.len() > 0,
    ensures
        is_weighted_pick(endpoints@, index as int),
        endpoints@.len() == 1 ==> index == 0,
{
    let total = sum_weights(endpoints);
    if total == 0 {
        return endpoints.len() - 1;
    }
    let ticket = random_below(total) + 1;
    let index = select_by_ticket(endpoints, ticket);
    assert(1 <= ticket <= total_weight(endpoints@) && is_selected(
        endpoints@,
        ticket as int,
        index as int,
    ));
    index
}

/// Picks an endpoint at random, each with a probability in proportion to its
/// weight. Where no endpoint has any weight, the pick is the last endpoint.
pub fn select_weighted_endpoint(endpoints: &[EndpointConfig]) -> (chosen: &EndpointConfig)
    requires
        endpoints@.len() > 0,
    ensures
        exists|index: int|
            #![trigger is_weighted_pick(endpoints@, index)]
            is_weighted_pick(endpoints@, index) && *chosen == endpoints@[index],
        total_weight(endpoints@) > 0 ==> exists|ticket: int, index: int|
            1 <= ticket <= total_weight(endpoints@) && #[trigger] is_selected(
                endpoints@,
                ticket,
                index,
            ) && *chosen == endpoints@[index],
        total_weight(endpoints@) == 0 ==> *chosen == endpoints@[endpoints@.len() - 1],
        endpoints@.len() == 1 ==> *chosen == endpoints@[0],
{
    let index = select_weighted_index(endpoints);
    proof {
        assert(is_weighted_pick(endpoints@, index as int));
        if total_weight(endpoints@) > 0 {
            let ticket = choose|ticket: int|
                1 <= ticket <= total_weight(endpoints@) && #[trigger] is_selected(
                    endpoints@,
                    ticket,
                    index as int,
                );
            assert(is_selected(endpoints@, ticket, index as int));
        }
    }
    &endpoints[index]
}

} // verus!
