use shared::config::{sum_weights, EndpointConfig};
use shared::decimal::Decimal;
use shared::selection::{select_by_ticket, select_weighted_endpoint, select_weighted_index};

fn endpoints(weights: &[u64]) -> Vec<EndpointConfig> {
    weights
        .iter()
        .enumerate()
        .map(|(i, w)| EndpointConfig::new(&format!("/e{}", i), "GET", Decimal { thousandths: *w }))
        .collect()
}

#[test]
fn a_single_endpoint_is_always_selected() {
    let list = endpoints(&[1000]);
    for _ in 0..100 {
        assert_eq!(select_weighted_endpoint(&list).path, "/e0");
    }
}

#[test]
fn a_single_endpoint_without_weight_is_still_selected() {
    let list = endpoints(&[0]);
    for _ in 0..100 {
        assert_eq!(select_weighted_index(&list), 0);
        assert_eq!(select_weighted_endpoint(&list).path, "/e0");
    }
    assert_eq!(select_by_ticket(&list, 0), 0);
    assert_eq!(select_by_ticket(&list, 12345), 0);
}

#[test]
fn without_any_weight_the_last_endpoint_is_selected() {
    let list = endpoints(&[0, 0, 0]);
    for _ in 0..50 {
        assert_eq!(select_weighted_index(&list), 2);
    }
}

#[test]
fn tickets_select_by_cumulative_weight() {
    let list = endpoints(&[300, 400, 200, 100]);
    assert_eq!(sum_weights(&list), 1000);
    assert_eq!(select_by_ticket(&list, 0), 0);
    assert_eq!(select_by_ticket(&list, 1), 0);
    assert_eq!(select_by_ticket(&list, 299), 0);
    // A draw that falls on a sum of weights belongs to the earlier endpoint.
    assert_eq!(select_by_ticket(&list, 300), 0);
    assert_eq!(select_by_ticket(&list, 301), 1);
    assert_eq!(select_by_ticket(&list, 699), 1);
    assert_eq!(select_by_ticket(&list, 700), 1);
    assert_eq!(select_by_ticket(&list, 701), 2);
    assert_eq!(select_by_ticket(&list, 899), 2);
    assert_eq!(select_by_ticket(&list, 900), 2);
    assert_eq!(select_by_ticket(&list, 901), 3);
    assert_eq!(select_by_ticket(&list, 999), 3);
    assert_eq!(select_by_ticket(&list, 1000), 3);
    // Beyond the total weight the last endpoint is the fallback.
    assert_eq!(select_by_ticket(&list, 1001), 3);
    assert_eq!(select_by_ticket(&list, u128::MAX), 3);
}

#[test]
fn an_endpoint_without_weight_is_never_selected_by_a_ticket() {
    let list = endpoints(&[0, 5, 0, 5]);
    for ticket in 1..=10u128 {
        let index = select_by_ticket(&list, ticket);
        assert!(index == 1 || index == 3);
    }
    assert_eq!(select_by_ticket(&list, 5), 1);
    assert_eq!(select_by_ticket(&list, 6), 3);
    // Nothing is left of a draw of nothing before any weight is taken.
    assert_eq!(select_by_ticket(&list, 0), 0);
}

#[test]
fn every_endpoint_is_selected_by_as_many_tickets_as_its_weight() {
    let weights = [300u64, 400, 0, 200, 100];
    let list = endpoints(&weights);
    let mut counts = [0u64; 5];
    for ticket in 1..=1000u128 {
        counts[select_by_ticket(&list, ticket)] += 1;
    }
    assert_eq!(counts, weights);
}

#[test]
fn huge_weights_do_not_overflow() {
    let list = endpoints(&[u64::MAX, u64::MAX, u64::MAX]);
    assert_eq!(sum_weights(&list), 3 * (u64::MAX as u128));
    assert_eq!(select_by_ticket(&list, u64::MAX as u128), 0);
    assert_eq!(select_by_ticket(&list, u64::MAX as u128 + 1), 1);
    assert_eq!(select_by_ticket(&list, 2 * (u64::MAX as u128)), 1);
    assert_eq!(select_by_ticket(&list, 2 * (u64::MAX as u128) + 1), 2);
    assert_eq!(select_by_ticket(&list, 3 * (u64::MAX as u128)), 2);
}

#[test]
fn selection_ratio_follows_the_weights() {
    let list = endpoints(&[900, 100]);
    let mut first = 0u32;
    for _ in 0..10_000 {
        if select_weighted_index(&list) == 0 {
            first += 1;
        }
    }
    let share = first as f64 / 10_000.0;
    assert!((share - 0.9).abs() <= 0.03, "share of the first endpoint was {}", share);
}

#[test]
fn random_selection_reaches_every_weighted_endpoint() {
    let list = endpoints(&[250, 0, 250, 500]);
    let mut counts = [0u32; 4];
    for _ in 0..20_000 {
        counts[select_weighted_index(&list)] += 1;
    }
    assert_eq!(counts[1], 0);
    assert!((counts[0] as f64 / 20_000.0 - 0.25).abs() <= 0.03);
    assert!((counts[2] as f64 / 20_000.0 - 0.25).abs() <= 0.03);
    assert!((counts[3] as f64 / 20_000.0 - 0.50).abs() <= 0.03);
}

#[test]
fn a_draw_on_the_boundary_selects_the_earlier_endpoint() {
    let list = vec![
        EndpointConfig::new("/a", "GET", Decimal { thousandths: 900 }),
        EndpointConfig::new("/b", "GET", Decimal { thousandths: 100 }),
    ];
    assert_eq!(list[select_by_ticket(&list, 900)].path, "/a");
    assert_eq!(list[select_by_ticket(&list, 901)].path, "/b");
    assert_eq!(list[select_by_ticket(&list, 1000)].path, "/b");
    assert_eq!(list[select_by_ticket(&list, 1)].path, "/a");
    let mut first = 0;
    for ticket in 1..=1000u128 {
        if select_by_ticket(&list, ticket) == 0 {
            first += 1;
        }
    }
    assert_eq!(first, 900);
}

#[test]
fn a_single_thousandth_of_weight_is_drawn() {
    // With one thousandth in all, the only draw is the first thousandth.
    let list = endpoints(&[0, 1, 0]);
    for _ in 0..200 {
        assert_eq!(select_weighted_index(&list), 1);
    }
    let list = endpoints(&[1, 0]);
    for _ in 0..200 {
        assert_eq!(select_weighted_index(&list), 0);
    }
}
