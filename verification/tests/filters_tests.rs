use nodegaze::filters::{
    apply_channel_filters, apply_payment_filters, ChannelFilter, ChannelState, ChannelSummary,
    FilterRequest, NumericOperator, PaginationFilter, PaymentFilterRequest, PaymentState,
    PaymentSummary, PaymentType,
};

fn channel(id: &str, state: ChannelState, capacity: u64, last_update: Option<u64>) -> ChannelSummary {
    ChannelSummary { channel_id: id.to_string(), channel_state: state, capacity, last_update }
}

fn empty_channel_filter() -> ChannelFilter {
    FilterRequest { page: None, per_page: None, operator: None, value: None, from: None, to: None, states: None }
}

fn channels() -> Vec<ChannelSummary> {
    vec![
        channel("a", ChannelState::Active, 100_000, Some(1_000)),
        channel("b", ChannelState::Inactive, 50_000, Some(2_000)),
        channel("c", ChannelState::Active, 500_000, None),
        channel("d", ChannelState::Closed, 100_000, Some(3_000)),
    ]
}

fn ids(cs: &[ChannelSummary]) -> Vec<&str> {
    cs.iter().map(|c| c.channel_id.as_str()).collect()
}

#[test]
fn empty_channel_filter_keeps_every_channel() {
    let all = channels();
    assert_eq!(apply_channel_filters(all.clone(), &empty_channel_filter()), all);
    assert_eq!(apply_channel_filters(Vec::new(), &empty_channel_filter()), Vec::new());
}

#[test]
fn channel_filter_by_state_keeps_order() {
    let f = FilterRequest { states: Some(vec![ChannelState::Active, ChannelState::Closed]), ..empty_channel_filter() };
    assert_eq!(ids(&apply_channel_filters(channels(), &f)), vec!["a", "c", "d"]);
}

#[test]
fn channel_amount_operators() {
    let cases = [
        (NumericOperator::Gte, 100_000, vec!["a", "c", "d"]),
        (NumericOperator::Lte, 100_000, vec!["a", "b", "d"]),
        (NumericOperator::Eq, 100_000, vec!["a", "d"]),
        (NumericOperator::Gt, 100_000, vec!["c"]),
        (NumericOperator::Lt, 100_000, vec!["b"]),
    ];
    for (op, v, expected) in cases {
        let f = FilterRequest { operator: Some(op), value: Some(v), ..empty_channel_filter() };
        assert_eq!(ids(&apply_channel_filters(channels(), &f)), expected);
    }
}

#[test]
fn operator_without_value_filters_nothing() {
    let f = FilterRequest { operator: Some(NumericOperator::Gt), ..empty_channel_filter() };
    assert_eq!(apply_channel_filters(channels(), &f).len(), 4);
}

#[test]
fn negative_amount_bound_matches_nothing() {
    for op in [NumericOperator::Gte, NumericOperator::Lte, NumericOperator::Eq, NumericOperator::Gt, NumericOperator::Lt] {
        let f = FilterRequest { operator: Some(op), value: Some(-1), ..empty_channel_filter() };
        assert!(apply_channel_filters(channels(), &f).is_empty());
    }
}

#[test]
fn channel_date_range_is_inclusive_and_needs_a_date() {
    let f = FilterRequest { from: Some(1_000), to: Some(2_000), ..empty_channel_filter() };
    assert_eq!(ids(&apply_channel_filters(channels(), &f)), vec!["a", "b"]);
    let before_epoch = FilterRequest { from: Some(-50), ..empty_channel_filter() };
    assert_eq!(ids(&apply_channel_filters(channels(), &before_epoch)), vec!["a", "b", "d"]);
    let negative_to = FilterRequest { to: Some(-5), ..empty_channel_filter() };
    assert!(apply_channel_filters(channels(), &negative_to).is_empty());
}

#[test]
fn channel_filter_is_idempotent() {
    let f = FilterRequest {
        operator: Some(NumericOperator::Gte),
        value: Some(60_000),
        states: Some(vec![ChannelState::Active]),
        ..empty_channel_filter()
    };
    let once = apply_channel_filters(channels(), &f);
    let twice = apply_channel_filters(once.clone(), &f);
    assert_eq!(once, twice);
    assert_eq!(ids(&once), vec!["a", "c"]);
}

#[test]
fn channel_pagination_part() {
    let f = FilterRequest { page: Some(3), per_page: Some(25), ..empty_channel_filter() };
    assert_eq!(f.to_pagination_filter(), PaginationFilter { page: Some(3), per_page: Some(25) });
}

fn payment(hash: &str, state: PaymentState, t: PaymentType, amount: u64, at: Option<u64>) -> PaymentSummary {
    PaymentSummary { payment_hash: hash.to_string(), state, payment_type: t, amount_sat: amount, completed_at: at }
}

fn payments() -> Vec<PaymentSummary> {
    vec![
        payment("p1", PaymentState::Succeeded, PaymentType::Outgoing, 1_000, Some(10)),
        payment("p2", PaymentState::Failed, PaymentType::Outgoing, 2_000, None),
        payment("p3", PaymentState::Succeeded, PaymentType::Incoming, 3_000, Some(30)),
        payment("p4", PaymentState::InFlight, PaymentType::Incoming, 4_000, None),
    ]
}

fn empty_payment_filter() -> PaymentFilterRequest {
    PaymentFilterRequest {
        page: None,
        per_page: None,
        operator: None,
        value: None,
        from: None,
        to: None,
        states: None,
        payment_types: None,
    }
}

fn hashes(ps: &[PaymentSummary]) -> Vec<&str> {
    ps.iter().map(|p| p.payment_hash.as_str()).collect()
}

#[test]
fn empty_payment_filter_keeps_every_payment() {
    assert_eq!(apply_payment_filters(payments(), &empty_payment_filter()), payments());
}

#[test]
fn payment_filters_combine() {
    let f = PaymentFilterRequest {
        states: Some(vec![PaymentState::Succeeded]),
        payment_types: Some(vec![PaymentType::Incoming]),
        ..empty_payment_filter()
    };
    assert_eq!(hashes(&apply_payment_filters(payments(), &f)), vec!["p3"]);
    let g = PaymentFilterRequest { operator: Some(NumericOperator::Gt), value: Some(1_500), ..empty_payment_filter() };
    assert_eq!(hashes(&apply_payment_filters(payments(), &g)), vec!["p2", "p3", "p4"]);
    let h = PaymentFilterRequest { from: Some(5), to: Some(20), ..empty_payment_filter() };
    assert_eq!(hashes(&apply_payment_filters(payments(), &h)), vec!["p1"]);
}

#[test]
fn payment_filter_is_idempotent() {
    let f = PaymentFilterRequest { payment_types: Some(vec![PaymentType::Outgoing]), ..empty_payment_filter() };
    let once = apply_payment_filters(payments(), &f);
    assert_eq!(apply_payment_filters(once.clone(), &f), once);
    assert_eq!(f.to_pagination_filter(), PaginationFilter { page: None, per_page: None });
}
