//! Filtering and paging requests for channel and payment listings.
//!
//! Instants in the filters are Unix seconds.

use vstd::prelude::*;
use crate::text::{as_signed, to_signed};

verus! {

/// Which page of a listing to return.
#[derive(Debug, Clone, Copy, PartialEq, Eq, Structural)]
pub struct PaginationFilter {
    /// Page number (1-indexed).
    pub page: Option<u32>,
    /// Number of items per page.
    pub per_page: Option<u32>,
}

/// Comparison used by an amount filter.
#[derive(Debug, Clone, Copy, PartialEq, Eq, Structural)]
pub enum NumericOperator {
    Gte,
    Lte,
    Eq,
    Gt,
    Lt,
}

/// `amount <op> bound`.
pub open spec fn compares(op: NumericOperator, amount: int, bound: int) -> bool {
    match op {
        NumericOperator::Gte => amount >= bound,
        NumericOperator::Lte => amount <= bound,
        NumericOperator::Eq => amount == bound,
        NumericOperator::Gt => amount > bound,
        NumericOperator::Lt => amount < bound,
    }
}

fn compare(op: NumericOperator, amount: u64, bound: u64) -> (r: bool)
    ensures
        r == compares(op, amount as int, bound as int),
{
    match op {
        NumericOperator::Gte => amount >= bound,
        NumericOperator::Lte => amount <= bound,
        NumericOperator::Eq => amount == bound,
        NumericOperator::Gt => amount > bound,
        NumericOperator::Lt => amount < bound,
    }
}

/// The amount filter: with both an operator and a value, a negative value
/// matches nothing and otherwise `amount <op> value` must hold.
pub open spec fn amount_passes(op: Option<NumericOperator>, value: Option<i64>, amount: u64) -> bool {
    match (op, value) {
        (Some(o), Some(v)) => v >= 0 && compares(o, amount as int, v as int),
        _ => true,
    }
}

fn amount_ok(op: Option<NumericOperator>, value: Option<i64>, amount: u64) -> (r: bool)
    ensures
        r == amount_passes(op, value, amount),
{
    match (op, value) {
        (Some(o), Some(v)) => {
            if v < 0 {
                false
            } else {
                compare(o, amount, v as u64)
            }
        },
        _ => true,
    }
}

/// State of a channel.
#[derive(Debug, Clone, Copy, PartialEq, Eq, Structural)]
pub enum ChannelState {
    Active,
    Inactive,
    Pending,
    Closed,
}

/// A channel as listed.
#[derive(Debug, Clone, PartialEq, Eq)]
pub struct ChannelSummary {
    pub channel_id: String,
    pub channel_state: ChannelState,
    /// Capacity in satoshis.
    pub capacity: u64,
    /// Unix seconds of the channel's last update, when known.
    pub last_update: Option<u64>,
}

/// Filters of a listing request: paging, an amount comparison, an inclusive
/// date range and the accepted states.
#[derive(Debug, Clone, PartialEq, Eq)]
pub struct FilterRequest<S> {
    pub page: Option<u32>,
    pub per_page: Option<u32>,
    pub operator: Option<NumericOperator>,
    pub value: Option<i64>,
    pub from: Option<i64>,
    pub to: Option<i64>,
    pub states: Option<Vec<S>>,
}

/// Filter request of a channel listing.
pub type ChannelFilter = FilterRequest<ChannelState>;

impl FilterRequest<ChannelState> {
    /// The paging part of the request.
    pub fn to_pagination_filter(&self) -> (r: PaginationFilter)
        ensures
            r.page == self.page,
            r.per_page == self.per_page,
    {
        PaginationFilter { page: self.page, per_page: self.per_page }
    }
}

/// `max(t, 0)`: negative instants count as the epoch.
pub open spec fn clamp_to_epoch(t: i64) -> int {
    if t < 0 {
        0
    } else {
        t as int
    }
}

/// A channel passes a filter: its state is among the accepted ones, its
/// capacity passes the amount filter, and its last update is known and
/// within the date range (bounds clamped at the epoch).
pub open spec fn channel_passes(f: ChannelFilter, c: ChannelSummary) -> bool {
    &&& match f.states {
        Some(ss) => ss@.contains(c.channel_state),
        None => true,
    }
    &&& amount_passes(f.operator, f.value, c.capacity)
    &&& match f.from {
        Some(d) => c.last_update matches Some(t) && t as int >= clamp_to_epoch(d),
        None => true,
    }
    &&& match f.to {
        Some(d) => c.last_update matches Some(t) && t as int <= clamp_to_epoch(d),
        None => true,
    }
}

fn state_accepted(states: &Option<Vec<ChannelState>>, s: ChannelState) -> (r: bool)
    ensures
        r == match *states {
            Some(ss) => ss@.contains(s),
            None => true,
        },
{
    match states {
        None => true,
        Some(ss) => contains_channel_state(ss, s),
    }
}

fn contains_channel_state(ss: &Vec<ChannelState>, s: ChannelState) -> (r: bool)
    ensures
        r == ss@.contains(s),
{
    let mut i: usize = 0;
    while i < ss.len()
        invariant
            i <= ss@.len(),
            forall|k: int| 0 <= k < i ==> ss@[k] != s,
        decreases ss@.len() - i,
    {
        if ss[i] == s {
            assert(ss@[i as int] == s);
            return true;
        }
        i += 1;
    }
    false
}

fn channel_ok(f: &ChannelFilter, c: &ChannelSummary) -> (r: bool)
    ensures
        r == channel_passes(*f, *c),
{
    if !state_accepted(&f.states, c.channel_state) {
        return false;
    }
    if !amount_ok(f.operator, f.value, c.capacity) {
        return false;
    }
    if let Some(d) = f.from {
        let from_ts: u64 = if d < 0 {
            0
        } else {
            d as u64
        };
        match c.last_update {
            Some(t) => {
                if t < from_ts {
                    return false;
                }
            },
            None => {
                return false;
            },
        }
    }
    if let Some(d) = f.to {
        let to_ts: u64 = if d < 0 {
            0
        } else {
            d as u64
        };
        match c.last_update {
            Some(t) => {
                if t > to_ts {
                    return false;
                }
            },
            None => {
                return false;
            },
        }
    }
    true
}

/// The channels that pass the filter, in their given order.
pub fn apply_channel_filters(channels: Vec<ChannelSummary>, filter: &ChannelFilter) -> (r: Vec<
    ChannelSummary,
>)
    ensures
        r@ == channels@.filter(|c: ChannelSummary| channel_passes(*filter, c)),
{
    let ghost all = channels@;
    let ghost p = |c: ChannelSummary| channel_passes(*filter, c);
    let mut rest = channels;
    let mut out: Vec<ChannelSummary> = Vec::new();
    let n = rest.len();
    let mut i: usize = 0;
    while i < n
        invariant
            n == all.len(),
            i <= n,
            rest@ == all.skip(i as int),
            p == (|c: ChannelSummary| channel_passes(*filter, c)),
            out@ == all.take(i as int).filter(p),
        decreases n - i,
    {
        let c = rest.remove(0);
        assert(c == all[i as int]);
        assert(rest@ =~= all.skip(i + 1));
        proof {
            assert(all.take(i + 1).drop_last() =~= all.take(i as int));
            reveal(Seq::filter);
        }
        if channel_ok(filter, &c) {
            out.push(c);
        }
        assert(out@ =~= all.take(i + 1).filter(p));
        i += 1;
    }
    assert(all.take(n as int) =~= all);
    out
}

/// State of a payment.
#[derive(Debug, Clone, Copy, PartialEq, Eq, Structural)]
pub enum PaymentState {
    Succeeded,
    Failed,
    Pending,
    InFlight,
}

/// Direction of a payment.
#[derive(Debug, Clone, Copy, PartialEq, Eq, Structural)]
pub enum PaymentType {
    Incoming,
    Outgoing,
}

/// A payment as listed.
#[derive(Debug, Clone, PartialEq, Eq)]
pub struct PaymentSummary {
    pub payment_hash: String,
    pub state: PaymentState,
    pub payment_type: PaymentType,
    /// Amount in satoshis.
    pub amount_sat: u64,
    /// Unix seconds of completion, when completed.
    pub completed_at: Option<u64>,
}

/// Filters of a payment listing.
#[derive(Debug, Clone, PartialEq, Eq)]
pub struct PaymentFilterRequest {
    /// Page number (1-indexed).
    pub page: Option<u32>,
    /// Number of items per page.
    pub per_page: Option<u32>,
    pub operator: Option<NumericOperator>,
    pub value: Option<i64>,
    /// Start (inclusive), Unix seconds.
    pub from: Option<i64>,
    /// End (inclusive), Unix seconds.
    pub to: Option<i64>,
    pub states: Option<Vec<PaymentState>>,
    pub payment_types: Option<Vec<PaymentType>>,
}

impl PaymentFilterRequest {
    /// The paging part of the request.
    pub fn to_pagination_filter(&self) -> (r: PaginationFilter)
        ensures
            r.page == self.page,
            r.per_page == self.per_page,
    {
        PaginationFilter { page: self.page, per_page: self.per_page }
    }
}

/// A payment passes a filter: its state and type are among the accepted
/// ones, its amount passes the amount filter, and its completion instant is
/// known and within the date range (the instant read as a signed number).
pub open spec fn payment_passes(f: PaymentFilterRequest, p: PaymentSummary) -> bool {
    &&& match f.states {
        Some(ss) => ss@.contains(p.state),
        None => true,
    }
    &&& match f.payment_types {
        Some(ts) => ts@.contains(p.payment_type),
        None => true,
    }
    &&& amount_passes(f.operator, f.value, p.amount_sat)
    &&& match f.from {
        Some(d) => p.completed_at matches Some(t) && as_signed(t) >= d,
        None => true,
    }
    &&& match f.to {
        Some(d) => p.completed_at matches Some(t) && as_signed(t) <= d,
        None => true,
    }
}

fn contains_state(ss: &Vec<PaymentState>, s: PaymentState) -> (r: bool)
    ensures
        r == ss@.contains(s),
{
    let mut i: usize = 0;
    while i < ss.len()
        invariant
            i <= ss@.len(),
            forall|k: int| 0 <= k < i ==> ss@[k] != s,
        decreases ss@.len() - i,
    {
        if ss[i] == s {
            assert(ss@[i as int] == s);
            return true;
        }
        i += 1;
    }
    false
}

fn contains_type(ts: &Vec<PaymentType>, t: PaymentType) -> (r: bool)
    ensures
        r == ts@.contains(t),
{
    let mut i: usize = 0;
    while i < ts.len()
        invariant
            i <= ts@.len(),
            forall|k: int| 0 <= k < i ==> ts@[k] != t,
        decreases ts@.len() - i,
    {
        if ts[i] == t {
            assert(ts@[i as int] == t);
            return true;
        }
        i += 1;
    }
    false
}

fn payment_ok(f: &PaymentFilterRequest, p: &PaymentSummary) -> (r: bool)
    ensures
        r == payment_passes(*f, *p),
{
    if let Some(ss) = &f.states {
        if !contains_state(ss, p.state) {
            return false;
        }
    }
    if let Some(ts) = &f.payment_types {
        if !contains_type(ts, p.payment_type) {
            return false;
        }
    }
    if !amount_ok(f.operator, f.value, p.amount_sat) {
        return false;
    }
    if let Some(d) = f.from {
        match p.completed_at {
            Some(t) => {
                if to_signed(t) < d {
                    return false;
                }
            },
            None => {
                return false;
            },
        }
    }
    if let Some(d) = f.to {
        match p.completed_at {
            Some(t) => {
                if to_signed(t) > d {
                    return false;
                }
            },
            None => {
                return false;
            },
        }
    }
    true
}

/// The payments that pass the filter, in their given order.
pub fn apply_payment_filters(payments: Vec<PaymentSummary>, filter: &PaymentFilterRequest) -> (r: Vec<
    PaymentSummary,
>)
    ensures
        r@ == payments@.filter(|p: PaymentSummary| payment_passes(*filter, p)),
{
    let ghost all = payments@;
    let ghost pred = |p: PaymentSummary| payment_passes(*filter, p);
    let mut rest = payments;
    let mut out: Vec<PaymentSummary> = Vec::new();
    let n = rest.len();
    let mut i: usize = 0;
    while i < n
        invariant
            n == all.len(),
            i <= n,
            rest@ == all.skip(i as int),
            pred == (|p: PaymentSummary| payment_passes(*filter, p)),
            out@ == all.take(i as int).filter(pred),
        decreases n - i,
    {
        let p = rest.remove(0);
        assert(p == all[i as int]);
        assert(rest@ =~= all.skip(i + 1));
        proof {
            assert(all.take(i + 1).drop_last() =~= all.take(i as int));
            reveal(Seq::filter);
        }
        if payment_ok(filter, &p) {
            out.push(p);
        }
        assert(out@ =~= all.take(i + 1).filter(pred));
        i += 1;
    }
    assert(all.take(n as int) =~= all);
    out
}

proof fn lemma_filter_idempotent<A>(s: Seq<A>, p: spec_fn(A) -> bool)
    ensures
        s.filter(p).filter(p) == s.filter(p),
    decreases s.len(),
{
    reveal(Seq::filter);
    if s.len() > 0 {
        lemma_filter_idempotent(s.drop_last(), p);
        if p(s.last()) {
            assert(s.filter(p).drop_last() =~= s.drop_last().filter(p));
        }
    }
}

proof fn lemma_filter_all_pass<A>(s: Seq<A>, p: spec_fn(A) -> bool)
    requires
        forall|x: A| #[trigger] p(x),
    ensures
        s.filter(p) == s,
    decreases s.len(),
{
    reveal(Seq::filter);
    if s.len() > 0 {
        lemma_filter_all_pass(s.drop_last(), p);
        assert(s.drop_last().push(s.last()) =~= s);
    }
}

/// Filtering channels a second time with the same filter changes nothing.
pub proof fn law_channel_filter_idempotent(channels: Seq<ChannelSummary>, f: ChannelFilter)
    ensures
        channels.filter(|c: ChannelSummary| channel_passes(f, c)).filter(
            |c: ChannelSummary| channel_passes(f, c),
        ) == channels.filter(|c: ChannelSummary| channel_passes(f, c)),
{
    lemma_filter_idempotent(channels, |c: ChannelSummary| channel_passes(f, c));
}

/// A channel filter that sets no criterion keeps every channel.
pub proof fn law_empty_channel_filter_keeps_all(channels: Seq<ChannelSummary>, f: ChannelFilter)
    requires
        f.states is None,
        f.operator is None || f.value is None,
        f.from is None,
        f.to is None,
    ensures
        channels.filter(|c: ChannelSummary| channel_passes(f, c)) == channels,
{
    let p = |c: ChannelSummary| channel_passes(f, c);
    assert forall|c: ChannelSummary| #[trigger] p(c) by {}
    lemma_filter_all_pass(channels, p);
}

/// Filtering payments a second time with the same filter changes nothing.
pub proof fn law_payment_filter_idempotent(payments: Seq<PaymentSummary>, f: PaymentFilterRequest)
    ensures
        payments.filter(|p: PaymentSummary| payment_passes(f, p)).filter(
            |p: PaymentSummary| payment_passes(f, p),
        ) == payments.filter(|p: PaymentSummary| payment_passes(f, p)),
{
    lemma_filter_idempotent(payments, |p: PaymentSummary| payment_passes(f, p));
}

/// A payment filter that sets no criterion keeps every payment.
pub proof fn law_empty_payment_filter_keeps_all(payments: Seq<PaymentSummary>, f: PaymentFilterRequest)
    requires
        f.states is None,
        f.payment_types is None,
        f.operator is None || f.value is None,
        f.from is None,
        f.to is None,
    ensures
        payments.filter(|p: PaymentSummary| payment_passes(f, p)) == payments,
{
    let q = |p: PaymentSummary| payment_passes(f, p);
    assert forall|p: PaymentSummary| #[trigger] q(p) by {}
    lemma_filter_all_pass(payments, q);
}

/// A negative amount bound with an operator empties any listing.
pub proof fn law_negative_amount_matches_nothing(channels: Seq<ChannelSummary>, f: ChannelFilter)
    requires
        f.operator is Some,
        f.value matches Some(v) && v < 0,
    ensures
        channels.filter(|c: ChannelSummary| channel_passes(f, c)).len() == 0,
{
    let p = |c: ChannelSummary| channel_passes(f, c);
    channels.lemma_all_neg_filter_empty(p);
}

/// What an amount bound demands of an amount: with both an operator and a
/// value, the value is not negative and the amount compares to it as the
/// operator says; otherwise nothing.
pub open spec fn amount_within(op: Option<NumericOperator>, value: Option<i64>, amount: u64) -> bool {
    match (op, value) {
        (Some(o), Some(v)) => v >= 0 && match o {
            NumericOperator::Gte => amount >= v,
            NumericOperator::Lte => amount <= v,
            NumericOperator::Eq => amount == v,
            NumericOperator::Gt => amount > v,
            NumericOperator::Lt => amount < v,
        },
        _ => true,
    }
}

proof fn lemma_kept_passes<A>(s: Seq<A>, pred: spec_fn(A) -> bool, x: A)
    requires
        s.filter(pred).contains(x),
    ensures
        s.contains(x),
        pred(x),
{
    s.lemma_filter_contains_rev(pred, x);
    let i = choose|i: int| 0 <= i < s.filter(pred).len() && s.filter(pred)[i] == x;
    s.lemma_filter_pred(pred, i);
}

/// Every channel a filter keeps comes from the listing and meets each of the
/// filter's criteria: its state is an accepted one, its capacity meets the
/// amount bound, and when a date bound is given its last update is known and
/// within it (a bound before the epoch counts as the epoch). So a channel
/// last updated before the `from` bound, or after the `to` bound, is never
/// kept.
pub proof fn law_kept_channels_meet_every_criterion(channels: Seq<ChannelSummary>, f: ChannelFilter, c: ChannelSummary)
    requires
        channels.filter(|x: ChannelSummary| channel_passes(f, x)).contains(c),
    ensures
        channels.contains(c),
        f.states matches Some(ss) ==> ss@.contains(c.channel_state),
        amount_within(f.operator, f.value, c.capacity),
        f.from matches Some(d) ==> (c.last_update matches Some(t) && t >= d && t >= 0),
        f.to matches Some(d) ==> (c.last_update matches Some(t) && (t <= d || (d < 0 && t == 0))),
{
    lemma_kept_passes(channels, |x: ChannelSummary| channel_passes(f, x), c);
}

/// A channel of the listing that meets each of the filter's criteria is kept.
pub proof fn law_channel_meeting_every_criterion_is_kept(channels: Seq<ChannelSummary>, f: ChannelFilter, c: ChannelSummary)
    requires
        channels.contains(c),
        f.states matches Some(ss) ==> ss@.contains(c.channel_state),
        amount_within(f.operator, f.value, c.capacity),
        f.from matches Some(d) ==> (c.last_update matches Some(t) && t >= d),
        f.to matches Some(d) ==> (c.last_update matches Some(t) && (t <= d || (d < 0 && t == 0))),
    ensures
        channels.filter(|x: ChannelSummary| channel_passes(f, x)).contains(c),
{
    let i = choose|i: int| 0 <= i < channels.len() && channels[i] == c;
    channels.lemma_filter_contains(|x: ChannelSummary| channel_passes(f, x), i);
}

/// Every payment a filter keeps comes from the listing and meets each of the
/// filter's criteria: its state and direction are accepted ones, its amount
/// meets the amount bound, and when a date bound is given its completion
/// instant is known and, read as a signed number, within it. So a payment
/// completed before the `from` bound, or after the `to` bound, is never
/// kept.
pub proof fn law_kept_payments_meet_every_criterion(payments: Seq<PaymentSummary>, f: PaymentFilterRequest, p: PaymentSummary)
    requires
        payments.filter(|x: PaymentSummary| payment_passes(f, x)).contains(p),
    ensures
        payments.contains(p),
        f.states matches Some(ss) ==> ss@.contains(p.state),
        f.payment_types matches Some(ts) ==> ts@.contains(p.payment_type),
        amount_within(f.operator, f.value, p.amount_sat),
        f.from matches Some(d) ==> (p.completed_at matches Some(t) && as_signed(t) >= d),
        f.to matches Some(d) ==> (p.completed_at matches Some(t) && as_signed(t) <= d),
{
    lemma_kept_passes(payments, |x: PaymentSummary| payment_passes(f, x), p);
}

/// A payment of the listing that meets each of the filter's criteria is kept.
pub proof fn law_payment_meeting_every_criterion_is_kept(payments: Seq<PaymentSummary>, f: PaymentFilterRequest, p: PaymentSummary)
    requires
        payments.contains(p),
        f.states matches Some(ss) ==> ss@.contains(p.state),
        f.payment_types matches Some(ts) ==> ts@.contains(p.payment_type),
        amount_within(f.operator, f.value, p.amount_sat),
        f.from matches Some(d) ==> (p.completed_at matches Some(t) && as_signed(t) >= d),
        f.to matches Some(d) ==> (p.completed_at matches Some(t) && as_signed(t) <= d),
    ensures
        payments.filter(|x: PaymentSummary| payment_passes(f, x)).contains(p),
{
    let i = choose|i: int| 0 <= i < payments.len() && payments[i] == p;
    payments.lemma_filter_contains(|x: PaymentSummary| payment_passes(f, x), i);
}

} // verus!
