use vstd::prelude::*;
use crate::city::city_name;
use crate::index::{arrives_at, leaves_from, norm, IndexSet};
use crate::rail_network::{departs_after, opt_secs, opt_text, route_matches_day, route_matches_train, same_city};
use crate::itinerary::wait_minutes;
use crate::route::{route_duration, Route, RouteView};
use crate::seq_util::{
    all_indices, concat_map, index_range, is_stable_sort_of, lemma_all_indices_below, lemma_concat_map_all,
    lemma_concat_map_contains, lemma_filter_count, lemma_stable_sort_elements, lemma_stable_sort_permutes, lemma_stable_sort_unique,
    lemma_concat_map_filter_unused, lemma_concat_map_take, lemma_concat_map_take_all, lemma_filter_all,
    lemma_filter_keeps, stable_sort_by_key, views,
};
use crate::text::{eq_ignore_ascii_case, same_ignoring_ascii_case};
use vstd::seq_lib::lemma_multiset_commutative;
use crate::time::{div_toward_zero, reached, ClockTime, TimeOfDay, TimeSpan, SECONDS_PER_DAY, SPAN_LIMIT};

verus! {

broadcast use vstd::seq_lib::group_seq_properties;

/// The class of a ticket.
#[derive(Clone, Copy, Debug, PartialEq, Eq, Structural)]
pub enum TicketClass {
    FirstClass,
    SecondClass,
}

/// The order in which search results are listed.
#[derive(Clone, Copy, Debug, PartialEq, Eq, Structural)]
pub enum SortBy {
    Duration,
    PriceAscendant(TicketClass),
    PriceDescendant(TicketClass),
    DepartureTimeAscendant,
}

/// What a traveller asks for: every filter that is `None` lets everything pass.
#[derive(Debug)]
pub struct SearchFunctionality<'a> {
    pub departure_city: Option<&'a str>,
    pub arrival_city: Option<&'a str>,
    pub earliest_departure: Option<TimeOfDay>,
    pub train_type: Option<&'a str>,
    pub day_of_week: Option<&'a str>,
    pub price_range: Option<TicketClass>,
    pub max_price: Option<u32>,
    pub allowed_transfers: bool,
    pub min_transfer_minutes: i64,
    pub sort_by: Option<SortBy>,
}

/// The plain values of a search request.
pub ghost struct QueryView {
    pub departure_city: Option<Seq<char>>,
    pub arrival_city: Option<Seq<char>>,
    pub earliest_departure: Option<(u32, u32)>,
    pub train_type: Option<Seq<char>>,
    pub day_of_week: Option<Seq<char>>,
    pub price_range: Option<TicketClass>,
    pub max_price: Option<u32>,
    pub allowed_transfers: bool,
    pub min_transfer_minutes: i64,
    pub sort_by: Option<SortBy>,
}

impl<'a> View for SearchFunctionality<'a> {
    type V = QueryView;

    open spec fn view(&self) -> QueryView {
        QueryView {
            departure_city: opt_text(self.departure_city),
            arrival_city: opt_text(self.arrival_city),
            earliest_departure: opt_secs(self.earliest_departure),
            train_type: opt_text(self.train_type),
            day_of_week: opt_text(self.day_of_week),
            price_range: self.price_range,
            max_price: self.max_price,
            allowed_transfers: self.allowed_transfers,
            min_transfer_minutes: self.min_transfer_minutes,
            sort_by: self.sort_by,
        }
    }
}

impl<'a> SearchFunctionality<'a> {
    /// The request with no filter, no transfers, a minimum transfer of 0
    /// minutes and the default order.
    pub fn default() -> (r: SearchFunctionality<'a>)
        ensures
            r@ == (QueryView {
                departure_city: None,
                arrival_city: None,
                earliest_departure: None,
                train_type: None,
                day_of_week: None,
                price_range: None,
                max_price: None,
                allowed_transfers: false,
                min_transfer_minutes: 0,
                sort_by: None,
            }),
    {
        SearchFunctionality {
            departure_city: None,
            arrival_city: None,
            earliest_departure: None,
            train_type: None,
            day_of_week: None,
            price_range: None,
            max_price: None,
            allowed_transfers: false,
            min_transfer_minutes: 0,
            sort_by: None,
        }
    }
}

/// The plain values of an itinerary.
#[verifier::ext_equal]
pub ghost struct ItineraryView {
    pub connections: Seq<usize>,
    pub total_duration: int,
    pub total_first_price: u32,
    pub total_second_price: u32,
    pub transfer_duration: Seq<i64>,
}

/// A journey: the indices of the routes taken, in order, with its time, its
/// prices and the minutes of each transfer.
#[derive(Debug)]
pub struct Itinerary {
    pub connections: Vec<usize>,
    pub total_duration: TimeSpan,
    pub total_first_price: u32,
    pub total_second_price: u32,
    pub transfer_duration: Vec<i64>,
}

impl View for Itinerary {
    type V = ItineraryView;

    open spec fn view(&self) -> ItineraryView {
        ItineraryView {
            connections: self.connections@,
            total_duration: self.total_duration.seconds as int,
            total_first_price: self.total_first_price,
            total_second_price: self.total_second_price,
            transfer_duration: self.transfer_duration@,
        }
    }
}

/// The price of an itinerary in a class.
pub open spec fn price_in(it: ItineraryView, class: TicketClass) -> u32 {
    match class {
        TicketClass::FirstClass => it.total_first_price,
        TicketClass::SecondClass => it.total_second_price,
    }
}

impl Itinerary {
    /// The total price in the given class.
    pub fn price_for(&self, class: TicketClass) -> (r: u32)
        ensures
            r == price_in(self@, class),
            class == TicketClass::FirstClass ==> r == self@.total_first_price,
            class == TicketClass::SecondClass ==> r == self@.total_second_price,
    {
        match class {
            TicketClass::FirstClass => self.total_first_price,
            TicketClass::SecondClass => self.total_second_price,
        }
    }
}

/// The route passes the train-type and day filters of the request.
pub open spec fn matches_common_spec(r: RouteView, q: QueryView) -> bool {
    route_matches_train(r, q.train_type) && route_matches_day(r, q.day_of_week)
}

/// The wait from an arrival to the next departure, where it is at least `min` minutes.
pub open spec fn transfer_wait(prev_arrival: u32, next_departure: u32, min: int) -> Option<int> {
    let w = wait_minutes(prev_arrival, next_departure);
    if min <= w {
        Some(w)
    } else {
        None
    }
}

/// The route leaves from the requested departure city, if one is requested.
pub open spec fn from_requested(r: RouteView, q: QueryView) -> bool {
    match q.departure_city {
        Some(d) => same_ignoring_ascii_case(city_name(r.departure_city), d),
        None => true,
    }
}

/// The route arrives at the requested arrival city, if one is requested.
pub open spec fn to_requested(r: RouteView, q: QueryView) -> bool {
    match q.arrival_city {
        Some(a) => same_ignoring_ascii_case(city_name(r.arrival_city), a),
        None => true,
    }
}

/// `from_requested` for route `i`.
pub open spec fn from_requested_at(routes: Seq<Route>, q: QueryView) -> spec_fn(usize) -> bool {
    |i: usize| from_requested(routes[i as int]@, q)
}

/// `to_requested` for route `i`.
pub open spec fn to_requested_at(routes: Seq<Route>, q: QueryView) -> spec_fn(usize) -> bool {
    |i: usize| to_requested(routes[i as int]@, q)
}

/// The itinerary of route `i` alone.
pub open spec fn single_route(routes: Seq<Route>, i: usize) -> ItineraryView {
    let r = routes[i as int]@;
    ItineraryView {
        connections: seq![i],
        total_duration: route_duration(r),
        total_first_price: r.first_class_ticket_rate as u32,
        total_second_price: r.second_class_ticket_rate as u32,
        transfer_duration: Seq::empty(),
    }
}

/// Route `i` alone answers the request.
pub open spec fn direct_ok(routes: Seq<Route>, q: QueryView, i: usize) -> bool {
    let r = routes[i as int]@;
    from_requested(r, q) && to_requested(r, q) && matches_common_spec(r, q) && departs_after(r, q.earliest_departure)
}

/// The itinerary of route `i` alone, where it answers the request.
pub open spec fn direct_itinerary(routes: Seq<Route>, q: QueryView, i: usize) -> Seq<ItineraryView> {
    if direct_ok(routes, q, i) {
        seq![single_route(routes, i)]
    } else {
        Seq::empty()
    }
}

/// `direct_itinerary` as a function of the route.
pub open spec fn direct_itineraries_of(routes: Seq<Route>, q: QueryView) -> spec_fn(usize) -> Seq<ItineraryView> {
    |i: usize| direct_itinerary(routes, q, i)
}

/// The single-route itineraries that answer the request, in route order.
pub open spec fn direct_itineraries(routes: Seq<Route>, q: QueryView) -> Seq<ItineraryView> {
    concat_map(all_indices(routes.len()), direct_itineraries_of(routes, q))
}

/// Route `ia` may start an itinerary with transfers.
pub open spec fn first_leg_ok(routes: Seq<Route>, q: QueryView, ia: usize) -> bool {
    let a = routes[ia as int]@;
    from_requested(a, q) && matches_common_spec(a, q) && departs_after(a, q.earliest_departure)
}

/// The itinerary of routes `ia` then `ib` with a transfer of `w` minutes.
pub open spec fn two_routes(routes: Seq<Route>, ia: usize, ib: usize, w: int) -> ItineraryView {
    let a = routes[ia as int]@;
    let b = routes[ib as int]@;
    ItineraryView {
        connections: seq![ia, ib],
        total_duration: route_duration(a) + route_duration(b) + w * 60,
        total_first_price: (a.first_class_ticket_rate + b.first_class_ticket_rate) as u32,
        total_second_price: (a.second_class_ticket_rate + b.second_class_ticket_rate) as u32,
        transfer_duration: seq![w as i64],
    }
}

/// The itinerary of route `ia` then `ib`, where `ib` ends the journey as
/// requested and the transfer is long enough.
pub open spec fn one_stop_itinerary(routes: Seq<Route>, q: QueryView, ia: usize, ib: usize) -> Seq<ItineraryView> {
    let a = routes[ia as int]@;
    let b = routes[ib as int]@;
    if to_requested(b, q) && matches_common_spec(b, q) && same_city(a.arrival_city, b.departure_city) {
        match transfer_wait(a.arrival_time, b.departure_time, q.min_transfer_minutes as int) {
            Some(w) => seq![two_routes(routes, ia, ib, w)],
            None => Seq::empty(),
        }
    } else {
        Seq::empty()
    }
}

/// `one_stop_itinerary` as a function of the second route.
pub open spec fn one_stop_itineraries_after(routes: Seq<Route>, q: QueryView, ia: usize) -> spec_fn(usize) -> Seq<ItineraryView> {
    |ib: usize| one_stop_itinerary(routes, q, ia, ib)
}

/// The one-stop itineraries that start with route `ia`.
pub open spec fn one_stop_from(routes: Seq<Route>, q: QueryView, ia: usize) -> Seq<ItineraryView> {
    if first_leg_ok(routes, q, ia) {
        concat_map(all_indices(routes.len()), one_stop_itineraries_after(routes, q, ia))
    } else {
        Seq::empty()
    }
}

/// `one_stop_from` as a function of the first route.
pub open spec fn one_stop_froms(routes: Seq<Route>, q: QueryView) -> spec_fn(usize) -> Seq<ItineraryView> {
    |ia: usize| one_stop_from(routes, q, ia)
}

/// The two-route itineraries that answer the request, ordered by first, then second route.
pub open spec fn one_stop_results(routes: Seq<Route>, q: QueryView) -> Seq<ItineraryView> {
    concat_map(all_indices(routes.len()), one_stop_froms(routes, q))
}

/// The itinerary of routes `ia`, `ib`, `ic` with transfers of `w1` and `w2` minutes.
pub open spec fn three_routes(routes: Seq<Route>, ia: usize, ib: usize, ic: usize, w1: int, w2: int) -> ItineraryView {
    let a = routes[ia as int]@;
    let b = routes[ib as int]@;
    let c = routes[ic as int]@;
    ItineraryView {
        connections: seq![ia, ib, ic],
        total_duration: route_duration(a) + route_duration(b) + route_duration(c) + w1 * 60 + w2 * 60,
        total_first_price: (a.first_class_ticket_rate + b.first_class_ticket_rate + c.first_class_ticket_rate) as u32,
        total_second_price: (a.second_class_ticket_rate + b.second_class_ticket_rate + c.second_class_ticket_rate) as u32,
        transfer_duration: seq![w1 as i64, w2 as i64],
    }
}

/// The itinerary of routes `ia`, `ib`, `ic` after a first transfer of `w1`
/// minutes, where `ic` ends the journey as requested and continues from where
/// `ib` arrives after a long enough transfer.
pub open spec fn two_stop_itinerary(routes: Seq<Route>, q: QueryView, ia: usize, ib: usize, w1: int, ic: usize) -> Seq<ItineraryView> {
    let b = routes[ib as int]@;
    let c = routes[ic as int]@;
    if to_requested(c, q) && matches_common_spec(c, q) && same_city(b.arrival_city, c.departure_city) {
        match transfer_wait(b.arrival_time, c.departure_time, q.min_transfer_minutes as int) {
            Some(w2) => seq![three_routes(routes, ia, ib, ic, w1, w2)],
            None => Seq::empty(),
        }
    } else {
        Seq::empty()
    }
}

/// `two_stop_itinerary` as a function of the third route.
pub open spec fn two_stop_itineraries_after(routes: Seq<Route>, q: QueryView, ia: usize, ib: usize, w1: int) -> spec_fn(usize) -> Seq<ItineraryView> {
    |ic: usize| two_stop_itinerary(routes, q, ia, ib, w1, ic)
}

/// The two-stop itineraries through routes `ia` and `ib`: `ib` leaves from
/// where `ia` arrives, does not lead back to where `ia` left, and the transfer
/// is long enough.
pub open spec fn two_stop_via(routes: Seq<Route>, q: QueryView, ia: usize, ib: usize) -> Seq<ItineraryView> {
    let a = routes[ia as int]@;
    let b = routes[ib as int]@;
    if same_city(b.departure_city, a.arrival_city) && matches_common_spec(b, q) && !same_city(b.arrival_city, a.departure_city) {
        match transfer_wait(a.arrival_time, b.departure_time, q.min_transfer_minutes as int) {
            Some(w1) => concat_map(all_indices(routes.len()), two_stop_itineraries_after(routes, q, ia, ib, w1)),
            None => Seq::empty(),
        }
    } else {
        Seq::empty()
    }
}

/// `two_stop_via` as a function of the second route.
pub open spec fn two_stop_vias(routes: Seq<Route>, q: QueryView, ia: usize) -> spec_fn(usize) -> Seq<ItineraryView> {
    |ib: usize| two_stop_via(routes, q, ia, ib)
}

/// The two-stop itineraries that start with route `ia`.
pub open spec fn two_stop_from(routes: Seq<Route>, q: QueryView, ia: usize) -> Seq<ItineraryView> {
    if first_leg_ok(routes, q, ia) {
        concat_map(all_indices(routes.len()), two_stop_vias(routes, q, ia))
    } else {
        Seq::empty()
    }
}

/// `two_stop_from` as a function of the first route.
pub open spec fn two_stop_froms(routes: Seq<Route>, q: QueryView) -> spec_fn(usize) -> Seq<ItineraryView> {
    |ia: usize| two_stop_from(routes, q, ia)
}

/// The three-route itineraries that answer the request.
pub open spec fn two_stop_results(routes: Seq<Route>, q: QueryView) -> Seq<ItineraryView> {
    concat_map(all_indices(routes.len()), two_stop_froms(routes, q))
}

/// Every itinerary found: the direct ones, then, where transfers are allowed,
/// the one-stop and the two-stop ones.
pub open spec fn search_candidates(routes: Seq<Route>, q: QueryView) -> Seq<ItineraryView> {
    if q.allowed_transfers {
        direct_itineraries(routes, q) + one_stop_results(routes, q) + two_stop_results(routes, q)
    } else {
        direct_itineraries(routes, q)
    }
}

/// The requested order, departure time when none is requested.
pub open spec fn effective_sort(q: QueryView) -> SortBy {
    match q.sort_by {
        Some(s) => s,
        None => SortBy::DepartureTimeAscendant,
    }
}

/// The key by which an order lists itineraries, smallest first: the whole
/// minutes of travel, the price, the negated price, or the departure time of
/// the first route.
pub open spec fn sort_key(routes: Seq<Route>, sort_by: SortBy, it: ItineraryView) -> int {
    match sort_by {
        SortBy::Duration => div_toward_zero(it.total_duration, 60),
        SortBy::PriceAscendant(c) => price_in(it, c) as int,
        SortBy::PriceDescendant(c) => -(price_in(it, c) as int),
        SortBy::DepartureTimeAscendant => routes[it.connections[0] as int].departure_time@ as int,
    }
}

/// `sort_key` as a function of the itinerary.
pub open spec fn sort_keys(routes: Seq<Route>, sort_by: SortBy) -> spec_fn(ItineraryView) -> int {
    |it: ItineraryView| sort_key(routes, sort_by, it)
}

/// The itinerary starts with a route of the network.
pub open spec fn starts_in(n: nat) -> spec_fn(ItineraryView) -> bool {
    |it: ItineraryView| it.connections.len() > 0 && it.connections[0] < n
}

fn matches_train(r: &Route, t: Option<&str>) -> (b: bool)
    ensures
        b == route_matches_train(r@, opt_text(t)),
{
    match t {
        None => true,
        Some(tt) => eq_ignore_ascii_case(r.train_type.as_str(), tt),
    }
}

fn matches_day(r: &Route, d: Option<&str>) -> (b: bool)
    ensures
        b == route_matches_day(r@, opt_text(d)),
{
    match d {
        None => true,
        Some(label) => {
            let mut k: usize = 0;
            while k < r.days_of_operation.len()
                invariant
                    k <= r.days_of_operation@.len(),
                    d == Some(label),
                    forall|j: int| 0 <= j < k ==> !same_ignoring_ascii_case(crate::train_day::day_name(#[trigger] r.days_of_operation@[j]), label@),
                decreases r.days_of_operation@.len() - k,
            {
                if eq_ignore_ascii_case(r.days_of_operation[k].as_str(), label) {
                    assert(same_ignoring_ascii_case(crate::train_day::day_name(r@.days_of_operation[k as int]), label@));
                    return true;
                }
                k = k + 1;
            }
            false
        },
    }
}

fn matches_common(r: &Route, q: &SearchFunctionality) -> (b: bool)
    ensures
        b == matches_common_spec(r@, q@),
{
    matches_train(r, q.train_type) && matches_day(r, q.day_of_week)
}

fn depart_after_first_connection(r: &Route, earliest: Option<TimeOfDay>) -> (b: bool)
    ensures
        b == departs_after(r@, opt_secs(earliest)),
{
    match earliest {
        None => true,
        Some(t0) => reached(r.departure_time, t0),
    }
}

fn per_connection_duration(r: &Route) -> (d: TimeSpan)
    ensures
        d.seconds == route_duration(r@),
{
    r.duration()
}

fn wait_minutes_between(prev_arr: ClockTime, next_dep: ClockTime) -> (w: i64)
    ensures
        w == wait_minutes(prev_arr@, next_dep@),
        0 <= w < 1440,
{
    let mut secs = (next_dep.secs() as i64) - (prev_arr.secs() as i64);
    if secs < 0 {
        secs = secs + SECONDS_PER_DAY as i64;
    }
    secs / 60
}

fn possible_transfer(prev_arr: ClockTime, next_dep: ClockTime, min_transfer_min: i64) -> (r: Option<i64>)
    ensures
        r == (match transfer_wait(prev_arr@, next_dep@, min_transfer_min as int) {
            Some(w) => Some(w as i64),
            None => None,
        }),
        r matches Some(w) ==> 0 <= w < 1440,
{
    let w = wait_minutes_between(prev_arr, next_dep);
    if w >= min_transfer_min {
        Some(w)
    } else {
        None
    }
}

/// The total time of the routes `connections` taken in order with the given
/// transfer waits, in minutes: each route's travel time plus each wait.
pub(crate) fn sum_chain(routes: &[Route], connections: &[usize], waits: &[i64]) -> (d: TimeSpan)
    requires
        forall|j: int| 0 <= j < connections@.len() ==> (#[trigger] connections@[j]) < routes@.len(),
        chain_fits(routes@, connections@, waits@),
    ensures
        d.seconds == chain_seconds(routes@, connections@, waits@),
{
    let mut connections_total: i64 = 0;
    let mut i: usize = 0;
    assert(connections@.take(0) =~= Seq::<usize>::empty());
    while i < connections.len()
        invariant
            i <= connections@.len(),
            forall|j: int| 0 <= j < connections@.len() ==> (#[trigger] connections@[j]) < routes@.len(),
            chain_fits(routes@, connections@, waits@),
            connections_total == route_durations(routes@, connections@.take(i as int)),
        decreases connections@.len() - i,
    {
        assert(connections@.take(i + 1).drop_last() =~= connections@.take(i as int));
        assert(-SPAN_LIMIT <= route_durations(routes@, connections@.take(i + 1)) <= SPAN_LIMIT);
        connections_total = connections_total + per_connection_duration(&routes[connections[i]]).seconds;
        i = i + 1;
    }
    let mut wait_total: i64 = 0;
    let mut k: usize = 0;
    assert(waits@.take(0) =~= Seq::<i64>::empty());
    while k < waits.len()
        invariant
            k <= waits@.len(),
            chain_fits(routes@, connections@, waits@),
            wait_total == wait_seconds_total(waits@.take(k as int)),
        decreases waits@.len() - k,
    {
        assert(waits@.take(k + 1).drop_last() =~= waits@.take(k as int));
        assert(-SPAN_LIMIT <= waits@[k as int] * 60 <= SPAN_LIMIT);
        assert(-SPAN_LIMIT <= wait_seconds_total(waits@.take(k + 1)) <= SPAN_LIMIT);
        wait_total = wait_total + waits[k] * 60;
        k = k + 1;
    }
    assert(connections@.take(connections@.len() as int) =~= connections@);
    assert(waits@.take(waits@.len() as int) =~= waits@);
    TimeSpan { seconds: connections_total + wait_total }
}

/// Adding up the travel times and the waits of a chain never leaves the range
/// that a time span may hold: neither any running total, nor any single wait,
/// nor the sum of both totals.
pub open spec fn chain_fits(routes: Seq<Route>, connections: Seq<usize>, waits: Seq<i64>) -> bool {
    &&& forall|i: int| 0 <= i <= connections.len() ==> -SPAN_LIMIT <= #[trigger] route_durations(routes, connections.take(i)) <= SPAN_LIMIT
    &&& forall|k: int| 0 <= k < waits.len() ==> -SPAN_LIMIT <= #[trigger] waits[k] * 60 <= SPAN_LIMIT
    &&& forall|k: int| 0 <= k <= waits.len() ==> -SPAN_LIMIT <= #[trigger] wait_seconds_total(waits.take(k)) <= SPAN_LIMIT
    &&& -SPAN_LIMIT <= chain_seconds(routes, connections, waits) <= SPAN_LIMIT
}

proof fn lemma_route_durations_bound(routes: Seq<Route>, connections: Seq<usize>)
    ensures
        -4294967296 * connections.len() <= route_durations(routes, connections) <= 4295053696 * connections.len(),
    decreases connections.len(),
{
    if connections.len() > 0 {
        lemma_route_durations_bound(routes, connections.drop_last());
    }
}

proof fn lemma_wait_seconds_bound(waits: Seq<i64>)
    requires
        forall|j: int| 0 <= j < waits.len() ==> 0 <= #[trigger] waits[j] < 1440,
    ensures
        -4294967340 * waits.len() <= wait_seconds_total(waits) <= 4294993740 * waits.len(),
    decreases waits.len(),
{
    if waits.len() > 0 {
        lemma_wait_seconds_bound(waits.drop_last());
    }
}

/// A chain of at most three routes with at most two waits of at most a day
/// either way fits (see `chain_fits`).
proof fn lemma_short_chain_fits(routes: Seq<Route>, connections: Seq<usize>, waits: Seq<i64>)
    requires
        connections.len() <= 3,
        waits.len() <= 2,
        forall|j: int| 0 <= j < waits.len() ==> 0 <= #[trigger] waits[j] < 1440,
    ensures
        chain_fits(routes, connections, waits),
{
    assert forall|i: int| 0 <= i <= connections.len() implies -SPAN_LIMIT <= #[trigger] route_durations(routes, connections.take(i)) <= SPAN_LIMIT by {
        lemma_route_durations_bound(routes, connections.take(i));
    }
    assert forall|k: int| 0 <= k <= waits.len() implies -SPAN_LIMIT <= #[trigger] wait_seconds_total(waits.take(k)) <= SPAN_LIMIT by {
        lemma_wait_seconds_bound(waits.take(k));
    }
    lemma_route_durations_bound(routes, connections);
    lemma_wait_seconds_bound(waits);
}

/// The sum of the travel times of the given routes.
pub open spec fn route_durations(routes: Seq<Route>, connections: Seq<usize>) -> int
    decreases connections.len(),
{
    if connections.len() == 0 {
        0
    } else {
        route_durations(routes, connections.drop_last()) + route_duration(routes[connections.last() as int]@)
    }
}

/// The sum of the given waits in minutes, as seconds.
pub open spec fn wait_seconds_total(waits: Seq<i64>) -> int
    decreases waits.len(),
{
    if waits.len() == 0 {
        0
    } else {
        wait_seconds_total(waits.drop_last()) + waits.last() * 60
    }
}

/// The time of a chain of routes with transfer waits.
pub open spec fn chain_seconds(routes: Seq<Route>, connections: Seq<usize>, waits: Seq<i64>) -> int {
    route_durations(routes, connections) + wait_seconds_total(waits)
}

fn first_candidates(routes: &[Route], idx: &IndexSet, q: &SearchFunctionality) -> (r: Vec<usize>)
    requires
        idx.wf(routes@),
    ensures
        r@ == all_indices(routes@.len()).filter(from_requested_at(routes@, q@)),
        forall|j: int| 0 <= j < r@.len() ==> (#[trigger] r@[j]) < routes@.len(),
{
    let ghost rs = routes@;
    let n_routes = routes.len();
    let r = match q.departure_city {
        Some(dep) => idx.get_departures(dep, Ghost(rs)),
        None => index_range(routes.len()),
    };
    proof {
        let n = rs.len();
        lemma_all_indices_below(n);
        match q.departure_city {
            Some(dep) => {
                assert(leaves_from(rs, dep@) =~= from_requested_at(rs, q@));
            },
            None => {
                lemma_filter_all(all_indices(n), from_requested_at(rs, q@));
            },
        }
        lemma_filter_keeps(all_indices(n), from_requested_at(rs, q@), |i: usize| i < n);
    }
    r
}

fn last_candidates(routes: &[Route], idx: &IndexSet, q: &SearchFunctionality) -> (r: Vec<usize>)
    requires
        idx.wf(routes@),
    ensures
        r@ == all_indices(routes@.len()).filter(to_requested_at(routes@, q@)),
        forall|j: int| 0 <= j < r@.len() ==> (#[trigger] r@[j]) < routes@.len(),
{
    let ghost rs = routes@;
    let n_routes = routes.len();
    let r = match q.arrival_city {
        Some(arr) => idx.get_arrivals(arr, Ghost(rs)),
        None => index_range(routes.len()),
    };
    proof {
        let n = rs.len();
        lemma_all_indices_below(n);
        match q.arrival_city {
            Some(arr) => {
                assert(arrives_at(rs, arr@) =~= to_requested_at(rs, q@));
            },
            None => {
                lemma_filter_all(all_indices(n), to_requested_at(rs, q@));
            },
        }
        lemma_filter_keeps(all_indices(n), to_requested_at(rs, q@), |i: usize| i < n);
    }
    r
}

fn route_ok_for_direct(r: &Route, q: &SearchFunctionality) -> (b: bool)
    ensures
        b == (from_requested(r@, q@) && to_requested(r@, q@) && matches_common_spec(r@, q@)
            && departs_after(r@, q@.earliest_departure)),
{
    let from_ok = match q.departure_city {
        Some(dep) => eq_ignore_ascii_case(r.departure_city.as_str(), dep),
        None => true,
    };
    let to_ok = match q.arrival_city {
        Some(arr) => eq_ignore_ascii_case(r.arrival_city.as_str(), arr),
        None => true,
    };
    from_ok && to_ok && matches_common(r, q) && depart_after_first_connection(r, q.earliest_departure)
}

/// The single-route itineraries that answer the request, in route order.
fn direct_routes(routes: &[Route], idx: &IndexSet, q: &SearchFunctionality) -> (out: Vec<Itinerary>)
    requires
        idx.wf(routes@),
    ensures
        views(out@) == direct_itineraries(routes@, q@),
{
    let ghost rs = routes@;
    let ghost f = direct_itineraries_of(rs, q@);
    let n_routes = routes.len();
    let cands: Vec<usize> = match (q.departure_city, q.arrival_city) {
        (Some(dep), _) => idx.get_departures(dep, Ghost(rs)),
        (None, Some(arr)) => idx.get_arrivals(arr, Ghost(rs)),
        (None, None) => index_range(routes.len()),
    };
    proof {
        let n = rs.len();
        lemma_all_indices_below(n);
        match (q.departure_city, q.arrival_city) {
            (Some(dep), _) => {
                lemma_filter_keeps(all_indices(n), leaves_from(rs, dep@), |i: usize| i < n);
                lemma_concat_map_filter_unused(all_indices(n), leaves_from(rs, dep@), f);
            },
            (None, Some(arr)) => {
                lemma_filter_keeps(all_indices(n), arrives_at(rs, arr@), |i: usize| i < n);
                lemma_concat_map_filter_unused(all_indices(n), arrives_at(rs, arr@), f);
            },
            (None, None) => {},
        }
    }
    let mut out: Vec<Itinerary> = Vec::new();
    let mut k: usize = 0;
    while k < cands.len()
        invariant
            k <= cands@.len(),
            rs == routes@,
            f == direct_itineraries_of(rs, q@),
            forall|j: int| 0 <= j < cands@.len() ==> (#[trigger] cands@[j]) < rs.len(),
            views(out@) == concat_map(cands@.take(k as int), f),
        decreases cands@.len() - k,
    {
        let i = cands[k];
        let r = &routes[i];
        proof {
            lemma_concat_map_take(cands@, f, k as int);
        }
        if route_ok_for_direct(r, q) {
            let it = Itinerary {
                connections: vec![i],
                total_duration: per_connection_duration(r),
                total_first_price: r.first_class_ticket_rate as u32,
                total_second_price: r.second_class_ticket_rate as u32,
                transfer_duration: Vec::new(),
            };
            assert(it@ =~= single_route(rs, i));
            out.push(it);
            assert(views(out@) =~= concat_map(cands@.take(k + 1), f));
        } else {
            assert(views(out@) =~= concat_map(cands@.take(k + 1), f));
        }
        k = k + 1;
    }
    proof {
        lemma_concat_map_take_all(cands@, f);
    }
    out
}

/// The two-route itineraries that answer the request, ordered by first, then second route.
fn one_stop_itineraries(routes: &[Route], idx: &IndexSet, q: &SearchFunctionality) -> (out: Vec<Itinerary>)
    requires
        idx.wf(routes@),
    ensures
        views(out@) == one_stop_results(routes@, q@),
{
    let ghost rs = routes@;
    let ghost qv = q@;
    let ghost f = one_stop_froms(rs, qv);
    let a_indices = first_candidates(routes, idx, q);
    let mut out: Vec<Itinerary> = Vec::new();
    let mut k: usize = 0;
    while k < a_indices.len()
        invariant
            k <= a_indices@.len(),
            rs == routes@,
            qv == q@,
            idx.wf(rs),
            f == one_stop_froms(rs, qv),
            a_indices@ == all_indices(rs.len()).filter(from_requested_at(rs, qv)),
            forall|j: int| 0 <= j < a_indices@.len() ==> (#[trigger] a_indices@[j]) < rs.len(),
            views(out@) == concat_map(a_indices@.take(k as int), f),
        decreases a_indices@.len() - k,
    {
        let ia = a_indices[k];
        let a = &routes[ia];
        proof {
            lemma_concat_map_take(a_indices@, f, k as int);
            all_indices(rs.len()).lemma_filter_pred(from_requested_at(rs, qv), k as int);
        }
        if matches_common(a, q) && depart_after_first_connection(a, q.earliest_departure) {
            let ghost g = one_stop_itineraries_after(rs, qv, ia);
            let ghost before = views(out@);
            let b_indices = last_candidates(routes, idx, q);
            let mut j: usize = 0;
            while j < b_indices.len()
                invariant
                    j <= b_indices@.len(),
                    rs == routes@,
                    qv == q@,
                    ia < rs.len(),
                    a == &routes@[ia as int],
                    g == one_stop_itineraries_after(rs, qv, ia),
                    b_indices@ == all_indices(rs.len()).filter(to_requested_at(rs, qv)),
                    forall|t: int| 0 <= t < b_indices@.len() ==> (#[trigger] b_indices@[t]) < rs.len(),
                    views(out@) == before + concat_map(b_indices@.take(j as int), g),
                decreases b_indices@.len() - j,
            {
                let ib = b_indices[j];
                let b = &routes[ib];
                proof {
                    lemma_concat_map_take(b_indices@, g, j as int);
                    all_indices(rs.len()).lemma_filter_pred(to_requested_at(rs, qv), j as int);
                }
                let ghost old_out = views(out@);
                let mut added = false;
                if matches_common(b, q) && eq_ignore_ascii_case(a.arrival_city.as_str(), b.departure_city.as_str()) {
                    if let Some(wait) = possible_transfer(a.arrival_time, b.departure_time, q.min_transfer_minutes) {
                        let legs = vec![ia, ib];
                        let waits = vec![wait];
                        proof {
                            lemma_short_chain_fits(routes@, legs@, waits@);
                        }
                        let total = sum_chain(routes, legs.as_slice(), waits.as_slice());
                        proof {
                            reveal_with_fuel(route_durations, 3);
                            reveal_with_fuel(wait_seconds_total, 2);
                        }
                        let it = Itinerary {
                            connections: legs,
                            total_duration: total,
                            total_first_price: (a.first_class_ticket_rate as u32) + (b.first_class_ticket_rate as u32),
                            total_second_price: (a.second_class_ticket_rate as u32) + (b.second_class_ticket_rate as u32),
                            transfer_duration: waits,
                        };
                        assert(it@ =~= two_routes(rs, ia, ib, wait as int));
                        assert(g(ib) == seq![it@]);
                        out.push(it);
                        assert(views(out@) =~= old_out + g(ib));
                        added = true;
                    }
                }
                proof {
                    if !added {
                        assert(g(ib) =~= Seq::<ItineraryView>::empty());
                        assert(views(out@) =~= old_out + g(ib));
                    }
                    assert(views(out@) =~= before + concat_map(b_indices@.take(j + 1), g));
                }
                j = j + 1;
            }
            proof {
                lemma_concat_map_take_all(b_indices@, g);
                lemma_concat_map_filter_unused(all_indices(rs.len()), to_requested_at(rs, qv), g);
            }
        }
        assert(views(out@) =~= concat_map(a_indices@.take(k + 1), f));
        k = k + 1;
    }
    proof {
        lemma_concat_map_take_all(a_indices@, f);
        lemma_concat_map_filter_unused(all_indices(rs.len()), from_requested_at(rs, qv), f);
    }
    out
}

/// The three-route itineraries that answer the request.
#[verifier::rlimit(40)]
fn two_stop_itineraries(routes: &[Route], idx: &IndexSet, q: &SearchFunctionality) -> (out: Vec<Itinerary>)
    requires
        idx.wf(routes@),
    ensures
        views(out@) == two_stop_results(routes@, q@),
{
    let ghost rs = routes@;
    let ghost qv = q@;
    let ghost f = two_stop_froms(rs, qv);
    let a_indices = first_candidates(routes, idx, q);
    let mut out: Vec<Itinerary> = Vec::new();
    let mut k: usize = 0;
    while k < a_indices.len()
        invariant
            k <= a_indices@.len(),
            rs == routes@,
            qv == q@,
            idx.wf(rs),
            f == two_stop_froms(rs, qv),
            a_indices@ == all_indices(rs.len()).filter(from_requested_at(rs, qv)),
            forall|j: int| 0 <= j < a_indices@.len() ==> (#[trigger] a_indices@[j]) < rs.len(),
            views(out@) == concat_map(a_indices@.take(k as int), f),
        decreases a_indices@.len() - k,
    {
        let ia = a_indices[k];
        let a = &routes[ia];
        proof {
            lemma_concat_map_take(a_indices@, f, k as int);
            all_indices(rs.len()).lemma_filter_pred(from_requested_at(rs, qv), k as int);
        }
        if matches_common(a, q) && depart_after_first_connection(a, q.earliest_departure) {
            let ghost g = two_stop_vias(rs, qv, ia);
            let ghost before = views(out@);
            let b_indices = idx.get_departures(a.arrival_city.as_str(), Ghost(rs));
            let ghost pb = leaves_from(rs, city_name(a.arrival_city));
            proof {
                lemma_all_indices_below(rs.len());
                lemma_filter_keeps(all_indices(rs.len()), pb, |i: usize| i < rs.len());
            }
            let mut j: usize = 0;
            while j < b_indices.len()
                invariant
                    j <= b_indices@.len(),
                    rs == routes@,
                    qv == q@,
                    idx.wf(rs),
                    ia < rs.len(),
                    a == &routes@[ia as int],
                    g == two_stop_vias(rs, qv, ia),
                    pb == leaves_from(rs, city_name(a.arrival_city)),
                    b_indices@ == all_indices(rs.len()).filter(pb),
                    forall|t: int| 0 <= t < b_indices@.len() ==> (#[trigger] b_indices@[t]) < rs.len(),
                    views(out@) == before + concat_map(b_indices@.take(j as int), g),
                decreases b_indices@.len() - j,
            {
                let ib = b_indices[j];
                let b = &routes[ib];
                proof {
                    lemma_concat_map_take(b_indices@, g, j as int);
                    all_indices(rs.len()).lemma_filter_pred(pb, j as int);
                }
                let ghost old_out = views(out@);
                let mut went_on = false;
                if matches_common(b, q) && !(norm(b.arrival_city.as_str()) == norm(a.departure_city.as_str())) {
                    if let Some(w1) = possible_transfer(a.arrival_time, b.departure_time, q.min_transfer_minutes) {
                        went_on = true;
                        let ghost h = two_stop_itineraries_after(rs, qv, ia, ib, w1 as int);
                        let c_indices = last_candidates(routes, idx, q);
                        let mut m: usize = 0;
                        while m < c_indices.len()
                            invariant
                                m <= c_indices@.len(),
                                rs == routes@,
                                qv == q@,
                                ia < rs.len(),
                                ib < rs.len(),
                                a == &routes@[ia as int],
                                b == &routes@[ib as int],
                                0 <= w1 < 1440,
                                h == two_stop_itineraries_after(rs, qv, ia, ib, w1 as int),
                                c_indices@ == all_indices(rs.len()).filter(to_requested_at(rs, qv)),
                                forall|t: int| 0 <= t < c_indices@.len() ==> (#[trigger] c_indices@[t]) < rs.len(),
                                views(out@) == old_out + concat_map(c_indices@.take(m as int), h),
                            decreases c_indices@.len() - m,
                        {
                            let ic = c_indices[m];
                            let c = &routes[ic];
                            proof {
                                lemma_concat_map_take(c_indices@, h, m as int);
                                all_indices(rs.len()).lemma_filter_pred(to_requested_at(rs, qv), m as int);
                            }
                            let ghost old_out2 = views(out@);
                            let mut added = false;
                            if matches_common(c, q) && eq_ignore_ascii_case(b.arrival_city.as_str(), c.departure_city.as_str()) {
                                if let Some(w2) = possible_transfer(b.arrival_time, c.departure_time, q.min_transfer_minutes) {
                                    let legs = vec![ia, ib, ic];
                                    let waits = vec![w1, w2];
                                    proof {
                                        lemma_short_chain_fits(routes@, legs@, waits@);
                                    }
                                    let total = sum_chain(routes, legs.as_slice(), waits.as_slice());
                                    proof {
                                        reveal_with_fuel(route_durations, 4);
                                        reveal_with_fuel(wait_seconds_total, 3);
                                    }
                                    let it = Itinerary {
                                        connections: legs,
                                        total_duration: total,
                                        total_first_price: (a.first_class_ticket_rate as u32) + (b.first_class_ticket_rate as u32)
                                            + (c.first_class_ticket_rate as u32),
                                        total_second_price: (a.second_class_ticket_rate as u32) + (b.second_class_ticket_rate as u32)
                                            + (c.second_class_ticket_rate as u32),
                                        transfer_duration: waits,
                                    };
                                    assert(it@ =~= three_routes(rs, ia, ib, ic, w1 as int, w2 as int));
                                    assert(h(ic) == seq![it@]);
                                    out.push(it);
                                    assert(views(out@) =~= old_out2 + h(ic));
                                    added = true;
                                }
                            }
                            proof {
                                if !added {
                                    assert(h(ic) =~= Seq::<ItineraryView>::empty());
                                    assert(views(out@) =~= old_out2 + h(ic));
                                }
                                assert(views(out@) =~= old_out + concat_map(c_indices@.take(m + 1), h));
                            }
                            m = m + 1;
                        }
                        proof {
                            lemma_concat_map_take_all(c_indices@, h);
                            lemma_concat_map_filter_unused(all_indices(rs.len()), to_requested_at(rs, qv), h);
                            assert(views(out@) =~= old_out + g(ib));
                        }
                    }
                }
                proof {
                    if !went_on {
                        assert(g(ib) =~= Seq::<ItineraryView>::empty());
                        assert(views(out@) =~= old_out + g(ib));
                    }
                    assert(views(out@) =~= before + concat_map(b_indices@.take(j + 1), g));
                }
                j = j + 1;
            }
            proof {
                lemma_concat_map_take_all(b_indices@, g);
                lemma_concat_map_filter_unused(all_indices(rs.len()), pb, g);
            }
        }
        assert(views(out@) =~= concat_map(a_indices@.take(k + 1), f));
        k = k + 1;
    }
    proof {
        lemma_concat_map_take_all(a_indices@, f);
        lemma_concat_map_filter_unused(all_indices(rs.len()), from_requested_at(rs, qv), f);
    }
    out
}

/// Every itinerary that a search finds starts with a route of the network.
pub proof fn lemma_candidates_start_in_network(routes: Seq<Route>, q: QueryView)
    requires
        routes.len() <= usize::MAX,
    ensures
        forall|j: int| 0 <= j < search_candidates(routes, q).len() ==> #[trigger] starts_in(routes.len())(search_candidates(routes, q)[j]),
{
    let n = routes.len();
    let p = starts_in(n);
    let all = all_indices(n);
    lemma_all_indices_below(n);
    lemma_concat_map_all(all, direct_itineraries_of(routes, q), p);
    assert forall|i: int, j: int| 0 <= i < all.len() && 0 <= j < one_stop_froms(routes, q)(all[i]).len()
        implies p(#[trigger] one_stop_froms(routes, q)(#[trigger] all[i])[j]) by {
        let x = all[i];
        if first_leg_ok(routes, q, x) {
            lemma_concat_map_all(all, one_stop_itineraries_after(routes, q, x), p);
        }
    }
    lemma_concat_map_all(all, one_stop_froms(routes, q), p);
    assert forall|i: int, j: int| 0 <= i < all.len() && 0 <= j < two_stop_froms(routes, q)(all[i]).len()
        implies p(#[trigger] two_stop_froms(routes, q)(#[trigger] all[i])[j]) by {
        let x = all[i];
        if first_leg_ok(routes, q, x) {
            assert forall|i2: int, t: int| 0 <= i2 < all.len() && 0 <= t < two_stop_vias(routes, q, x)(all[i2]).len()
                implies p(#[trigger] two_stop_vias(routes, q, x)(#[trigger] all[i2])[t]) by {
                let y = all[i2];
                let a = routes[x as int]@;
                let b = routes[y as int]@;
                match transfer_wait(a.arrival_time, b.departure_time, q.min_transfer_minutes as int) {
                    Some(w1) => {
                        lemma_concat_map_all(all, two_stop_itineraries_after(routes, q, x, y, w1), p);
                    },
                    None => {},
                }
            }
            lemma_concat_map_all(all, two_stop_vias(routes, q, x), p);
        }
    }
    lemma_concat_map_all(all, two_stop_froms(routes, q), p);
    let d = direct_itineraries(routes, q);
    let o = one_stop_results(routes, q);
    let t = two_stop_results(routes, q);
    assert forall|j: int| 0 <= j < search_candidates(routes, q).len() implies #[trigger] p(search_candidates(routes, q)[j]) by {
        if q.allowed_transfers {
            if j < d.len() {
                assert(search_candidates(routes, q)[j] == d[j]);
            } else if j < d.len() + o.len() {
                assert(search_candidates(routes, q)[j] == o[j - d.len()]);
            } else {
                assert(search_candidates(routes, q)[j] == t[j - d.len() - o.len()]);
            }
        }
    }
}

// ---- what every search result is ----

/// `it` is a journey over `routes` that answers `q`: the indices of one, two
/// or three routes that pass the train-type and day filters, the first
/// leaving from the requested city no earlier than requested, the last
/// arriving at the requested city, each next route leaving from where the
/// previous one arrives after at least the requested minimum wait, a
/// three-route journey not passing back through its departure city, with a
/// single route where transfers are not allowed; and `it` holds exactly the
/// time, prices and waits of those routes.
pub open spec fn answers(routes: Seq<Route>, q: QueryView, it: ItineraryView) -> bool {
    let c = it.connections;
    &&& 1 <= c.len() <= 3
    &&& (!q.allowed_transfers ==> c.len() == 1)
    &&& forall|i: int| 0 <= i < c.len() ==> (#[trigger] c[i]) < routes.len() && matches_common_spec(routes[c[i] as int]@, q)
    &&& first_leg_ok(routes, q, c[0])
    &&& to_requested(routes[c.last() as int]@, q)
    &&& if c.len() == 1 {
        it == single_route(routes, c[0])
    } else {
        let a = routes[c[0] as int]@;
        let b = routes[c[1] as int]@;
        let w1 = wait_minutes(a.arrival_time, b.departure_time);
        &&& same_city(a.arrival_city, b.departure_city)
        &&& transfer_wait(a.arrival_time, b.departure_time, q.min_transfer_minutes as int) is Some
        &&& if c.len() == 2 {
            it == two_routes(routes, c[0], c[1], w1)
        } else {
            let r = routes[c[2] as int]@;
            let w2 = wait_minutes(b.arrival_time, r.departure_time);
            &&& same_city(b.arrival_city, r.departure_city)
            &&& transfer_wait(b.arrival_time, r.departure_time, q.min_transfer_minutes as int) is Some
            &&& !same_city(b.arrival_city, a.departure_city)
            &&& it == three_routes(routes, c[0], c[1], c[2], w1, w2)
        }
    }
}

/// `answers` as a predicate.
pub open spec fn answering(routes: Seq<Route>, q: QueryView) -> spec_fn(ItineraryView) -> bool {
    |it: ItineraryView| answers(routes, q, it)
}

/// `answers`, for a query that allows transfers.
pub open spec fn answering_with_transfers(routes: Seq<Route>, q: QueryView) -> spec_fn(ItineraryView) -> bool {
    |it: ItineraryView| answers(routes, QueryView { allowed_transfers: true, ..q }, it)
}

/// Every itinerary that a search finds answers the request.
proof fn lemma_candidates_answer(routes: Seq<Route>, q: QueryView)
    requires
        routes.len() <= usize::MAX,
    ensures
        forall|j: int| 0 <= j < search_candidates(routes, q).len() ==> answers(routes, q, #[trigger] search_candidates(routes, q)[j]),
{
    let all = all_indices(routes.len());
    lemma_all_indices_below(routes.len());
    let pd = answering(routes, q);
    lemma_concat_map_all(all, direct_itineraries_of(routes, q), pd);
    let qt = QueryView { allowed_transfers: true, ..q };
    let p = answering_with_transfers(routes, q);
    assert forall|i: int, j: int| 0 <= i < all.len() && 0 <= j < one_stop_froms(routes, q)(all[i]).len()
        implies p(#[trigger] one_stop_froms(routes, q)(#[trigger] all[i])[j]) by {
        let x = all[i];
        assert(first_leg_ok(routes, q, x));
        lemma_concat_map_all(all, one_stop_itineraries_after(routes, q, x), p);
    }
    lemma_concat_map_all(all, one_stop_froms(routes, q), p);
    assert forall|i: int, j: int| 0 <= i < all.len() && 0 <= j < two_stop_froms(routes, q)(all[i]).len()
        implies p(#[trigger] two_stop_froms(routes, q)(#[trigger] all[i])[j]) by {
        let x = all[i];
        assert(first_leg_ok(routes, q, x));
        assert forall|i2: int, t: int| 0 <= i2 < all.len() && 0 <= t < two_stop_vias(routes, q, x)(all[i2]).len()
            implies p(#[trigger] two_stop_vias(routes, q, x)(#[trigger] all[i2])[t]) by {
            let y = all[i2];
            let a = routes[x as int]@;
            let b = routes[y as int]@;
            assert(same_city(a.arrival_city, b.departure_city)) by {
                assert(same_city(b.departure_city, a.arrival_city));
            }
            let w1 = transfer_wait(a.arrival_time, b.departure_time, q.min_transfer_minutes as int).unwrap();
            lemma_concat_map_all(all, two_stop_itineraries_after(routes, q, x, y, w1), p);
        }
        lemma_concat_map_all(all, two_stop_vias(routes, q, x), p);
    }
    lemma_concat_map_all(all, two_stop_froms(routes, q), p);
    let d = direct_itineraries(routes, q);
    let o = one_stop_results(routes, q);
    let t = two_stop_results(routes, q);
    let cand = search_candidates(routes, q);
    assert forall|j: int| 0 <= j < cand.len() implies answers(routes, q, #[trigger] cand[j]) by {
        if q.allowed_transfers {
            assert(qt == q);
            if j < d.len() {
                assert(cand[j] == d[j]);
                assert(pd(d[j]));
            } else if j < d.len() + o.len() {
                assert(cand[j] == o[j - d.len()]);
                assert(p(o[j - d.len()]));
            } else {
                assert(cand[j] == t[j - d.len() - o.len()]);
                assert(p(t[j - d.len() - o.len()]));
            }
        } else {
            assert(pd(d[j]));
        }
    }
}

/// Every journey that answers the request is found.
proof fn lemma_answers_found(routes: Seq<Route>, q: QueryView, it: ItineraryView)
    requires
        routes.len() <= usize::MAX,
        answers(routes, q, it),
    ensures
        search_candidates(routes, q).contains(it),
{
    let all = all_indices(routes.len());
    let c = it.connections;
    let d = direct_itineraries(routes, q);
    let o = one_stop_results(routes, q);
    let t = two_stop_results(routes, q);
    let cand = search_candidates(routes, q);
    let ia = c[0] as int;
    assert(c[0] < routes.len());
    assert(all[ia] == c[0]);
    if c.len() == 1 {
        assert(direct_ok(routes, q, c[0]));
        assert(direct_itineraries_of(routes, q)(all[ia]) == seq![it]);
        assert(seq![it][0] == it);
        lemma_concat_map_contains(all, direct_itineraries_of(routes, q), ia, it);
        let k = choose|k: int| 0 <= k < d.len() && d[k] == it;
        if q.allowed_transfers {
            assert((d + o)[k] == it);
            assert(cand[k] == it);
        } else {
            assert(cand[k] == it);
        }
    } else {
        let ib = c[1] as int;
        assert(c[1] < routes.len());
        assert(all[ib] == c[1]);
        if c.len() == 2 {
            assert(c.last() == c[1]);
            assert(one_stop_itineraries_after(routes, q, c[0])(all[ib]) == seq![it]);
            assert(seq![it][0] == it);
            lemma_concat_map_contains(all, one_stop_itineraries_after(routes, q, c[0]), ib, it);
            assert(one_stop_froms(routes, q)(all[ia]) == one_stop_from(routes, q, c[0]));
            lemma_concat_map_contains(all, one_stop_froms(routes, q), ia, it);
            let k = choose|k: int| 0 <= k < o.len() && o[k] == it;
            assert((d + o)[d.len() + k] == it);
            assert(cand[d.len() + k] == it);
        } else {
            let ic = c[2] as int;
            assert(c[2] < routes.len());
            assert(all[ic] == c[2]);
            assert(c.last() == c[2]);
            let a = routes[ia]@;
            let b = routes[ib]@;
            let w1 = wait_minutes(a.arrival_time, b.departure_time);
            assert(same_city(b.departure_city, a.arrival_city));
            assert(two_stop_itineraries_after(routes, q, c[0], c[1], w1)(all[ic]) == seq![it]);
            assert(seq![it][0] == it);
            lemma_concat_map_contains(all, two_stop_itineraries_after(routes, q, c[0], c[1], w1), ic, it);
            assert(two_stop_vias(routes, q, c[0])(all[ib]) == two_stop_via(routes, q, c[0], c[1]));
            lemma_concat_map_contains(all, two_stop_vias(routes, q, c[0]), ib, it);
            assert(two_stop_froms(routes, q)(all[ia]) == two_stop_from(routes, q, c[0]));
            lemma_concat_map_contains(all, two_stop_froms(routes, q), ia, it);
            let k = choose|k: int| 0 <= k < t.len() && t[k] == it;
            assert((d + o + t)[d.len() + o.len() + k] == it);
            assert(cand[d.len() + o.len() + k] == it);
        }
    }
}

/// `search_itineraries` lists exactly the journeys that answer the request
/// (see `answers`): every listed itinerary is one, and none is missed.
pub proof fn lemma_search_itineraries_lists_answers(routes: Seq<Route>, q: QueryView, results: Seq<ItineraryView>, it: ItineraryView)
    requires
        routes.len() <= usize::MAX,
        is_stable_sort_of(results, search_candidates(routes, q), sort_keys(routes, effective_sort(q))),
    ensures
        results.contains(it) <==> answers(routes, q, it),
{
    lemma_stable_sort_elements(results, search_candidates(routes, q), sort_keys(routes, effective_sort(q)));
    lemma_candidates_answer(routes, q);
    if answers(routes, q, it) {
        lemma_answers_found(routes, q, it);
    }
    if results.contains(it) {
        let k = choose|k: int| 0 <= k < search_candidates(routes, q).len() && search_candidates(routes, q)[k] == it;
        assert(answers(routes, q, search_candidates(routes, q)[k]));
    }
}

/// The itineraries of `search_itineraries`, in order: the stable sort of the
/// journeys found by the requested key (there is exactly one).
pub open spec fn search_itineraries_result(routes: Seq<Route>, q: QueryView) -> Seq<ItineraryView> {
    choose|r: Seq<ItineraryView>| is_stable_sort_of(r, search_candidates(routes, q), sort_keys(routes, effective_sort(q)))
}

/// The itinerary takes exactly `n` routes.
pub open spec fn with_legs(n: nat) -> spec_fn(ItineraryView) -> bool {
    |it: ItineraryView| it.connections.len() == n
}

/// The journeys found directly, with one stop and with two stops take one, two
/// and three routes.
proof fn lemma_found_leg_counts(routes: Seq<Route>, q: QueryView)
    requires
        routes.len() <= usize::MAX,
    ensures
        forall|j: int| 0 <= j < direct_itineraries(routes, q).len() ==> with_legs(1)(#[trigger] direct_itineraries(routes, q)[j]),
        forall|j: int| 0 <= j < one_stop_results(routes, q).len() ==> with_legs(2)(#[trigger] one_stop_results(routes, q)[j]),
        forall|j: int| 0 <= j < two_stop_results(routes, q).len() ==> with_legs(3)(#[trigger] two_stop_results(routes, q)[j]),
{
    let all = all_indices(routes.len());
    lemma_concat_map_all(all, direct_itineraries_of(routes, q), with_legs(1));
    assert forall|i: int, j: int| 0 <= i < all.len() && 0 <= j < one_stop_froms(routes, q)(all[i]).len()
        implies with_legs(2)(#[trigger] one_stop_froms(routes, q)(#[trigger] all[i])[j]) by {
        lemma_concat_map_all(all, one_stop_itineraries_after(routes, q, all[i]), with_legs(2));
    }
    lemma_concat_map_all(all, one_stop_froms(routes, q), with_legs(2));
    assert forall|i: int, j: int| 0 <= i < all.len() && 0 <= j < two_stop_froms(routes, q)(all[i]).len()
        implies with_legs(3)(#[trigger] two_stop_froms(routes, q)(#[trigger] all[i])[j]) by {
        let x = all[i];
        assert forall|i2: int, t: int| 0 <= i2 < all.len() && 0 <= t < two_stop_vias(routes, q, x)(all[i2]).len()
            implies with_legs(3)(#[trigger] two_stop_vias(routes, q, x)(#[trigger] all[i2])[t]) by {
            let y = all[i2];
            let a = routes[x as int]@;
            let b = routes[y as int]@;
            match transfer_wait(a.arrival_time, b.departure_time, q.min_transfer_minutes as int) {
                Some(w1) => {
                    lemma_concat_map_all(all, two_stop_itineraries_after(routes, q, x, y, w1), with_legs(3));
                },
                None => {},
            }
        }
        lemma_concat_map_all(all, two_stop_vias(routes, q, x), with_legs(3));
    }
    lemma_concat_map_all(all, two_stop_froms(routes, q), with_legs(3));
}

/// Allowing transfers only adds itineraries: every itinerary that
/// `search_itineraries` lists without transfers it lists with them at least
/// as often, and the single-route itineraries it lists with transfers are,
/// counted with repetition, exactly those it lists without.
pub proof fn lemma_transfers_only_add(routes: Seq<Route>, q: QueryView, without: Seq<ItineraryView>, with: Seq<ItineraryView>)
    requires
        routes.len() <= usize::MAX,
        !q.allowed_transfers,
        is_stable_sort_of(without, search_candidates(routes, q), sort_keys(routes, effective_sort(q))),
        is_stable_sort_of(
            with,
            search_candidates(routes, QueryView { allowed_transfers: true, ..q }),
            sort_keys(routes, effective_sort(QueryView { allowed_transfers: true, ..q })),
        ),
    ensures
        forall|x: ItineraryView| without.to_multiset().count(x) <= #[trigger] with.to_multiset().count(x),
        with.filter(with_legs(1)).to_multiset() == without.to_multiset(),
{
    broadcast use vstd::seq_lib::group_to_multiset_ensures;

    let qt = QueryView { allowed_transfers: true, ..q };
    let keys = sort_keys(routes, effective_sort(q));
    assert(effective_sort(qt) == effective_sort(q));
    assert(direct_itineraries_of(routes, q) =~= direct_itineraries_of(routes, qt));
    let d = direct_itineraries(routes, q);
    let o = one_stop_results(routes, qt);
    let t = two_stop_results(routes, qt);
    assert(direct_itineraries(routes, qt) == d);
    assert(search_candidates(routes, q) == d);
    assert(search_candidates(routes, qt) == d + o + t);
    lemma_stable_sort_permutes(without, d, keys);
    lemma_stable_sort_permutes(with, d + o + t, keys);
    lemma_multiset_commutative(d + o, t);
    lemma_multiset_commutative(d, o);
    lemma_found_leg_counts(routes, q);
    lemma_found_leg_counts(routes, qt);
    assert forall|x: ItineraryView| without.to_multiset().count(x) <= #[trigger] with.to_multiset().count(x) by {}
    assert forall|x: ItineraryView| with.filter(with_legs(1)).to_multiset().count(x) == without.to_multiset().count(x) by {
        lemma_filter_count(with, with_legs(1), x);
        if with_legs(1)(x) {
            if o.contains(x) {
                let j = choose|j: int| 0 <= j < o.len() && o[j] == x;
                assert(with_legs(2)(o[j]));
            }
            if t.contains(x) {
                let j = choose|j: int| 0 <= j < t.len() && t[j] == x;
                assert(with_legs(3)(t[j]));
            }
            assert(o.to_multiset().count(x) == 0);
            assert(t.to_multiset().count(x) == 0);
        } else {
            if d.contains(x) {
                let j = choose|j: int| 0 <= j < d.len() && d[j] == x;
                assert(with_legs(1)(d[j]));
            }
            assert(d.to_multiset().count(x) == 0);
        }
    }
    assert(with.filter(with_legs(1)).to_multiset() =~= without.to_multiset());
}

/// `a` comes no later than `b` in the order that `q` asks for: fewer or as
/// many whole minutes of travel; a lower or equal price in the class (a
/// higher or equal one for a descending order); or, where no order is asked
/// for, a first route that departs no later in the day.
pub open spec fn listed_before(routes: Seq<Route>, a: ItineraryView, b: ItineraryView, q: QueryView) -> bool {
    match q.sort_by {
        Some(SortBy::Duration) => div_toward_zero(a.total_duration, 60) <= div_toward_zero(b.total_duration, 60),
        Some(SortBy::PriceAscendant(TicketClass::FirstClass)) => a.total_first_price <= b.total_first_price,
        Some(SortBy::PriceAscendant(TicketClass::SecondClass)) => a.total_second_price <= b.total_second_price,
        Some(SortBy::PriceDescendant(TicketClass::FirstClass)) => a.total_first_price >= b.total_first_price,
        Some(SortBy::PriceDescendant(TicketClass::SecondClass)) => a.total_second_price >= b.total_second_price,
        _ => routes[a.connections[0] as int].departure_time@ <= routes[b.connections[0] as int].departure_time@,
    }
}

/// The itineraries are listed in the order that `q` asks for.
pub open spec fn in_requested_order(routes: Seq<Route>, r: Seq<ItineraryView>, q: QueryView) -> bool {
    forall|i: int, j: int| 0 <= i < j < r.len() ==> listed_before(routes, #[trigger] r[i], #[trigger] r[j], q)
}

/// `search_itineraries` lists its itineraries in the order asked for: by whole
/// minutes of travel, shortest first; by the price in a class, cheapest first
/// or dearest first; or, by default, by the departure time of the first route,
/// earliest first.
pub proof fn lemma_search_itineraries_in_requested_order(routes: Seq<Route>, q: QueryView, results: Seq<ItineraryView>)
    requires
        is_stable_sort_of(results, search_candidates(routes, q), sort_keys(routes, effective_sort(q))),
    ensures
        in_requested_order(routes, results, q),
{
    assert forall|i: int, j: int| 0 <= i < j < results.len() implies listed_before(routes, #[trigger] results[i], #[trigger] results[j], q) by {
        assert(sort_keys(routes, effective_sort(q))(results[i]) <= sort_keys(routes, effective_sort(q))(results[j]));
    }
}

/// The key of an itinerary under an order.
fn sort_key_of(routes: &[Route], it: &Itinerary, sort_by: SortBy) -> (k: i64)
    requires
        starts_in(routes@.len())(it@),
    ensures
        k == sort_key(routes@, sort_by, it@),
{
    match sort_by {
        SortBy::Duration => it.total_duration.num_minutes(),
        SortBy::PriceAscendant(cls) => it.price_for(cls) as i64,
        SortBy::PriceDescendant(cls) => -(it.price_for(cls) as i64),
        SortBy::DepartureTimeAscendant => routes[it.connections[0]].departure_time.secs() as i64,
    }
}

/// The itineraries that answer the request: the direct ones, then, where
/// transfers are allowed, those with one and two stops; put in the requested
/// order, keeping itineraries with equal keys in the order in which they were found.
pub fn search_itineraries(routes: &[Route], q: &SearchFunctionality) -> (r: Vec<Itinerary>)
    ensures
        is_stable_sort_of(views(r@), search_candidates(routes@, q@), sort_keys(routes@, effective_sort(q@))),
        views(r@) == search_itineraries_result(routes@, q@),
        in_requested_order(routes@, views(r@), q@),
{
    let idx = IndexSet::build(routes);
    let mut results = direct_routes(routes, &idx, q);
    if q.allowed_transfers {
        let mut one = one_stop_itineraries(routes, &idx, q);
        results.append(&mut one);
        let mut two = two_stop_itineraries(routes, &idx, q);
        results.append(&mut two);
    }
    let ghost found = views(results@);
    assert(found =~= search_candidates(routes@, q@));
    let n_routes = routes.len();
    proof {
        lemma_candidates_start_in_network(routes@, q@);
    }
    let sort_by = match q.sort_by {
        Some(s) => s,
        None => SortBy::DepartureTimeAscendant,
    };
    let mut keys: Vec<i64> = Vec::new();
    let mut i: usize = 0;
    while i < results.len()
        invariant
            i <= results@.len(),
            keys@.len() == i,
            found == views(results@),
            found == search_candidates(routes@, q@),
            forall|j: int| 0 <= j < found.len() ==> #[trigger] starts_in(routes@.len())(found[j]),
            forall|j: int| 0 <= j < i ==> keys@[j] == sort_keys(routes@, sort_by)(#[trigger] results@[j]@),
        decreases results@.len() - i,
    {
        assert(starts_in(routes@.len())(found[i as int]));
        keys.push(sort_key_of(routes, &results[i], sort_by));
        i = i + 1;
    }
    let sorted = stable_sort_by_key(results, &keys, Ghost(sort_keys(routes@, sort_by)));
    proof {
        lemma_stable_sort_unique(
            views(sorted@),
            search_itineraries_result(routes@, q@),
            search_candidates(routes@, q@),
            sort_keys(routes@, effective_sort(q@)),
        );
        lemma_search_itineraries_in_requested_order(routes@, q@, views(sorted@));
    }
    sorted
}

} // verus!
