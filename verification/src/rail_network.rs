use vstd::prelude::*;
use crate::city::city_name;
use crate::index::{departures_from, arrivals_at, leaves_from, arrives_at, norm, IndexSet};
use crate::itinerary::{
    add_route, empty_itinerary, itinerary_consistent, lemma_add_route_consistent, lemma_empty_itinerary_consistent, price_in,
    times_in_day, wait_minutes, ItineraryView,
};
pub use crate::itinerary::{Itinerary, SortBy, TicketClass};
use crate::route::{route_duration, RouteView};
pub use crate::route::Route;
use crate::search_functionality::{chain_fits, chain_seconds};
use crate::seq_util::{
    is_stable_sort_of, lemma_concat_map_contains, lemma_stable_sort_elements, lemma_stable_sort_unique, retain_by, stable_sort_by_key,
    all_indices, concat_map, index_range, lemma_all_indices_below, lemma_concat_map_all, lemma_concat_map_congruent, lemma_concat_map_filter_unused,
    lemma_concat_map_take, lemma_concat_map_take_all, lemma_filter_all, lemma_filter_keeps, views,
};
use crate::text::{eq_ignore_ascii_case, same_ignoring_ascii_case};
use crate::time::{at_or_after, at_or_before, div_toward_zero, reached, ClockTime, TimeOfDay, TimeSpan, SECONDS_PER_DAY};
use crate::train_day::{day_name, train_name};
pub use crate::booking::{Person, Ticket, Trip};
pub use crate::city::City;
pub use crate::train_day::{Day, Train};


verus! {

broadcast use vstd::seq_lib::group_seq_properties;

/// What a traveller asks for: every filter that is `None` lets everything pass.
#[derive(Debug)]
pub struct SearchFunctionality<'a> {
    pub departure_city: Option<&'a str>,
    pub arrival_city: Option<&'a str>,
    pub earliest_departure: Option<TimeOfDay>,
    pub arrival_time_from: Option<TimeOfDay>,
    pub arrival_time_to: Option<TimeOfDay>,
    pub train_type: Option<&'a str>,
    pub day_of_week: Option<&'a str>,
    pub price_range: Option<TicketClass>,
    pub max_price: Option<u16>,
    pub allowed_transfers: bool,
    pub min_transfer_minutes: i64,
    pub sort_by: Option<SortBy>,
}

/// The plain values of a search request.
pub ghost struct SearchView {
    pub departure_city: Option<Seq<char>>,
    pub arrival_city: Option<Seq<char>>,
    pub earliest_departure: Option<(u32, u32)>,
    pub arrival_time_from: Option<(u32, u32)>,
    pub arrival_time_to: Option<(u32, u32)>,
    pub train_type: Option<Seq<char>>,
    pub day_of_week: Option<Seq<char>>,
    pub price_range: Option<TicketClass>,
    pub max_price: Option<u16>,
    pub allowed_transfers: bool,
    pub min_transfer_minutes: i64,
    pub sort_by: Option<SortBy>,
}

/// The characters of an optional text.
pub open spec fn opt_text(s: Option<&str>) -> Option<Seq<char>> {
    match s {
        Some(t) => Some(t@),
        None => None,
    }
}

/// The seconds since midnight of an optional time.
pub open spec fn opt_secs(t: Option<TimeOfDay>) -> Option<(u32, u32)> {
    match t {
        Some(c) => Some(c@),
        None => None,
    }
}

impl<'a> View for SearchFunctionality<'a> {
    type V = SearchView;

    open spec fn view(&self) -> SearchView {
        SearchView {
            departure_city: opt_text(self.departure_city),
            arrival_city: opt_text(self.arrival_city),
            earliest_departure: opt_secs(self.earliest_departure),
            arrival_time_from: opt_secs(self.arrival_time_from),
            arrival_time_to: opt_secs(self.arrival_time_to),
            train_type: opt_text(self.train_type),
            day_of_week: opt_text(self.day_of_week),
            price_range: self.price_range,
            max_price: self.max_price,
            allowed_transfers: self.allowed_transfers,
            min_transfer_minutes: self.min_transfer_minutes,
            sort_by: self.sort_by,
        }
    }
}

impl<'a> SearchFunctionality<'a> {
    /// The request with no filter, no transfers, a minimum transfer of 0
    /// minutes and the default order.
    pub fn default() -> (r: SearchFunctionality<'a>)
        ensures
            r@ == (SearchView {
                departure_city: None,
                arrival_city: None,
                earliest_departure: None,
                arrival_time_from: None,
                arrival_time_to: None,
                train_type: None,
                day_of_week: None,
                price_range: None,
                max_price: None,
                allowed_transfers: false,
                min_transfer_minutes: 0,
                sort_by: None,
            }),
    {
        SearchFunctionality {
            departure_city: None,
            arrival_city: None,
            earliest_departure: None,
            arrival_time_from: None,
            arrival_time_to: None,
            train_type: None,
            day_of_week: None,
            price_range: None,
            max_price: None,
            allowed_transfers: false,
            min_transfer_minutes: 0,
            sort_by: None,
        }
    }
}

/// The route's train is of the requested type, ignoring ASCII case.
pub open spec fn route_matches_train(r: RouteView, t: Option<Seq<char>>) -> bool {
    match t {
        None => true,
        Some(tt) => same_ignoring_ascii_case(train_name(r.train_type), tt),
    }
}

/// The route runs on the requested day, its name compared ignoring ASCII case.
pub open spec fn route_matches_day(r: RouteView, d: Option<Seq<char>>) -> bool {
    match d {
        None => true,
        Some(label) => exists|k: int|
            0 <= k < r.days_of_operation.len() && same_ignoring_ascii_case(
                day_name(#[trigger] r.days_of_operation[k]),
                label,
            ),
    }
}

/// The route passes the train-type and day filters of the request.
pub open spec fn route_matches_common(r: RouteView, q: SearchView) -> bool {
    route_matches_train(r, q.train_type) && route_matches_day(r, q.day_of_week)
}

/// The route leaves no earlier than the requested time.
pub open spec fn departs_after(r: RouteView, earliest: Option<(u32, u32)>) -> bool {
    match earliest {
        None => true,
        Some(t0) => at_or_after(r.departure_time, t0),
    }
}

/// The wait from an arrival to the next departure, where it lies in
/// `[min, max)` minutes.
pub open spec fn transfer_wait(prev_arrival: u32, next_departure: u32, min: int, max: int) -> Option<int> {
    let w = wait_minutes(prev_arrival, next_departure);
    if min <= w && w < max {
        Some(w)
    } else {
        None
    }
}

/// The longest transfer, in minutes, to a train that arrives at
/// `arrival` seconds: 240 minutes when it arrives between 08:00 and 20:00,
/// 60 minutes otherwise.
pub open spec fn transfer_limit(arrival: u32) -> int {
    if 28800 <= arrival && arrival <= 72000 {
        240
    } else {
        60
    }
}

/// The route leaves from the requested departure city, if one is requested.
pub open spec fn from_requested(r: RouteView, q: SearchView) -> bool {
    match q.departure_city {
        Some(d) => same_ignoring_ascii_case(city_name(r.departure_city), d),
        None => true,
    }
}

/// The route arrives at the requested arrival city, if one is requested.
pub open spec fn to_requested(r: RouteView, q: SearchView) -> bool {
    match q.arrival_city {
        Some(a) => same_ignoring_ascii_case(city_name(r.arrival_city), a),
        None => true,
    }
}

/// Two cities carry the same name, ignoring ASCII case.
pub open spec fn same_city(a: crate::city::City, b: crate::city::City) -> bool {
    same_ignoring_ascii_case(city_name(a), city_name(b))
}

// ---- direct itineraries ----

/// Route `i` alone answers the request.
pub open spec fn direct_ok(routes: Seq<Route>, q: SearchView, i: usize) -> bool {
    let r = routes[i as int]@;
    from_requested(r, q) && to_requested(r, q) && route_matches_common(r, q) && departs_after(r, q.earliest_departure)
}

/// The itinerary of route `i` alone, where it answers the request.
pub open spec fn direct_itinerary(routes: Seq<Route>, q: SearchView, i: usize) -> Seq<ItineraryView> {
    if direct_ok(routes, q, i) {
        seq![add_route(empty_itinerary(), routes[i as int]@)]
    } else {
        Seq::empty()
    }
}

/// `direct_itinerary` as a function of the route index.
pub open spec fn direct_itineraries_of(routes: Seq<Route>, q: SearchView) -> spec_fn(usize) -> Seq<ItineraryView> {
    |i: usize| direct_itinerary(routes, q, i)
}

/// The single-route itineraries that answer the request, in route order.
pub open spec fn direct_itineraries(routes: Seq<Route>, q: SearchView) -> Seq<ItineraryView> {
    concat_map(all_indices(routes.len()), direct_itineraries_of(routes, q))
}

// ---- one-stop itineraries ----

/// Route `a` may start an itinerary with transfers.
pub open spec fn first_leg_ok(routes: Seq<Route>, q: SearchView, ia: usize) -> bool {
    let a = routes[ia as int]@;
    from_requested(a, q) && route_matches_common(a, q) && departs_after(a, q.earliest_departure)
}

/// The itinerary of route `ia` then route `ib`, where `ib` ends the journey
/// as requested and the transfer between them is allowed.
pub open spec fn one_stop_itinerary(routes: Seq<Route>, q: SearchView, ia: usize, ib: usize) -> Seq<ItineraryView> {
    let a = routes[ia as int]@;
    let b = routes[ib as int]@;
    if to_requested(b, q) && route_matches_common(b, q) && same_city(a.arrival_city, b.departure_city)
        && transfer_wait(a.arrival_time, b.departure_time, q.min_transfer_minutes as int, transfer_limit(b.arrival_time)) is Some {
        seq![add_route(add_route(empty_itinerary(), a), b)]
    } else {
        Seq::empty()
    }
}

/// `one_stop_itinerary` as a function of the second route.
pub open spec fn one_stop_itineraries_after(routes: Seq<Route>, q: SearchView, ia: usize) -> spec_fn(usize) -> Seq<ItineraryView> {
    |ib: usize| one_stop_itinerary(routes, q, ia, ib)
}

/// The one-stop itineraries that start with route `ia`, in order of the second route.
pub open spec fn one_stop_from(routes: Seq<Route>, q: SearchView, ia: usize) -> Seq<ItineraryView> {
    if first_leg_ok(routes, q, ia) {
        concat_map(all_indices(routes.len()), one_stop_itineraries_after(routes, q, ia))
    } else {
        Seq::empty()
    }
}

/// `one_stop_from` as a function of the first route.
pub open spec fn one_stop_froms(routes: Seq<Route>, q: SearchView) -> spec_fn(usize) -> Seq<ItineraryView> {
    |ia: usize| one_stop_from(routes, q, ia)
}

/// The two-route itineraries that answer the request, ordered by first, then second route.
pub open spec fn one_stop_itineraries(routes: Seq<Route>, q: SearchView) -> Seq<ItineraryView> {
    concat_map(all_indices(routes.len()), one_stop_froms(routes, q))
}

// ---- two-stop itineraries ----

/// The itinerary of routes `ia`, `ib`, `ic`, where `ic` ends the journey as
/// requested and continues from where `ib` arrives after an allowed transfer.
/// Both transfers are bounded by the limit for the arrival time of `ib`.
pub open spec fn two_stop_itinerary(routes: Seq<Route>, q: SearchView, ia: usize, ib: usize, ic: usize) -> Seq<ItineraryView> {
    let a = routes[ia as int]@;
    let b = routes[ib as int]@;
    let c = routes[ic as int]@;
    if to_requested(c, q) && route_matches_common(c, q) && same_city(b.arrival_city, c.departure_city)
        && transfer_wait(b.arrival_time, c.departure_time, q.min_transfer_minutes as int, transfer_limit(b.arrival_time)) is Some {
        seq![add_route(add_route(add_route(empty_itinerary(), a), b), c)]
    } else {
        Seq::empty()
    }
}

/// `two_stop_itinerary` as a function of the third route.
pub open spec fn two_stop_itineraries_after(routes: Seq<Route>, q: SearchView, ia: usize, ib: usize) -> spec_fn(usize) -> Seq<ItineraryView> {
    |ic: usize| two_stop_itinerary(routes, q, ia, ib, ic)
}

/// The two-stop itineraries through routes `ia` and `ib`: `ib` leaves from
/// where `ia` arrives, does not lead back to where `ia` left, and the transfer
/// is allowed.
pub open spec fn two_stop_via(routes: Seq<Route>, q: SearchView, ia: usize, ib: usize) -> Seq<ItineraryView> {
    let a = routes[ia as int]@;
    let b = routes[ib as int]@;
    if same_city(b.departure_city, a.arrival_city) && route_matches_common(b, q) && !same_city(b.arrival_city, a.departure_city)
        && transfer_wait(a.arrival_time, b.departure_time, q.min_transfer_minutes as int, transfer_limit(b.arrival_time)) is Some {
        concat_map(all_indices(routes.len()), two_stop_itineraries_after(routes, q, ia, ib))
    } else {
        Seq::empty()
    }
}

/// `two_stop_via` as a function of the second route.
pub open spec fn two_stop_vias(routes: Seq<Route>, q: SearchView, ia: usize) -> spec_fn(usize) -> Seq<ItineraryView> {
    |ib: usize| two_stop_via(routes, q, ia, ib)
}

/// The two-stop itineraries that start with route `ia`.
pub open spec fn two_stop_from(routes: Seq<Route>, q: SearchView, ia: usize) -> Seq<ItineraryView> {
    if first_leg_ok(routes, q, ia) {
        concat_map(all_indices(routes.len()), two_stop_vias(routes, q, ia))
    } else {
        Seq::empty()
    }
}

/// `two_stop_from` as a function of the first route.
pub open spec fn two_stop_froms(routes: Seq<Route>, q: SearchView) -> spec_fn(usize) -> Seq<ItineraryView> {
    |ia: usize| two_stop_from(routes, q, ia)
}

/// The three-route itineraries that answer the request, ordered by first,
/// second, then third route.
pub open spec fn two_stop_itineraries(routes: Seq<Route>, q: SearchView) -> Seq<ItineraryView> {
    concat_map(all_indices(routes.len()), two_stop_froms(routes, q))
}

// ---- the whole search ----

/// Every itinerary found, before filtering: the direct ones, then, where
/// transfers are allowed, the one-stop and the two-stop ones.
pub open spec fn search_candidates(routes: Seq<Route>, q: SearchView) -> Seq<ItineraryView> {
    if q.allowed_transfers {
        direct_itineraries(routes, q) + one_stop_itineraries(routes, q) + two_stop_itineraries(routes, q)
    } else {
        direct_itineraries(routes, q)
    }
}

/// The last route arrives within the requested window; an itinerary without
/// routes passes only when no window is requested.
pub open spec fn passes_arrival_window(it: ItineraryView, q: SearchView) -> bool {
    if q.arrival_time_from is None && q.arrival_time_to is None {
        true
    } else if it.connections.len() == 0 {
        false
    } else {
        let last = it.connections.last().arrival_time;
        &&& (match q.arrival_time_from {
            Some(from) => at_or_after(last, from),
            None => true,
        })
        &&& (match q.arrival_time_to {
            Some(to) => at_or_before(last, to),
            None => true,
        })
    }
}

/// `passes_arrival_window` as a predicate.
pub open spec fn arrival_window_filter(q: SearchView) -> spec_fn(ItineraryView) -> bool {
    |it: ItineraryView| passes_arrival_window(it, q)
}

/// Both class prices are at most the requested maximum, if one is requested.
pub open spec fn within_max_price(it: ItineraryView, max_price: Option<u16>) -> bool {
    match max_price {
        Some(m) => it.total_first_price <= m && it.total_second_price <= m,
        None => true,
    }
}

/// `within_max_price` as a predicate.
pub open spec fn max_price_filter(q: SearchView) -> spec_fn(ItineraryView) -> bool {
    |it: ItineraryView| within_max_price(it, q.max_price)
}

/// The requested order, departure time when none is requested.
pub open spec fn effective_sort(q: SearchView) -> SortBy {
    match q.sort_by {
        Some(s) => s,
        None => SortBy::DepartureTimeAscendant,
    }
}

/// The key by which an order lists itineraries, smallest first: the whole
/// minutes of travel, the price, the negated price, or the departure time of
/// the first route.
pub open spec fn sort_key(sort_by: SortBy, it: ItineraryView) -> int {
    match sort_by {
        SortBy::Duration => div_toward_zero(it.total_duration, 60),
        SortBy::PriceAscendant(c) => price_in(it, c) as int,
        SortBy::PriceDescendant(c) => -(price_in(it, c) as int),
        SortBy::DepartureTimeAscendant => it.connections[0].departure_time as int,
    }
}

/// `sort_key` as a function of the itinerary.
pub open spec fn sort_keys(sort_by: SortBy) -> spec_fn(ItineraryView) -> int {
    |it: ItineraryView| sort_key(sort_by, it)
}

/// The itineraries that a search lists, before they are put in order.
pub open spec fn search_matches(routes: Seq<Route>, q: SearchView) -> Seq<ItineraryView> {
    search_candidates(routes, q).filter(arrival_window_filter(q)).filter(max_price_filter(q))
}

/// The itineraries that a search lists, in order: the stable sort of the
/// matches by the requested key (there is exactly one, see
/// `lemma_stable_sort_unique`).
pub open spec fn search_result(routes: Seq<Route>, q: SearchView) -> Seq<ItineraryView> {
    choose|r: Seq<ItineraryView>| is_stable_sort_of(r, search_matches(routes, q), sort_keys(effective_sort(q)))
}

/// The itinerary holds at least one route.
pub open spec fn has_routes() -> spec_fn(ItineraryView) -> bool {
    |it: ItineraryView| it.connections.len() > 0
}

/// Every itinerary that a search finds holds at least one route.
pub proof fn lemma_candidates_have_routes(routes: Seq<Route>, q: SearchView)
    ensures
        forall|j: int| 0 <= j < search_candidates(routes, q).len() ==> #[trigger] search_candidates(routes, q)[j].connections.len() > 0,
{
    let p = has_routes();
    let all = all_indices(routes.len());
    lemma_concat_map_all(all, direct_itineraries_of(routes, q), p);
    assert forall|x: usize, j: int| 0 <= j < one_stop_froms(routes, q)(x).len() implies p(#[trigger] one_stop_froms(routes, q)(x)[j]) by {
        if first_leg_ok(routes, q, x) {
            lemma_concat_map_all(all, one_stop_itineraries_after(routes, q, x), p);
        }
    }
    lemma_concat_map_all(all, one_stop_froms(routes, q), p);
    assert forall|x: usize, j: int| 0 <= j < two_stop_froms(routes, q)(x).len() implies p(#[trigger] two_stop_froms(routes, q)(x)[j]) by {
        if first_leg_ok(routes, q, x) {
            assert forall|y: usize, t: int| 0 <= t < two_stop_vias(routes, q, x)(y).len() implies p(#[trigger] two_stop_vias(routes, q, x)(y)[t]) by {
                lemma_concat_map_all(all, two_stop_itineraries_after(routes, q, x, y), p);
            }
            lemma_concat_map_all(all, two_stop_vias(routes, q, x), p);
        }
    }
    lemma_concat_map_all(all, two_stop_froms(routes, q), p);
    let d = direct_itineraries(routes, q);
    let o = one_stop_itineraries(routes, q);
    let t = two_stop_itineraries(routes, q);
    assert forall|j: int| 0 <= j < search_candidates(routes, q).len() implies #[trigger] search_candidates(routes, q)[j].connections.len() > 0 by {
        if q.allowed_transfers {
            if j < d.len() {
                assert(search_candidates(routes, q)[j] == d[j]);
                assert(p(d[j]));
            } else if j < d.len() + o.len() {
                assert(search_candidates(routes, q)[j] == o[j - d.len()]);
                assert(p(o[j - d.len()]));
            } else {
                assert(search_candidates(routes, q)[j] == t[j - d.len() - o.len()]);
                assert(p(t[j - d.len() - o.len()]));
            }
        } else {
            assert(p(d[j]));
        }
    }
}

// ---- what every search result is ----

/// A route of the network that passes the train-type and day filters.
pub open spec fn leg_ok(network: Seq<RouteView>, q: SearchView, r: RouteView) -> bool {
    network.contains(r) && route_matches_common(r, q)
}

/// Route `next` leaves from the city where `prev` arrives, after a wait of at
/// least the requested minimum and less than `limit` minutes.
pub open spec fn transfer_ok(prev: RouteView, next: RouteView, q: SearchView, limit: int) -> bool {
    same_city(prev.arrival_city, next.departure_city)
        && transfer_wait(prev.arrival_time, next.departure_time, q.min_transfer_minutes as int, limit) is Some
}

/// `it` is a journey that answers `q` on the routes of `network`: one, two or
/// three routes of the network that pass the train-type and day filters, the
/// first leaving from the requested city no earlier than requested, the last
/// arriving at the requested city, each transfer allowed (both bounded by the
/// limit for the arrival time of the second route), a three-route journey not
/// passing back through its departure city; and `it` holds exactly the time,
/// prices and transfers of those routes taken one after the other.
pub open spec fn journey_ok(network: Seq<RouteView>, q: SearchView, it: ItineraryView) -> bool {
    let c = it.connections;
    &&& 1 <= c.len() <= 3
    &&& from_requested(c[0], q)
    &&& departs_after(c[0], q.earliest_departure)
    &&& to_requested(c.last(), q)
    &&& forall|i: int| 0 <= i < c.len() ==> leg_ok(network, q, #[trigger] c[i])
    &&& if c.len() == 1 {
        it == add_route(empty_itinerary(), c[0])
    } else if c.len() == 2 {
        &&& it == add_route(add_route(empty_itinerary(), c[0]), c[1])
        &&& transfer_ok(c[0], c[1], q, transfer_limit(c[1].arrival_time))
    } else {
        &&& it == add_route(add_route(add_route(empty_itinerary(), c[0]), c[1]), c[2])
        &&& transfer_ok(c[0], c[1], q, transfer_limit(c[1].arrival_time))
        &&& transfer_ok(c[1], c[2], q, transfer_limit(c[1].arrival_time))
        &&& !same_city(c[1].arrival_city, c[0].departure_city)
    }
}

/// `it` answers `q` in full: a journey (see `journey_ok`), with a single route
/// where transfers are not allowed, arriving within the requested window and
/// priced within the requested maximum in both classes.
pub open spec fn answers(network: Seq<RouteView>, q: SearchView, it: ItineraryView) -> bool {
    &&& journey_ok(network, q, it)
    &&& (!q.allowed_transfers ==> it.connections.len() == 1)
    &&& passes_arrival_window(it, q)
    &&& within_max_price(it, q.max_price)
}

/// `journey_ok` as a predicate.
pub open spec fn journeys(network: Seq<RouteView>, q: SearchView) -> spec_fn(ItineraryView) -> bool {
    |it: ItineraryView| journey_ok(network, q, it)
}

/// `journey_ok` for a single route.
pub open spec fn direct_journeys(network: Seq<RouteView>, q: SearchView) -> spec_fn(ItineraryView) -> bool {
    |it: ItineraryView| journey_ok(network, q, it) && it.connections.len() == 1
}

proof fn lemma_add_route_connections(it: ItineraryView, r: RouteView)
    ensures
        add_route(it, r).connections == it.connections.push(r),
{
}

/// Every itinerary that a search finds before filtering is a journey, with a
/// single route where transfers are not allowed.
proof fn lemma_candidates_are_journeys(routes: Seq<Route>, q: SearchView)
    requires
        routes.len() <= usize::MAX,
    ensures
        forall|j: int| 0 <= j < search_candidates(routes, q).len() ==> {
            let it = #[trigger] search_candidates(routes, q)[j];
            journey_ok(views(routes), q, it) && (!q.allowed_transfers ==> it.connections.len() == 1)
        },
{
    let net = views(routes);
    let all = all_indices(routes.len());
    let e = empty_itinerary();
    lemma_all_indices_below(routes.len());
    assert forall|i: int| 0 <= i < routes.len() implies net.contains(#[trigger] routes[i]@) by {
        assert(net[i] == routes[i]@);
    }
    let pd = direct_journeys(net, q);
    assert forall|i: int, j: int| 0 <= i < all.len() && 0 <= j < direct_itineraries_of(routes, q)(all[i]).len()
        implies pd(#[trigger] direct_itineraries_of(routes, q)(#[trigger] all[i])[j]) by {
        let r = routes[all[i] as int]@;
        lemma_add_route_connections(e, r);
        assert(add_route(e, r).connections =~= seq![r]);
    }
    lemma_concat_map_all(all, direct_itineraries_of(routes, q), pd);
    let p = journeys(net, q);
    assert forall|i: int, j: int| 0 <= i < all.len() && 0 <= j < one_stop_froms(routes, q)(all[i]).len()
        implies p(#[trigger] one_stop_froms(routes, q)(#[trigger] all[i])[j]) by {
        let x = all[i];
        assert(first_leg_ok(routes, q, x));
        assert forall|k: int, t: int| 0 <= k < all.len() && 0 <= t < one_stop_itineraries_after(routes, q, x)(all[k]).len()
            implies p(#[trigger] one_stop_itineraries_after(routes, q, x)(#[trigger] all[k])[t]) by {
            let a = routes[x as int]@;
            let b = routes[all[k] as int]@;
            lemma_add_route_connections(e, a);
            lemma_add_route_connections(add_route(e, a), b);
            assert(add_route(add_route(e, a), b).connections =~= seq![a, b]);
        }
        lemma_concat_map_all(all, one_stop_itineraries_after(routes, q, x), p);
    }
    lemma_concat_map_all(all, one_stop_froms(routes, q), p);
    assert forall|i: int, j: int| 0 <= i < all.len() && 0 <= j < two_stop_froms(routes, q)(all[i]).len()
        implies p(#[trigger] two_stop_froms(routes, q)(#[trigger] all[i])[j]) by {
        let x = all[i];
        assert(first_leg_ok(routes, q, x));
        assert forall|k: int, t: int| 0 <= k < all.len() && 0 <= t < two_stop_vias(routes, q, x)(all[k]).len()
            implies p(#[trigger] two_stop_vias(routes, q, x)(#[trigger] all[k])[t]) by {
            let y = all[k];
            assert forall|m: int, u: int| 0 <= m < all.len() && 0 <= u < two_stop_itineraries_after(routes, q, x, y)(all[m]).len()
                implies p(#[trigger] two_stop_itineraries_after(routes, q, x, y)(#[trigger] all[m])[u]) by {
                let a = routes[x as int]@;
                let b = routes[y as int]@;
                let c = routes[all[m] as int]@;
                lemma_add_route_connections(e, a);
                lemma_add_route_connections(add_route(e, a), b);
                lemma_add_route_connections(add_route(add_route(e, a), b), c);
                assert(add_route(add_route(add_route(e, a), b), c).connections =~= seq![a, b, c]);
                assert(same_city(a.arrival_city, b.departure_city)) by {
                    assert(same_city(b.departure_city, a.arrival_city));
                }
            }
            lemma_concat_map_all(all, two_stop_itineraries_after(routes, q, x, y), p);
        }
        lemma_concat_map_all(all, two_stop_vias(routes, q, x), p);
    }
    lemma_concat_map_all(all, two_stop_froms(routes, q), p);
    let d = direct_itineraries(routes, q);
    let o = one_stop_itineraries(routes, q);
    let t = two_stop_itineraries(routes, q);
    let cand = search_candidates(routes, q);
    assert forall|j: int| 0 <= j < cand.len() implies {
        let it = #[trigger] cand[j];
        journey_ok(net, q, it) && (!q.allowed_transfers ==> it.connections.len() == 1)
    } by {
        if q.allowed_transfers {
            if j < d.len() {
                assert(cand[j] == d[j]);
                assert(pd(d[j]));
            } else if j < d.len() + o.len() {
                assert(cand[j] == o[j - d.len()]);
                assert(p(o[j - d.len()]));
            } else {
                assert(cand[j] == t[j - d.len() - o.len()]);
                assert(p(t[j - d.len() - o.len()]));
            }
        } else {
            assert(pd(d[j]));
        }
    }
}

/// An item of a filtered sequence is an item of the sequence that passes the filter.
proof fn lemma_in_filter<A>(s: Seq<A>, p: spec_fn(A) -> bool, x: A)
    requires
        s.filter(p).contains(x),
    ensures
        s.contains(x),
        p(x),
{
    broadcast use vstd::seq_lib::group_filter_ensures;

    s.lemma_filter_contains_rev(p, x);
    let i = choose|i: int| 0 <= i < s.filter(p).len() && s.filter(p)[i] == x;
    assert(p(s.filter(p)[i]));
}

/// Every itinerary that a search lists answers the request (see `answers`):
/// it is one to three routes of the network taken one after the other, from
/// the requested departure city, no earlier than requested, to the requested
/// arrival city, on the requested day and train type, with every transfer
/// allowed, a single route where transfers are not allowed, arriving within the
/// requested window and within the requested price in both classes.
pub proof fn lemma_search_results_answer(routes: Seq<Route>, q: SearchView, results: Seq<ItineraryView>)
    requires
        routes.len() <= usize::MAX,
        is_stable_sort_of(results, search_matches(routes, q), sort_keys(effective_sort(q))),
    ensures
        forall|j: int| 0 <= j < results.len() ==> answers(views(routes), q, #[trigger] results[j]),
{
    let cand = search_candidates(routes, q);
    let win = cand.filter(arrival_window_filter(q));
    lemma_stable_sort_elements(results, search_matches(routes, q), sort_keys(effective_sort(q)));
    lemma_candidates_are_journeys(routes, q);
    assert forall|j: int| 0 <= j < results.len() implies answers(views(routes), q, #[trigger] results[j]) by {
        let it = results[j];
        lemma_in_filter(win, max_price_filter(q), it);
        lemma_in_filter(cand, arrival_window_filter(q), it);
        let k = choose|k: int| 0 <= k < cand.len() && cand[k] == it;
        assert(journey_ok(views(routes), q, cand[k]));
    }
}

/// Where the times of every route lie within a day, every itinerary that a
/// search lists has totals that agree with its routes (see
/// `itinerary_consistent`): its recorded transfers are the waits between its
/// routes, its time is their travel time plus the waits, and its prices are
/// the capped sums of their fares.
pub proof fn lemma_search_results_consistent(routes: Seq<Route>, q: SearchView, results: Seq<ItineraryView>)
    requires
        routes.len() <= usize::MAX,
        forall|i: int| 0 <= i < routes.len() ==> times_in_day(#[trigger] routes[i]@),
        is_stable_sort_of(results, search_matches(routes, q), sort_keys(effective_sort(q))),
    ensures
        forall|j: int| 0 <= j < results.len() ==> itinerary_consistent(#[trigger] results[j]),
{
    lemma_search_results_answer(routes, q, results);
    let net = views(routes);
    assert forall|j: int| 0 <= j < results.len() implies itinerary_consistent(#[trigger] results[j]) by {
        let it = results[j];
        let c = it.connections;
        assert(answers(net, q, it));
        assert forall|i: int| 0 <= i < c.len() implies times_in_day(#[trigger] c[i]) by {
            assert(leg_ok(net, q, c[i]));
            let k = choose|k: int| 0 <= k < net.len() && net[k] == c[i];
            assert(net[k] == routes[k]@);
        }
        let e = empty_itinerary();
        lemma_empty_itinerary_consistent();
        lemma_add_route_consistent(e, c[0]);
        if c.len() >= 2 {
            lemma_add_route_consistent(add_route(e, c[0]), c[1]);
        }
        if c.len() == 3 {
            lemma_add_route_consistent(add_route(add_route(e, c[0]), c[1]), c[2]);
        }
    }
}

/// The index of a route of the network whose plain values are `r`.
proof fn lemma_route_index(routes: Seq<Route>, r: RouteView) -> (i: int)
    requires
        views(routes).contains(r),
    ensures
        0 <= i < routes.len(),
        routes[i]@ == r,
{
    let i = choose|i: int| 0 <= i < views(routes).len() && views(routes)[i] == r;
    i
}

/// Every journey that answers the request is found before filtering.
proof fn lemma_answers_are_candidates(routes: Seq<Route>, q: SearchView, it: ItineraryView)
    requires
        routes.len() <= usize::MAX,
        answers(views(routes), q, it),
    ensures
        search_candidates(routes, q).contains(it),
{
    let net = views(routes);
    let all = all_indices(routes.len());
    let e = empty_itinerary();
    let c = it.connections;
    let d = direct_itineraries(routes, q);
    let o = one_stop_itineraries(routes, q);
    let t = two_stop_itineraries(routes, q);
    let cand = search_candidates(routes, q);
    assert(leg_ok(net, q, c[0]));
    let ia = lemma_route_index(routes, c[0]);
    let a = routes[ia]@;
    assert(all[ia] == ia as usize);
    if c.len() == 1 {
        assert(direct_ok(routes, q, ia as usize));
        assert(direct_itineraries_of(routes, q)(all[ia]) == seq![it]);
        assert(seq![it][0] == it);
        lemma_concat_map_contains(all, direct_itineraries_of(routes, q), ia, it);
        let k = choose|k: int| 0 <= k < d.len() && d[k] == it;
        if q.allowed_transfers {
            assert((d + o)[k] == it);
            assert(cand[k] == it);
        } else {
            assert(cand[k] == it);
        }
    } else {
        assert(q.allowed_transfers);
        assert(leg_ok(net, q, c[1]));
        let ib = lemma_route_index(routes, c[1]);
        let b = routes[ib]@;
        assert(all[ib] == ib as usize);
        assert(first_leg_ok(routes, q, ia as usize));
        if c.len() == 2 {
            assert(c.last() == c[1]);
            assert(one_stop_itineraries_after(routes, q, ia as usize)(all[ib]) == seq![it]);
            assert(seq![it][0] == it);
            lemma_concat_map_contains(all, one_stop_itineraries_after(routes, q, ia as usize), ib, it);
            assert(one_stop_froms(routes, q)(all[ia]) == one_stop_from(routes, q, ia as usize));
            lemma_concat_map_contains(all, one_stop_froms(routes, q), ia, it);
            let k = choose|k: int| 0 <= k < o.len() && o[k] == it;
            assert((d + o)[d.len() + k] == it);
            assert(cand[d.len() + k] == it);
        } else {
            assert(leg_ok(net, q, c[2]));
            let ic = lemma_route_index(routes, c[2]);
            assert(all[ic] == ic as usize);
            assert(c.last() == c[2]);
            assert(same_city(b.departure_city, a.arrival_city));
            assert(two_stop_itineraries_after(routes, q, ia as usize, ib as usize)(all[ic]) == seq![it]);
            assert(seq![it][0] == it);
            lemma_concat_map_contains(all, two_stop_itineraries_after(routes, q, ia as usize, ib as usize), ic, it);
            assert(two_stop_vias(routes, q, ia as usize)(all[ib]) == two_stop_via(routes, q, ia as usize, ib as usize));
            lemma_concat_map_contains(all, two_stop_vias(routes, q, ia as usize), ib, it);
            assert(two_stop_froms(routes, q)(all[ia]) == two_stop_from(routes, q, ia as usize));
            lemma_concat_map_contains(all, two_stop_froms(routes, q), ia, it);
            let k = choose|k: int| 0 <= k < t.len() && t[k] == it;
            assert((d + o + t)[d.len() + o.len() + k] == it);
            assert(cand[d.len() + o.len() + k] == it);
        }
    }
}

/// A search lists every itinerary that answers the request (see `answers`):
/// no journey over the network that meets every filter is missed.
pub proof fn lemma_search_lists_every_answer(routes: Seq<Route>, q: SearchView, results: Seq<ItineraryView>, it: ItineraryView)
    requires
        routes.len() <= usize::MAX,
        is_stable_sort_of(results, search_matches(routes, q), sort_keys(effective_sort(q))),
        answers(views(routes), q, it),
    ensures
        results.contains(it),
{
    broadcast use vstd::seq_lib::group_filter_ensures;

    let cand = search_candidates(routes, q);
    let win = cand.filter(arrival_window_filter(q));
    lemma_answers_are_candidates(routes, q, it);
    let k = choose|k: int| 0 <= k < cand.len() && cand[k] == it;
    assert(arrival_window_filter(q)(cand[k]));
    assert(win.contains(it));
    let m = choose|m: int| 0 <= m < win.len() && win[m] == it;
    assert(max_price_filter(q)(win[m]));
    assert(search_matches(routes, q).contains(it));
    lemma_stable_sort_elements(results, search_matches(routes, q), sort_keys(effective_sort(q)));
}

/// `a` comes no later than `b` in the order that `q` asks for: fewer or as
/// many whole minutes of travel; a lower or equal price in the class (a
/// higher or equal one for a descending order); or, where no order is asked
/// for, a first departure no later in the day.
pub open spec fn listed_before(a: ItineraryView, b: ItineraryView, q: SearchView) -> bool {
    match q.sort_by {
        Some(SortBy::Duration) => div_toward_zero(a.total_duration, 60) <= div_toward_zero(b.total_duration, 60),
        Some(SortBy::PriceAscendant(TicketClass::FirstClass)) => a.total_first_price <= b.total_first_price,
        Some(SortBy::PriceAscendant(TicketClass::SecondClass)) => a.total_second_price <= b.total_second_price,
        Some(SortBy::PriceDescendant(TicketClass::FirstClass)) => a.total_first_price >= b.total_first_price,
        Some(SortBy::PriceDescendant(TicketClass::SecondClass)) => a.total_second_price >= b.total_second_price,
        _ => a.connections[0].departure_time <= b.connections[0].departure_time,
    }
}

/// The itineraries are listed in the order that `q` asks for.
pub open spec fn in_requested_order(r: Seq<ItineraryView>, q: SearchView) -> bool {
    forall|i: int, j: int| 0 <= i < j < r.len() ==> listed_before(#[trigger] r[i], #[trigger] r[j], q)
}

/// A search lists its itineraries in the order asked for: by whole minutes
/// of travel, shortest first; by the price in a class, cheapest first or
/// dearest first; or, by default, by the departure time of the first route,
/// earliest first.
pub proof fn lemma_search_in_requested_order(routes: Seq<Route>, q: SearchView, results: Seq<ItineraryView>)
    requires
        is_stable_sort_of(results, search_matches(routes, q), sort_keys(effective_sort(q))),
    ensures
        in_requested_order(results, q),
{
    assert forall|i: int, j: int| 0 <= i < j < results.len() implies listed_before(#[trigger] results[i], #[trigger] results[j], q) by {
        assert(sort_keys(effective_sort(q))(results[i]) <= sort_keys(effective_sort(q))(results[j]));
    }
}

/// Route `i` leaves from the requested departure city, if one is requested.
pub open spec fn from_requested_at(routes: Seq<Route>, q: SearchView) -> spec_fn(usize) -> bool {
    |i: usize| from_requested(routes[i as int]@, q)
}

/// Route `i` arrives at the requested arrival city, if one is requested.
pub open spec fn to_requested_at(routes: Seq<Route>, q: SearchView) -> spec_fn(usize) -> bool {
    |i: usize| to_requested(routes[i as int]@, q)
}

/// Every route's times lie within one day, as every time does: reads each
/// time once to bring that fact about the routes into the proof.
fn times_all_in_day(routes: &[Route])
    ensures
        forall|i: int| 0 <= i < routes@.len() ==> times_in_day(#[trigger] routes@[i]@),
{
    let mut i: usize = 0;
    while i < routes.len()
        invariant
            i <= routes@.len(),
            forall|k: int| 0 <= k < i ==> times_in_day(#[trigger] routes@[k]@),
        decreases routes@.len() - i,
    {
        let _ = routes[i].departure_time.secs();
        let _ = routes[i].arrival_time.secs();
        i = i + 1;
    }
}

/// The network: its routes and the trips booked on them.
#[derive(Debug)]
pub struct RailNetwork {
    pub routes: Vec<Route>,
    pub reservations: Vec<Trip>,
}

impl RailNetwork {
    fn matches_train(r: &Route, t: Option<&str>) -> (b: bool)
        ensures
            b == route_matches_train(r@, opt_text(t)),
    {
        match t {
            None => true,
            Some(tt) => eq_ignore_ascii_case(r.train_type.as_str(), tt),
        }
    }

    fn matches_day(r: &Route, d: Option<&str>) -> (b: bool)
        ensures
            b == route_matches_day(r@, opt_text(d)),
    {
        match d {
            None => true,
            Some(label) => {
                let mut k: usize = 0;
                while k < r.days_of_operation.len()
                    invariant
                        k <= r.days_of_operation@.len(),
                        d == Some(label),
                        forall|j: int| 0 <= j < k ==> !same_ignoring_ascii_case(day_name(#[trigger] r.days_of_operation@[j]), label@),
                    decreases r.days_of_operation@.len() - k,
                {
                    if eq_ignore_ascii_case(r.days_of_operation[k].as_str(), label) {
                        assert(same_ignoring_ascii_case(day_name(r@.days_of_operation[k as int]), label@));
                        return true;
                    }
                    k = k + 1;
                }
                false
            },
        }
    }

    fn matches_common(r: &Route, q: &SearchFunctionality) -> (b: bool)
        ensures
            b == route_matches_common(r@, q@),
    {
        Self::matches_train(r, q.train_type) && Self::matches_day(r, q.day_of_week)
    }

    fn depart_after_first_connection(r: &Route, earliest: Option<TimeOfDay>) -> (b: bool)
        ensures
            b == departs_after(r@, opt_secs(earliest)),
    {
        match earliest {
            None => true,
            Some(t0) => reached(r.departure_time, t0),
        }
    }

    fn wait_minutes(prev_arr: ClockTime, next_dep: ClockTime) -> (w: i64)
        ensures
            w == wait_minutes(prev_arr@, next_dep@),
            0 <= w < 1440,
    {
        let mut secs = (next_dep.secs() as i64) - (prev_arr.secs() as i64);
        if secs < 0 {
            secs = secs + SECONDS_PER_DAY as i64;
        }
        secs / 60
    }

    fn possible_transfer(prev_arr: ClockTime, next_dep: ClockTime, min_transfer_min: i64, max_transfer_min: i64) -> (r: Option<i64>)
        ensures
            r == (match transfer_wait(prev_arr@, next_dep@, min_transfer_min as int, max_transfer_min as int) {
                Some(w) => Some(w as i64),
                None => None,
            }),
    {
        let w = Self::wait_minutes(prev_arr, next_dep);
        if w >= min_transfer_min && w < max_transfer_min {
            Some(w)
        } else {
            None
        }
    }

    /// The travel time of one route of an itinerary.
    #[allow(dead_code)]
    fn per_connection_duration(r: &Route) -> (d: TimeSpan)
        ensures
            d.seconds == route_duration(r@),
    {
        r.duration()
    }

    /// The total time of the routes `connections` taken in order with the
    /// given transfer waits in minutes (see `search_functionality::sum_chain`).
    #[allow(dead_code)]
    fn sum_chain(routes: &[Route], connections: &[usize], waits: &[i64]) -> (d: TimeSpan)
        requires
            forall|j: int| 0 <= j < connections@.len() ==> (#[trigger] connections@[j]) < routes@.len(),
            chain_fits(routes@, connections@, waits@),
        ensures
            d.seconds == chain_seconds(routes@, connections@, waits@),
    {
        crate::search_functionality::sum_chain(routes, connections, waits)
    }

    /// The longest allowed transfer onto route `b`, in minutes.
    fn transfer_limit_for(b: &Route) -> (m: i64)
        ensures
            m == transfer_limit(b.arrival_time@),
    {
        let arrival = b.arrival_time.secs();
        if arrival >= 28800 && arrival <= 72000 {
            240
        } else {
            60
        }
    }

    fn route_ok_for_direct(r: &Route, q: &SearchFunctionality) -> (b: bool)
        ensures
            b == (from_requested(r@, q@) && to_requested(r@, q@) && route_matches_common(r@, q@)
                && departs_after(r@, q@.earliest_departure)),
    {
        let from_ok = match q.departure_city {
            Some(dep) => eq_ignore_ascii_case(r.departure_city.as_str(), dep),
            None => true,
        };
        let to_ok = match q.arrival_city {
            Some(arr) => eq_ignore_ascii_case(r.arrival_city.as_str(), arr),
            None => true,
        };
        from_ok && to_ok && Self::matches_common(r, q) && Self::depart_after_first_connection(r, q.earliest_departure)
    }

    /// The single-route itineraries that answer the request, in route order.
    fn direct_routes(routes: &[Route], idx: &IndexSet, q: &SearchFunctionality) -> (out: Vec<Itinerary>)
        requires
            idx.wf(routes@),
        ensures
            views(out@) == direct_itineraries(routes@, q@),
    {
        let ghost rs = routes@;
        let ghost f = direct_itineraries_of(rs, q@);
        let n_routes = routes.len();
        let cands: Vec<usize> = match (q.departure_city, q.arrival_city) {
            (Some(dep), _) => idx.get_departures(dep, Ghost(rs)),
            (None, Some(arr)) => idx.get_arrivals(arr, Ghost(rs)),
            (None, None) => index_range(routes.len()),
        };
        proof {
            let n = rs.len();
            assert(n == n_routes);
            lemma_all_indices_below(n);
            match (q.departure_city, q.arrival_city) {
                (Some(dep), _) => {
                    lemma_filter_keeps(all_indices(n), leaves_from(rs, dep@), |i: usize| i < n);
                    lemma_concat_map_filter_unused(all_indices(n), leaves_from(rs, dep@), f);
                },
                (None, Some(arr)) => {
                    lemma_filter_keeps(all_indices(n), arrives_at(rs, arr@), |i: usize| i < n);
                    lemma_concat_map_filter_unused(all_indices(n), arrives_at(rs, arr@), f);
                },
                (None, None) => {},
            }
        }
        let mut out: Vec<Itinerary> = Vec::new();
        let mut k: usize = 0;
        while k < cands.len()
            invariant
                k <= cands@.len(),
                rs == routes@,
                f == direct_itineraries_of(rs, q@),
                forall|j: int| 0 <= j < cands@.len() ==> (#[trigger] cands@[j]) < rs.len(),
                views(out@) == concat_map(cands@.take(k as int), f),
            decreases cands@.len() - k,
        {
            let i = cands[k];
            let r = &routes[i];
            proof {
                lemma_concat_map_take(cands@, f, k as int);
            }
            if Self::route_ok_for_direct(r, q) {
                let mut it = Itinerary::default();
                it.addRoute(r.clone());
                out.push(it);
                assert(views(out@) =~= concat_map(cands@.take(k + 1), f));
            } else {
                assert(views(out@) =~= concat_map(cands@.take(k + 1), f));
            }
            k = k + 1;
        }
        proof {
            lemma_concat_map_take_all(cands@, f);
        }
        out
    }

    /// The routes that may start a journey: those that leave from the requested
    /// departure city, or all routes.
    fn first_candidates(routes: &[Route], idx: &IndexSet, q: &SearchFunctionality) -> (r: Vec<usize>)
        requires
            idx.wf(routes@),
        ensures
            r@ == all_indices(routes@.len()).filter(from_requested_at(routes@, q@)),
            forall|j: int| 0 <= j < r@.len() ==> (#[trigger] r@[j]) < routes@.len(),
    {
        let ghost rs = routes@;
        let n_routes = routes.len();
        let r = match q.departure_city {
            Some(dep) => idx.get_departures(dep, Ghost(rs)),
            None => index_range(routes.len()),
        };
        proof {
            let n = rs.len();
            lemma_all_indices_below(n);
            match q.departure_city {
                Some(dep) => {
                    assert(leaves_from(rs, dep@) =~= from_requested_at(rs, q@));
                },
                None => {
                    lemma_filter_all(all_indices(n), from_requested_at(rs, q@));
                },
            }
            lemma_filter_keeps(all_indices(n), from_requested_at(rs, q@), |i: usize| i < n);
        }
        r
    }

    /// The routes that may end a journey: those that arrive at the requested
    /// arrival city, or all routes.
    fn last_candidates(routes: &[Route], idx: &IndexSet, q: &SearchFunctionality) -> (r: Vec<usize>)
        requires
            idx.wf(routes@),
        ensures
            r@ == all_indices(routes@.len()).filter(to_requested_at(routes@, q@)),
            forall|j: int| 0 <= j < r@.len() ==> (#[trigger] r@[j]) < routes@.len(),
    {
        let ghost rs = routes@;
        let n_routes = routes.len();
        let r = match q.arrival_city {
            Some(arr) => idx.get_arrivals(arr, Ghost(rs)),
            None => index_range(routes.len()),
        };
        proof {
            let n = rs.len();
            lemma_all_indices_below(n);
            match q.arrival_city {
                Some(arr) => {
                    assert(arrives_at(rs, arr@) =~= to_requested_at(rs, q@));
                },
                None => {
                    lemma_filter_all(all_indices(n), to_requested_at(rs, q@));
                },
            }
            lemma_filter_keeps(all_indices(n), to_requested_at(rs, q@), |i: usize| i < n);
        }
        r
    }

    /// The two-route itineraries that answer the request, ordered by first,
    /// then second route.
    fn one_stop_itineraries(routes: &[Route], idx: &IndexSet, q: &SearchFunctionality) -> (out: Vec<Itinerary>)
        requires
            idx.wf(routes@),
        ensures
            views(out@) == one_stop_itineraries(routes@, q@),
    {
        let ghost rs = routes@;
        let ghost qv = q@;
        let ghost f = one_stop_froms(rs, qv);
        let a_indices = Self::first_candidates(routes, idx, q);
        let mut out: Vec<Itinerary> = Vec::new();
        let mut k: usize = 0;
        while k < a_indices.len()
            invariant
                k <= a_indices@.len(),
                rs == routes@,
                qv == q@,
                idx.wf(rs),
                f == one_stop_froms(rs, qv),
                a_indices@ == all_indices(rs.len()).filter(from_requested_at(rs, qv)),
                forall|j: int| 0 <= j < a_indices@.len() ==> (#[trigger] a_indices@[j]) < rs.len(),
                views(out@) == concat_map(a_indices@.take(k as int), f),
            decreases a_indices@.len() - k,
        {
            let ia = a_indices[k];
            let a = &routes[ia];
            proof {
                lemma_concat_map_take(a_indices@, f, k as int);
                all_indices(rs.len()).lemma_filter_pred(from_requested_at(rs, qv), k as int);
            }
            if Self::matches_common(a, q) && Self::depart_after_first_connection(a, q.earliest_departure) {
                let ghost g = one_stop_itineraries_after(rs, qv, ia);
                let ghost before = views(out@);
                let b_indices = Self::last_candidates(routes, idx, q);
                let mut j: usize = 0;
                while j < b_indices.len()
                    invariant
                        j <= b_indices@.len(),
                        rs == routes@,
                        qv == q@,
                        ia < rs.len(),
                        a == &routes@[ia as int],
                        g == one_stop_itineraries_after(rs, qv, ia),
                        b_indices@ == all_indices(rs.len()).filter(to_requested_at(rs, qv)),
                        forall|t: int| 0 <= t < b_indices@.len() ==> (#[trigger] b_indices@[t]) < rs.len(),
                        views(out@) == before + concat_map(b_indices@.take(j as int), g),
                    decreases b_indices@.len() - j,
                {
                    let ib = b_indices[j];
                    let b = &routes[ib];
                    proof {
                        lemma_concat_map_take(b_indices@, g, j as int);
                        all_indices(rs.len()).lemma_filter_pred(to_requested_at(rs, qv), j as int);
                    }
                    let ghost old_out = views(out@);
                    let mut added = false;
                    if Self::matches_common(b, q) && eq_ignore_ascii_case(a.arrival_city.as_str(), b.departure_city.as_str()) {
                        if let Some(_wait) = Self::possible_transfer(a.arrival_time, b.departure_time, q.min_transfer_minutes, Self::transfer_limit_for(b)) {
                            let mut it = Itinerary::default();
                            it.addRoute(a.clone());
                            it.addRoute(b.clone());
                            assert(g(ib) == seq![it@]);
                            out.push(it);
                            assert(views(out@) =~= old_out + g(ib));
                            added = true;
                        }
                    }
                    proof {
                        if !added {
                            assert(g(ib) =~= Seq::<ItineraryView>::empty());
                            assert(views(out@) =~= old_out + g(ib));
                        }
                        assert(views(out@) =~= before + concat_map(b_indices@.take(j + 1), g));
                    }
                    j = j + 1;
                }
                proof {
                    lemma_concat_map_take_all(b_indices@, g);
                    lemma_concat_map_filter_unused(all_indices(rs.len()), to_requested_at(rs, qv), g);
                }
            }
            assert(views(out@) =~= concat_map(a_indices@.take(k + 1), f));
            k = k + 1;
        }
        proof {
            lemma_concat_map_take_all(a_indices@, f);
            lemma_concat_map_filter_unused(all_indices(rs.len()), from_requested_at(rs, qv), f);
        }
        out
    }

    /// The three-route itineraries that answer the request, ordered by first,
    /// second, then third route.
    #[verifier::rlimit(40)]
    fn two_stop_itineraries(routes: &[Route], idx: &IndexSet, q: &SearchFunctionality) -> (out: Vec<Itinerary>)
        requires
            idx.wf(routes@),
        ensures
            views(out@) == two_stop_itineraries(routes@, q@),
    {
        let ghost rs = routes@;
        let ghost qv = q@;
        let ghost f = two_stop_froms(rs, qv);
        let a_indices = Self::first_candidates(routes, idx, q);
        let mut out: Vec<Itinerary> = Vec::new();
        let mut k: usize = 0;
        while k < a_indices.len()
            invariant
                k <= a_indices@.len(),
                rs == routes@,
                qv == q@,
                idx.wf(rs),
                f == two_stop_froms(rs, qv),
                a_indices@ == all_indices(rs.len()).filter(from_requested_at(rs, qv)),
                forall|j: int| 0 <= j < a_indices@.len() ==> (#[trigger] a_indices@[j]) < rs.len(),
                views(out@) == concat_map(a_indices@.take(k as int), f),
            decreases a_indices@.len() - k,
        {
            let ia = a_indices[k];
            let a = &routes[ia];
            proof {
                lemma_concat_map_take(a_indices@, f, k as int);
                all_indices(rs.len()).lemma_filter_pred(from_requested_at(rs, qv), k as int);
            }
            if Self::matches_common(a, q) && Self::depart_after_first_connection(a, q.earliest_departure) {
                let ghost g = two_stop_vias(rs, qv, ia);
                let ghost before = views(out@);
                let b_indices = idx.get_departures(a.arrival_city.as_str(), Ghost(rs));
                let ghost pb = leaves_from(rs, city_name(a.arrival_city));
                proof {
                    lemma_all_indices_below(rs.len());
                    lemma_filter_keeps(all_indices(rs.len()), pb, |i: usize| i < rs.len());
                }
                let mut j: usize = 0;
                while j < b_indices.len()
                    invariant
                        j <= b_indices@.len(),
                        rs == routes@,
                        qv == q@,
                        idx.wf(rs),
                        ia < rs.len(),
                        a == &routes@[ia as int],
                        g == two_stop_vias(rs, qv, ia),
                        pb == leaves_from(rs, city_name(a.arrival_city)),
                        b_indices@ == all_indices(rs.len()).filter(pb),
                        forall|t: int| 0 <= t < b_indices@.len() ==> (#[trigger] b_indices@[t]) < rs.len(),
                        views(out@) == before + concat_map(b_indices@.take(j as int), g),
                    decreases b_indices@.len() - j,
                {
                    let ib = b_indices[j];
                    let b = &routes[ib];
                    proof {
                        lemma_concat_map_take(b_indices@, g, j as int);
                        all_indices(rs.len()).lemma_filter_pred(pb, j as int);
                    }
                    let ghost old_out = views(out@);
                    let mut went_on = false;
                    if Self::matches_common(b, q) && !(norm(b.arrival_city.as_str()) == norm(a.departure_city.as_str())) {
                        if let Some(_w1) = Self::possible_transfer(a.arrival_time, b.departure_time, q.min_transfer_minutes, Self::transfer_limit_for(b)) {
                            went_on = true;
                            let ghost h = two_stop_itineraries_after(rs, qv, ia, ib);
                            let c_indices = Self::last_candidates(routes, idx, q);
                            let mut m: usize = 0;
                            while m < c_indices.len()
                                invariant
                                    m <= c_indices@.len(),
                                    rs == routes@,
                                    qv == q@,
                                    ia < rs.len(),
                                    ib < rs.len(),
                                    a == &routes@[ia as int],
                                    b == &routes@[ib as int],
                                    h == two_stop_itineraries_after(rs, qv, ia, ib),
                                    c_indices@ == all_indices(rs.len()).filter(to_requested_at(rs, qv)),
                                    forall|t: int| 0 <= t < c_indices@.len() ==> (#[trigger] c_indices@[t]) < rs.len(),
                                    views(out@) == old_out + concat_map(c_indices@.take(m as int), h),
                                decreases c_indices@.len() - m,
                            {
                                let ic = c_indices[m];
                                let c = &routes[ic];
                                proof {
                                    lemma_concat_map_take(c_indices@, h, m as int);
                                    all_indices(rs.len()).lemma_filter_pred(to_requested_at(rs, qv), m as int);
                                }
                                let ghost old_out2 = views(out@);
                                let mut added = false;
                                if Self::matches_common(c, q) && eq_ignore_ascii_case(b.arrival_city.as_str(), c.departure_city.as_str()) {
                                    if let Some(_w2) = Self::possible_transfer(b.arrival_time, c.departure_time, q.min_transfer_minutes, Self::transfer_limit_for(b)) {
                                        let mut it = Itinerary::default();
                                        it.addRoute(a.clone());
                                        it.addRoute(b.clone());
                                        it.addRoute(c.clone());
                                        assert(h(ic) == seq![it@]);
                                        out.push(it);
                                        assert(views(out@) =~= old_out2 + h(ic));
                                        added = true;
                                    }
                                }
                                proof {
                                    if !added {
                                        assert(h(ic) =~= Seq::<ItineraryView>::empty());
                                        assert(views(out@) =~= old_out2 + h(ic));
                                    }
                                    assert(views(out@) =~= old_out + concat_map(c_indices@.take(m + 1), h));
                                }
                                m = m + 1;
                            }
                            proof {
                                lemma_concat_map_take_all(c_indices@, h);
                                lemma_concat_map_filter_unused(all_indices(rs.len()), to_requested_at(rs, qv), h);
                                assert(views(out@) =~= old_out + g(ib));
                            }
                        }
                    }
                    proof {
                        if !went_on {
                            assert(g(ib) =~= Seq::<ItineraryView>::empty());
                            assert(views(out@) =~= old_out + g(ib));
                        }
                        assert(views(out@) =~= before + concat_map(b_indices@.take(j + 1), g));
                    }
                    j = j + 1;
                }
                proof {
                    lemma_concat_map_take_all(b_indices@, g);
                    lemma_concat_map_filter_unused(all_indices(rs.len()), pb, g);
                }
            }
            assert(views(out@) =~= concat_map(a_indices@.take(k + 1), f));
            k = k + 1;
        }
        proof {
            lemma_concat_map_take_all(a_indices@, f);
            lemma_concat_map_filter_unused(all_indices(rs.len()), from_requested_at(rs, qv), f);
        }
        out
    }

    /// Whether the last route of the itinerary arrives within the requested window.
    fn passes_arrival_time_filter(&self, it: &Itinerary, q: &SearchFunctionality) -> (b: bool)
        ensures
            b == passes_arrival_window(it@, q@),
    {
        if q.arrival_time_from.is_none() && q.arrival_time_to.is_none() {
            return true;
        }
        let n = it.connections.len();
        if n == 0 {
            return false;
        }
        let last_route = &it.connections[n - 1];
        if let Some(from) = q.arrival_time_from {
            if !reached(last_route.arrival_time, from) {
                return false;
            }
        }
        if let Some(to) = q.arrival_time_to {
            if last_route.arrival_time.secs() > to.secs.secs() {
                return false;
            }
        }
        true
    }

    /// The key of an itinerary under an order.
    fn sort_key_of(it: &Itinerary, sort_by: SortBy) -> (k: i64)
        requires
            it@.connections.len() > 0,
        ensures
            k == sort_key(sort_by, it@),
    {
        match sort_by {
            SortBy::Duration => it.total_duration.num_minutes(),
            SortBy::PriceAscendant(cls) => it.price_for(cls) as i64,
            SortBy::PriceDescendant(cls) => -(it.price_for(cls) as i64),
            SortBy::DepartureTimeAscendant => it.connections[0].departure_time.secs() as i64,
        }
    }

    /// Drops the itineraries above the requested maximum price, then orders
    /// the rest as requested, keeping itineraries with equal keys in their order.
    fn sort(&self, itineraries: &mut Vec<Itinerary>, q: &SearchFunctionality)
        requires
            forall|j: int| 0 <= j < old(itineraries)@.len() ==> (#[trigger] old(itineraries)@[j])@.connections.len() > 0,
        ensures
            is_stable_sort_of(
                views(final(itineraries)@),
                views(old(itineraries)@).filter(max_price_filter(q@)),
                sort_keys(effective_sort(q@)),
            ),
    {
        let mut v: Vec<Itinerary> = Vec::new();
        std::mem::swap(&mut v, itineraries);
        let ghost orig = views(v@);
        assert forall|j: int| 0 <= j < orig.len() implies #[trigger] has_routes()(orig[j]) by {
            assert(orig[j] == v@[j]@);
        }
        if let Some(max_price) = q.max_price {
            let mut keep: Vec<bool> = Vec::new();
            let mut i: usize = 0;
            while i < v.len()
                invariant
                    i <= v@.len(),
                    keep@.len() == i,
                    q.max_price == Some(max_price),
                    forall|j: int| 0 <= j < i ==> keep@[j] == max_price_filter(q@)(#[trigger] v@[j]@),
                decreases v@.len() - i,
            {
                let it = &v[i];
                keep.push(it.price_for(TicketClass::FirstClass) <= max_price && it.price_for(TicketClass::SecondClass) <= max_price);
                i = i + 1;
            }
            v = retain_by(v, &keep, Ghost(max_price_filter(q@)));
        } else {
            proof {
                lemma_filter_all(orig, max_price_filter(q@));
            }
        }
        proof {
            lemma_filter_keeps(orig, max_price_filter(q@), has_routes());
        }
        let sort_by = match q.sort_by {
            Some(s) => s,
            None => SortBy::DepartureTimeAscendant,
        };
        let mut keys: Vec<i64> = Vec::new();
        let mut i: usize = 0;
        while i < v.len()
            invariant
                i <= v@.len(),
                keys@.len() == i,
                sort_by == effective_sort(q@),
                views(v@) == orig.filter(max_price_filter(q@)),
                forall|j: int| 0 <= j < views(v@).len() ==> #[trigger] has_routes()(views(v@)[j]),
                forall|j: int| 0 <= j < i ==> keys@[j] == sort_keys(sort_by)(#[trigger] v@[j]@),
            decreases v@.len() - i,
        {
            assert(has_routes()(views(v@)[i as int]));
            keys.push(Self::sort_key_of(&v[i], sort_by));
            i = i + 1;
        }
        *itineraries = stable_sort_by_key(v, &keys, Ghost(sort_keys(sort_by)));
    }

    /// The itineraries that answer the request: the direct ones, then, where
    /// transfers are allowed, those with one and two stops; only those whose
    /// last route arrives within the requested window and whose prices are
    /// within the requested maximum; put in the requested order.
    pub fn search(&self, q: &SearchFunctionality) -> (r: Vec<Itinerary>)
        ensures
            is_stable_sort_of(views(r@), search_matches(self.routes@, q@), sort_keys(effective_sort(q@))),
            views(r@) == search_result(self.routes@, q@),
            in_requested_order(views(r@), q@),
            forall|j: int| 0 <= j < r@.len() ==> itinerary_consistent(#[trigger] r@[j]@),
    {
        let routes = self.routes.as_slice();
        let idx = IndexSet::build(routes);
        let mut itineraries = Self::direct_routes(routes, &idx, q);
        if q.allowed_transfers {
            let mut one = Self::one_stop_itineraries(routes, &idx, q);
            itineraries.append(&mut one);
            let mut two = Self::two_stop_itineraries(routes, &idx, q);
            itineraries.append(&mut two);
        }
        let ghost found = views(itineraries@);
        assert(found =~= search_candidates(self.routes@, q@));
        let mut keep: Vec<bool> = Vec::new();
        let mut i: usize = 0;
        while i < itineraries.len()
            invariant
                i <= itineraries@.len(),
                keep@.len() == i,
                forall|j: int| 0 <= j < i ==> keep@[j] == arrival_window_filter(q@)(#[trigger] itineraries@[j]@),
            decreases itineraries@.len() - i,
        {
            keep.push(self.passes_arrival_time_filter(&itineraries[i], q));
            i = i + 1;
        }
        let mut itineraries = retain_by(itineraries, &keep, Ghost(arrival_window_filter(q@)));
        proof {
            lemma_candidates_have_routes(self.routes@, q@);
            lemma_filter_keeps(found, arrival_window_filter(q@), has_routes());
            assert forall|j: int| 0 <= j < itineraries@.len() implies (#[trigger] itineraries@[j])@.connections.len() > 0 by {
                assert(views(itineraries@)[j] == itineraries@[j]@);
                assert(has_routes()(views(itineraries@)[j]));
            }
        }
        self.sort(&mut itineraries, q);
        times_all_in_day(routes);
        let n_routes = routes.len();
        proof {
            assert(n_routes == self.routes@.len());
            lemma_search_results_consistent(self.routes@, q@, views(itineraries@));
            assert forall|j: int| 0 <= j < itineraries@.len() implies itinerary_consistent(#[trigger] itineraries@[j]@) by {
                assert(views(itineraries@)[j] == itineraries@[j]@);
            }
            let keys = sort_keys(effective_sort(q@));
            let m = search_matches(self.routes@, q@);
            assert(is_stable_sort_of(views(itineraries@), m, keys));
            lemma_stable_sort_unique(views(itineraries@), search_result(self.routes@, q@), m, keys);
            lemma_search_in_requested_order(self.routes@, q@, views(itineraries@));
        }
        itineraries
    }

    /// The routes of the network.
    pub fn get_all_routes(&self) -> (r: &Vec<Route>)
        ensures
            r == &self.routes,
    {
        &self.routes
    }
}

} // verus!
