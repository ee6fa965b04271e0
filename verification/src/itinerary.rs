use vstd::prelude::*;
use crate::route::{route_duration, Route, RouteView};
use crate::seq_util::views;
use crate::time::{div_toward_zero, ClockTime, TimeSpan, SECONDS_PER_DAY, SPAN_LIMIT};

verus! {

broadcast use vstd::seq_lib::group_seq_properties;

/// The class of a ticket.
#[derive(Clone, Copy, Debug, PartialEq, Eq, Structural)]
pub enum TicketClass {
    FirstClass,
    SecondClass,
}

/// The order in which search results are listed.
#[derive(Clone, Copy, Debug, PartialEq, Eq, Structural)]
pub enum SortBy {
    Duration,
    PriceAscendant(TicketClass),
    PriceDescendant(TicketClass),
    DepartureTimeAscendant,
}

/// The plain values of an itinerary.
#[verifier::ext_equal]
pub ghost struct ItineraryView {
    pub connections: Seq<RouteView>,
    pub total_duration: int,
    pub total_first_price: u16,
    pub total_second_price: u16,
    pub transfer_duration: Seq<u64>,
}

/// A journey made of one or more routes taken one after the other.
#[derive(Debug)]
pub struct Itinerary {
    pub connections: Vec<Route>,
    pub total_duration: TimeSpan,
    pub total_first_price: u16,
    pub total_second_price: u16,
    pub transfer_duration: Vec<u64>,
}

impl View for Itinerary {
    type V = ItineraryView;

    open spec fn view(&self) -> ItineraryView {
        ItineraryView {
            connections: views(self.connections@),
            total_duration: self.total_duration.seconds as int,
            total_first_price: self.total_first_price,
            total_second_price: self.total_second_price,
            transfer_duration: self.transfer_duration@,
        }
    }
}

/// The itinerary with no routes, no time and no cost.
pub open spec fn empty_itinerary() -> ItineraryView {
    ItineraryView {
        connections: Seq::empty(),
        total_duration: 0,
        total_first_price: 0,
        total_second_price: 0,
        transfer_duration: Seq::empty(),
    }
}

/// The seconds from an arrival to the next departure, waiting into the next
/// day when the departure is earlier in the day than the arrival.
pub open spec fn wait_seconds(prev_arrival: u32, next_departure: u32) -> int {
    let d = next_departure - prev_arrival;
    if d >= 0 {
        d
    } else {
        next_departure + SECONDS_PER_DAY - prev_arrival
    }
}

/// The whole minutes of the wait from an arrival to the next departure.
pub open spec fn wait_minutes(prev_arrival: u32, next_departure: u32) -> int {
    div_toward_zero(wait_seconds(prev_arrival, next_departure), 60)
}

/// A `u16` sum that stops at the largest `u16`.
pub open spec fn saturating_sum(a: u16, b: u16) -> u16 {
    if a + b > u16::MAX {
        u16::MAX
    } else {
        (a + b) as u16
    }
}

/// The minutes of the transfer before `r` when it is added to `it`; none for a
/// first route.
pub open spec fn transfer_before(it: ItineraryView, r: RouteView) -> int {
    if it.connections.len() > 0 {
        wait_minutes(it.connections.last().arrival_time, r.departure_time)
    } else {
        0
    }
}

/// `it` with `r` taken after its last route: the transfer wait is recorded and
/// counted in the time, the route's travel time is counted, and the fares are
/// added up to the largest `u16`.
pub open spec fn add_route(it: ItineraryView, r: RouteView) -> ItineraryView {
    let w = transfer_before(it, r);
    ItineraryView {
        connections: it.connections.push(r),
        total_duration: it.total_duration + w * 60 + route_duration(r),
        total_first_price: saturating_sum(it.total_first_price, r.first_class_ticket_rate),
        total_second_price: saturating_sum(it.total_second_price, r.second_class_ticket_rate),
        transfer_duration: if it.connections.len() > 0 {
            it.transfer_duration.push(w as u64)
        } else {
            it.transfer_duration
        },
    }
}

/// Adding `r` to `it` keeps the time within the range a span may hold.
pub open spec fn add_route_fits(it: ItineraryView, r: RouteView) -> bool {
    let w = transfer_before(it, r);
    &&& -SPAN_LIMIT <= it.total_duration + w * 60 <= SPAN_LIMIT
    &&& -SPAN_LIMIT <= it.total_duration + w * 60 + route_duration(r) <= SPAN_LIMIT
}

/// The price of an itinerary in a class.
pub open spec fn price_in(it: ItineraryView, class: TicketClass) -> u16 {
    match class {
        TicketClass::FirstClass => it.total_first_price,
        TicketClass::SecondClass => it.total_second_price,
    }
}

impl Itinerary {
    /// The itinerary with no routes.
    pub fn default() -> (r: Itinerary)
        ensures
            r@ == empty_itinerary(),
    {
        let r = Itinerary {
            connections: Vec::new(),
            total_duration: TimeSpan { seconds: 0 },
            total_first_price: 0,
            total_second_price: 0,
            transfer_duration: Vec::new(),
        };
        assert(r@.connections =~= Seq::<RouteView>::empty());
        r
    }

    /// The total price in the given class.
    pub fn price_for(&self, cls: TicketClass) -> (r: u16)
        ensures
            r == price_in(self@, cls),
            cls == TicketClass::FirstClass ==> r == self@.total_first_price,
            cls == TicketClass::SecondClass ==> r == self@.total_second_price,
    {
        match cls {
            TicketClass::FirstClass => self.total_first_price,
            TicketClass::SecondClass => self.total_second_price,
        }
    }

    /// Takes `route` after the last route of the itinerary.
    #[allow(non_snake_case)]
    pub fn addRoute(&mut self, route: Route)
        requires
            add_route_fits(old(self)@, route@),
        ensures
            final(self)@ == add_route(old(self)@, route@),
            itinerary_consistent(old(self)@) ==> itinerary_consistent(final(self)@),
    {
        let ghost it = self@;
        let ghost rv = route@;
        let n = self.connections.len();
        if n > 0 {
            let prev_arrival = self.connections[n - 1].arrival_time.secs();
            let dep = route.departure_time.secs() as i64;
            assert(it.connections.last() == self.connections@[n - 1]@);
            let secs_opt = dep.checked_sub(prev_arrival as i64);
            let secs = match secs_opt {
                Some(s) if s >= 0 => s,
                _ => dep + SECONDS_PER_DAY as i64 - (prev_arrival as i64),
            };
            let wait = secs / 60;
            assert(wait == transfer_before(it, route@));
            self.transfer_duration.push(wait as u64);
            self.total_duration = TimeSpan { seconds: self.total_duration.seconds + wait * 60 };
        }
        self.total_duration = TimeSpan { seconds: self.total_duration.seconds + route.duration().seconds };
        self.total_first_price = self.total_first_price.saturating_add(route.first_class_ticket_rate);
        self.total_second_price = self.total_second_price.saturating_add(route.second_class_ticket_rate);
        self.connections.push(route);
        assert(self@.connections =~= it.connections.push(rv));
        proof {
            if itinerary_consistent(it) {
                lemma_add_route_consistent(it, rv);
            }
        }
    }
}

// ---- what addRoute keeps ----

/// Both times of a route lie within one day.
pub open spec fn times_in_day(r: RouteView) -> bool {
    r.departure_time < SECONDS_PER_DAY && r.arrival_time < SECONDS_PER_DAY
}

/// The sum of the travel times of the routes, in seconds.
pub open spec fn total_travel(c: Seq<RouteView>) -> int
    decreases c.len(),
{
    if c.len() == 0 {
        0
    } else {
        total_travel(c.drop_last()) + route_duration(c.last())
    }
}

/// The sum of the transfer waits between consecutive routes, in whole minutes.
pub open spec fn total_waits(c: Seq<RouteView>) -> int
    decreases c.len(),
{
    if c.len() < 2 {
        0
    } else {
        total_waits(c.drop_last()) + wait_minutes(c[c.len() - 2].arrival_time, c.last().departure_time)
    }
}

/// The sum of the fares of the routes in a class.
pub open spec fn total_fare(c: Seq<RouteView>, class: TicketClass) -> int
    decreases c.len(),
{
    if c.len() == 0 {
        0
    } else {
        total_fare(c.drop_last(), class) + match class {
            TicketClass::FirstClass => c.last().first_class_ticket_rate as int,
            TicketClass::SecondClass => c.last().second_class_ticket_rate as int,
        }
    }
}

/// A sum capped at the largest `u16`.
pub open spec fn capped(x: int) -> int {
    if x > u16::MAX {
        u16::MAX as int
    } else {
        x
    }
}

/// The totals of an itinerary agree with its routes: one recorded transfer
/// between each two consecutive routes, holding the wait between them; the
/// time is the travel time of the routes plus the waits; each price is the sum
/// of the fares of its class, capped at the largest `u16`.
pub open spec fn itinerary_consistent(it: ItineraryView) -> bool {
    let c = it.connections;
    &&& it.transfer_duration.len() == (if c.len() > 0 { c.len() - 1 } else { 0 })
    &&& forall|i: int| 0 <= i < it.transfer_duration.len() ==>
        #[trigger] it.transfer_duration[i] as int == wait_minutes(c[i].arrival_time, c[i + 1].departure_time)
    &&& it.total_duration == total_travel(c) + 60 * total_waits(c)
    &&& it.total_first_price as int == capped(total_fare(c, TicketClass::FirstClass))
    &&& it.total_second_price as int == capped(total_fare(c, TicketClass::SecondClass))
}

/// The itinerary with no routes agrees with its (no) routes.
pub proof fn lemma_empty_itinerary_consistent()
    ensures
        itinerary_consistent(empty_itinerary()),
{
}

/// Taking one more route keeps an itinerary's totals in agreement with its
/// routes, where the wait between the last route and the new one runs between
/// times within one day: `addRoute` records the wait, adds the route's travel
/// time and the wait to the time, and adds its fares, capped, to the prices.
pub proof fn lemma_add_route_consistent(it: ItineraryView, r: RouteView)
    requires
        itinerary_consistent(it),
        it.connections.len() > 0 ==> it.connections.last().arrival_time < SECONDS_PER_DAY && r.departure_time < SECONDS_PER_DAY,
    ensures
        itinerary_consistent(add_route(it, r)),
{
    let c = it.connections;
    let n = add_route(it, r);
    let c2 = n.connections;
    assert(c2 == c.push(r));
    assert(c2.drop_last() =~= c);
    assert(total_travel(c2) == total_travel(c) + route_duration(r));
    assert(total_fare(c2, TicketClass::FirstClass) == total_fare(c, TicketClass::FirstClass) + r.first_class_ticket_rate);
    assert(total_fare(c2, TicketClass::SecondClass) == total_fare(c, TicketClass::SecondClass) + r.second_class_ticket_rate);
    if c.len() > 0 {
        let w = transfer_before(it, r);
        assert(w == wait_minutes(c.last().arrival_time, r.departure_time));
        assert(0 <= wait_seconds(c.last().arrival_time, r.departure_time));
        assert(0 <= w <= 1440);
        assert(total_waits(c2) == total_waits(c) + w);
        assert forall|i: int| 0 <= i < n.transfer_duration.len() implies
            #[trigger] n.transfer_duration[i] as int == wait_minutes(c2[i].arrival_time, c2[i + 1].departure_time) by {
            if i < it.transfer_duration.len() {
                assert(n.transfer_duration[i] == it.transfer_duration[i]);
                assert(c2[i] == c[i]);
                assert(c2[i + 1] == c[i + 1]);
            } else {
                assert(i == c.len() - 1);
                assert(c2[i] == c.last());
                assert(c2[i + 1] == r);
            }
        }
    } else {
        assert(total_waits(c2) == 0);
    }
}

} // verus!
