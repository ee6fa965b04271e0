use vstd::prelude::*;
use crate::rail_network::RailNetwork;
use crate::route::{default_route, Route, RouteView};
use crate::seq_util::{is_stable_sort_of, lemma_views_take_next, stable_sort_by_key, views};
use crate::time::Date;

verus! {

/// A traveller.
#[derive(Debug)]
pub struct Person {
    pub id: String,
    pub first_name: String,
    pub last_name: String,
    pub age: u8,
}

/// The plain values of a traveller.
pub ghost struct PersonView {
    pub id: Seq<char>,
    pub first_name: Seq<char>,
    pub last_name: Seq<char>,
    pub age: u8,
}

impl View for Person {
    type V = PersonView;

    open spec fn view(&self) -> PersonView {
        PersonView { id: self.id@, first_name: self.first_name@, last_name: self.last_name@, age: self.age }
    }
}

impl Clone for Person {
    fn clone(&self) -> (r: Self)
        ensures
            r@ == self@,
    {
        Person {
            id: self.id.clone(),
            first_name: self.first_name.clone(),
            last_name: self.last_name.clone(),
            age: self.age,
        }
    }
}

/// A ticket of one traveller on a trip; its identifier is a UUID held as a `u128`.
#[derive(Debug)]
pub struct Ticket {
    pub id: u128,
    pub traveler: Person,
}

/// The plain values of a ticket.
pub ghost struct TicketView {
    pub id: u128,
    pub traveler: PersonView,
}

impl View for Ticket {
    type V = TicketView;

    open spec fn view(&self) -> TicketView {
        TicketView { id: self.id, traveler: self.traveler@ }
    }
}

impl Clone for Ticket {
    fn clone(&self) -> (r: Self)
        ensures
            r@ == self@,
    {
        Ticket { id: self.id, traveler: self.traveler.clone() }
    }
}

/// A booked trip: a route on a date, with one ticket per traveller; its
/// identifier is a UUID held as a `u128`.
#[derive(Debug)]
pub struct Trip {
    pub id: u128,
    pub tickets: Vec<Ticket>,
    pub date: Date,
    pub route: Route,
}

/// The plain values of a trip.
pub ghost struct TripView {
    pub id: u128,
    pub tickets: Seq<TicketView>,
    pub date: Date,
    pub route: RouteView,
}

impl View for Trip {
    type V = TripView;

    open spec fn view(&self) -> TripView {
        TripView { id: self.id, tickets: views(self.tickets@), date: self.date, route: self.route@ }
    }
}

/// A copy of each ticket, in order.
fn clone_tickets(tickets: &Vec<Ticket>) -> (r: Vec<Ticket>)
    ensures
        views(r@) == views(tickets@),
{
    let mut out: Vec<Ticket> = Vec::new();
    let mut i: usize = 0;
    while i < tickets.len()
        invariant
            i <= tickets@.len(),
            views(out@) == views(tickets@.take(i as int)),
        decreases tickets@.len() - i,
    {
        let ghost before = out@;
        let t = tickets[i].clone();
        out.push(t);
        proof {
            lemma_views_take_next(tickets@, i as int);
            assert(views(out@) =~= views(before).push(t@));
        }
        i = i + 1;
    }
    assert(tickets@.take(i as int) =~= tickets@);
    out
}

impl Clone for Trip {
    fn clone(&self) -> (r: Self)
        ensures
            r@ == self@,
    {
        Trip { id: self.id, tickets: clone_tickets(&self.tickets), date: self.date, route: self.route.clone() }
    }
}

/// The identifier bits that mark a random (version 4, RFC 9562 variant) UUID:
/// the version nibble is `4` and the two top bits of the variant are `10`.
pub open spec fn is_v4_uuid(id: u128) -> bool {
    id & 0xF000_C000_0000_0000_0000u128 == 0x4000_8000_0000_0000_0000u128
}

/// A fresh random identifier from `uuid::Uuid::new_v4`, as its 128-bit value.
/// Only the version and variant bits are stated: the rest is random, and two
/// calls may give anything.
#[verifier::external_body]
fn new_uuid_v4() -> (id: u128)
    ensures
        is_v4_uuid(id),
{
    uuid::Uuid::new_v4().as_u128()
}

impl Ticket {
    /// A ticket for `traveler` with a fresh random identifier.
    pub fn new(traveler: Person) -> (r: Ticket)
        ensures
            r.traveler@ == traveler@,
            is_v4_uuid(r.id),
    {
        Ticket { id: new_uuid_v4(), traveler }
    }
}

/// The travellers that the tickets of a trip are for, in order.
pub open spec fn ticket_holders(tickets: Seq<TicketView>) -> Seq<PersonView> {
    tickets.map_values(|t: TicketView| t.traveler)
}

impl Trip {
    /// A trip on `route` on `date`, with one ticket per traveller in the order
    /// given, each ticket and the trip with a fresh random identifier.
    pub fn new(travelers: Vec<Person>, date: Date, route: Route) -> (r: Trip)
        ensures
            ticket_holders(r@.tickets) == views(travelers@),
            forall|i: int| 0 <= i < r@.tickets.len() ==> is_v4_uuid(#[trigger] r@.tickets[i].id),
            r.date == date,
            r.route@ == route@,
            is_v4_uuid(r.id),
    {
        let mut tickets: Vec<Ticket> = Vec::new();
        let mut i: usize = 0;
        while i < travelers.len()
            invariant
                i <= travelers@.len(),
                ticket_holders(views(tickets@)) == views(travelers@.take(i as int)),
                forall|j: int| 0 <= j < tickets@.len() ==> is_v4_uuid(#[trigger] tickets@[j].id),
            decreases travelers@.len() - i,
        {
            let ghost before = tickets@;
            let t = Ticket::new(travelers[i].clone());
            tickets.push(t);
            proof {
                lemma_views_take_next(travelers@, i as int);
                assert(views(tickets@) =~= views(before).push(t@));
                assert(ticket_holders(views(tickets@)) =~= ticket_holders(views(before)).push(t.traveler@));
            }
            i = i + 1;
        }
        assert(travelers@.take(i as int) =~= travelers@);
        let r = Trip { id: new_uuid_v4(), tickets, date, route };
        assert forall|j: int| 0 <= j < r@.tickets.len() implies is_v4_uuid(#[trigger] r@.tickets[j].id) by {
            assert(r@.tickets[j] == r.tickets@[j]@);
        }
        r
    }

    /// Whether the trip belongs to the list asked for, given today's date: a
    /// list of ongoing trips takes every trip, a list of past trips those
    /// before today.
    pub fn is_correct_date_on(&self, is_ongoing: bool, today: Date) -> (r: bool)
        ensures
            r == correct_date(self.date, is_ongoing, today),
    {
        self.date.days_from_ce < today.days_from_ce || is_ongoing
    }
}

/// A trip on `date` belongs to the list asked for, given today's date: every
/// trip to a list of ongoing trips, a trip before today to a list of past trips.
pub open spec fn correct_date(date: Date, is_ongoing: bool, today: Date) -> bool {
    date.days_from_ce < today.days_from_ce || is_ongoing
}

/// A trip on `date` belongs to the list of ongoing trips (`is_ongoing`) when it
/// is today or later, and to the list of past trips when it is before today.
pub open spec fn in_period(is_ongoing: bool, date: Date, today: Date) -> bool {
    is_ongoing == (date.days_from_ce >= today.days_from_ce)
}

/// Whether a trip on `date` belongs to the list asked for (see `in_period`).
pub fn trip_in_period(is_ongoing: bool, date: Date, today: Date) -> (r: bool)
    ensures
        r == in_period(is_ongoing, date, today),
{
    let is_trip_ongoing = date.days_from_ce >= today.days_from_ce;
    (is_ongoing && is_trip_ongoing) || (!is_ongoing && !is_trip_ongoing)
}

/// The key by which a list of trips is ordered: the date for ongoing trips
/// (soonest first), the date negated for past trips (latest first).
pub open spec fn booking_key(is_ongoing: bool) -> spec_fn(TripView) -> int {
    |t: TripView| if is_ongoing { t.date.days_from_ce as int } else { -(t.date.days_from_ce as int) }
}

/// Orders trips by date, soonest first when `is_ongoing`, latest first
/// otherwise; trips on the same date keep their order.
pub fn sort_bookings(trips: Vec<Trip>, is_ongoing: bool) -> (r: Vec<Trip>)
    ensures
        is_stable_sort_of(views(r@), views(trips@), booking_key(is_ongoing)),
        in_date_order(views(r@), is_ongoing),
{
    let mut keys: Vec<i64> = Vec::new();
    let mut i: usize = 0;
    while i < trips.len()
        invariant
            i <= trips@.len(),
            keys@.len() == i,
            forall|j: int| 0 <= j < i ==> keys@[j] == booking_key(is_ongoing)(#[trigger] trips@[j]@),
        decreases trips@.len() - i,
    {
        let d = trips[i].date.days_from_ce as i64;
        if is_ongoing {
            keys.push(d);
        } else {
            keys.push(-d);
        }
        i = i + 1;
    }
    let r = stable_sort_by_key(trips, &keys, Ghost(booking_key(is_ongoing)));
    proof {
        lemma_booking_order(views(r@), views(trips@), is_ongoing);
    }
    r
}

/// Trips listed soonest first (`is_ongoing`) or latest first (otherwise).
pub open spec fn in_date_order(r: Seq<TripView>, is_ongoing: bool) -> bool {
    forall|i: int, j: int| 0 <= i < j < r.len() ==> if is_ongoing {
        (#[trigger] r[i]).date.days_from_ce <= (#[trigger] r[j]).date.days_from_ce
    } else {
        r[i].date.days_from_ce >= r[j].date.days_from_ce
    }
}

/// Trips ordered by `booking_key` are in date order: soonest first for ongoing
/// trips, latest first for past ones.
pub proof fn lemma_booking_order(r: Seq<TripView>, s: Seq<TripView>, is_ongoing: bool)
    requires
        is_stable_sort_of(r, s, booking_key(is_ongoing)),
    ensures
        in_date_order(r, is_ongoing),
{
    let key = booking_key(is_ongoing);
    assert forall|i: int, j: int| 0 <= i < j < r.len() implies if is_ongoing {
        (#[trigger] r[i]).date.days_from_ce <= (#[trigger] r[j]).date.days_from_ce
    } else {
        r[i].date.days_from_ce >= r[j].date.days_from_ce
    } by {
        assert(key(r[i]) <= key(r[j]));
    }
}

/// The first route of `routes` that passes `p`, if any.
pub open spec fn first_route_where(routes: Seq<RouteView>, p: spec_fn(RouteView) -> bool) -> Option<RouteView>
    decreases routes.len(),
{
    if routes.len() == 0 {
        None
    } else if p(routes[0]) {
        Some(routes[0])
    } else {
        first_route_where(routes.drop_first(), p)
    }
}

/// Position `k` holds the first route of `routes` that passes `p`.
pub open spec fn first_passing_at(routes: Seq<RouteView>, p: spec_fn(RouteView) -> bool, k: int) -> bool {
    &&& 0 <= k < routes.len()
    &&& p(routes[k])
    &&& forall|j: int| 0 <= j < k ==> !p(#[trigger] routes[j])
}

/// `first_route_where` gives the route at the first position that passes `p`,
/// and `None` exactly where no route passes.
pub proof fn lemma_first_route_where(routes: Seq<RouteView>, p: spec_fn(RouteView) -> bool)
    ensures
        first_route_where(routes, p) is None <==> (forall|i: int| 0 <= i < routes.len() ==> !p(#[trigger] routes[i])),
        first_route_where(routes, p) matches Some(r)
            ==> exists|k: int| #[trigger] first_passing_at(routes, p, k) && routes[k] == r,
    decreases routes.len(),
{
    if routes.len() > 0 {
        let t = routes.drop_first();
        lemma_first_route_where(t, p);
        if p(routes[0]) {
            assert(first_passing_at(routes, p, 0));
        } else if first_route_where(t, p) is None {
            assert forall|i: int| 0 <= i < routes.len() implies !p(#[trigger] routes[i]) by {
                if i > 0 {
                    assert(t[i - 1] == routes[i]);
                }
            }
        } else {
            let r = first_route_where(t, p).unwrap();
            let k = choose|k: int| #[trigger] first_passing_at(t, p, k) && t[k] == r;
            assert(routes[k + 1] == t[k]);
            assert forall|j: int| 0 <= j < k + 1 implies !p(#[trigger] routes[j]) by {
                if j > 0 {
                    assert(t[j - 1] == routes[j]);
                }
            }
            assert(first_passing_at(routes, p, k + 1));
        }
    }
}

/// The route carries number `n`.
pub open spec fn numbered(n: u16) -> spec_fn(RouteView) -> bool {
    |r: RouteView| r.id == n
}

/// The number of a route as stored with a trip, a signed 16-bit number: the
/// route number where it fits, 0 where it does not.
pub open spec fn stored_number(id: u16) -> int {
    if id <= 0x7fff {
        id as int
    } else {
        0
    }
}

/// The route's number, stored as a signed 16-bit number, is `n`.
pub open spec fn stored_as(n: i16) -> spec_fn(RouteView) -> bool {
    |r: RouteView| stored_number(r.id) == n
}

/// The 16-bit pattern of a signed number read as unsigned.
pub open spec fn as_unsigned(n: i16) -> u16 {
    if n >= 0 {
        n as u16
    } else {
        (n + 0x10000) as u16
    }
}

/// The route that a lookup falls back on (see `default_route`).
pub open spec fn or_default(r: Option<RouteView>) -> RouteView {
    match r {
        Some(x) => x,
        None => default_route(),
    }
}

/// The index of the first route that passes `p`, where `matches[i]` tells
/// whether route `i` passes.
fn first_index(routes: &Vec<Route>, matches: &Vec<bool>, Ghost(p): Ghost<spec_fn(RouteView) -> bool>) -> (r: Option<usize>)
    requires
        matches@.len() == routes@.len(),
        forall|i: int| 0 <= i < routes@.len() ==> matches@[i] == p(#[trigger] routes@[i]@),
    ensures
        match r {
            Some(i) => i < routes@.len() && first_route_where(views(routes@), p) == Some(routes@[i as int]@),
            None => first_route_where(views(routes@), p) is None,
        },
{
    let ghost all = views(routes@);
    let mut i: usize = 0;
    assert(all.skip(0) =~= all);
    while i < routes.len()
        invariant
            i <= routes@.len(),
            all == views(routes@),
            matches@.len() == routes@.len(),
            forall|j: int| 0 <= j < routes@.len() ==> matches@[j] == p(#[trigger] routes@[j]@),
            first_route_where(all, p) == first_route_where(all.skip(i as int), p),
        decreases routes@.len() - i,
    {
        assert(all.skip(i as int)[0] == routes@[i as int]@);
        if matches[i] {
            return Some(i);
        }
        assert(all.skip(i as int).drop_first() =~= all.skip(i + 1));
        i = i + 1;
    }
    None
}

impl RailNetwork {
    /// The first route numbered `route_id`, or the placeholder route where there
    /// is none: the route a booking request names.
    pub fn route_for_booking(&self, route_id: u16) -> (r: Route)
        ensures
            r@ == or_default(first_route_where(views(self.routes@), numbered(route_id))),
    {
        let mut matches: Vec<bool> = Vec::new();
        let mut i: usize = 0;
        while i < self.routes.len()
            invariant
                i <= self.routes@.len(),
                matches@.len() == i,
                forall|j: int| 0 <= j < i ==> matches@[j] == numbered(route_id)(#[trigger] self.routes@[j]@),
            decreases self.routes@.len() - i,
        {
            matches.push(self.routes[i].id.id == route_id);
            i = i + 1;
        }
        match first_index(&self.routes, &matches, Ghost(numbered(route_id))) {
            Some(k) => self.routes[k].clone(),
            None => Route::default(),
        }
    }

    /// The first route whose number, stored as a signed 16-bit number, is
    /// `route_id`, or the placeholder route where there is none: the route of
    /// a trip read back from storage.
    pub fn route_for_stored_trip(&self, route_id: i16) -> (r: Route)
        ensures
            r@ == or_default(first_route_where(views(self.routes@), stored_as(route_id))),
    {
        let mut matches: Vec<bool> = Vec::new();
        let mut i: usize = 0;
        while i < self.routes.len()
            invariant
                i <= self.routes@.len(),
                matches@.len() == i,
                forall|j: int| 0 <= j < i ==> matches@[j] == stored_as(route_id)(#[trigger] self.routes@[j]@),
            decreases self.routes@.len() - i,
        {
            let id = self.routes[i].id.id;
            let stored: i16 = if id <= 0x7fff { id as i16 } else { 0 };
            matches.push(stored == route_id);
            i = i + 1;
        }
        match first_index(&self.routes, &matches, Ghost(stored_as(route_id))) {
            Some(k) => self.routes[k].clone(),
            None => Route::default(),
        }
    }

    /// The first route whose number has the bit pattern of `route_id`, if any:
    /// the route of a booked trip that is being listed.
    pub fn find_route(&self, route_id: i16) -> (r: Option<Route>)
        ensures
            match r {
                Some(x) => first_route_where(views(self.routes@), numbered(as_unsigned(route_id))) == Some(x@),
                None => first_route_where(views(self.routes@), numbered(as_unsigned(route_id))) is None,
            },
    {
        let n: u16 = if route_id >= 0 { route_id as u16 } else { (route_id as i32 + 0x10000) as u16 };
        let mut matches: Vec<bool> = Vec::new();
        let mut i: usize = 0;
        while i < self.routes.len()
            invariant
                i <= self.routes@.len(),
                matches@.len() == i,
                n == as_unsigned(route_id),
                forall|j: int| 0 <= j < i ==> matches@[j] == numbered(n)(#[trigger] self.routes@[j]@),
            decreases self.routes@.len() - i,
        {
            matches.push(self.routes[i].id.id == n);
            i = i + 1;
        }
        match first_index(&self.routes, &matches, Ghost(numbered(n))) {
            Some(k) => Some(self.routes[k].clone()),
            None => None,
        }
    }

    /// Records a booked trip.
    pub fn add_reservation(&mut self, booking: Trip)
        ensures
            views(final(self).reservations@) == views(old(self).reservations@).push(booking@),
            final(self).routes@ == old(self).routes@,
    {
        self.reservations.push(booking);
        assert(views(self.reservations@) =~= views(old(self).reservations@).push(booking@));
    }

    /// Books a trip on `route` on `date` for the travellers, records it and
    /// returns it (see `Trip::new`).
    pub fn book_trip(&mut self, travelers: Vec<Person>, date: Date, route: Route) -> (r: Trip)
        ensures
            ticket_holders(r@.tickets) == views(travelers@),
            forall|i: int| 0 <= i < r@.tickets.len() ==> is_v4_uuid(#[trigger] r@.tickets[i].id),
            r.date == date,
            r.route@ == route@,
            is_v4_uuid(r.id),
            views(final(self).reservations@) == views(old(self).reservations@).push(r@),
            final(self).routes@ == old(self).routes@,
    {
        let reservation = Trip::new(travelers, date, route);
        let copy = reservation.clone();
        self.add_reservation(copy);
        reservation
    }
}

/// A booked trip as it is kept in storage: the route only by its number,
/// stored as a signed 16-bit number.
#[derive(Debug)]
pub struct StoredTrip {
    pub id: u128,
    pub date: Date,
    pub route_id: i16,
    pub tickets: Vec<Ticket>,
}

/// The plain values of a stored trip.
pub ghost struct StoredTripView {
    pub id: u128,
    pub date: Date,
    pub route_id: i16,
    pub tickets: Seq<TicketView>,
}

impl View for StoredTrip {
    type V = StoredTripView;

    open spec fn view(&self) -> StoredTripView {
        StoredTripView { id: self.id, date: self.date, route_id: self.route_id, tickets: views(self.tickets@) }
    }
}

/// A stored trip with its route, `route`.
pub open spec fn with_route(t: StoredTripView, route: RouteView) -> TripView {
    TripView { id: t.id, tickets: t.tickets, date: t.date, route }
}

/// A stored trip as the network loads it: its route is the first route whose
/// number, stored as a signed 16-bit number, is the one stored, or the
/// placeholder route where there is none.
pub open spec fn loaded(routes: Seq<RouteView>, t: StoredTripView) -> TripView {
    with_route(t, or_default(first_route_where(routes, stored_as(t.route_id))))
}

/// `loaded` over a sequence of stored trips.
pub open spec fn loaded_all(routes: Seq<RouteView>, s: Seq<StoredTripView>) -> Seq<TripView> {
    s.map_values(|t: StoredTripView| loaded(routes, t))
}

/// The route of a stored trip that is listed for a traveller: the first route
/// whose number has the bit pattern of the one stored.
pub open spec fn listed_route(routes: Seq<RouteView>, t: StoredTripView) -> Option<RouteView> {
    first_route_where(routes, numbered(as_unsigned(t.route_id)))
}

/// Every stored trip has a route to be listed with.
pub open spec fn all_listed_routes_known(routes: Seq<RouteView>, s: Seq<StoredTripView>) -> bool {
    forall|i: int| 0 <= i < s.len() ==> #[trigger] listed_route(routes, s[i]) is Some
}

/// The stored trip lies in the period asked for (see `in_period`).
pub open spec fn in_period_of(is_ongoing: bool, today: Date) -> spec_fn(StoredTripView) -> bool {
    |t: StoredTripView| in_period(is_ongoing, t.date, today)
}

/// The trips of `s` that lie in the period asked for, in order, each with its
/// listed route.
pub open spec fn listed_trips(routes: Seq<RouteView>, s: Seq<StoredTripView>, is_ongoing: bool, today: Date) -> Seq<TripView> {
    s.filter(in_period_of(is_ongoing, today)).map_values(|t: StoredTripView| with_route(t, listed_route(routes, t).unwrap()))
}

impl RailNetwork {
    /// The network of `routes`, with the stored trips loaded (see `loaded`).
    pub fn new(routes: Vec<Route>, stored: Vec<StoredTrip>) -> (r: RailNetwork)
        ensures
            r.routes@ == routes@,
            views(r.reservations@) == loaded_all(views(routes@), views(stored@)),
    {
        let mut rn = RailNetwork { routes, reservations: Vec::new() };
        let mut i: usize = 0;
        while i < stored.len()
            invariant
                i <= stored@.len(),
                rn.routes@ == routes@,
                views(rn.reservations@) == loaded_all(views(routes@), views(stored@.take(i as int))),
            decreases stored@.len() - i,
        {
            let s = &stored[i];
            let route = rn.route_for_stored_trip(s.route_id);
            let trip = Trip { id: s.id, tickets: clone_tickets(&s.tickets), date: s.date, route };
            let ghost before = rn.reservations@;
            rn.reservations.push(trip);
            proof {
                lemma_views_take_next(stored@, i as int);
                assert(views(rn.reservations@) =~= views(before).push(trip@));
                assert(loaded_all(views(routes@), views(stored@.take(i + 1))) =~= loaded_all(views(routes@), views(stored@.take(i as int))).push(loaded(views(routes@), stored@[i as int]@)));
            }
            i = i + 1;
        }
        assert(stored@.take(i as int) =~= stored@);
        rn
    }

    /// The trips of a traveller that lie in the period asked for, given
    /// today's date: each with its listed route, ordered by date, soonest first
    /// for ongoing trips and latest first for past ones, trips on the same
    /// date in the order given. `None` where a stored trip has no route to be
    /// listed with.
    pub fn filter_bookings(&self, is_ongoing: bool, today: Date, trips: Vec<StoredTrip>) -> (r: Option<Vec<Trip>>)
        ensures
            r is None <==> !all_listed_routes_known(views(self.routes@), views(trips@)),
            r matches Some(v) ==> is_stable_sort_of(
                views(v@),
                listed_trips(views(self.routes@), views(trips@), is_ongoing, today),
                booking_key(is_ongoing),
            ),
            r matches Some(v) ==> in_date_order(views(v@), is_ongoing),
    {
        let ghost routes = views(self.routes@);
        let ghost all = views(trips@);
        let mut out: Vec<Trip> = Vec::new();
        let mut i: usize = 0;
        assert(views(trips@.take(0)).filter(in_period_of(is_ongoing, today)) =~= Seq::<StoredTripView>::empty()) by {
            reveal(Seq::filter);
        }
        while i < trips.len()
            invariant
                i <= trips@.len(),
                routes == views(self.routes@),
                all == views(trips@),
                forall|j: int| 0 <= j < i ==> #[trigger] listed_route(routes, all[j]) is Some,
                views(out@) == listed_trips(routes, views(trips@.take(i as int)), is_ongoing, today),
            decreases trips@.len() - i,
        {
            let t = &trips[i];
            assert(all[i as int] == t@);
            let route = match self.find_route(t.route_id) {
                Some(x) => x,
                None => {
                    return None;
                },
            };
            let ghost before = out@;
            let ghost prefix = views(trips@.take(i as int));
            proof {
                lemma_views_take_next(trips@, i as int);
                prefix.lemma_filter_push(t@, in_period_of(is_ongoing, today));
            }
            if trip_in_period(is_ongoing, t.date, today) {
                let trip = Trip { id: t.id, tickets: clone_tickets(&t.tickets), date: t.date, route };
                out.push(trip);
                assert(views(out@) =~= views(before).push(trip@));
                assert(listed_trips(routes, views(trips@.take(i + 1)), is_ongoing, today) =~= listed_trips(routes, prefix, is_ongoing, today).push(with_route(t@, listed_route(routes, t@).unwrap())));
            } else {
                assert(listed_trips(routes, views(trips@.take(i + 1)), is_ongoing, today) =~= listed_trips(routes, prefix, is_ongoing, today));
            }
            i = i + 1;
        }
        assert(trips@.take(i as int) =~= trips@);
        Some(sort_bookings(out, is_ongoing))
    }
}

/// Every stored trip lies in exactly one of the two periods, so the ongoing
/// and the past trips listed together are as many as the trips stored.
pub proof fn lemma_periods_partition(routes: Seq<RouteView>, s: Seq<StoredTripView>, today: Date)
    ensures
        listed_trips(routes, s, true, today).len() + listed_trips(routes, s, false, today).len() == s.len(),
    decreases s.len(),
{
    reveal(Seq::filter);
    let on = in_period_of(true, today);
    let past = in_period_of(false, today);
    if s.len() > 0 {
        lemma_periods_partition(routes, s.drop_last(), today);
        assert(s.filter(on).len() + s.filter(past).len() == s.drop_last().filter(on).len() + s.drop_last().filter(past).len() + 1);
    }
}

} // verus!
