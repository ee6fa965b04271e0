use backend::booking::{sort_bookings, trip_in_period, Person, StoredTrip, Ticket, Trip};
use backend::city::City;
use backend::rail_network::RailNetwork;
use backend::route::{Route, RouteID};
use backend::time::{ClockTime, Date};
use backend::train_day::{Day, Train};

const V4_MASK: u128 = 0xF000_C000_0000_0000_0000;
const V4_BITS: u128 = 0x4000_8000_0000_0000_0000;

fn person(id: &str, last: &str) -> Person {
    Person { id: id.to_string(), first_name: "Ada".to_string(), last_name: last.to_string(), age: 36 }
}

fn numbered_route(id: u16) -> Route {
    Route {
        id: RouteID { id },
        departure_city: City::Vienna,
        arrival_city: City::Graz,
        departure_time: ClockTime::new(3600).unwrap(),
        arrival_time: ClockTime::new(7200).unwrap(),
        train_type: Train::Railjet,
        days_of_operation: vec![Day::Tuesday],
        first_class_ticket_rate: 30,
        second_class_ticket_rate: 20,
    }
}

fn stored(id: u128, day: i32, route_id: i16) -> StoredTrip {
    StoredTrip {
        id,
        date: Date { days_from_ce: day },
        route_id,
        tickets: vec![Ticket { id: id + 1000, traveler: person("p1", "Lovelace") }],
    }
}

fn booking_network() -> RailNetwork {
    RailNetwork::new(vec![numbered_route(5), numbered_route(40000), numbered_route(65535), numbered_route(0)], Vec::new())
}

#[test]
fn ticket_ids_are_random_v4_uuids() {
    let t = Ticket::new(person("p9", "Hopper"));
    assert_eq!(t.id & V4_MASK, V4_BITS);
    assert_eq!(t.traveler.last_name, "Hopper");
    let u = Ticket::new(person("p9", "Hopper"));
    assert_eq!(u.id & V4_MASK, V4_BITS);
}

#[test]
fn new_trip_has_one_ticket_per_traveller_in_order() {
    let trip = Trip::new(vec![person("a", "A"), person("b", "B"), person("c", "C")], Date { days_from_ce: 739000 }, numbered_route(5));
    assert_eq!(trip.tickets.len(), 3);
    assert_eq!(trip.tickets[0].traveler.id, "a");
    assert_eq!(trip.tickets[2].traveler.id, "c");
    assert_eq!(trip.date, Date { days_from_ce: 739000 });
    assert_eq!(trip.route.id.id, 5);
    assert_eq!(trip.id & V4_MASK, V4_BITS);
    for t in &trip.tickets {
        assert_eq!(t.id & V4_MASK, V4_BITS);
    }
}

#[test]
fn correct_date_against_today() {
    let trip = Trip::new(vec![], Date { days_from_ce: 100 }, numbered_route(5));
    assert!(trip.is_correct_date_on(false, Date { days_from_ce: 101 }));
    assert!(!trip.is_correct_date_on(false, Date { days_from_ce: 100 }));
    assert!(trip.is_correct_date_on(true, Date { days_from_ce: 50 }));
    let later = Trip::new(vec![], Date { days_from_ce: 3_000_000 }, numbered_route(5));
    assert!(!later.is_correct_date_on(false, Date { days_from_ce: 740_000 }));
    assert!(later.is_correct_date_on(true, Date { days_from_ce: 740_000 }));
}

#[test]
fn periods_split_at_today() {
    let today = Date { days_from_ce: 1000 };
    assert!(trip_in_period(true, Date { days_from_ce: 1000 }, today));
    assert!(trip_in_period(true, Date { days_from_ce: 1001 }, today));
    assert!(!trip_in_period(true, Date { days_from_ce: 999 }, today));
    assert!(trip_in_period(false, Date { days_from_ce: 999 }, today));
    assert!(!trip_in_period(false, Date { days_from_ce: 1000 }, today));
}

#[test]
fn bookings_sorted_by_date_stably() {
    let mk = |id: u128, day: i32| Trip { id, tickets: vec![], date: Date { days_from_ce: day }, route: numbered_route(5) };
    let trips = vec![mk(1, 30), mk(2, 10), mk(3, 30), mk(4, 20)];
    let asc: Vec<u128> = sort_bookings(trips, true).iter().map(|t| t.id).collect();
    assert_eq!(asc, vec![2, 4, 1, 3]);
    let trips = vec![mk(1, 30), mk(2, 10), mk(3, 30), mk(4, 20)];
    let desc: Vec<u128> = sort_bookings(trips, false).iter().map(|t| t.id).collect();
    assert_eq!(desc, vec![1, 3, 4, 2]);
}

#[test]
fn route_lookups() {
    let rn = booking_network();
    assert_eq!(rn.route_for_booking(40000).id.id, 40000);
    assert_eq!(rn.route_for_booking(7).id.id, 0);
    assert_eq!(rn.route_for_booking(7).departure_city, City::ACoruna);
    assert_eq!(rn.route_for_stored_trip(5).departure_city, City::Vienna);
    assert_eq!(rn.route_for_stored_trip(0).id.id, 40000);
    assert_eq!(rn.route_for_stored_trip(-3).departure_city, City::ACoruna);
    assert_eq!(rn.find_route(-1).map(|r| r.id.id), Some(65535));
    assert_eq!(rn.find_route(5).map(|r| r.id.id), Some(5));
    assert!(rn.find_route(6).is_none());
}

#[test]
fn network_loads_stored_trips() {
    let rn = RailNetwork::new(vec![numbered_route(5), numbered_route(6)], vec![stored(1, 10, 6), stored(2, 11, 99)]);
    assert_eq!(rn.reservations.len(), 2);
    assert_eq!(rn.reservations[0].route.id.id, 6);
    assert_eq!(rn.reservations[0].tickets[0].id, 1001);
    assert_eq!(rn.reservations[1].route.departure_city, City::ACoruna);
    assert_eq!(rn.reservations[1].date, Date { days_from_ce: 11 });
}

#[test]
fn filter_bookings_lists_one_period_in_order() {
    let rn = booking_network();
    let today = Date { days_from_ce: 500 };
    let rows = || vec![stored(1, 600, 5), stored(2, 400, 5), stored(3, 500, -1), stored(4, 300, 0)];
    let ongoing = rn.filter_bookings(true, today, rows()).unwrap();
    let on_ids: Vec<u128> = ongoing.iter().map(|t| t.id).collect();
    assert_eq!(on_ids, vec![3, 1]);
    assert_eq!(ongoing[0].route.id.id, 65535);
    let past = rn.filter_bookings(false, today, rows()).unwrap();
    let past_ids: Vec<u128> = past.iter().map(|t| t.id).collect();
    assert_eq!(past_ids, vec![2, 4]);
    assert_eq!(past[1].route.id.id, 0);
    assert_eq!(ongoing.len() + past.len(), rows().len());
}

#[test]
fn filter_bookings_needs_every_route() {
    let rn = booking_network();
    let today = Date { days_from_ce: 500 };
    assert!(rn.filter_bookings(true, today, vec![stored(1, 600, 5), stored(2, 100, 77)]).is_none());
    assert!(rn.filter_bookings(false, today, vec![]).unwrap().is_empty());
}

#[test]
fn booking_records_the_trip() {
    let mut rn = booking_network();
    let route = rn.route_for_booking(5);
    let trip = rn.book_trip(vec![person("x", "Curie")], Date { days_from_ce: 740000 }, route);
    assert_eq!(rn.reservations.len(), 1);
    assert_eq!(rn.reservations[0].id, trip.id);
    assert_eq!(rn.reservations[0].tickets[0].traveler.last_name, "Curie");
    assert_eq!(trip.route.id.id, 5);
    let copy = trip.clone();
    rn.add_reservation(copy);
    assert_eq!(rn.reservations.len(), 2);
    assert_eq!(rn.routes.len(), 4);
}
