use backend::city::City;
use backend::itinerary::{Itinerary, SortBy, TicketClass};
use backend::rail_network::{RailNetwork, SearchFunctionality};
use backend::route::{Route, RouteID};
use backend::time::{ClockTime, TimeOfDay};
use backend::train_day::{Day, Train};

fn at(h: u32, m: u32) -> ClockTime {
    ClockTime::new(h * 3600 + m * 60).unwrap()
}

fn leg(id: u16, from: City, to: City, dep: ClockTime, arr: ClockTime, train: Train, days: Vec<Day>, first: u16, second: u16) -> Route {
    Route {
        id: RouteID { id },
        departure_city: from,
        arrival_city: to,
        departure_time: dep,
        arrival_time: arr,
        train_type: train,
        days_of_operation: days,
        first_class_ticket_rate: first,
        second_class_ticket_rate: second,
    }
}

fn network() -> RailNetwork {
    let routes = vec![
        leg(1, City::Paris, City::Lyon, at(8, 0), at(10, 0), Train::TGV, vec![Day::Monday, Day::Tuesday], 100, 50),
        leg(2, City::Lyon, City::Marseille, at(10, 30), at(12, 0), Train::TER, Day::daily(), 40, 20),
        leg(3, City::Paris, City::Marseille, at(9, 0), at(12, 30), Train::TGV, Day::daily(), 150, 80),
        leg(4, City::Marseille, City::Nice, at(13, 0), at(14, 0), Train::TER, Day::daily(), 30, 15),
        leg(5, City::Lyon, City::Paris, at(11, 0), at(13, 0), Train::TGV, Day::daily(), 60, 30),
        leg(6, City::Paris, City::Lyon, at(22, 0), at(23, 50), Train::Nightjet, Day::daily(), 90, 45),
        leg(7, City::Lyon, City::Marseille, at(1, 0), at(2, 30), Train::Nightjet, Day::daily(), 50, 25),
    ];
    RailNetwork::new(routes, Vec::new())
}

fn query<'a>(from: Option<&'a str>, to: Option<&'a str>) -> SearchFunctionality<'a> {
    let mut q = SearchFunctionality::default();
    q.departure_city = from;
    q.arrival_city = to;
    q.allowed_transfers = true;
    q.min_transfer_minutes = 5;
    q
}

fn ids(it: &Itinerary) -> Vec<u16> {
    it.connections.iter().map(|r| r.id.id).collect()
}

fn all_ids(r: &[Itinerary]) -> Vec<Vec<u16>> {
    r.iter().map(ids).collect()
}

#[test]
fn search_finds_direct_and_one_stop_in_departure_order() {
    let rn = network();
    let r = rn.search(&query(Some("Paris"), Some("Marseille")));
    assert_eq!(all_ids(&r), vec![vec![1, 2], vec![3]]);
}

#[test]
fn search_totals_agree_with_routes() {
    let rn = network();
    let r = rn.search(&query(Some("Paris"), Some("Marseille")));
    let two = &r[0];
    assert_eq!(two.total_duration.seconds, 7200 + 1800 + 5400);
    assert_eq!(two.total_duration.num_minutes(), 240);
    assert_eq!(two.total_first_price, 140);
    assert_eq!(two.total_second_price, 70);
    assert_eq!(two.transfer_duration, vec![30]);
    let one = &r[1];
    assert_eq!(one.total_duration.num_minutes(), 210);
    assert!(one.transfer_duration.is_empty());
}

#[test]
fn search_city_names_ignore_ascii_case() {
    let rn = network();
    let r = rn.search(&query(Some("PARIS"), Some("marseille")));
    assert_eq!(all_ids(&r), vec![vec![1, 2], vec![3]]);
}

#[test]
fn search_finds_two_stop_journeys() {
    let rn = network();
    let r = rn.search(&query(Some("Paris"), Some("Nice")));
    assert_eq!(all_ids(&r), vec![vec![1, 2, 4], vec![3, 4]]);
    let three = &r[0];
    assert_eq!(three.total_duration.num_minutes(), 360);
    assert_eq!(three.total_first_price, 170);
    assert_eq!(three.transfer_duration, vec![30, 60]);
}

#[test]
fn search_without_transfers_lists_single_routes() {
    let rn = network();
    let mut q = query(Some("Paris"), Some("Marseille"));
    q.allowed_transfers = false;
    assert_eq!(all_ids(&rn.search(&q)), vec![vec![3]]);
    let mut q2 = query(Some("Paris"), Some("Nice"));
    q2.allowed_transfers = false;
    assert!(rn.search(&q2).is_empty());
}

#[test]
fn search_sorts_by_duration() {
    let rn = network();
    let mut q = query(Some("Paris"), Some("Marseille"));
    q.sort_by = Some(SortBy::Duration);
    assert_eq!(all_ids(&rn.search(&q)), vec![vec![3], vec![1, 2]]);
}

#[test]
fn search_sorts_by_price() {
    let rn = network();
    let mut q = query(Some("Paris"), Some("Marseille"));
    q.sort_by = Some(SortBy::PriceAscendant(TicketClass::FirstClass));
    assert_eq!(all_ids(&rn.search(&q)), vec![vec![1, 2], vec![3]]);
    q.sort_by = Some(SortBy::PriceDescendant(TicketClass::SecondClass));
    assert_eq!(all_ids(&rn.search(&q)), vec![vec![3], vec![1, 2]]);
}

#[test]
fn search_drops_itineraries_above_max_price() {
    let rn = network();
    let mut q = query(Some("Paris"), Some("Marseille"));
    q.max_price = Some(145);
    assert_eq!(all_ids(&rn.search(&q)), vec![vec![1, 2]]);
    q.max_price = Some(140);
    assert_eq!(all_ids(&rn.search(&q)), vec![vec![1, 2]]);
    q.max_price = Some(139);
    assert!(rn.search(&q).is_empty());
}

#[test]
fn search_keeps_arrivals_within_window() {
    let rn = network();
    let mut q = query(Some("Paris"), Some("Marseille"));
    q.arrival_time_from = Some(TimeOfDay::whole(at(12, 15)));
    assert_eq!(all_ids(&rn.search(&q)), vec![vec![3]]);
    let mut q2 = query(Some("Paris"), Some("Marseille"));
    q2.arrival_time_to = Some(TimeOfDay::whole(at(12, 0)));
    assert_eq!(all_ids(&rn.search(&q2)), vec![vec![1, 2]]);
}

#[test]
fn search_filters_train_type_ignoring_case() {
    let rn = network();
    let mut q = query(Some("Paris"), Some("Marseille"));
    q.train_type = Some("tgv");
    assert_eq!(all_ids(&rn.search(&q)), vec![vec![3]]);
}

#[test]
fn search_filters_day_of_week() {
    let rn = network();
    let mut q = query(Some("Paris"), Some("Marseille"));
    q.day_of_week = Some("monday");
    assert_eq!(all_ids(&rn.search(&q)), vec![vec![1, 2], vec![3]]);
    q.day_of_week = Some("Wednesday");
    assert_eq!(all_ids(&rn.search(&q)), vec![vec![3]]);
}

#[test]
fn search_respects_earliest_departure_and_min_transfer() {
    let rn = network();
    let mut q = query(Some("Paris"), Some("Marseille"));
    q.earliest_departure = Some(TimeOfDay::whole(at(8, 30)));
    assert_eq!(all_ids(&rn.search(&q)), vec![vec![3]]);
    let mut q2 = query(Some("Paris"), Some("Marseille"));
    q2.min_transfer_minutes = 45;
    assert_eq!(all_ids(&rn.search(&q2)), vec![vec![3]]);
}

#[test]
fn search_night_transfers_are_limited_to_an_hour() {
    let routes = vec![
        leg(6, City::Paris, City::Lyon, at(22, 0), at(23, 50), Train::Nightjet, Day::daily(), 90, 45),
        leg(8, City::Lyon, City::Marseille, at(0, 30), at(2, 0), Train::Nightjet, Day::daily(), 10, 5),
        leg(7, City::Lyon, City::Marseille, at(1, 0), at(2, 30), Train::Nightjet, Day::daily(), 50, 25),
    ];
    let rn = RailNetwork::new(routes, Vec::new());
    let r = rn.search(&query(Some("Paris"), Some("Marseille")));
    assert_eq!(all_ids(&r), vec![vec![6, 8]]);
    assert_eq!(r[0].transfer_duration, vec![40]);
}

#[test]
fn search_two_stop_does_not_return_to_start() {
    let rn = network();
    let r = rn.search(&query(Some("Paris"), None));
    for it in &r {
        if it.connections.len() == 3 {
            assert!(it.connections[1].arrival_city != City::Paris);
        }
        assert_eq!(it.connections[0].departure_city, City::Paris);
    }
    assert!(r.iter().any(|it| ids(it) == vec![1, 2, 4]));
}

#[test]
fn search_without_cities_lists_every_route_alone() {
    let rn = network();
    let mut q = query(None, None);
    q.allowed_transfers = false;
    let r = rn.search(&q);
    assert_eq!(all_ids(&r), vec![vec![7], vec![1], vec![3], vec![2], vec![5], vec![4], vec![6]]);
}

#[test]
fn search_unknown_city_finds_nothing() {
    let rn = network();
    assert!(rn.search(&query(Some("Atlantis"), None)).is_empty());
}

#[test]
fn get_all_routes_returns_the_network() {
    let rn = network();
    assert_eq!(rn.get_all_routes().len(), 7);
    assert_eq!(rn.get_all_routes()[3].id.id, 4);
}
