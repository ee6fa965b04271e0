use backend::city::City;
use backend::route::{Route, RouteID};
use backend::search_functionality::{search_itineraries, SearchFunctionality, SortBy, TicketClass};
use backend::time::ClockTime;
use backend::train_day::{Day, Train};

fn t(h: u32, m: u32) -> ClockTime {
    ClockTime::new(h * 3600 + m * 60).unwrap()
}

fn r(id: u16, from: City, to: City, dep: ClockTime, arr: ClockTime, first: u16, second: u16) -> Route {
    Route {
        id: RouteID { id },
        departure_city: from,
        arrival_city: to,
        departure_time: dep,
        arrival_time: arr,
        train_type: Train::ICE,
        days_of_operation: Day::daily(),
        first_class_ticket_rate: first,
        second_class_ticket_rate: second,
    }
}

fn old_routes() -> Vec<Route> {
    vec![
        r(1, City::Munich, City::Stuttgart, t(8, 0), t(10, 15), 60, 40),
        r(2, City::Stuttgart, City::Frankfurt, t(10, 30), t(11, 45), 50, 30),
        r(3, City::Munich, City::Frankfurt, t(7, 0), t(10, 30), 130, 90),
        r(4, City::Frankfurt, City::Cologne, t(12, 0), t(13, 5), 40, 20),
        r(5, City::Stuttgart, City::Munich, t(11, 0), t(13, 15), 60, 40),
    ]
}

fn old_query<'a>(from: Option<&'a str>, to: Option<&'a str>) -> SearchFunctionality<'a> {
    let mut q = SearchFunctionality::default();
    q.departure_city = from;
    q.arrival_city = to;
    q.allowed_transfers = true;
    q.min_transfer_minutes = 10;
    q
}

#[test]
fn old_search_lists_indices_in_departure_order() {
    let routes = old_routes();
    let res = search_itineraries(&routes, &old_query(Some("Munich"), Some("Frankfurt")));
    let legs: Vec<Vec<usize>> = res.iter().map(|it| it.connections.clone()).collect();
    assert_eq!(legs, vec![vec![2], vec![0, 1]]);
    assert_eq!(res[1].transfer_duration, vec![15]);
    assert_eq!(res[1].total_duration.seconds, 8100 + 4500 + 900);
    assert_eq!(res[1].price_for(TicketClass::FirstClass), 110);
    assert_eq!(res[1].price_for(TicketClass::SecondClass), 70);
}

#[test]
fn old_search_two_stops_and_sorting() {
    let routes = old_routes();
    let mut q = old_query(Some("Munich"), Some("Cologne"));
    let res = search_itineraries(&routes, &q);
    let legs: Vec<Vec<usize>> = res.iter().map(|it| it.connections.clone()).collect();
    assert_eq!(legs, vec![vec![2, 3], vec![0, 1, 3]]);
    assert_eq!(res[1].transfer_duration, vec![15, 15]);
    assert_eq!(res[1].total_first_price, 150);
    q.sort_by = Some(SortBy::PriceAscendant(TicketClass::FirstClass));
    let res2 = search_itineraries(&routes, &q);
    let legs2: Vec<Vec<usize>> = res2.iter().map(|it| it.connections.clone()).collect();
    assert_eq!(legs2, vec![vec![0, 1, 3], vec![2, 3]]);
}

#[test]
fn old_search_min_transfer_and_no_transfers() {
    let routes = old_routes();
    let mut q = old_query(Some("Munich"), Some("Frankfurt"));
    q.min_transfer_minutes = 20;
    let res = search_itineraries(&routes, &q);
    assert_eq!(res.len(), 1);
    assert_eq!(res[0].connections, vec![2]);
    let mut q2 = old_query(Some("Munich"), Some("Cologne"));
    q2.allowed_transfers = false;
    assert!(search_itineraries(&routes, &q2).is_empty());
}

#[test]
fn old_search_transfers_only_add_itineraries() {
    let routes = old_routes();
    let mut without = old_query(Some("Munich"), None);
    without.allowed_transfers = false;
    let with = old_query(Some("Munich"), None);
    let a = search_itineraries(&routes, &without);
    let b = search_itineraries(&routes, &with);
    let singles_a: Vec<Vec<usize>> = a.iter().map(|it| it.connections.clone()).collect();
    let singles_b: Vec<Vec<usize>> = b.iter().filter(|it| it.connections.len() == 1).map(|it| it.connections.clone()).collect();
    assert_eq!(singles_a, singles_b);
    assert!(b.len() > a.len());
}
