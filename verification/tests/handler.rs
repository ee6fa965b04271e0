use backend::city::City;
use backend::handler::{
    convert_itinerary_to_domain, convert_route_to_domain, parse_time, parse_time_str, routes_response, search_query,
    search_response, Filters, SearchRequest, Sorter,
};
use backend::itinerary::{Itinerary, SortBy, TicketClass};
use backend::rail_network::RailNetwork;
use backend::route::{Route, RouteID};
use backend::time::{ClockTime, TimeOfDay};
use backend::train_day::{Day, Train};

fn clock(h: u32, m: u32) -> ClockTime {
    ClockTime::new(h * 3600 + m * 60).unwrap()
}

fn sample_route(id: u16, from: City, to: City, dep: ClockTime, arr: ClockTime, first: u16, second: u16) -> Route {
    Route {
        id: RouteID { id },
        departure_city: from,
        arrival_city: to,
        departure_time: dep,
        arrival_time: arr,
        train_type: Train::Intercites,
        days_of_operation: vec![Day::Saturday, Day::Sunday],
        first_class_ticket_rate: first,
        second_class_ticket_rate: second,
    }
}

fn no_filters() -> Filters {
    Filters {
        departure_city: None,
        arrival_city: None,
        earliest_departure: None,
        arrival_time_from: None,
        arrival_time_to: None,
        train_type: None,
        day_of_week: None,
        price_range: None,
        max_price: None,
        allowed_transfers: None,
        min_transfer_minutes: None,
    }
}

fn small_network() -> RailNetwork {
    RailNetwork::new(
        vec![
            sample_route(11, City::Bordeaux, City::Toulouse, clock(7, 0), clock(9, 0), 40, 25),
            sample_route(12, City::Toulouse, City::Marseille, clock(9, 20), clock(13, 0), 55, 35),
            sample_route(13, City::Bordeaux, City::Marseille, clock(6, 0), clock(12, 0), 100, 70),
        ],
        Vec::new(),
    )
}

#[test]
fn times_read_with_or_without_seconds() {
    assert_eq!(parse_time_str("08:30").map(|t| t.secs.secs()), Some(30600));
    assert_eq!(parse_time_str("08:30:15").map(|t| t.secs.secs()), Some(30615));
    assert_eq!(parse_time_str("24:00"), None);
    assert_eq!(parse_time_str("noon"), None);
    assert_eq!(parse_time(&Some("23:59".to_string())).map(|t| t.secs.secs()), Some(86340));
    assert_eq!(parse_time(&None), None);
}

#[test]
fn query_defaults() {
    let req = SearchRequest { filters: no_filters(), sorter: None };
    let q = search_query(&req);
    assert_eq!(q.departure_city, None);
    assert_eq!(q.arrival_city, None);
    assert_eq!(q.earliest_departure, None);
    assert_eq!(q.price_range, Some(TicketClass::SecondClass));
    assert!(q.allowed_transfers);
    assert_eq!(q.min_transfer_minutes, 5);
    assert_eq!(q.sort_by, None);
}

#[test]
fn query_from_request() {
    let mut f = no_filters();
    f.departure_city = Some("Bordeaux".to_string());
    f.arrival_city = Some("marseille".to_string());
    f.earliest_departure = Some("06:30".to_string());
    f.arrival_time_from = Some("12:00".to_string());
    f.arrival_time_to = Some("13:30:00".to_string());
    f.train_type = Some("Intercités".to_string());
    f.day_of_week = Some("saturday".to_string());
    f.price_range = Some("First".to_string());
    f.max_price = Some(200);
    f.allowed_transfers = Some(false);
    f.min_transfer_minutes = Some(15);
    let req = SearchRequest { filters: f, sorter: Some(Sorter { sort_by: Some("PriceDescendant1".to_string()) }) };
    let q = search_query(&req);
    assert_eq!(q.departure_city, Some("Bordeaux"));
    assert_eq!(q.arrival_city, None);
    assert_eq!(q.earliest_departure, None);
    assert_eq!(q.arrival_time_from, Some(TimeOfDay::whole(clock(12, 0))));
    assert_eq!(q.arrival_time_to, Some(TimeOfDay::whole(clock(13, 30))));
    assert_eq!(q.train_type, Some("Intercités"));
    assert_eq!(q.day_of_week, Some("saturday"));
    assert_eq!(q.price_range, Some(TicketClass::FirstClass));
    assert_eq!(q.max_price, Some(200));
    assert!(!q.allowed_transfers);
    assert_eq!(q.min_transfer_minutes, 15);
    assert_eq!(q.sort_by, Some(SortBy::PriceDescendant(TicketClass::FirstClass)));
}

#[test]
fn query_sort_names() {
    let names = [
        ("Duration", Some(SortBy::Duration)),
        ("PriceAscendant1", Some(SortBy::PriceAscendant(TicketClass::FirstClass))),
        ("PriceAscendant2", Some(SortBy::PriceAscendant(TicketClass::SecondClass))),
        ("PriceDescendant2", Some(SortBy::PriceDescendant(TicketClass::SecondClass))),
        ("TimeAscendant", Some(SortBy::DepartureTimeAscendant)),
        ("duration", None),
    ];
    for (n, expected) in names {
        let req = SearchRequest { filters: no_filters(), sorter: Some(Sorter { sort_by: Some(n.to_string()) }) };
        assert_eq!(search_query(&req).sort_by, expected);
    }
    let mut f = no_filters();
    f.price_range = Some("first".to_string());
    f.train_type = Some("Intercites".to_string());
    f.earliest_departure = Some("06:30:00".to_string());
    let req = SearchRequest { filters: f, sorter: Some(Sorter { sort_by: None }) };
    let q = search_query(&req);
    assert_eq!(q.price_range, Some(TicketClass::SecondClass));
    assert_eq!(q.train_type, None);
    assert_eq!(q.earliest_departure, Some(TimeOfDay::whole(clock(6, 30))));
    assert_eq!(q.sort_by, None);
}

#[test]
fn route_reply_fields() {
    let r = sample_route(42, City::Bordeaux, City::Toulouse, clock(7, 5), ClockTime::new(32469).unwrap(), 40, 25);
    let d = convert_route_to_domain(&r);
    assert_eq!(d.idx, 42);
    assert_eq!(d.departure_city, "Bordeaux");
    assert_eq!(d.arrival_city, "Toulouse");
    assert_eq!(d.departure_time, "07:05:00");
    assert_eq!(d.arrival_time, "09:01:09");
    assert_eq!(d.train_type, "Intercités");
    assert_eq!(d.days_of_operation, vec!["Saturday".to_string(), "Sunday".to_string()]);
}

#[test]
fn itinerary_reply_fields() {
    let rn = small_network();
    let mut it = Itinerary::default();
    it.addRoute(rn.routes[0].clone());
    it.addRoute(rn.routes[1].clone());
    let d = convert_itinerary_to_domain(&it, &rn);
    assert_eq!(d.total_duration, 120 + 20 + 220);
    assert_eq!(d.total_price_first, 95);
    assert_eq!(d.total_price_second, 60);
    assert_eq!(d.total_transfers, 1);
    assert_eq!(d.routes.len(), 2);
    assert_eq!(d.routes[1].idx, 12);
    let empty = convert_itinerary_to_domain(&Itinerary::default(), &rn);
    assert_eq!(empty.total_transfers, 0);
    assert_eq!(empty.total_duration, 0);
}

#[test]
fn routes_reply_lists_every_route() {
    let rn = small_network();
    let all = routes_response(&rn);
    assert_eq!(all.len(), 3);
    assert_eq!(all[2].idx, 13);
    assert_eq!(all[2].arrival_city, "Marseille");
}

#[test]
fn search_reply_for_request() {
    let rn = small_network();
    let mut f = no_filters();
    f.departure_city = Some("Bordeaux".to_string());
    f.arrival_city = Some("Marseille".to_string());
    let req = SearchRequest { filters: f, sorter: Some(Sorter { sort_by: Some("Duration".to_string()) }) };
    let replies = search_response(&rn, &req);
    assert_eq!(replies.len(), 2);
    assert_eq!(replies[0].total_duration, 360);
    assert_eq!(replies[0].total_transfers, 0);
    assert_eq!(replies[1].total_duration, 360);
    assert_eq!(replies[1].total_transfers, 1);
    assert_eq!(replies[1].routes[0].idx, 11);
    assert_eq!(replies[1].routes[1].idx, 12);
}

fn reply_summary(rn: &RailNetwork, req: &SearchRequest) -> Vec<(u32, u32, u32, u32, Vec<usize>)> {
    search_response(rn, req)
        .iter()
        .map(|r| (r.total_duration, r.total_price_first, r.total_price_second, r.total_transfers, r.routes.iter().map(|d| d.idx).collect()))
        .collect()
}

#[test]
fn search_reply_defaults_allow_transfers_of_five_minutes() {
    let rn = small_network();
    let mut f1 = no_filters();
    f1.departure_city = Some("Bordeaux".to_string());
    let mut f2 = no_filters();
    f2.departure_city = Some("Bordeaux".to_string());
    f2.allowed_transfers = Some(true);
    f2.min_transfer_minutes = Some(5);
    let r1 = reply_summary(&rn, &SearchRequest { filters: f1, sorter: None });
    let r2 = reply_summary(&rn, &SearchRequest { filters: f2, sorter: None });
    assert_eq!(r1, r2);
    assert_eq!(r1.len(), 3);
}

#[test]
fn search_reply_drops_unknown_names() {
    let rn = small_network();
    let mut f1 = no_filters();
    f1.departure_city = Some("bordeaux".to_string());
    f1.train_type = Some("Intercites".to_string());
    let r1 = reply_summary(&rn, &SearchRequest { filters: f1, sorter: None });
    let r2 = reply_summary(&rn, &SearchRequest { filters: no_filters(), sorter: None });
    assert_eq!(r1, r2);
}

#[test]
fn search_reply_follows_search_item_by_item() {
    let rn = small_network();
    let mut f = no_filters();
    f.departure_city = Some("Bordeaux".to_string());
    let req = SearchRequest { filters: f, sorter: None };
    let q = search_query(&req);
    let its = rn.search(&q);
    let replies = search_response(&rn, &req);
    assert_eq!(its.len(), replies.len());
    for (it, r) in its.iter().zip(replies.iter()) {
        assert_eq!(r.total_duration as i64, it.total_duration.num_minutes());
        assert_eq!(r.total_price_first, it.total_first_price as u32);
        assert_eq!(r.total_transfers as usize, it.connections.len() - 1);
        assert_eq!(r.routes.len(), it.connections.len());
    }
}

#[test]
fn leap_second_times_keep_their_fraction() {
    let t = parse_time_str("12:00:60").unwrap();
    assert_eq!(t.secs.secs(), 12 * 3600 + 59);
    assert_eq!(t.nanos, 1_000_000_000);
    assert_eq!(parse_time_str("12:00:59").unwrap().nanos, 0);
    assert_eq!(parse_time_str("12:00").unwrap().nanos, 0);
}

#[test]
fn leap_second_filter_excludes_the_second_before_it() {
    let rn = RailNetwork::new(
        vec![
            sample_route(21, City::Bordeaux, City::Toulouse, clock(7, 0), ClockTime::new(12 * 3600 + 59).unwrap(), 10, 5),
            sample_route(22, City::Bordeaux, City::Toulouse, clock(7, 30), clock(12, 1), 10, 5),
        ],
        Vec::new(),
    );
    let mut f = no_filters();
    f.arrival_time_from = Some("12:00:60".to_string());
    let replies = reply_summary(&rn, &SearchRequest { filters: f, sorter: None });
    assert_eq!(replies.len(), 1);
    assert_eq!(replies[0].4, vec![22]);
    let mut g = no_filters();
    g.arrival_time_to = Some("12:00:60".to_string());
    let replies = reply_summary(&rn, &SearchRequest { filters: g, sorter: None });
    assert_eq!(replies.len(), 1);
    assert_eq!(replies[0].4, vec![21]);
    let mut h = no_filters();
    h.earliest_departure = Some("07:29:60".to_string());
    let replies = reply_summary(&rn, &SearchRequest { filters: h, sorter: None });
    assert_eq!(replies.len(), 1);
    assert_eq!(replies[0].4, vec![22]);
}
