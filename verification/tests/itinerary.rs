use backend::city::City;
use backend::itinerary::{Itinerary, TicketClass};
use backend::route::{Route, RouteID};
use backend::time::{ClockTime, TimeSpan};
use backend::train_day::{Day, Train};

fn hm(h: u32, m: u32) -> ClockTime {
    ClockTime::new(h * 3600 + m * 60).unwrap()
}

fn trip_leg(dep: ClockTime, arr: ClockTime, first: u16, second: u16) -> Route {
    Route {
        id: RouteID { id: 9 },
        departure_city: City::Berlin,
        arrival_city: City::Hamburg,
        departure_time: dep,
        arrival_time: arr,
        train_type: Train::ICE,
        days_of_operation: vec![Day::Friday],
        first_class_ticket_rate: first,
        second_class_ticket_rate: second,
    }
}

#[test]
fn default_itinerary_is_empty() {
    let it = Itinerary::default();
    assert!(it.connections.is_empty());
    assert_eq!(it.total_duration, TimeSpan { seconds: 0 });
    assert_eq!(it.total_first_price, 0);
    assert_eq!(it.total_second_price, 0);
    assert!(it.transfer_duration.is_empty());
}

#[test]
fn add_route_sums_times_waits_and_fares() {
    let mut it = Itinerary::default();
    it.addRoute(trip_leg(hm(8, 0), hm(9, 30), 20, 10));
    assert_eq!(it.total_duration.seconds, 5400);
    assert!(it.transfer_duration.is_empty());
    it.addRoute(trip_leg(hm(9, 45), hm(11, 0), 30, 15));
    assert_eq!(it.transfer_duration, vec![15]);
    assert_eq!(it.total_duration.seconds, 5400 + 15 * 60 + 4500);
    assert_eq!(it.price_for(TicketClass::FirstClass), 50);
    assert_eq!(it.price_for(TicketClass::SecondClass), 25);
    assert_eq!(it.connections.len(), 2);
}

#[test]
fn add_route_waits_past_midnight() {
    let mut it = Itinerary::default();
    it.addRoute(trip_leg(hm(22, 0), hm(23, 30), 1, 1));
    it.addRoute(trip_leg(hm(0, 15), hm(1, 0), 1, 1));
    assert_eq!(it.transfer_duration, vec![45]);
    assert_eq!(it.total_duration.seconds, 5400 + 45 * 60 + 2700);
}

#[test]
fn add_route_counts_whole_minutes_of_wait() {
    let mut it = Itinerary::default();
    it.addRoute(trip_leg(ClockTime::new(0).unwrap(), ClockTime::new(100).unwrap(), 0, 0));
    it.addRoute(trip_leg(ClockTime::new(219).unwrap(), ClockTime::new(300).unwrap(), 0, 0));
    assert_eq!(it.transfer_duration, vec![1]);
    assert_eq!(it.total_duration.seconds, 100 + 60 + 81);
}

#[test]
fn add_route_caps_prices() {
    let mut it = Itinerary::default();
    it.addRoute(trip_leg(hm(8, 0), hm(9, 0), 60000, 100));
    it.addRoute(trip_leg(hm(9, 30), hm(10, 0), 10000, 200));
    assert_eq!(it.total_first_price, u16::MAX);
    assert_eq!(it.total_second_price, 300);
}

#[test]
fn overnight_route_duration_wraps_to_next_day() {
    let r = trip_leg(hm(23, 0), hm(1, 30), 0, 0);
    assert!(r.arrival_is_next_day());
    assert_eq!(r.duration().seconds, 9000);
    let s = trip_leg(hm(7, 0), hm(7, 0), 0, 0);
    assert!(!s.arrival_is_next_day());
    assert_eq!(s.duration().seconds, 0);
}

#[test]
fn time_span_minutes_round_toward_zero() {
    assert_eq!(TimeSpan { seconds: 119 }.num_minutes(), 1);
    assert_eq!(TimeSpan { seconds: -119 }.num_minutes(), -1);
    assert_eq!(TimeSpan { seconds: 0 }.num_minutes(), 0);
}

#[test]
fn clock_time_reads_and_prints() {
    let t = ClockTime::from_hms_opt(8, 5, 9).unwrap();
    assert_eq!(t.secs(), 29109);
    assert_eq!(t.to_string(), "08:05:09");
    assert_eq!(ClockTime::from_hms_opt(23, 59, 59).unwrap().to_string(), "23:59:59");
    assert!(ClockTime::from_hms_opt(24, 0, 0).is_none());
    assert!(ClockTime::from_hms_opt(12, 60, 0).is_none());
    assert!(ClockTime::from_hms_opt(12, 0, 60).is_none());
}
