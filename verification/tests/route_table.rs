use backend::city::City;
use backend::route_table::{days_from_text, first_word_of, route_from_record, try_route_from_record, CSVRoute, RouteRecordError};
use backend::train_day::{Day, Train};

fn row(id: &str, from: &str, to: &str, dep: &str, arr: &str, train: &str, days: &str) -> CSVRoute {
    CSVRoute {
        id: id.to_string(),
        departure_city: from.to_string(),
        arrival_city: to.to_string(),
        departure_time: dep.to_string(),
        arrival_time: arr.to_string(),
        train_type: train.to_string(),
        days_of_operation: days.to_string(),
        first_class_ticket_rate: 120,
        second_class_ticket_rate: 60,
    }
}

#[test]
fn days_daily_and_lists() {
    assert_eq!(days_from_text("Daily"), Day::daily());
    assert_eq!(days_from_text("Mon,Wed,Fri"), vec![Day::Monday, Day::Wednesday, Day::Friday]);
    assert_eq!(days_from_text("Mon-Fri"), vec![Day::Monday, Day::Friday]);
    assert_eq!(days_from_text("Sat,Sunday,Holiday"), vec![Day::Saturday, Day::Sunday]);
    assert_eq!(days_from_text("daily"), Vec::<Day>::new());
    assert_eq!(days_from_text(""), Vec::<Day>::new());
    assert_eq!(days_from_text("Tue,,Thu"), vec![Day::Tuesday, Day::Thursday]);
}

#[test]
fn first_word_skips_leading_whitespace() {
    assert_eq!(first_word_of("10:00 (+1d)"), Some("10:00"));
    assert_eq!(first_word_of("  \t07:15\u{a0}x"), Some("07:15"));
    assert_eq!(first_word_of("word"), Some("word"));
    assert_eq!(first_word_of("   "), None);
    assert_eq!(first_word_of(""), None);
}

#[test]
fn record_reads_a_route() {
    let r = route_from_record(row("R0042", "Paris", "Lyon", "08:00", "10:05 (+1d)", "TGV", "Mon-Fri")).unwrap();
    assert_eq!(r.id.id, 42);
    assert_eq!(r.departure_city, City::Paris);
    assert_eq!(r.arrival_city, City::Lyon);
    assert_eq!(r.departure_time.secs(), 8 * 3600);
    assert_eq!(r.arrival_time.secs(), 10 * 3600 + 5 * 60);
    assert_eq!(r.train_type, Train::TGV);
    assert_eq!(r.days_of_operation, vec![Day::Monday, Day::Friday]);
    assert_eq!(r.first_class_ticket_rate, 120);
    assert_eq!(r.second_class_ticket_rate, 60);
}

#[test]
fn record_with_unknown_departure_city() {
    match route_from_record(row("R01", "Atlantis", "Lyon", "08:00", "10:00", "TGV", "Daily")) {
        Err(RouteRecordError::UnknownCity(m)) => assert_eq!(m, "Unknown city: Atlantis"),
        other => panic!("unexpected {:?}", other),
    }
}

#[test]
fn record_with_unknown_arrival_city() {
    match route_from_record(row("R01", "Paris", "Lyonn", "08:00", "10:00", "TGV", "Daily")) {
        Err(RouteRecordError::UnknownCity(m)) => assert_eq!(m, "Unknown city: Lyonn"),
        other => panic!("unexpected {:?}", other),
    }
}

#[test]
fn record_with_bad_times() {
    assert!(matches!(
        route_from_record(row("R01", "Paris", "Lyon", "8h00", "10:00", "TGV", "Daily")),
        Err(RouteRecordError::BadTime(_))
    ));
    assert!(matches!(
        route_from_record(row("R01", "Paris", "Lyon", "08:00", "25:00", "TGV", "Daily")),
        Err(RouteRecordError::BadTime(_))
    ));
}

#[test]
fn record_with_unknown_train() {
    match route_from_record(row("R01", "Paris", "Lyon", "08:00", "10:00", "Maglev", "Daily")) {
        Err(RouteRecordError::UnknownTrain(m)) => assert_eq!(m, "Unknown train type: Maglev"),
        other => panic!("unexpected {:?}", other),
    }
}

#[test]
fn record_reports_the_first_bad_field() {
    match route_from_record(row("R01", "Atlantis", "Paris", "bad", "bad", "Maglev", "Daily")) {
        Err(RouteRecordError::UnknownCity(m)) => assert_eq!(m, "Unknown city: Atlantis"),
        other => panic!("unexpected {:?}", other),
    }
}

#[test]
fn record_that_cannot_be_read_at_all() {
    assert!(try_route_from_record(row("R0x", "Paris", "Lyon", "08:00", "10:00", "TGV", "Daily")).is_none());
    assert!(try_route_from_record(row("R", "Paris", "Lyon", "08:00", "10:00", "TGV", "Daily")).is_none());
    assert!(try_route_from_record(row("R07", "Paris", "Lyon", "08:00", "   ", "TGV", "Daily")).is_none());
    assert!(matches!(
        try_route_from_record(row("R07", "Nowhere", "Lyon", "08:00", "   ", "TGV", "Daily")),
        Some(Err(RouteRecordError::UnknownCity(_)))
    ));
    match try_route_from_record(row("R07", "Paris", "Lyon", "08:00", "09:00", "TGV", "Daily")) {
        Some(Ok(r)) => assert_eq!(r.id.id, 7),
        other => panic!("unexpected {:?}", other),
    }
}
