use backend::city::{get_all_city_names, City};
use backend::domain;
use backend::handler::{map_train_to_enum, map_weekday_to_enum};
use backend::index::norm;
use backend::route::{Route, RouteID};
use backend::train_day::{get_all_train_names, Day, Train};

#[test]
fn city_names_and_parsing() {
    assert_eq!(City::Zurich.as_str(), "Zurich");
    assert_eq!(City::Lodz.as_str(), "Łódź");
    assert_eq!(City::from_str("A Coruña").unwrap(), City::ACoruna);
    assert_eq!(City::from_str("L'Aquila").unwrap(), City::LAquila);
    assert_eq!(City::from_str("Atlantis").unwrap_err(), "Unknown city: Atlantis");
    assert_eq!(City::from_str("paris").unwrap_err(), "Unknown city: paris");
}

#[test]
fn every_city_name_reads_back_as_its_city() {
    let names = get_all_city_names();
    assert_eq!(names.len(), 249);
    assert_eq!(names[0], "A Coruña");
    assert_eq!(names[248], "Łódź");
    for n in &names {
        assert!(!n.is_empty());
        let c = City::from_str(n).unwrap();
        assert_eq!(c.as_str(), *n);
    }
}

#[test]
fn train_names_and_parsing() {
    let names = get_all_train_names();
    assert_eq!(names.len(), 17);
    assert_eq!(names[0], "AVE");
    assert_eq!(names[7], "Intercités");
    assert_eq!(names[16], "Thalys");
    for n in &names {
        assert_eq!(Train::from_str(n).unwrap().as_str(), *n);
    }
    assert_eq!(Train::from_str("Intercites").unwrap_err(), "Unknown train type: Intercites");
    assert_eq!(Train::Intercites.as_str(), "Intercités");
}

#[test]
fn day_names_and_parsing() {
    assert_eq!(Day::daily(), vec![Day::Monday, Day::Tuesday, Day::Wednesday, Day::Thursday, Day::Friday, Day::Saturday, Day::Sunday]);
    for d in Day::daily() {
        assert_eq!(Day::from_str(d.as_str()).unwrap(), d);
    }
    assert_eq!(Day::from_str("Wed").unwrap(), Day::Wednesday);
    assert_eq!(Day::from_str("Sun").unwrap(), Day::Sunday);
    assert_eq!(Day::from_str("monday").unwrap_err(), "Unknown day: monday");
    assert_eq!(Day::Thursday.as_str(), "Thursday");
}

#[test]
fn weekday_mapping() {
    assert_eq!(map_weekday_to_enum("Monday"), Some(domain::Day::Monday));
    assert_eq!(map_weekday_to_enum("Sunday"), Some(domain::Day::Sunday));
    assert_eq!(map_weekday_to_enum("Mon"), None);
    assert_eq!(map_weekday_to_enum("monday"), None);
}

#[test]
fn train_mapping() {
    assert_eq!(map_train_to_enum("Intercites"), Some(domain::Train::Intercites));
    assert_eq!(map_train_to_enum("Intercités"), None);
    assert_eq!(map_train_to_enum("TGV"), Some(domain::Train::TGV));
    assert_eq!(map_train_to_enum("RegioExpress"), Some(domain::Train::RegioExpress));
    assert_eq!(map_train_to_enum("tgv"), None);
}

#[test]
fn norm_lowers_ascii_only() {
    assert_eq!(norm("PaRiS"), "paris");
    assert_eq!(norm("ŁÓDŹ Kraków"), "ŁÓdŹ kraków");
}

#[test]
fn route_id_text_and_back() {
    let r = RouteID::new("R042".to_string());
    assert_eq!(r.id, 42);
    assert_eq!(r.get_id(), "R042");
    for id in [0u16, 7, 1000, 65535] {
        let back = RouteID::new(RouteID { id }.get_id());
        assert_eq!(back.id, id);
    }
    assert_eq!(RouteID::new("AB+17".to_string()).id, 17);
    let mut s = RouteID { id: 3 };
    s.set_id("R0900".to_string());
    assert_eq!(s.id, 900);
}

#[test]
fn route_default_and_ids() {
    let mut r = Route::default();
    assert_eq!(r.id.id, 0);
    assert_eq!(r.departure_city, City::ACoruna);
    assert_eq!(r.arrival_city, City::ACoruna);
    assert_eq!(r.departure_time.secs(), 0);
    assert_eq!(r.train_type, Train::AVE);
    assert!(r.days_of_operation.is_empty());
    assert_eq!(r.get_id(), "R00");
    r.set_id("R0123".to_string());
    assert_eq!(r.get_id(), "R0123");
    assert_eq!(r.id.id, 123);
}
