use vstd::prelude::*;
use crate::booking::Person;
use crate::city::{city_name, city_named, City};
use crate::domain;
use crate::domain::{ItineraryReply, ItineraryResponse, RouteReply};
use crate::itinerary::{Itinerary, ItineraryView, SortBy, TicketClass};
use crate::rail_network::{search_result, RailNetwork, SearchFunctionality, SearchView};
use crate::route::{Route, RouteView};
use crate::seq_util::{lemma_views_take_next, views};
use crate::text::str_equal;
use crate::time::{chrono_parsed_time, clock_text, div_toward_zero, parse_clock_time, Date, TimeOfDay};
use crate::train_day::{day_name, train_name, train_named, Train};

verus! {

broadcast use vstd::seq_lib::group_seq_properties;

/// The characters of an optional text.
pub open spec fn opt_chars(s: Option<String>) -> Option<Seq<char>> {
    match s {
        Some(t) => Some(t@),
        None => None,
    }
}

/// The order a search asks for, by name.
#[derive(Debug)]
pub struct Sorter {
    pub sort_by: Option<String>,
}

/// The filters of a search, each optional.
#[derive(Debug)]
pub struct Filters {
    pub departure_city: Option<String>,
    pub arrival_city: Option<String>,
    pub earliest_departure: Option<String>,
    pub arrival_time_from: Option<String>,
    pub arrival_time_to: Option<String>,
    pub train_type: Option<String>,
    pub day_of_week: Option<String>,
    pub price_range: Option<String>,
    pub max_price: Option<u16>,
    pub allowed_transfers: Option<bool>,
    pub min_transfer_minutes: Option<i64>,
}

/// A search as a client sends it.
#[derive(Debug)]
pub struct SearchRequest {
    pub filters: Filters,
    pub sorter: Option<Sorter>,
}

/// The plain values of the filters of a search.
pub ghost struct FiltersView {
    pub departure_city: Option<Seq<char>>,
    pub arrival_city: Option<Seq<char>>,
    pub earliest_departure: Option<Seq<char>>,
    pub arrival_time_from: Option<Seq<char>>,
    pub arrival_time_to: Option<Seq<char>>,
    pub train_type: Option<Seq<char>>,
    pub day_of_week: Option<Seq<char>>,
    pub price_range: Option<Seq<char>>,
    pub max_price: Option<u16>,
    pub allowed_transfers: Option<bool>,
    pub min_transfer_minutes: Option<i64>,
}

/// The plain values of a search as a client sends it; `sort_by` is `None`
/// where no sorter is sent.
pub ghost struct SearchRequestView {
    pub filters: FiltersView,
    pub sorter: Option<Option<Seq<char>>>,
}

impl View for Filters {
    type V = FiltersView;

    open spec fn view(&self) -> FiltersView {
        FiltersView {
            departure_city: opt_chars(self.departure_city),
            arrival_city: opt_chars(self.arrival_city),
            earliest_departure: opt_chars(self.earliest_departure),
            arrival_time_from: opt_chars(self.arrival_time_from),
            arrival_time_to: opt_chars(self.arrival_time_to),
            train_type: opt_chars(self.train_type),
            day_of_week: opt_chars(self.day_of_week),
            price_range: opt_chars(self.price_range),
            max_price: self.max_price,
            allowed_transfers: self.allowed_transfers,
            min_transfer_minutes: self.min_transfer_minutes,
        }
    }
}

impl View for SearchRequest {
    type V = SearchRequestView;

    open spec fn view(&self) -> SearchRequestView {
        SearchRequestView {
            filters: self.filters@,
            sorter: match self.sorter {
                Some(s) => Some(opt_chars(s.sort_by)),
                None => None,
            },
        }
    }
}

/// A booking as a client sends it.
#[derive(Debug)]
pub struct BookTripRequest {
    pub travelers: Vec<Person>,
    pub trip_date: Date,
    pub route_id: u16,
}

/// A request for the trips booked by a traveller, ongoing or past.
#[derive(Debug)]
pub struct FilterBookingsRequest {
    pub is_ongoing: bool,
    pub last_name: String,
    pub id: String,
}

// ---- names that clients send ----

/// The day of the week that a client names by its full English name.
pub open spec fn weekday_named(s: Seq<char>) -> Option<domain::Day> {
    if s == "Monday"@ {
        Some(domain::Day::Monday)
    } else if s == "Tuesday"@ {
        Some(domain::Day::Tuesday)
    } else if s == "Wednesday"@ {
        Some(domain::Day::Wednesday)
    } else if s == "Thursday"@ {
        Some(domain::Day::Thursday)
    } else if s == "Friday"@ {
        Some(domain::Day::Friday)
    } else if s == "Saturday"@ {
        Some(domain::Day::Saturday)
    } else if s == "Sunday"@ {
        Some(domain::Day::Sunday)
    } else {
        None
    }
}

/// The day of the week that `day` names (see `weekday_named`).
pub fn map_weekday_to_enum(day: &str) -> (r: Option<domain::Day>)
    ensures
        r == weekday_named(day@),
{
    if str_equal(day, "Monday") {
        Some(domain::Day::Monday)
    } else if str_equal(day, "Tuesday") {
        Some(domain::Day::Tuesday)
    } else if str_equal(day, "Wednesday") {
        Some(domain::Day::Wednesday)
    } else if str_equal(day, "Thursday") {
        Some(domain::Day::Thursday)
    } else if str_equal(day, "Friday") {
        Some(domain::Day::Friday)
    } else if str_equal(day, "Saturday") {
        Some(domain::Day::Saturday)
    } else if str_equal(day, "Sunday") {
        Some(domain::Day::Sunday)
    } else {
        None
    }
}

/// The day of the week, as clients name it, that is the same day as `d`.
pub open spec fn client_day(d: crate::train_day::Day) -> domain::Day {
    match d {
        crate::train_day::Day::Monday => domain::Day::Monday,
        crate::train_day::Day::Tuesday => domain::Day::Tuesday,
        crate::train_day::Day::Wednesday => domain::Day::Wednesday,
        crate::train_day::Day::Thursday => domain::Day::Thursday,
        crate::train_day::Day::Friday => domain::Day::Friday,
        crate::train_day::Day::Saturday => domain::Day::Saturday,
        crate::train_day::Day::Sunday => domain::Day::Sunday,
    }
}

/// A client names each day of the week by the full name under which routes
/// list it, and that name gives that day back.
pub proof fn lemma_weekday_names(d: crate::train_day::Day)
    ensures
        weekday_named(day_name(d)) == Some(client_day(d)),
{
    reveal_strlit("Monday");
    reveal_strlit("Tuesday");
    reveal_strlit("Wednesday");
    reveal_strlit("Thursday");
    reveal_strlit("Friday");
    reveal_strlit("Saturday");
    reveal_strlit("Sunday");
    assert("Monday"@.len() == 6 && "Monday"@[0] == 'M');
    assert("Tuesday"@.len() == 7);
    assert("Wednesday"@.len() == 9);
    assert("Thursday"@.len() == 8 && "Thursday"@[0] == 'T');
    assert("Friday"@.len() == 6 && "Friday"@[0] == 'F');
    assert("Saturday"@.len() == 8 && "Saturday"@[0] == 'S');
    assert("Sunday"@.len() == 6 && "Sunday"@[0] == 'S');
}

/// The kind of train that a client names, in plain ASCII (`Intercites`).
pub open spec fn client_train_named(s: Seq<char>) -> Option<domain::Train> {
    if s == "AVE"@ {
        Some(domain::Train::AVE)
    } else if s == "EuroCity"@ {
        Some(domain::Train::EuroCity)
    } else if s == "Eurostar"@ {
        Some(domain::Train::Eurostar)
    } else if s == "Frecciarossa"@ {
        Some(domain::Train::Frecciarossa)
    } else if s == "IC"@ {
        Some(domain::Train::IC)
    } else if s == "ICE"@ {
        Some(domain::Train::ICE)
    } else if s == "InterCity"@ {
        Some(domain::Train::InterCity)
    } else if s == "Intercites"@ {
        Some(domain::Train::Intercites)
    } else if s == "Italo"@ {
        Some(domain::Train::Italo)
    } else if s == "Nightjet"@ {
        Some(domain::Train::Nightjet)
    } else if s == "RE"@ {
        Some(domain::Train::RE)
    } else if s == "RJX"@ {
        Some(domain::Train::RJX)
    } else if s == "Railjet"@ {
        Some(domain::Train::Railjet)
    } else if s == "RegioExpress"@ {
        Some(domain::Train::RegioExpress)
    } else if s == "TER"@ {
        Some(domain::Train::TER)
    } else if s == "TGV"@ {
        Some(domain::Train::TGV)
    } else if s == "Thalys"@ {
        Some(domain::Train::Thalys)
    } else {
        None
    }
}

/// The kind of train, as clients name it, that is the same kind as `t`.
pub open spec fn client_train(t: Train) -> domain::Train {
    match t {
        Train::AVE => domain::Train::AVE,
        Train::EuroCity => domain::Train::EuroCity,
        Train::Eurostar => domain::Train::Eurostar,
        Train::Frecciarossa => domain::Train::Frecciarossa,
        Train::IC => domain::Train::IC,
        Train::ICE => domain::Train::ICE,
        Train::InterCity => domain::Train::InterCity,
        Train::Intercites => domain::Train::Intercites,
        Train::Italo => domain::Train::Italo,
        Train::Nightjet => domain::Train::Nightjet,
        Train::RE => domain::Train::RE,
        Train::RJX => domain::Train::RJX,
        Train::Railjet => domain::Train::Railjet,
        Train::RegioExpress => domain::Train::RegioExpress,
        Train::TER => domain::Train::TER,
        Train::TGV => domain::Train::TGV,
        Train::Thalys => domain::Train::Thalys,
    }
}

/// A client names each kind of train by the name under which routes list it,
/// and that name gives that kind back; `Intercités` alone is written in plain
/// ASCII, `Intercites`.
pub proof fn lemma_client_train_names(t: Train)
    ensures
        t != Train::Intercites ==> client_train_named(train_name(t)) == Some(client_train(t)),
        client_train_named("Intercites"@) == Some(client_train(Train::Intercites)),
{
    reveal_strlit("AVE");
    reveal_strlit("EuroCity");
    reveal_strlit("Eurostar");
    reveal_strlit("Frecciarossa");
    reveal_strlit("IC");
    reveal_strlit("ICE");
    reveal_strlit("InterCity");
    reveal_strlit("Intercites");
    reveal_strlit("Italo");
    reveal_strlit("Nightjet");
    reveal_strlit("RE");
    reveal_strlit("RJX");
    reveal_strlit("Railjet");
    reveal_strlit("RegioExpress");
    reveal_strlit("TER");
    reveal_strlit("TGV");
    reveal_strlit("Thalys");
    assert("AVE"@.len() == 3 && "AVE"@[0] == 'A' && "AVE"@[1] == 'V');
    assert("EuroCity"@.len() == 8 && "EuroCity"@[0] == 'E' && "EuroCity"@[1] == 'u' && "EuroCity"@[4] == 'C');
    assert("Eurostar"@.len() == 8 && "Eurostar"@[0] == 'E' && "Eurostar"@[1] == 'u' && "Eurostar"@[4] == 's');
    assert("Frecciarossa"@.len() == 12 && "Frecciarossa"@[0] == 'F' && "Frecciarossa"@[1] == 'r');
    assert("IC"@.len() == 2 && "IC"@[0] == 'I' && "IC"@[1] == 'C');
    assert("ICE"@.len() == 3 && "ICE"@[0] == 'I' && "ICE"@[1] == 'C');
    assert("InterCity"@.len() == 9 && "InterCity"@[0] == 'I' && "InterCity"@[1] == 'n');
    assert("Intercites"@.len() == 10 && "Intercites"@[0] == 'I' && "Intercites"@[1] == 'n');
    assert("Italo"@.len() == 5 && "Italo"@[0] == 'I' && "Italo"@[1] == 't');
    assert("Nightjet"@.len() == 8 && "Nightjet"@[0] == 'N' && "Nightjet"@[1] == 'i');
    assert("RE"@.len() == 2 && "RE"@[0] == 'R' && "RE"@[1] == 'E');
    assert("RJX"@.len() == 3 && "RJX"@[0] == 'R' && "RJX"@[1] == 'J');
    assert("Railjet"@.len() == 7 && "Railjet"@[0] == 'R' && "Railjet"@[1] == 'a');
    assert("RegioExpress"@.len() == 12 && "RegioExpress"@[0] == 'R' && "RegioExpress"@[1] == 'e');
    assert("TER"@.len() == 3 && "TER"@[0] == 'T' && "TER"@[1] == 'E');
    assert("TGV"@.len() == 3 && "TGV"@[0] == 'T' && "TGV"@[1] == 'G');
    assert("Thalys"@.len() == 6 && "Thalys"@[0] == 'T' && "Thalys"@[1] == 'h');
}

/// The kind of train that `train` names (see `client_train_named`).
pub fn map_train_to_enum(train: &str) -> (r: Option<domain::Train>)
    ensures
        r == client_train_named(train@),
{
    if str_equal(train, "AVE") {
        Some(domain::Train::AVE)
    } else if str_equal(train, "EuroCity") {
        Some(domain::Train::EuroCity)
    } else if str_equal(train, "Eurostar") {
        Some(domain::Train::Eurostar)
    } else if str_equal(train, "Frecciarossa") {
        Some(domain::Train::Frecciarossa)
    } else if str_equal(train, "IC") {
        Some(domain::Train::IC)
    } else if str_equal(train, "ICE") {
        Some(domain::Train::ICE)
    } else if str_equal(train, "InterCity") {
        Some(domain::Train::InterCity)
    } else if str_equal(train, "Intercites") {
        Some(domain::Train::Intercites)
    } else if str_equal(train, "Italo") {
        Some(domain::Train::Italo)
    } else if str_equal(train, "Nightjet") {
        Some(domain::Train::Nightjet)
    } else if str_equal(train, "RE") {
        Some(domain::Train::RE)
    } else if str_equal(train, "RJX") {
        Some(domain::Train::RJX)
    } else if str_equal(train, "Railjet") {
        Some(domain::Train::Railjet)
    } else if str_equal(train, "RegioExpress") {
        Some(domain::Train::RegioExpress)
    } else if str_equal(train, "TER") {
        Some(domain::Train::TER)
    } else if str_equal(train, "TGV") {
        Some(domain::Train::TGV)
    } else if str_equal(train, "Thalys") {
        Some(domain::Train::Thalys)
    } else {
        None
    }
}

// ---- times ----

/// The time a client writes as `HH:MM:SS` or, failing that, as `HH:MM`, in
/// seconds since midnight.
pub open spec fn flexible_time(s: Seq<char>) -> Option<(u32, u32)> {
    match chrono_parsed_time(s, "%H:%M:%S"@) {
        Some(t) => Some(t),
        None => chrono_parsed_time(s, "%H:%M"@),
    }
}

/// The seconds since midnight and the fraction of an optional time.
pub open spec fn time_of(t: Option<TimeOfDay>) -> Option<(u32, u32)> {
    match t {
        Some(c) => Some(c@),
        None => None,
    }
}

/// Reads a time written as `HH:MM:SS` or `HH:MM` (see `flexible_time`).
pub fn parse_time_str(time_str: &str) -> (r: Option<TimeOfDay>)
    ensures
        time_of(r) == flexible_time(time_str@),
{
    match parse_clock_time(time_str, "%H:%M:%S") {
        Ok(t) => Some(t),
        Err(_) => match parse_clock_time(time_str, "%H:%M") {
            Ok(t) => Some(t),
            Err(_) => None,
        },
    }
}

/// Reads an optional time (see `flexible_time`); `None` stays `None`.
pub fn parse_time(time_str: &Option<String>) -> (r: Option<TimeOfDay>)
    ensures
        time_of(r) == (match opt_chars(*time_str) {
            Some(s) => flexible_time(s),
            None => None,
        }),
{
    match time_str {
        Some(s) => parse_time_str(s.as_str()),
        None => None,
    }
}

// ---- the query a search request asks ----

/// The class whose prices a search shows: first class where the client asks
/// for `First`, second class otherwise.
pub open spec fn price_class_of(s: Option<Seq<char>>) -> TicketClass {
    if s == Some("First"@) {
        TicketClass::FirstClass
    } else {
        TicketClass::SecondClass
    }
}

/// The order that a client names.
pub open spec fn sort_named(s: Seq<char>) -> Option<SortBy> {
    if s == "Duration"@ {
        Some(SortBy::Duration)
    } else if s == "PriceAscendant1"@ {
        Some(SortBy::PriceAscendant(TicketClass::FirstClass))
    } else if s == "PriceAscendant2"@ {
        Some(SortBy::PriceAscendant(TicketClass::SecondClass))
    } else if s == "PriceDescendant1"@ {
        Some(SortBy::PriceDescendant(TicketClass::FirstClass))
    } else if s == "PriceDescendant2"@ {
        Some(SortBy::PriceDescendant(TicketClass::SecondClass))
    } else if s == "TimeAscendant"@ {
        Some(SortBy::DepartureTimeAscendant)
    } else {
        None
    }
}

/// A city name that the client sends, kept where a city carries it.
pub open spec fn known_city(s: Option<Seq<char>>) -> Option<Seq<char>> {
    match s {
        Some(t) => if city_named(t) is Some {
            Some(t)
        } else {
            None
        },
        None => None,
    }
}

/// A train type that the client sends, kept where a kind of train carries it.
pub open spec fn known_train(s: Option<Seq<char>>) -> Option<Seq<char>> {
    match s {
        Some(t) => if train_named(t) is Some {
            Some(t)
        } else {
            None
        },
        None => None,
    }
}

/// The search that a client's request asks for: unknown cities and train
/// types, and times that do not read, are dropped; the earliest departure must
/// read as `HH:MM:SS`, the arrival window as `HH:MM:SS` or `HH:MM`; transfers
/// are allowed and last at least 5 minutes unless the client says otherwise.
pub open spec fn query_of(req: SearchRequestView) -> SearchView {
    let f = req.filters;
    SearchView {
        departure_city: known_city(f.departure_city),
        arrival_city: known_city(f.arrival_city),
        earliest_departure: match f.earliest_departure {
            Some(s) => chrono_parsed_time(s, "%H:%M:%S"@),
            None => None,
        },
        arrival_time_from: match f.arrival_time_from {
            Some(s) => flexible_time(s),
            None => None,
        },
        arrival_time_to: match f.arrival_time_to {
            Some(s) => flexible_time(s),
            None => None,
        },
        train_type: known_train(f.train_type),
        day_of_week: f.day_of_week,
        price_range: Some(price_class_of(f.price_range)),
        max_price: f.max_price,
        allowed_transfers: match f.allowed_transfers {
            Some(b) => b,
            None => true,
        },
        min_transfer_minutes: match f.min_transfer_minutes {
            Some(m) => m,
            None => 5,
        },
        sort_by: match req.sorter {
            Some(Some(s)) => sort_named(s),
            _ => None,
        },
    }
}

/// The display name of the city a client names, where there is one.
fn known_city_name(s: &Option<String>) -> (r: Option<&'static str>)
    ensures
        match r {
            Some(n) => known_city(opt_chars(*s)) == Some(n@),
            None => known_city(opt_chars(*s)) is None,
        },
{
    match s {
        Some(t) => match City::from_str(t.as_str()) {
            Ok(c) => Some(c.as_str()),
            Err(_) => None,
        },
        None => None,
    }
}

/// The display name of the train type a client names, where there is one.
fn known_train_name(s: &Option<String>) -> (r: Option<&'static str>)
    ensures
        match r {
            Some(n) => known_train(opt_chars(*s)) == Some(n@),
            None => known_train(opt_chars(*s)) is None,
        },
{
    match s {
        Some(t) => match Train::from_str(t.as_str()) {
            Ok(k) => Some(k.as_str()),
            Err(_) => None,
        },
        None => None,
    }
}

/// The order a client names (see `sort_named`).
fn sort_by_name(s: &str) -> (r: Option<SortBy>)
    ensures
        r == sort_named(s@),
{
    if str_equal(s, "Duration") {
        Some(SortBy::Duration)
    } else if str_equal(s, "PriceAscendant1") {
        Some(SortBy::PriceAscendant(TicketClass::FirstClass))
    } else if str_equal(s, "PriceAscendant2") {
        Some(SortBy::PriceAscendant(TicketClass::SecondClass))
    } else if str_equal(s, "PriceDescendant1") {
        Some(SortBy::PriceDescendant(TicketClass::FirstClass))
    } else if str_equal(s, "PriceDescendant2") {
        Some(SortBy::PriceDescendant(TicketClass::SecondClass))
    } else if str_equal(s, "TimeAscendant") {
        Some(SortBy::DepartureTimeAscendant)
    } else {
        None
    }
}

/// The search that `req` asks for (see `query_of`).
pub fn search_query<'a>(req: &'a SearchRequest) -> (q: SearchFunctionality<'a>)
    ensures
        q@ == query_of(req@),
{
    let f = &req.filters;
    let earliest_departure = match &f.earliest_departure {
        Some(s) => match parse_clock_time(s.as_str(), "%H:%M:%S") {
            Ok(t) => Some(t),
            Err(_) => None,
        },
        None => None,
    };
    let arrival_time_from = parse_time(&f.arrival_time_from);
    let arrival_time_to = parse_time(&f.arrival_time_to);
    let first = match &f.price_range {
        Some(s) => str_equal(s.as_str(), "First"),
        None => false,
    };
    let price_range = if first {
        Some(TicketClass::FirstClass)
    } else {
        Some(TicketClass::SecondClass)
    };
    let sort_by = match &req.sorter {
        Some(s) => match &s.sort_by {
            Some(name) => sort_by_name(name.as_str()),
            None => None,
        },
        None => None,
    };
    let day_of_week: Option<&'a str> = match &f.day_of_week {
        Some(s) => Some(s.as_str()),
        None => None,
    };
    let allowed_transfers = match f.allowed_transfers {
        Some(b) => b,
        None => true,
    };
    let min_transfer_minutes = match f.min_transfer_minutes {
        Some(m) => m,
        None => 5,
    };
    SearchFunctionality {
        departure_city: known_city_name(&f.departure_city),
        arrival_city: known_city_name(&f.arrival_city),
        earliest_departure,
        arrival_time_from,
        arrival_time_to,
        train_type: known_train_name(&f.train_type),
        day_of_week,
        price_range,
        max_price: f.max_price,
        allowed_transfers,
        min_transfer_minutes,
        sort_by,
    }
}

/// How a request's times are read: the latest and earliest arrival are read
/// as `HH:MM:SS` and, where that fails, as `HH:MM`; the earliest departure
/// only as `HH:MM:SS`; a time that is not sent, or that reads neither way,
/// sets no bound.
pub proof fn lemma_request_times(req: SearchRequestView)
    ensures
        query_of(req).arrival_time_to == (match req.filters.arrival_time_to {
            Some(s) => match chrono_parsed_time(s, "%H:%M:%S"@) {
                Some(t) => Some(t),
                None => chrono_parsed_time(s, "%H:%M"@),
            },
            None => None::<(u32, u32)>,
        }),
        query_of(req).arrival_time_from == (match req.filters.arrival_time_from {
            Some(s) => match chrono_parsed_time(s, "%H:%M:%S"@) {
                Some(t) => Some(t),
                None => chrono_parsed_time(s, "%H:%M"@),
            },
            None => None::<(u32, u32)>,
        }),
        query_of(req).earliest_departure == (match req.filters.earliest_departure {
            Some(s) => chrono_parsed_time(s, "%H:%M:%S"@),
            None => None::<(u32, u32)>,
        }),
{
}

/// The filters of a request that are passed on as they are or with their
/// defaults: the day and the highest price as sent; transfers allowed unless
/// the client sends `false`; a minimum transfer of 5 minutes unless the client
/// sends another; first-class prices only where the client asks for `First`.
pub proof fn lemma_request_filters(req: SearchRequestView)
    ensures
        query_of(req).day_of_week == req.filters.day_of_week,
        query_of(req).max_price == req.filters.max_price,
        query_of(req).allowed_transfers <==> req.filters.allowed_transfers != Some(false),
        req.filters.min_transfer_minutes is None ==> query_of(req).min_transfer_minutes == 5,
        req.filters.min_transfer_minutes matches Some(m) ==> query_of(req).min_transfer_minutes == m,
        req.filters.price_range == Some("First"@) ==> query_of(req).price_range == Some(TicketClass::FirstClass),
        req.filters.price_range != Some("First"@) ==> query_of(req).price_range == Some(TicketClass::SecondClass),
        req.filters.departure_city matches Some(t)
            ==> ((exists|c: City| city_name(c) == t) ==> query_of(req).departure_city == Some(t)),
        !(req.filters.departure_city matches Some(t) && (exists|c: City| city_name(c) == t))
            ==> query_of(req).departure_city is None,
        req.filters.arrival_city matches Some(t)
            ==> ((exists|c: City| city_name(c) == t) ==> query_of(req).arrival_city == Some(t)),
        !(req.filters.arrival_city matches Some(t) && (exists|c: City| city_name(c) == t))
            ==> query_of(req).arrival_city is None,
{
}

/// The six names of an order that a client can send, and what each asks for;
/// any other name, or none, asks for no order.
pub proof fn lemma_sort_names(req: SearchRequestView)
    ensures
        req.sorter == Some(Some("Duration"@)) ==> query_of(req).sort_by == Some(SortBy::Duration),
        req.sorter == Some(Some("PriceAscendant1"@))
            ==> query_of(req).sort_by == Some(SortBy::PriceAscendant(TicketClass::FirstClass)),
        req.sorter == Some(Some("PriceAscendant2"@))
            ==> query_of(req).sort_by == Some(SortBy::PriceAscendant(TicketClass::SecondClass)),
        req.sorter == Some(Some("PriceDescendant1"@))
            ==> query_of(req).sort_by == Some(SortBy::PriceDescendant(TicketClass::FirstClass)),
        req.sorter == Some(Some("PriceDescendant2"@))
            ==> query_of(req).sort_by == Some(SortBy::PriceDescendant(TicketClass::SecondClass)),
        req.sorter == Some(Some("TimeAscendant"@)) ==> query_of(req).sort_by == Some(SortBy::DepartureTimeAscendant),
        !(req.sorter matches Some(Some(s)) && (s == "Duration"@ || s == "PriceAscendant1"@
            || s == "PriceAscendant2"@ || s == "PriceDescendant1"@ || s == "PriceDescendant2"@
            || s == "TimeAscendant"@)) ==> query_of(req).sort_by is None,
{
    reveal_strlit("Duration");
    reveal_strlit("PriceAscendant1");
    reveal_strlit("PriceAscendant2");
    reveal_strlit("PriceDescendant1");
    reveal_strlit("PriceDescendant2");
    reveal_strlit("TimeAscendant");
    assert("Duration"@.len() == 8);
    assert("TimeAscendant"@.len() == 13);
    assert("PriceAscendant1"@.len() == 15 && "PriceAscendant1"@[5] == 'A' && "PriceAscendant1"@[14] == '1');
    assert("PriceAscendant2"@.len() == 15 && "PriceAscendant2"@[5] == 'A' && "PriceAscendant2"@[14] == '2');
    assert("PriceDescendant1"@.len() == 16 && "PriceDescendant1"@[15] == '1');
    assert("PriceDescendant2"@.len() == 16 && "PriceDescendant2"@[15] == '2');
}

// ---- replies ----

/// The number that a 32-bit unsigned field keeps of an integer: its value
/// modulo 2^32.
pub open spec fn wrap_u32(x: int) -> u32 {
    (x % 0x1_0000_0000) as u32
}

/// A route as it is sent to clients: its number, city and train names, times
/// as `HH:MM:SS` and the full names of its days.
pub open spec fn route_reply(r: RouteView) -> RouteReply {
    RouteReply {
        idx: r.id as usize,
        departure_city: city_name(r.departure_city),
        arrival_city: city_name(r.arrival_city),
        departure_time: clock_text(r.departure_time as nat),
        arrival_time: clock_text(r.arrival_time as nat),
        train_type: train_name(r.train_type),
        days_of_operation: day_names(r.days_of_operation),
    }
}

/// The full names of a sequence of days.
pub open spec fn day_names(s: Seq<crate::train_day::Day>) -> Seq<Seq<char>> {
    s.map_values(|d: crate::train_day::Day| day_name(d))
}

/// The replies for a sequence of routes.
pub open spec fn route_replies(s: Seq<RouteView>) -> Seq<RouteReply> {
    s.map_values(|r: RouteView| route_reply(r))
}

/// An itinerary as it is sent to clients: whole minutes of travel, both
/// prices, one transfer fewer than routes (none for no route), and the routes.
pub open spec fn itinerary_reply(it: ItineraryView) -> ItineraryReply {
    ItineraryReply {
        total_duration: wrap_u32(div_toward_zero(it.total_duration, 60)),
        total_price_first: it.total_first_price as u32,
        total_price_second: it.total_second_price as u32,
        total_transfers: wrap_u32(if it.connections.len() > 0 { it.connections.len() - 1 } else { 0 }),
        routes: route_replies(it.connections),
    }
}

/// The replies for a sequence of itineraries.
pub open spec fn itinerary_replies(s: Seq<ItineraryView>) -> Seq<ItineraryReply> {
    s.map_values(|it: ItineraryView| itinerary_reply(it))
}

/// `x` modulo 2^32.
fn wrap_i64(x: i64) -> (r: u32)
    ensures
        r == wrap_u32(x as int),
{
    let t = x % 0x1_0000_0000i64;
    let u = if t < 0 {
        t + 0x1_0000_0000i64
    } else {
        t
    };
    u as u32
}

/// The route as it is sent to clients (see `route_reply`).
pub fn convert_route_to_domain(r: &Route) -> (d: domain::Route)
    ensures
        d@ == route_reply(r@),
        d.idx == r@.id,
        d@.departure_city == city_name(r@.departure_city),
        d@.arrival_city == city_name(r@.arrival_city),
        d@.departure_time == clock_text(r@.departure_time as nat),
        d@.arrival_time == clock_text(r@.arrival_time as nat),
        d@.train_type == train_name(r@.train_type),
        d@.days_of_operation.len() == r@.days_of_operation.len(),
        forall|i: int| 0 <= i < r@.days_of_operation.len()
            ==> #[trigger] d@.days_of_operation[i] == day_name(r@.days_of_operation[i]),
{
    let mut days: Vec<String> = Vec::new();
    let mut i: usize = 0;
    while i < r.days_of_operation.len()
        invariant
            i <= r.days_of_operation@.len(),
            domain::texts(days@) == day_names(r.days_of_operation@.take(i as int)),
        decreases r.days_of_operation@.len() - i,
    {
        let ghost before = days@;
        let name = String::from_str(r.days_of_operation[i].as_str());
        days.push(name);
        assert(r.days_of_operation@.take(i + 1) =~= r.days_of_operation@.take(i as int).push(r.days_of_operation@[i as int]));
        assert(domain::texts(days@) =~= domain::texts(before).push(name@));
        assert(day_names(r.days_of_operation@.take(i + 1)) =~= day_names(r.days_of_operation@.take(i as int)).push(day_name(r.days_of_operation@[i as int])));
        i = i + 1;
    }
    assert(r.days_of_operation@.take(i as int) =~= r.days_of_operation@);
    let d = domain::Route {
        idx: r.id.id as usize,
        departure_city: String::from_str(r.departure_city.as_str()),
        arrival_city: String::from_str(r.arrival_city.as_str()),
        departure_time: r.departure_time.to_string(),
        arrival_time: r.arrival_time.to_string(),
        train_type: String::from_str(r.train_type.as_str()),
        days_of_operation: days,
    };
    assert(d@.days_of_operation =~= route_reply(r@).days_of_operation);
    d
}

/// The itinerary as it is sent to clients (see `itinerary_reply`).
pub fn convert_itinerary_to_domain(it: &Itinerary, _rn: &RailNetwork) -> (d: ItineraryResponse)
    ensures
        d@ == itinerary_reply(it@),
        0 < it@.connections.len() <= 0x1_0000_0000 ==> d.total_transfers + 1 == it@.connections.len(),
        it@.connections.len() == 0 ==> d.total_transfers == 0,
        d.total_price_first == it@.total_first_price,
        d.total_price_second == it@.total_second_price,
        0 <= it@.total_duration < 60 * 0x1_0000_0000 ==> d.total_duration == it@.total_duration / 60,
        d@.routes.len() == it@.connections.len(),
        forall|i: int| 0 <= i < it@.connections.len()
            ==> #[trigger] d@.routes[i] == route_reply(it@.connections[i]),
{
    let mut routes: Vec<domain::Route> = Vec::new();
    let mut i: usize = 0;
    while i < it.connections.len()
        invariant
            i <= it.connections@.len(),
            views(routes@) == route_replies(views(it.connections@.take(i as int))),
        decreases it.connections@.len() - i,
    {
        let ghost before = routes@;
        let d = convert_route_to_domain(&it.connections[i]);
        routes.push(d);
        proof {
            lemma_views_take_next(it.connections@, i as int);
            assert(views(routes@) =~= views(before).push(d@));
            assert(route_replies(views(it.connections@.take(i + 1))) =~= route_replies(views(it.connections@.take(i as int))).push(route_reply(it.connections@[i as int]@)));
        }
        i = i + 1;
    }
    assert(it.connections@.take(i as int) =~= it.connections@);
    let n = it.connections.len();
    let transfers: u64 = if n > 0 {
        (n - 1) as u64
    } else {
        0
    };
    let d = ItineraryResponse {
        total_duration: wrap_i64(it.total_duration.num_minutes()),
        total_price_first: it.total_first_price as u32,
        total_price_second: it.total_second_price as u32,
        total_transfers: (transfers % 0x1_0000_0000u64) as u32,
        routes,
    };
    assert(d@.routes =~= itinerary_reply(it@).routes);
    d
}

/// The routes of the network as they are sent to clients.
pub fn routes_response(rn: &RailNetwork) -> (r: Vec<domain::Route>)
    ensures
        views(r@) == route_replies(views(rn.routes@)),
{
    let routes = rn.get_all_routes();
    let mut out: Vec<domain::Route> = Vec::new();
    let mut i: usize = 0;
    while i < routes.len()
        invariant
            routes == &rn.routes,
            i <= routes@.len(),
            views(out@) == route_replies(views(routes@.take(i as int))),
        decreases routes@.len() - i,
    {
        let ghost before = out@;
        let d = convert_route_to_domain(&routes[i]);
        out.push(d);
        proof {
            lemma_views_take_next(routes@, i as int);
            assert(views(out@) =~= views(before).push(d@));
            assert(route_replies(views(routes@.take(i + 1))) =~= route_replies(views(routes@.take(i as int))).push(route_reply(routes@[i as int]@)));
        }
        i = i + 1;
    }
    assert(routes@.take(i as int) =~= routes@);
    out
}

/// The answer to a client's search: the itineraries that `RailNetwork::search`
/// finds for the query the request asks (see `query_of`), in its order, as
/// they are sent to clients.
pub fn search_response(rn: &RailNetwork, req: &SearchRequest) -> (r: Vec<ItineraryResponse>)
    ensures
        views(r@) == itinerary_replies(search_result(rn.routes@, query_of(req@))),
{
    let q = search_query(req);
    let results = rn.search(&q);
    let mut out: Vec<ItineraryResponse> = Vec::new();
    let mut i: usize = 0;
    while i < results.len()
        invariant
            i <= results@.len(),
            views(out@) == itinerary_replies(views(results@.take(i as int))),
        decreases results@.len() - i,
    {
        let ghost before = out@;
        let d = convert_itinerary_to_domain(&results[i], rn);
        out.push(d);
        proof {
            lemma_views_take_next(results@, i as int);
            assert(views(out@) =~= views(before).push(d@));
            assert(itinerary_replies(views(results@.take(i + 1))) =~= itinerary_replies(views(results@.take(i as int))).push(itinerary_reply(results@[i as int]@)));
        }
        i = i + 1;
    }
    assert(results@.take(i as int) =~= results@);
    assert(itinerary_replies(views(results@)) == views(out@));
    assert(views(results@) == search_result(rn.routes@, query_of(req@)));
    out
}

/// What an itinerary's reply counts: one transfer fewer than it has routes
/// (none for no route), a reply for each route in order, both prices as they
/// are, and the whole minutes of a travel time of less than 2^32 minutes.
pub proof fn lemma_itinerary_reply_counts(it: ItineraryView)
    ensures
        0 < it.connections.len() <= 0x1_0000_0000 ==> itinerary_reply(it).total_transfers + 1 == it.connections.len(),
        it.connections.len() == 0 ==> itinerary_reply(it).total_transfers == 0,
        itinerary_reply(it).routes.len() == it.connections.len(),
        forall|i: int| 0 <= i < it.connections.len()
            ==> (#[trigger] itinerary_reply(it).routes[i]).idx == it.connections[i].id,
        itinerary_reply(it).total_price_first == it.total_first_price,
        itinerary_reply(it).total_price_second == it.total_second_price,
        0 <= it.total_duration < 60 * 0x1_0000_0000 ==> itinerary_reply(it).total_duration == it.total_duration / 60,
{
}

// ---- what the reply to a search request depends on ----

/// The reply to a search request is, item by item, the reply for each
/// itinerary that `RailNetwork::search` lists for the query the request asks:
/// as many items, each with the whole minutes, both prices, one transfer fewer
/// than routes, and the routes of that itinerary.
pub proof fn lemma_reply_follows_search(routes: Seq<Route>, req: SearchRequestView, results: Seq<ItineraryView>)
    requires
        results == search_result(routes, query_of(req)),
    ensures
        itinerary_replies(search_result(routes, query_of(req))).len() == results.len(),
        forall|i: int| 0 <= i < results.len() ==>
            #[trigger] itinerary_replies(search_result(routes, query_of(req)))[i] == itinerary_reply(results[i]),
{
}

/// Two requests that ask the same query get the same reply.
pub proof fn lemma_same_query_same_reply(routes: Seq<Route>, r1: SearchRequestView, r2: SearchRequestView)
    requires
        query_of(r1) == query_of(r2),
    ensures
        itinerary_replies(search_result(routes, query_of(r1))) == itinerary_replies(search_result(routes, query_of(r2))),
{
}

/// A request that leaves out whether transfers are allowed and their minimum
/// asks what one that allows transfers of at least 5 minutes asks, and gets
/// the same reply.
pub proof fn lemma_transfer_defaults(routes: Seq<Route>, r1: SearchRequestView, r2: SearchRequestView)
    requires
        r2.filters.allowed_transfers == Some(true),
        r2.filters.min_transfer_minutes == Some(5i64),
        r1 == (SearchRequestView {
            filters: FiltersView { allowed_transfers: None, min_transfer_minutes: None, ..r2.filters },
            ..r2
        }),
    ensures
        query_of(r1) == query_of(r2),
        itinerary_replies(search_result(routes, query_of(r1))) == itinerary_replies(search_result(routes, query_of(r2))),
{
}

/// A city name is dropped, not matched against, when no city carries it
/// exactly; the same for a train type that no kind of train carries.
pub open spec fn same_or_unknown_city(a: Option<Seq<char>>, b: Option<Seq<char>>) -> bool {
    a == b || (b is None && (a matches Some(s) && city_named(s) is None))
}

/// A train type is dropped when no kind of train carries it exactly.
pub open spec fn same_or_unknown_train(a: Option<Seq<char>>, b: Option<Seq<char>>) -> bool {
    a == b || (b is None && (a matches Some(s) && train_named(s) is None))
}

/// A request that names a city or a train type that does not exist asks what
/// the same request without that filter asks, and gets the same reply.
pub proof fn lemma_unknown_names_dropped(routes: Seq<Route>, r1: SearchRequestView, r2: SearchRequestView)
    requires
        r1.sorter == r2.sorter,
        r1.filters == (FiltersView {
            departure_city: r1.filters.departure_city,
            arrival_city: r1.filters.arrival_city,
            train_type: r1.filters.train_type,
            ..r2.filters
        }),
        same_or_unknown_city(r1.filters.departure_city, r2.filters.departure_city),
        same_or_unknown_city(r1.filters.arrival_city, r2.filters.arrival_city),
        same_or_unknown_train(r1.filters.train_type, r2.filters.train_type),
    ensures
        query_of(r1) == query_of(r2),
        itinerary_replies(search_result(routes, query_of(r1))) == itinerary_replies(search_result(routes, query_of(r2))),
{
}

} // verus!
