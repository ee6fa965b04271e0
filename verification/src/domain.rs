use vstd::prelude::*;
use crate::seq_util::views;

verus! {

/// A kind of train, as clients name it.
#[derive(Clone, Copy, Debug, PartialEq, Eq, Structural)]
pub enum Train {
    AVE,
    EuroCity,
    Eurostar,
    Frecciarossa,
    IC,
    ICE,
    InterCity,
    Intercites,
    Italo,
    Nightjet,
    RE,
    RJX,
    Railjet,
    RegioExpress,
    TER,
    TGV,
    Thalys,
}

/// A day of the week, as clients name it.
#[derive(Clone, Copy, Debug, PartialEq, Eq, Structural)]
pub enum Day {
    Monday,
    Tuesday,
    Wednesday,
    Thursday,
    Friday,
    Saturday,
    Sunday,
}

/// A route as it is sent to clients: its number and every other field as text.
#[derive(Debug)]
pub struct Route {
    pub idx: usize,
    pub departure_city: String,
    pub arrival_city: String,
    pub departure_time: String,
    pub arrival_time: String,
    pub train_type: String,
    pub days_of_operation: Vec<String>,
}

/// The plain values of a route as it is sent to clients.
pub ghost struct RouteReply {
    pub idx: usize,
    pub departure_city: Seq<char>,
    pub arrival_city: Seq<char>,
    pub departure_time: Seq<char>,
    pub arrival_time: Seq<char>,
    pub train_type: Seq<char>,
    pub days_of_operation: Seq<Seq<char>>,
}

/// The characters of each text of a sequence.
pub open spec fn texts(s: Seq<String>) -> Seq<Seq<char>> {
    s.map_values(|t: String| t@)
}

impl View for Route {
    type V = RouteReply;

    open spec fn view(&self) -> RouteReply {
        RouteReply {
            idx: self.idx,
            departure_city: self.departure_city@,
            arrival_city: self.arrival_city@,
            departure_time: self.departure_time@,
            arrival_time: self.arrival_time@,
            train_type: self.train_type@,
            days_of_operation: texts(self.days_of_operation@),
        }
    }
}

/// An itinerary as it is sent to clients: minutes of travel, the two prices,
/// the number of transfers and the routes.
#[derive(Debug)]
pub struct ItineraryResponse {
    pub total_duration: u32,
    pub total_price_first: u32,
    pub total_price_second: u32,
    pub total_transfers: u32,
    pub routes: Vec<Route>,
}

/// The plain values of an itinerary as it is sent to clients.
pub ghost struct ItineraryReply {
    pub total_duration: u32,
    pub total_price_first: u32,
    pub total_price_second: u32,
    pub total_transfers: u32,
    pub routes: Seq<RouteReply>,
}

impl View for ItineraryResponse {
    type V = ItineraryReply;

    open spec fn view(&self) -> ItineraryReply {
        ItineraryReply {
            total_duration: self.total_duration,
            total_price_first: self.total_price_first,
            total_price_second: self.total_price_second,
            total_transfers: self.total_transfers,
            routes: views(self.routes@),
        }
    }
}

} // verus!
