use vstd::prelude::*;
use vstd::utf8::{encode_utf8, encode_utf8_valid_utf8, is_ascii_chars, is_ascii_chars_encode_utf8, is_char_boundary, valid_utf8, pop_first_scalar};
use crate::city::City;
use crate::text::{decimal, decimal_bytes, lemma_decimal_digits, parse_unsigned, parse_unsigned_bytes, push_decimal, unsigned_digits};
use crate::time::{ClockTime, TimeSpan, SECONDS_PER_DAY};
use crate::train_day::{Day, Train};

verus! {

/// The number of a route.
#[derive(Clone, Copy, Debug, PartialEq, Eq, Structural)]
pub struct RouteID {
    pub id: u16,
}

/// The text of a route number: `R0` followed by the number in decimal.
pub open spec fn route_id_text(id: u16) -> Seq<char> {
    seq!['R', '0'] + decimal(id as nat)
}

/// The number that a route identifier text carries: the text after its first two
/// bytes, read as a `u16`. `None` where the text is shorter than two bytes, where
/// the second byte ends inside a character, or where the rest is no `u16`.
pub open spec fn route_number_of(text: Seq<char>) -> Option<nat> {
    let b = encode_utf8(text);
    if b.len() >= 2 && is_char_boundary(b, 2) {
        parse_unsigned(b.skip(2), 0xffff)
    } else {
        None
    }
}

/// Reading the number back out of a route's identifier text gives the route
/// number: `RouteID::new(r.get_id())` is `r`.
pub proof fn lemma_route_id_roundtrip(id: u16)
    ensures
        route_number_of(route_id_text(id)) == Some(id as nat),
{
    let t = route_id_text(id);
    lemma_decimal_digits(id as nat);
    assert(is_ascii_chars(t)) by {
        assert forall|i: int| 0 <= i < t.len() implies '\0' <= #[trigger] t[i] <= '\u{7f}' by {
            if i >= 2 {
                assert(t[i] == decimal(id as nat)[i - 2]);
            }
        }
    }
    is_ascii_chars_encode_utf8(t);
    let b = encode_utf8(t);
    assert(b.skip(2) =~= decimal_bytes(id as nat)) by {
        assert forall|i: int| 0 <= i < b.len() - 2 implies #[trigger] b.skip(2)[i] == decimal_bytes(id as nat)[i] by {
            assert(t[i + 2] == decimal(id as nat)[i]);
        }
    }
    encode_utf8_valid_utf8(t);
    assert(b[0] == 82u8);
    assert(b[1] == 48u8);
    let b1 = pop_first_scalar(b);
    assert(b1 =~= b.subrange(1, b.len() as int));
    assert(b1[0] == 48u8);
    assert(valid_utf8(b1));
    let b2 = pop_first_scalar(b1);
    assert(is_char_boundary(b2, 0));
    assert(is_char_boundary(b1, 1));
    assert(is_char_boundary(b, 2));
    assert(unsigned_digits(b.skip(2)) == decimal_bytes(id as nat));
}

/// Reads the number out of a route identifier text.
pub(crate) fn route_number(text: &String) -> (r: Option<u16>)
    ensures
        r matches Some(n) ==> route_number_of(text@) == Some(n as nat),
        r is None ==> route_number_of(text@) is None,
{
    let s = text.as_str();
    let b = s.as_bytes();
    if b.len() >= 2 && s.is_char_boundary(2) {
        match parse_unsigned_bytes(b, 2, 0xffff) {
            Some(v) => Some(v as u16),
            None => None,
        }
    } else {
        None
    }
}

impl RouteID {
    /// The route number that `id` carries after its two-character prefix.
    pub fn new(id: String) -> (r: RouteID)
        requires
            route_number_of(id@) is Some,
        ensures
            route_number_of(id@) == Some(r.id as nat),
    {
        match route_number(&id) {
            Some(n) => RouteID { id: n },
            None => RouteID { id: 0 },
        }
    }

    /// The identifier text `R0<number>`.
    pub fn get_id(&self) -> (r: String)
        ensures
            r@ == route_id_text(self.id),
    {
        let mut r = String::new();
        r.append("R0");
        push_decimal(&mut r, self.id as u64);
        proof {
            reveal_strlit("R0");
            assert(r@ =~= route_id_text(self.id));
        }
        r
    }

    /// Replaces the number by the one that `route_id` carries after its
    /// two-character prefix.
    pub fn set_id(&mut self, route_id: String)
        requires
            route_number_of(route_id@) is Some,
        ensures
            route_number_of(route_id@) == Some(final(self).id as nat),
    {
        match route_number(&route_id) {
            Some(n) => {
                self.id = n;
            },
            None => {},
        }
    }
}

/// The plain values of a route.
pub ghost struct RouteView {
    pub id: u16,
    pub departure_city: City,
    pub arrival_city: City,
    pub departure_time: u32,
    pub arrival_time: u32,
    pub train_type: Train,
    pub days_of_operation: Seq<Day>,
    pub first_class_ticket_rate: u16,
    pub second_class_ticket_rate: u16,
}

/// A scheduled connection between two cities.
#[derive(Debug)]
pub struct Route {
    pub id: RouteID,
    pub departure_city: City,
    pub arrival_city: City,
    pub departure_time: ClockTime,
    pub arrival_time: ClockTime,
    pub train_type: Train,
    pub days_of_operation: Vec<Day>,
    pub first_class_ticket_rate: u16,
    pub second_class_ticket_rate: u16,
}

impl View for Route {
    type V = RouteView;

    open spec fn view(&self) -> RouteView {
        RouteView {
            id: self.id.id,
            departure_city: self.departure_city,
            arrival_city: self.arrival_city,
            departure_time: self.departure_time@,
            arrival_time: self.arrival_time@,
            train_type: self.train_type,
            days_of_operation: self.days_of_operation@,
            first_class_ticket_rate: self.first_class_ticket_rate,
            second_class_ticket_rate: self.second_class_ticket_rate,
        }
    }
}

/// The travel time of a route in seconds: from departure to arrival, where an
/// arrival earlier in the day than the departure falls on the next day.
pub open spec fn route_duration(r: RouteView) -> int {
    let d = r.arrival_time - r.departure_time;
    if d < 0 {
        SECONDS_PER_DAY + d
    } else {
        d
    }
}

/// The route that stands in where none is known: number 0, from A Coruña to
/// A Coruña at midnight, an AVE that runs on no day and costs nothing.
pub open spec fn default_route() -> RouteView {
    RouteView {
        id: 0,
        departure_city: City::ACoruna,
        arrival_city: City::ACoruna,
        departure_time: 0,
        arrival_time: 0,
        train_type: Train::AVE,
        days_of_operation: Seq::empty(),
        first_class_ticket_rate: 0,
        second_class_ticket_rate: 0,
    }
}

impl Clone for Route {
    fn clone(&self) -> (r: Self)
        ensures
            r@ == self@,
    {
        let days = self.days_of_operation.clone();
        assert(days@ =~= self.days_of_operation@);
        Route {
            id: self.id,
            departure_city: self.departure_city,
            arrival_city: self.arrival_city,
            departure_time: self.departure_time,
            arrival_time: self.arrival_time,
            train_type: self.train_type,
            days_of_operation: days,
            first_class_ticket_rate: self.first_class_ticket_rate,
            second_class_ticket_rate: self.second_class_ticket_rate,
        }
    }
}

impl Route {
    /// The placeholder route (see `default_route`).
    pub fn default() -> (r: Route)
        ensures
            r@ == default_route(),
    {
        let r = Route {
            id: RouteID { id: 0 },
            departure_city: City::ACoruna,
            arrival_city: City::ACoruna,
            departure_time: ClockTime::midnight(),
            arrival_time: ClockTime::midnight(),
            train_type: Train::AVE,
            days_of_operation: Vec::new(),
            first_class_ticket_rate: 0,
            second_class_ticket_rate: 0,
        };
        assert(r@.days_of_operation =~= Seq::<Day>::empty());
        r
    }

    /// Whether the train arrives on the day after it leaves.
    pub fn arrival_is_next_day(&self) -> (r: bool)
        ensures
            r == (self.arrival_time@ < self.departure_time@),
    {
        (self.arrival_time.secs() as i64) - (self.departure_time.secs() as i64) < 0
    }

    /// The travel time of the route.
    pub fn duration(&self) -> (r: TimeSpan)
        ensures
            r.seconds == route_duration(self@),
            0 <= r.seconds < SECONDS_PER_DAY,
            (self@.departure_time + r.seconds) % (SECONDS_PER_DAY as int) == self@.arrival_time,
    {
        let d = (self.arrival_time.secs() as i64) - (self.departure_time.secs() as i64);
        if d < 0 {
            TimeSpan { seconds: SECONDS_PER_DAY as i64 + d }
        } else {
            TimeSpan { seconds: d }
        }
    }

    /// The identifier text of the route, `R0<number>`.
    pub fn get_id(&self) -> (r: String)
        ensures
            r@ == route_id_text(self.id.id),
    {
        self.id.get_id()
    }

    /// Replaces the route number by the one that `route_id` carries.
    pub fn set_id(&mut self, route_id: String)
        requires
            route_number_of(route_id@) is Some,
        ensures
            route_number_of(route_id@) == Some(final(self).id.id as nat),
            final(self)@ == (RouteView { id: final(self).id.id, ..old(self)@ }),
    {
        self.id.set_id(route_id);
    }
}

} // verus!
