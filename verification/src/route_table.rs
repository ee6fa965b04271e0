use vstd::prelude::*;
use crate::city::{city_name, city_named, lemma_city_named, City};
use crate::route::{route_number, route_number_of, Route, RouteID, RouteView};
use crate::text::str_equal;
use crate::time::{chrono_parsed_time, parse_clock_time};
use crate::train_day::{day_from_text, lemma_train_named, train_name, train_named, week, Day, Train};

verus! {

broadcast use vstd::seq_lib::group_seq_properties;

/// A character that separates day names in a route's list of days.
pub open spec fn is_day_separator(c: char) -> bool {
    c == ',' || c == '-'
}

/// The pieces of a text between separators, as `str::split` yields them: one
/// more piece than there are separators, empty pieces included.
pub open spec fn split_pieces(s: Seq<char>) -> Seq<Seq<char>>
    decreases s.len(),
{
    if s.len() == 0 {
        seq![Seq::empty()]
    } else {
        let rest = split_pieces(s.drop_last());
        if is_day_separator(s.last()) {
            rest.push(Seq::empty())
        } else {
            rest.update(rest.len() - 1, rest.last().push(s.last()))
        }
    }
}

/// The day that a piece of text names, if any.
pub open spec fn day_parser() -> spec_fn(Seq<char>) -> Option<Day> {
    |p: Seq<char>| day_from_text(p)
}

/// The days on which a route runs, from its list in the route table: all seven
/// for `Daily`, otherwise the pieces between commas and hyphens that name a day,
/// in order, the others skipped.
pub open spec fn days_of(s: Seq<char>) -> Seq<Day> {
    if s == "Daily"@ {
        week()
    } else {
        split_pieces(s).filter_map(day_parser())
    }
}

proof fn lemma_split_pieces_nonempty(s: Seq<char>)
    ensures
        split_pieces(s).len() >= 1,
    decreases s.len(),
{
    if s.len() > 0 {
        lemma_split_pieces_nonempty(s.drop_last());
    }
}

proof fn lemma_filter_map_concat<A, B>(x: Seq<A>, y: Seq<A>, f: spec_fn(A) -> Option<B>)
    ensures
        (x + y).filter_map(f) == x.filter_map(f) + y.filter_map(f),
    decreases y.len(),
{
    if y.len() == 0 {
        assert(x + y =~= x);
        assert(x.filter_map(f) + y.filter_map(f) =~= x.filter_map(f));
    } else {
        lemma_filter_map_concat(x, y.drop_last(), f);
        assert((x + y).drop_last() =~= x + y.drop_last());
        assert((x + y).last() == y.last());
        match f(y.last()) {
            Some(v) => {
                assert(x.filter_map(f) + y.filter_map(f) =~= x.filter_map(f) + y.drop_last().filter_map(f) + seq![v]);
            },
            None => {},
        }
    }
}

proof fn lemma_split_pieces_join(a: Seq<char>, c: char, b: Seq<char>)
    requires
        is_day_separator(c),
    ensures
        split_pieces(a + seq![c] + b) == split_pieces(a) + split_pieces(b),
    decreases b.len(),
{
    let s = a + seq![c] + b;
    if b.len() == 0 {
        assert(s =~= a.push(c));
        assert(s.drop_last() =~= a);
        assert(split_pieces(b) =~= seq![Seq::<char>::empty()]);
        assert(split_pieces(a).push(Seq::empty()) =~= split_pieces(a) + split_pieces(b));
    } else {
        let b1 = b.drop_last();
        lemma_split_pieces_join(a, c, b1);
        lemma_split_pieces_nonempty(b1);
        assert(s.drop_last() =~= a + seq![c] + b1);
        assert(s.last() == b.last());
        let p = split_pieces(a);
        let q = split_pieces(b1);
        if is_day_separator(b.last()) {
            assert((p + q).push(Seq::empty()) =~= p + q.push(Seq::empty()));
        } else {
            let x = b.last();
            assert((p + q).last() == q.last());
            assert((p + q).update((p + q).len() - 1, q.last().push(x)) =~= p + q.update(q.len() - 1, q.last().push(x)));
        }
    }
}

proof fn lemma_split_pieces_single(s: Seq<char>)
    requires
        forall|i: int| 0 <= i < s.len() ==> !is_day_separator(#[trigger] s[i]),
    ensures
        split_pieces(s) == seq![s],
    decreases s.len(),
{
    if s.len() == 0 {
    } else {
        lemma_split_pieces_single(s.drop_last());
        assert(!is_day_separator(s[s.len() - 1]));
        assert(s.drop_last().push(s.last()) =~= s);
        assert(seq![s.drop_last()].update(0, s.drop_last().push(s.last())) =~= seq![s]);
    }
}

/// A list of days joined by a comma or a hyphen lists the days of each part,
/// in order (where neither part is `Daily`).
pub proof fn lemma_days_of_join(a: Seq<char>, c: char, b: Seq<char>)
    requires
        is_day_separator(c),
        a != "Daily"@,
        b != "Daily"@,
    ensures
        days_of(a + seq![c] + b) == days_of(a) + days_of(b),
{
    reveal_strlit("Daily");
    let s = a + seq![c] + b;
    assert(s[a.len() as int] == c);
    if s == "Daily"@ {
        assert(s.len() == 5);
        assert("Daily"@[a.len() as int] == c);
    }
    lemma_split_pieces_join(a, c, b);
    lemma_filter_map_concat(split_pieces(a), split_pieces(b), day_parser());
}

/// A list entry with no comma or hyphen lists the one day it names, or no day
/// where it names none (`Daily` aside, which lists the whole week).
pub proof fn lemma_days_of_single(s: Seq<char>)
    requires
        forall|i: int| 0 <= i < s.len() ==> !is_day_separator(#[trigger] s[i]),
    ensures
        s == "Daily"@ ==> days_of(s) == week(),
        s != "Daily"@ ==> days_of(s) == match day_from_text(s) {
            Some(d) => seq![d],
            None => Seq::<Day>::empty(),
        },
{
    lemma_split_pieces_single(s);
    Seq::lemma_filter_map_singleton(s, day_parser());
}

/// The days that a route-table entry lists (see `days_of`).
pub fn days_from_text(s: &str) -> (r: Vec<Day>)
    ensures
        r@ == days_of(s@),
{
    if str_equal(s, "Daily") {
        return Day::daily();
    }
    let n = s.unicode_len();
    let mut r: Vec<Day> = Vec::new();
    let mut start: usize = 0;
    let mut i: usize = 0;
    proof {
        assert(s@.take(0) =~= Seq::<char>::empty());
        assert(split_pieces(s@.take(0)).drop_last() =~= Seq::<Seq<char>>::empty());
    }
    while i < n
        invariant
            n == s@.len(),
            start <= i <= n,
            split_pieces(s@.take(i as int)).last() == s@.subrange(start as int, i as int),
            r@ == split_pieces(s@.take(i as int)).drop_last().filter_map(day_parser()),
        decreases n - i,
    {
        let c = s.get_char(i);
        proof {
            lemma_split_pieces_nonempty(s@.take(i as int));
            assert(s@.take(i + 1).drop_last() =~= s@.take(i as int));
        }
        if c == ',' || c == '-' {
            let piece = s.substring_char(start, i);
            let ghost before = split_pieces(s@.take(i as int));
            assert(split_pieces(s@.take(i + 1)).drop_last() =~= before);
            assert(before =~= before.drop_last().push(before.last()));
            match Day::from_str(piece) {
                Ok(d) => {
                    r.push(d);
                },
                Err(_) => {},
            }
            start = i + 1;
            assert(s@.subrange(start as int, i + 1) =~= Seq::<char>::empty());
        } else {
            let ghost before = split_pieces(s@.take(i as int));
            assert(split_pieces(s@.take(i + 1)).drop_last() =~= before.drop_last());
            assert(s@.subrange(start as int, i + 1) =~= s@.subrange(start as int, i as int).push(c));
        }
        i = i + 1;
    }
    let piece = s.substring_char(start, n);
    let ghost all = split_pieces(s@.take(n as int));
    proof {
        lemma_split_pieces_nonempty(s@.take(n as int));
        assert(s@.take(n as int) =~= s@);
        assert(all =~= all.drop_last().push(all.last()));
    }
    match Day::from_str(piece) {
        Ok(d) => {
            r.push(d);
        },
        Err(_) => {},
    }
    r
}

} // verus!

verus! {

/// A character with the Unicode `White_Space` property, the whitespace that
/// `str::split_whitespace` splits at.
pub open spec fn is_unicode_whitespace(c: char) -> bool {
    ||| '\u{9}' <= c <= '\u{d}'
    ||| c == ' '
    ||| c == '\u{85}'
    ||| c == '\u{a0}'
    ||| c == '\u{1680}'
    ||| '\u{2000}' <= c <= '\u{200a}'
    ||| c == '\u{2028}'
    ||| c == '\u{2029}'
    ||| c == '\u{202f}'
    ||| c == '\u{205f}'
    ||| c == '\u{3000}'
}

/// Whether `c` is Unicode whitespace.
fn is_whitespace_char(c: char) -> (r: bool)
    ensures
        r == is_unicode_whitespace(c),
{
    ('\u{9}' <= c && c <= '\u{d}') || c == ' ' || c == '\u{85}' || c == '\u{a0}' || c == '\u{1680}'
        || ('\u{2000}' <= c && c <= '\u{200a}') || c == '\u{2028}' || c == '\u{2029}' || c == '\u{202f}'
        || c == '\u{205f}' || c == '\u{3000}'
}

/// The characters of `s` before its first whitespace.
pub open spec fn leading_word(s: Seq<char>) -> Seq<char>
    decreases s.len(),
{
    if s.len() == 0 || is_unicode_whitespace(s[0]) {
        Seq::empty()
    } else {
        seq![s[0]] + leading_word(s.drop_first())
    }
}

/// The first run of non-whitespace characters in `s`, as
/// `split_whitespace().next()` yields it; `None` where `s` holds only whitespace.
pub open spec fn first_word(s: Seq<char>) -> Option<Seq<char>>
    decreases s.len(),
{
    if s.len() == 0 {
        None
    } else if is_unicode_whitespace(s[0]) {
        first_word(s.drop_first())
    } else {
        Some(leading_word(s))
    }
}

/// The first word of `s` (see `first_word`).
pub fn first_word_of(s: &str) -> (r: Option<&str>)
    ensures
        r matches Some(w) ==> first_word(s@) == Some(w@),
        r is None ==> first_word(s@) is None,
{
    let n = s.unicode_len();
    let mut i: usize = 0;
    assert(s@.skip(0) =~= s@);
    loop
        invariant
            n == s@.len(),
            i <= n,
            first_word(s@) == first_word(s@.skip(i as int)),
        ensures
            i < n,
            !is_unicode_whitespace(s@[i as int]),
            first_word(s@) == first_word(s@.skip(i as int)),
        decreases n - i,
    {
        if i == n {
            assert(s@.skip(i as int).len() == 0);
            return None;
        }
        let c = s.get_char(i);
        if !is_whitespace_char(c) {
            break;
        }
        assert(s@.skip(i as int).drop_first() =~= s@.skip(i + 1));
        i = i + 1;
    }
    let start = i;
    let mut j: usize = i;
    assert(s@.subrange(start as int, start as int) =~= Seq::<char>::empty());
    loop
        invariant
            n == s@.len(),
            start < n,
            start <= j <= n,
            !is_unicode_whitespace(s@[start as int]),
            first_word(s@) == first_word(s@.skip(start as int)),
            leading_word(s@.skip(start as int)) == s@.subrange(start as int, j as int) + leading_word(s@.skip(j as int)),
        ensures
            start < j <= n,
            first_word(s@) == first_word(s@.skip(start as int)),
            leading_word(s@.skip(start as int)) == s@.subrange(start as int, j as int) + leading_word(s@.skip(j as int)),
            j == n || is_unicode_whitespace(s@[j as int]),
        decreases n - j,
    {
        if j == n {
            break;
        }
        let c = s.get_char(j);
        if is_whitespace_char(c) {
            break;
        }
        assert(s@.skip(j as int).drop_first() =~= s@.skip(j + 1));
        assert(s@.subrange(start as int, j + 1) =~= s@.subrange(start as int, j as int) + seq![c]);
        j = j + 1;
    }
    assert(leading_word(s@.skip(j as int)) =~= Seq::<char>::empty());
    assert(s@.subrange(start as int, j as int) + Seq::<char>::empty() =~= s@.subrange(start as int, j as int));
    Some(s.substring_char(start, j))
}

} // verus!

verus! {

/// One row of the route table, each field as it is written there.
#[derive(Debug)]
pub struct CSVRoute {
    pub id: String,
    pub departure_city: String,
    pub arrival_city: String,
    pub departure_time: String,
    pub arrival_time: String,
    pub train_type: String,
    pub days_of_operation: String,
    pub first_class_ticket_rate: u16,
    pub second_class_ticket_rate: u16,
}

/// The plain values of a route-table row.
pub ghost struct CSVRouteView {
    pub id: Seq<char>,
    pub departure_city: Seq<char>,
    pub arrival_city: Seq<char>,
    pub departure_time: Seq<char>,
    pub arrival_time: Seq<char>,
    pub train_type: Seq<char>,
    pub days_of_operation: Seq<char>,
    pub first_class_ticket_rate: u16,
    pub second_class_ticket_rate: u16,
}

impl View for CSVRoute {
    type V = CSVRouteView;

    open spec fn view(&self) -> CSVRouteView {
        CSVRouteView {
            id: self.id@,
            departure_city: self.departure_city@,
            arrival_city: self.arrival_city@,
            departure_time: self.departure_time@,
            arrival_time: self.arrival_time@,
            train_type: self.train_type@,
            days_of_operation: self.days_of_operation@,
            first_class_ticket_rate: self.first_class_ticket_rate,
            second_class_ticket_rate: self.second_class_ticket_rate,
        }
    }
}

/// Why a route-table row does not describe a route.
#[derive(Debug)]
pub enum RouteRecordError {
    /// A city name that no city carries; the message names it.
    UnknownCity(String),
    /// A time that does not read as `HH:MM`.
    BadTime(chrono::ParseError),
    /// A train type that no kind of train carries; the message names it.
    UnknownTrain(String),
}

/// The plain values of a `RouteRecordError`.
pub ghost enum RecordFault {
    UnknownCity(Seq<char>),
    BadTime,
    UnknownTrain(Seq<char>),
}

impl View for RouteRecordError {
    type V = RecordFault;

    open spec fn view(&self) -> RecordFault {
        match self {
            RouteRecordError::UnknownCity(m) => RecordFault::UnknownCity(m@),
            RouteRecordError::BadTime(_) => RecordFault::BadTime,
            RouteRecordError::UnknownTrain(m) => RecordFault::UnknownTrain(m@),
        }
    }
}

/// The format in which the route table writes times of day.
pub open spec fn table_time_format() -> Seq<char> {
    "%H:%M"@
}

/// The departure and arrival cities and the departure time of the row read
/// well, so that its arrival time is read next.
pub open spec fn reaches_arrival_time(row: CSVRouteView) -> bool {
    &&& city_named(row.departure_city) is Some
    &&& city_named(row.arrival_city) is Some
    &&& chrono_parsed_time(row.departure_time, table_time_format()) is Some
}

/// What a route-table row describes, its fields read in order: the route
/// number, the departure and arrival cities, the departure time, the first word
/// of the arrival time (the table may follow it with a note), the train type,
/// then the days and the two fares. The first field that does not read gives
/// the error.
pub open spec fn record_outcome(row: CSVRouteView) -> Result<RouteView, RecordFault> {
    match city_named(row.departure_city) {
        None => Err(RecordFault::UnknownCity("Unknown city: "@ + row.departure_city)),
        Some(dep) => match city_named(row.arrival_city) {
            None => Err(RecordFault::UnknownCity("Unknown city: "@ + row.arrival_city)),
            Some(arr) => match chrono_parsed_time(row.departure_time, table_time_format()) {
                None => Err(RecordFault::BadTime),
                Some(dt) => match chrono_parsed_time(first_word(row.arrival_time).unwrap(), table_time_format()) {
                    None => Err(RecordFault::BadTime),
                    Some(at) => match train_named(row.train_type) {
                        None => Err(RecordFault::UnknownTrain("Unknown train type: "@ + row.train_type)),
                        Some(t) => Ok(RouteView {
                            id: route_number_of(row.id).unwrap() as u16,
                            departure_city: dep,
                            arrival_city: arr,
                            departure_time: dt.0,
                            arrival_time: at.0,
                            train_type: t,
                            days_of_operation: days_of(row.days_of_operation),
                            first_class_ticket_rate: row.first_class_ticket_rate,
                            second_class_ticket_rate: row.second_class_ticket_rate,
                        }),
                    },
                },
            },
        },
    }
}

/// The route that a route-table row describes (see `record_outcome`).
pub fn route_from_record(row: CSVRoute) -> (r: Result<Route, RouteRecordError>)
    requires
        route_number_of(row.id@) is Some,
        reaches_arrival_time(row@) ==> first_word(row.arrival_time@) is Some,
    ensures
        match r {
            Ok(route) => record_outcome(row@) == Ok::<RouteView, RecordFault>(route@),
            Err(e) => record_outcome(row@) == Err::<RouteView, RecordFault>(e@),
        },
{
    let ghost rv = row@;
    let id = RouteID::new(row.id);
    let departure_city = match City::from_str(row.departure_city.as_str()) {
        Ok(c) => c,
        Err(e) => {
            return Err(RouteRecordError::UnknownCity(e));
        },
    };
    proof {
        lemma_city_named(departure_city);
    }
    let arrival_city = match City::from_str(row.arrival_city.as_str()) {
        Ok(c) => c,
        Err(e) => {
            return Err(RouteRecordError::UnknownCity(e));
        },
    };
    proof {
        lemma_city_named(arrival_city);
    }
    let departure_time = match parse_clock_time(row.departure_time.as_str(), "%H:%M") {
        Ok(t) => t.secs,
        Err(e) => {
            return Err(RouteRecordError::BadTime(e));
        },
    };
    let word = match first_word_of(row.arrival_time.as_str()) {
        Some(w) => w,
        None => "",
    };
    let arrival_time = match parse_clock_time(word, "%H:%M") {
        Ok(t) => t.secs,
        Err(e) => {
            return Err(RouteRecordError::BadTime(e));
        },
    };
    let train_type = match Train::from_str(row.train_type.as_str()) {
        Ok(t) => t,
        Err(e) => {
            return Err(RouteRecordError::UnknownTrain(e));
        },
    };
    proof {
        lemma_train_named(train_type);
    }
    let days_of_operation = days_from_text(row.days_of_operation.as_str());
    let route = Route {
        id,
        departure_city,
        arrival_city,
        departure_time,
        arrival_time,
        train_type,
        days_of_operation,
        first_class_ticket_rate: row.first_class_ticket_rate,
        second_class_ticket_rate: row.second_class_ticket_rate,
    };
    Ok(route)
}

/// A row that describes a route carries each of its fields: the route number
/// of its identifier, the cities and the train type whose names it writes, the
/// times its departure field and the first word of its arrival field read as
/// (`HH:MM`), its days and its two fares. A row whose departure city, arrival
/// city or train type no city or train carries is refused for that name, the
/// first such field in that order deciding.
pub proof fn lemma_record_fields(row: CSVRouteView)
    requires
        route_number_of(row.id) is Some,
        reaches_arrival_time(row) ==> first_word(row.arrival_time) is Some,
    ensures
        record_outcome(row) matches Ok(v) ==> {
            &&& route_number_of(row.id) == Some(v.id as nat)
            &&& city_name(v.departure_city) == row.departure_city
            &&& city_name(v.arrival_city) == row.arrival_city
            &&& chrono_parsed_time(row.departure_time, "%H:%M"@) matches Some(t) && t.0 == v.departure_time
            &&& first_word(row.arrival_time) matches Some(w)
                && chrono_parsed_time(w, "%H:%M"@) matches Some(t) && t.0 == v.arrival_time
            &&& train_name(v.train_type) == row.train_type
            &&& v.days_of_operation == days_of(row.days_of_operation)
            &&& v.first_class_ticket_rate == row.first_class_ticket_rate
            &&& v.second_class_ticket_rate == row.second_class_ticket_rate
        },
        !(exists|c: City| city_name(c) == row.departure_city)
            ==> record_outcome(row) == Err::<RouteView, RecordFault>(RecordFault::UnknownCity("Unknown city: "@ + row.departure_city)),
        (exists|c: City| city_name(c) == row.departure_city) && !(exists|c: City| city_name(c) == row.arrival_city)
            ==> record_outcome(row) == Err::<RouteView, RecordFault>(RecordFault::UnknownCity("Unknown city: "@ + row.arrival_city)),
        record_outcome(row) is Ok ==> (exists|t: Train| train_name(t) == row.train_type),
{
    if record_outcome(row) is Ok {
        let v = record_outcome(row)->Ok_0;
        assert(city_named(row.departure_city) == Some(v.departure_city));
        assert(city_named(row.arrival_city) == Some(v.arrival_city));
        assert(train_named(row.train_type) == Some(v.train_type));
        assert(route_number_of(row.id).unwrap() <= 0xffff);
        assert(route_number_of(row.id) == Some(v.id as nat));
    }
}

/// The route that a route-table row describes, where it can be read at all:
/// `None` where the row carries no route number after its two-character
/// prefix, or where its arrival-time field holds no word though it is read.
pub fn try_route_from_record(row: CSVRoute) -> (r: Option<Result<Route, RouteRecordError>>)
    ensures
        r is None <==> (route_number_of(row@.id) is None || (reaches_arrival_time(row@) && first_word(row@.arrival_time) is None)),
        r matches Some(Ok(route)) ==> record_outcome(row@) == Ok::<RouteView, RecordFault>(route@),
        r matches Some(Err(e)) ==> record_outcome(row@) == Err::<RouteView, RecordFault>(e@),
{
    if route_number(&row.id).is_none() {
        return None;
    }
    let dep_ok = City::from_str(row.departure_city.as_str()).is_ok();
    let arr_ok = City::from_str(row.arrival_city.as_str()).is_ok();
    if dep_ok && arr_ok {
        let time_ok = parse_clock_time(row.departure_time.as_str(), "%H:%M").is_ok();
        if time_ok && first_word_of(row.arrival_time.as_str()).is_none() {
            return None;
        }
    }
    Some(route_from_record(row))
}

} // verus!
