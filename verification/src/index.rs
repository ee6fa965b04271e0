use vstd::prelude::*;
use crate::city::city_name;
use crate::route::Route;
use crate::seq_util::{all_indices, lemma_filter_none};
use crate::text::{ascii_lower, same_ignoring_ascii_case, to_ascii_lowercase};

verus! {

broadcast use vstd::seq_lib::group_seq_properties;

/// The key under which a city name is indexed: its ASCII lower-case form.
pub fn norm(s: &str) -> (r: String)
    ensures
        r@ == ascii_lower(s@),
{
    to_ascii_lowercase(s)
}

/// The index key of the departure city of route `i`.
pub open spec fn departure_key(routes: Seq<Route>, i: int) -> Seq<char> {
    ascii_lower(city_name(routes[i].departure_city))
}

/// The index key of the arrival city of route `i`.
pub open spec fn arrival_key(routes: Seq<Route>, i: int) -> Seq<char> {
    ascii_lower(city_name(routes[i].arrival_city))
}

/// Route `i` leaves from a city named `city` (ignoring ASCII case).
pub open spec fn leaves_from(routes: Seq<Route>, city: Seq<char>) -> spec_fn(usize) -> bool {
    |i: usize| same_ignoring_ascii_case(city_name(routes[i as int].departure_city), city)
}

/// Route `i` arrives at a city named `city` (ignoring ASCII case).
pub open spec fn arrives_at(routes: Seq<Route>, city: Seq<char>) -> spec_fn(usize) -> bool {
    |i: usize| same_ignoring_ascii_case(city_name(routes[i as int].arrival_city), city)
}

/// The routes, in order, that leave from a city named `city` (ignoring ASCII case).
pub open spec fn departures_from(routes: Seq<Route>, city: Seq<char>) -> Seq<usize> {
    all_indices(routes.len()).filter(leaves_from(routes, city))
}

/// The routes, in order, that arrive at a city named `city` (ignoring ASCII case).
pub open spec fn arrivals_at(routes: Seq<Route>, city: Seq<char>) -> Seq<usize> {
    all_indices(routes.len()).filter(arrives_at(routes, city))
}

/// The departure keys of the routes.
pub open spec fn departure_keys(routes: Seq<Route>) -> spec_fn(int) -> Seq<char> {
    |i: int| departure_key(routes, i)
}

/// The arrival keys of the routes.
pub open spec fn arrival_keys(routes: Seq<Route>) -> spec_fn(int) -> Seq<char> {
    |i: int| arrival_key(routes, i)
}

/// Index `i` has key `k` under `key_of`.
pub open spec fn has_key(key_of: spec_fn(int) -> Seq<char>, k: Seq<char>) -> spec_fn(usize) -> bool {
    |i: usize| key_of(i as int) == k
}

/// The routes among the first `n` whose key, as `key_of` gives it, is `k`.
pub open spec fn indices_with_key(n: nat, key_of: spec_fn(int) -> Seq<char>, k: Seq<char>) -> Seq<usize> {
    all_indices(n).filter(has_key(key_of, k))
}

/// Every entry lists the routes among the first `n` with its key, and every
/// one of those routes has an entry.
pub open spec fn table_wf(table: Seq<(String, Vec<usize>)>, n: nat, key_of: spec_fn(int) -> Seq<char>) -> bool {
    &&& forall|e: int| 0 <= e < table.len() ==> (#[trigger] table[e]).1@ == indices_with_key(n, key_of, table[e].0@)
    &&& forall|i: int| 0 <= i < n ==> #[trigger] has_entry(table, key_of(i))
    &&& forall|e1: int, e2: int| 0 <= e1 < e2 < table.len() ==> (#[trigger] table[e1]).0@ != (#[trigger] table[e2]).0@
}

/// Some entry of the table has key `k`.
pub open spec fn has_entry(table: Seq<(String, Vec<usize>)>, k: Seq<char>) -> bool {
    exists|e: int| 0 <= e < table.len() && (#[trigger] table[e]).0@ == k
}

/// Lookup tables from city keys to the routes that leave from and arrive at the city.
///
/// Each table is a list of (key, route indices) entries with distinct keys.
/// The keys are texts, the ASCII lower-case form of whatever city text a
/// request holds, so they cannot be replaced by a city's number; and vstd
/// gives a `HashMap` with `String` keys no contract from which the lookups
/// below could be proved.
pub struct IndexSet {
    by_departure: Vec<(String, Vec<usize>)>,
    by_arrival: Vec<(String, Vec<usize>)>,
}

fn table_add(table: &mut Vec<(String, Vec<usize>)>, key: String, i: usize, Ghost(key_of): Ghost<spec_fn(int) -> Seq<char>>)
    requires
        table_wf(old(table)@, i as nat, key_of),
        key@ == key_of(i as int),
    ensures
        table_wf(final(table)@, (i + 1) as nat, key_of),
{
    let ghost n = i as nat;
    assert(all_indices(n + 1) =~= all_indices(n).push(i));
    let mut e: usize = 0;
    let mut found = false;
    while e < table.len() && !found
        invariant
            e <= table@.len(),
            table_wf(table@, n, key_of),
            key@ == key_of(i as int),
            found ==> e < table@.len() && table@[e as int].0@ == key@,
            forall|f: int| 0 <= f < e ==> (#[trigger] table@[f]).0@ != key@,
        decreases table@.len() - e + (if found { 0int } else { 1int }),
    {
        if table[e].0 == key {
            found = true;
        } else {
            e = e + 1;
        }
    }
    let ghost old_table = table@;
    if found {
        let (k, mut list) = table.remove(e);
        list.push(i);
        table.insert(e, (k, list));
    } else {
        let mut list = Vec::new();
        list.push(i);
        table.push((key, list));
    }
    proof {
        let t = table@;
        assert(all_indices(n + 1) =~= all_indices(n).push(i));
        assert forall|f: int| 0 <= f < t.len() implies (#[trigger] t[f]).1@ == indices_with_key(n + 1, key_of, t[f].0@) by {
            let p = has_key(key_of, t[f].0@);
            all_indices(n).lemma_filter_push(i, p);
            if found && f != e {
                assert(t[f] == old_table[f]);
                if f < e {
                    assert(old_table[f].0@ != key@);
                } else {
                    assert(old_table[f].0@ != old_table[e as int].0@);
                }
            } else if found {
                assert(t[f].0@ == key@);
                assert(old_table[f].0@ == key@);
                assert(t[f].1@ == old_table[f].1@.push(i));
            } else if f < old_table.len() {
                assert(t[f] == old_table[f]);
            } else {
                assert(f == old_table.len());
                assert(t[f].0@ == key@);
                assert forall|j: int| 0 <= j < all_indices(n).len() implies !p(#[trigger] all_indices(n)[j]) by {
                    assert(all_indices(n)[j] as int == j);
                    assert(has_entry(old_table, key_of(j)));
                    let g = choose|g: int| 0 <= g < old_table.len() && (#[trigger] old_table[g]).0@ == key_of(j);
                }
                lemma_filter_none(all_indices(n), p);
                assert(t[f].1@ =~= seq![i]);
            }
        }
        assert forall|e1: int, e2: int| 0 <= e1 < e2 < t.len() implies (#[trigger] t[e1]).0@ != (#[trigger] t[e2]).0@ by {
            if found {
                assert(t[e1].0@ == old_table[e1].0@);
                assert(t[e2].0@ == old_table[e2].0@);
            } else if e2 < old_table.len() {
                assert(t[e1] == old_table[e1]);
                assert(t[e2] == old_table[e2]);
            } else {
                assert(t[e1] == old_table[e1]);
            }
        }
        assert forall|j: int| 0 <= j < n + 1 implies #[trigger] has_entry(t, key_of(j)) by {
            if j == n {
                assert(t[e as int].0@ == key_of(j));
            } else {
                assert(has_entry(old_table, key_of(j)));
                let g = choose|g: int| 0 <= g < old_table.len() && (#[trigger] old_table[g]).0@ == key_of(j);
                assert(t[g].0@ == old_table[g].0@);
            }
        }
    }
}

fn table_get(table: &Vec<(String, Vec<usize>)>, key: &String, Ghost(n): Ghost<nat>, Ghost(key_of): Ghost<spec_fn(int) -> Seq<char>>) -> (r: Vec<usize>)
    requires
        table_wf(table@, n, key_of),
        n <= usize::MAX,
    ensures
        r@ == indices_with_key(n, key_of, key@),
{
    let mut e: usize = 0;
    while e < table.len()
        invariant
            e <= table@.len(),
            table_wf(table@, n, key_of),
            forall|f: int| 0 <= f < e ==> (#[trigger] table@[f]).0@ != key@,
        decreases table@.len() - e,
    {
        if table[e].0 == *key {
            let r = table[e].1.clone();
            assert(r@ =~= table@[e as int].1@);
            return r;
        }
        e = e + 1;
    }
    proof {
        let p = has_key(key_of, key@);
        assert forall|j: int| 0 <= j < all_indices(n).len() implies !p(#[trigger] all_indices(n)[j]) by {
            assert(all_indices(n)[j] as int == j);
            assert(has_entry(table@, key_of(j)));
            let g = choose|g: int| 0 <= g < table@.len() && (#[trigger] table@[g]).0@ == key_of(j);
        }
        lemma_filter_none(all_indices(n), p);
    }
    Vec::new()
}

/// Filtering an increasing sequence of indices leaves it increasing.
proof fn lemma_filter_increasing(s: Seq<usize>, p: spec_fn(usize) -> bool)
    requires
        forall|i: int, j: int| 0 <= i < j < s.len() ==> #[trigger] s[i] < #[trigger] s[j],
    ensures
        forall|i: int, j: int| 0 <= i < j < s.filter(p).len() ==> #[trigger] s.filter(p)[i] < #[trigger] s.filter(p)[j],
        forall|i: int| 0 <= i < s.filter(p).len() ==> s.contains(#[trigger] s.filter(p)[i]),
    decreases s.len(),
{
    reveal(Seq::filter);
    if s.len() > 0 {
        let t = s.drop_last();
        lemma_filter_increasing(t, p);
        let a = t.filter(p);
        if p(s.last()) {
            assert(s.filter(p) == a.push(s.last()));
            assert forall|i: int| 0 <= i < a.len() implies #[trigger] a[i] < s.last() by {
                let k = choose|k: int| 0 <= k < t.len() && t[k] == a[i];
                assert(s[k] == t[k]);
            }
            assert forall|i: int| 0 <= i < s.filter(p).len() implies s.contains(#[trigger] s.filter(p)[i]) by {
                if i < a.len() {
                    let k = choose|k: int| 0 <= k < t.len() && t[k] == a[i];
                    assert(s[k] == t[k]);
                } else {
                    assert(s[s.len() - 1] == s.filter(p)[i]);
                }
            }
        } else {
            assert(s.filter(p) == a);
            assert forall|i: int| 0 <= i < a.len() implies s.contains(#[trigger] a[i]) by {
                let k = choose|k: int| 0 <= k < t.len() && t[k] == a[i];
                assert(s[k] == t[k]);
            }
        }
    }
}

/// The routes that an index lookup lists, for a predicate on route numbers:
/// in increasing order, each below `n` and passing `p`, and every route below
/// `n` that passes `p`.
proof fn lemma_index_lookup(n: nat, p: spec_fn(usize) -> bool)
    requires
        n <= usize::MAX,
    ensures
        forall|i: int, j: int| 0 <= i < j < all_indices(n).filter(p).len()
            ==> #[trigger] all_indices(n).filter(p)[i] < #[trigger] all_indices(n).filter(p)[j],
        forall|i: int| 0 <= i < all_indices(n).filter(p).len()
            ==> (#[trigger] all_indices(n).filter(p)[i]) < n && p(all_indices(n).filter(p)[i]),
        forall|k: usize| (k as int) < n && p(k) ==> #[trigger] all_indices(n).filter(p).contains(k),
{
    let s = all_indices(n);
    lemma_filter_increasing(s, p);
    assert forall|i: int| 0 <= i < s.filter(p).len() implies (#[trigger] s.filter(p)[i]) < n && p(s.filter(p)[i]) by {
        s.lemma_filter_pred(p, i);
        assert(s.contains(s.filter(p)[i]));
    }
    assert forall|k: usize| (k as int) < n && p(k) implies #[trigger] s.filter(p).contains(k) by {
        assert(s[k as int] == k);
        s.lemma_filter_contains(p, k as int);
    }
}

/// The routes that leave from `city` (ignoring ASCII case) are listed in
/// increasing order, each one of them and no other; the same for the routes
/// that arrive at `city`.
pub proof fn lemma_lookup_lists_matching_routes(routes: Seq<Route>, city: Seq<char>)
    requires
        routes.len() <= usize::MAX,
    ensures
        forall|i: int, j: int| 0 <= i < j < departures_from(routes, city).len()
            ==> #[trigger] departures_from(routes, city)[i] < #[trigger] departures_from(routes, city)[j],
        forall|i: int| 0 <= i < departures_from(routes, city).len() ==> {
            let k = #[trigger] departures_from(routes, city)[i];
            &&& (k as int) < routes.len()
            &&& same_ignoring_ascii_case(city_name(routes[k as int].departure_city), city)
        },
        forall|k: usize| (k as int) < routes.len() && same_ignoring_ascii_case(city_name(routes[k as int].departure_city), city)
            ==> #[trigger] departures_from(routes, city).contains(k),
        forall|i: int, j: int| 0 <= i < j < arrivals_at(routes, city).len()
            ==> #[trigger] arrivals_at(routes, city)[i] < #[trigger] arrivals_at(routes, city)[j],
        forall|i: int| 0 <= i < arrivals_at(routes, city).len() ==> {
            let k = #[trigger] arrivals_at(routes, city)[i];
            &&& (k as int) < routes.len()
            &&& same_ignoring_ascii_case(city_name(routes[k as int].arrival_city), city)
        },
        forall|k: usize| (k as int) < routes.len() && same_ignoring_ascii_case(city_name(routes[k as int].arrival_city), city)
            ==> #[trigger] arrivals_at(routes, city).contains(k),
{
    lemma_index_lookup(routes.len(), leaves_from(routes, city));
    lemma_index_lookup(routes.len(), arrives_at(routes, city));
}

impl IndexSet {
    /// The index lists routes by the key of their departure and arrival cities.
    pub closed spec fn wf(&self, routes: Seq<Route>) -> bool {
        &&& routes.len() <= usize::MAX
        &&& table_wf(self.by_departure@, routes.len(), departure_keys(routes))
        &&& table_wf(self.by_arrival@, routes.len(), arrival_keys(routes))
    }

    /// Indexes the routes by departure and by arrival city.
    pub fn build(routes: &[Route]) -> (r: IndexSet)
        ensures
            r.wf(routes@),
    {
        let ghost dk = departure_keys(routes@);
        let ghost ak = arrival_keys(routes@);
        let mut by_departure: Vec<(String, Vec<usize>)> = Vec::new();
        let mut by_arrival: Vec<(String, Vec<usize>)> = Vec::new();
        let mut i: usize = 0;
        while i < routes.len()
            invariant
                i <= routes@.len(),
                table_wf(by_departure@, i as nat, dk),
                table_wf(by_arrival@, i as nat, ak),
                dk == departure_keys(routes@),
                ak == arrival_keys(routes@),
            decreases routes@.len() - i,
        {
            let r = &routes[i];
            table_add(&mut by_departure, norm(r.departure_city.as_str()), i, Ghost(dk));
            table_add(&mut by_arrival, norm(r.arrival_city.as_str()), i, Ghost(ak));
            i = i + 1;
        }
        IndexSet { by_departure, by_arrival }
    }

    /// The routes, in order, that leave from `city`, ignoring ASCII case.
    pub fn get_departures(&self, city: &str, Ghost(routes): Ghost<Seq<Route>>) -> (r: Vec<usize>)
        requires
            self.wf(routes),
        ensures
            r@ == departures_from(routes, city@),
    {
        let key = norm(city);
        let r = table_get(&self.by_departure, &key, Ghost(routes.len()), Ghost(departure_keys(routes)));
        assert(has_key(departure_keys(routes), key@) =~= leaves_from(routes, city@));
        r
    }

    /// The routes, in order, that arrive at `city`, ignoring ASCII case.
    pub fn get_arrivals(&self, city: &str, Ghost(routes): Ghost<Seq<Route>>) -> (r: Vec<usize>)
        requires
            self.wf(routes),
        ensures
            r@ == arrivals_at(routes, city@),
    {
        let key = norm(city);
        let r = table_get(&self.by_arrival, &key, Ghost(routes.len()), Ghost(arrival_keys(routes)));
        assert(has_key(arrival_keys(routes), key@) =~= arrives_at(routes, city@));
        r
    }
}

} // verus!
