//! The static city list: exact, case-sensitive lookup of a city by name,
//! and case-insensitive, substring-based autocompletion over names and
//! country codes.

use vstd::prelude::*;
use crate::text::{contains_seq, contains_sub, lower_seq, str_eq, to_lower, lemma_lower_seq_idem};

verus! {

/// One entry of the static city list. Coordinates are kept as the decimal
/// text they were loaded with; they are only ever spliced into a request
/// URL, never computed with.
#[derive(Debug, Clone)]
pub struct City {
    pub name: String,
    pub lon: String,
    pub lat: String,
    pub country: String,
}

/// The bot's shared state: the city list, loaded once at startup and
/// read-only afterwards.
pub struct Data {
    pub cities: Vec<City>,
}

/// The index of the first city whose name equals `query` exactly, scanning
/// from position `from`.
pub open spec fn first_match(cities: Seq<City>, query: Seq<char>, from: int) -> Option<int>
    decreases cities.len() - from,
{
    if from < 0 || from >= cities.len() {
        None
    } else if cities[from].name@ == query {
        Some(from)
    } else {
        first_match(cities, query, from + 1)
    }
}

/// A scan that starts at `from` finds nothing when no city at or after
/// `from` has the queried name, and otherwise returns the first such index.
pub proof fn lemma_first_match(cities: Seq<City>, query: Seq<char>, from: int)
    requires
        0 <= from <= cities.len(),
    ensures
        first_match(cities, query, from) is None <==> forall|i: int|
            from <= i < cities.len() ==> cities[i].name@ != query,
        first_match(cities, query, from) matches Some(j) ==> from <= j < cities.len()
            && cities[j].name@ == query && forall|i: int| from <= i < j ==> cities[i].name@
            != query,
    decreases cities.len() - from,
{
    if from < cities.len() && cities[from].name@ != query {
        lemma_first_match(cities, query, from + 1);
    }
}

/// Exact, case-sensitive lookup of a city by name: the first city whose
/// `name` equals `query` character for character, or `None` when the list
/// holds no such city.
pub fn lookup<'a>(cities: &'a Vec<City>, query: &str) -> (r: Option<&'a City>)
    ensures
        match r {
            Some(c) => {
                &&& first_match(cities@, query@, 0) matches Some(j) && *c == cities@[j]
                &&& c.name@ == query@
            },
            None => first_match(cities@, query@, 0) is None,
        },
{
    let n = cities.len();
    let mut i: usize = 0;
    while i < n
        invariant
            n == cities@.len(),
            i <= n,
            first_match(cities@, query@, 0) == first_match(cities@, query@, i as int),
        decreases n - i,
    {
        if str_eq(cities[i].name.as_str(), query) {
            return Some(&cities[i]);
        }
        i += 1;
    }
    None
}

/// Membership law: a query that is the name of some city in the list is
/// always found — lookup of it cannot answer "not found".
pub proof fn lemma_lookup_finds_member(cities: Seq<City>, i: int)
    requires
        0 <= i < cities.len(),
    ensures
        first_match(cities, cities[i].name@, 0) is Some,
{
    lemma_first_match(cities, cities[i].name@, 0);
}

/// Absence law: a query that is no city's name (character for character)
/// is reported as not found.
pub proof fn lemma_lookup_absent(cities: Seq<City>, query: Seq<char>)
    requires
        forall|i: int| 0 <= i < cities.len() ==> cities[i].name@ != query,
    ensures
        first_match(cities, query, 0) is None,
{
    lemma_first_match(cities, query, 0);
}

/// A city matches a partial query when the lower-cased query occurs in its
/// lower-cased name or in its lower-cased country code.
pub open spec fn city_matches(c: City, partial: Seq<char>) -> bool {
    ||| contains_seq(lower_seq(c.name@), lower_seq(partial))
    ||| contains_seq(lower_seq(c.country@), lower_seq(partial))
}

/// The names of the cities at or after `from` that match `partial`, in
/// list order.
pub open spec fn completions(cities: Seq<City>, partial: Seq<char>, from: int) -> Seq<Seq<char>>
    decreases cities.len() - from,
{
    if from < 0 || from >= cities.len() {
        Seq::empty()
    } else if city_matches(cities[from], partial) {
        seq![cities[from].name@] + completions(cities, partial, from + 1)
    } else {
        completions(cities, partial, from + 1)
    }
}

fn city_matches_ex(c: &City, partial_lower: &str) -> (r: bool)
    requires
        partial_lower@ == lower_seq(partial_lower@),
    ensures
        r == city_matches(*c, partial_lower@),
{
    proof {
        lemma_lower_seq_idem(partial_lower@);
    }
    let name_lower = to_lower(c.name.as_str());
    if contains_sub(name_lower.as_str(), partial_lower) {
        return true;
    }
    let country_lower = to_lower(c.country.as_str());
    contains_sub(country_lower.as_str(), partial_lower)
}

/// Case-insensitive, substring-based autocompletion: the names of all
/// cities whose name or country code contains `partial`, ignoring ASCII
/// case, in list order.
pub fn autocomplete(cities: &Vec<City>, partial: &str) -> (r: Vec<String>)
    ensures
        r.deep_view() == completions(cities@, lower_seq(partial@), 0),
{
    let partial_lower = to_lower(partial);
    proof {
        lemma_lower_seq_idem(partial@);
    }
    let n = cities.len();
    let mut out: Vec<String> = Vec::new();
    let mut i: usize = 0;
    while i < n
        invariant
            n == cities@.len(),
            i <= n,
            partial_lower@ == lower_seq(partial@),
            out.deep_view() + completions(cities@, lower_seq(partial@), i as int) == completions(
                cities@,
                lower_seq(partial@),
                0,
            ),
        decreases n - i,
    {
        let ghost prev = out.deep_view();
        proof {
            lemma_lower_seq_idem(partial@);
        }
        if city_matches_ex(&cities[i], partial_lower.as_str()) {
            let name = cities[i].name.clone();
            out.push(name);
            proof {
                assert(out.deep_view() =~= prev.push(cities@[i as int].name@));
                assert(out.deep_view() + completions(cities@, lower_seq(partial@), i + 1)
                    =~= prev + completions(cities@, lower_seq(partial@), i as int));
            }
        } else {
            proof {
                assert(out.deep_view() + completions(cities@, lower_seq(partial@), i + 1)
                    =~= prev + completions(cities@, lower_seq(partial@), i as int));
            }
        }
        i += 1;
    }
    proof {
        assert(out.deep_view() =~= out.deep_view() + completions(
            cities@,
            lower_seq(partial@),
            n as int,
        ));
    }
    out
}

/// Case-insensitivity law: a partial query and its lower-cased form give
/// the same completions.
pub proof fn lemma_autocomplete_case_insensitive(cities: Seq<City>, partial: Seq<char>)
    ensures
        completions(cities, lower_seq(partial), 0) == completions(
            cities,
            lower_seq(lower_seq(partial)),
            0,
        ),
{
    lemma_lower_seq_idem(partial);
}

/// Completeness law: the name of every matching city appears among the
/// completions.
pub proof fn lemma_autocomplete_complete(cities: Seq<City>, partial: Seq<char>, i: int)
    requires
        0 <= i < cities.len(),
        city_matches(cities[i], lower_seq(partial)),
    ensures
        completions(cities, lower_seq(partial), 0).contains(cities[i].name@),
    decreases i,
{
    lemma_completions_contains(cities, lower_seq(partial), 0, i);
}

/// Soundness and completeness of the completion scan from any start index.
proof fn lemma_completions_contains(cities: Seq<City>, partial: Seq<char>, from: int, i: int)
    requires
        0 <= from <= i < cities.len(),
        city_matches(cities[i], partial),
    ensures
        completions(cities, partial, from).contains(cities[i].name@),
    decreases i - from,
{
    if from == i {
        assert(completions(cities, partial, from)[0] == cities[i].name@);
    } else {
        lemma_completions_contains(cities, partial, from + 1, i);
        let tail = completions(cities, partial, from + 1);
        let k = choose|k: int| 0 <= k < tail.len() && tail[k] == cities[i].name@;
        if city_matches(cities[from], partial) {
            assert(completions(cities, partial, from)[k + 1] == cities[i].name@);
        }
    }
}

/// One entry of the static city list, as its mathematical shape.
#[verifier::ext_equal]
pub struct CityV {
    pub name: Seq<char>,
    pub lon: Seq<char>,
    pub lat: Seq<char>,
    pub country: Seq<char>,
}

impl DeepView for City {
    type V = CityV;

    open spec fn deep_view(&self) -> CityV {
        CityV { name: self.name@, lon: self.lon@, lat: self.lat@, country: self.country@ }
    }
}

/// Decodes one city entry: four required string fields.
pub open spec fn dec_city(v: crate::json::JsonV) -> Option<CityV> {
    match v {
        crate::json::JsonV::Obj(f) => {
            if crate::weather::req_str(f, "name"@) is Some && crate::weather::req_str(
                f,
                "lon"@,
            ) is Some && crate::weather::req_str(f, "lat"@) is Some && crate::weather::req_str(
                f,
                "country"@,
            ) is Some {
                Some(
                    CityV {
                        name: crate::weather::req_str(f, "name"@)->Some_0,
                        lon: crate::weather::req_str(f, "lon"@)->Some_0,
                        lat: crate::weather::req_str(f, "lat"@)->Some_0,
                        country: crate::weather::req_str(f, "country"@)->Some_0,
                    },
                )
            } else {
                None
            }
        },
        _ => None,
    }
}

/// Decodes the city entries at or after `i`.
pub open spec fn dec_city_list(items: Seq<crate::json::JsonV>, i: int) -> Option<Seq<CityV>>
    decreases items.len() - i,
{
    if i < 0 || i >= items.len() {
        Some(Seq::empty())
    } else {
        match dec_city(items[i]) {
            Some(c) => match dec_city_list(items, i + 1) {
                Some(rest) => Some(seq![c] + rest),
                None => None,
            },
            None => None,
        }
    }
}

/// The city list a startup file's text denotes: a JSON array of city
/// entries, or nothing when the text is not of that shape.
pub open spec fn cities_decode(s: Seq<char>) -> Option<Seq<CityV>> {
    match crate::json::json_of(s) {
        Some(crate::json::JsonV::Arr(items)) => dec_city_list(items, 0),
        _ => None,
    }
}

fn dec_city_ex(j: &crate::json::Json) -> (r: Option<City>)
    ensures
        match r {
            Some(c) => dec_city(j@) == Some(c.deep_view()),
            None => dec_city(j@) is None,
        },
{
    match j {
        crate::json::Json::Obj(fields) => {
            proof {
                crate::json::lemma_obj_view(fields@);
                assert(j@ == crate::json::JsonV::Obj(crate::json::obj_view(fields@)));
            }
            let name = match crate::weather::req_str_ex(fields, "name") {
                Some(t) => t,
                None => {
                    return None;
                },
            };
            let lon = match crate::weather::req_str_ex(fields, "lon") {
                Some(t) => t,
                None => {
                    return None;
                },
            };
            let lat = match crate::weather::req_str_ex(fields, "lat") {
                Some(t) => t,
                None => {
                    return None;
                },
            };
            let country = match crate::weather::req_str_ex(fields, "country") {
                Some(t) => t,
                None => {
                    return None;
                },
            };
            Some(City { name, lon, lat, country })
        },
        _ => None,
    }
}

fn dec_city_list_ex(items: &Vec<crate::json::Json>, i: usize) -> (r: Option<Vec<City>>)
    requires
        i <= items@.len(),
    ensures
        match r {
            Some(cs) => dec_city_list(crate::json::arr_view(items@), i as int) == Some(
                cs.deep_view(),
            ),
            None => dec_city_list(crate::json::arr_view(items@), i as int) is None,
        },
    decreases items@.len() - i,
{
    if i == items.len() {
        let cs: Vec<City> = Vec::new();
        proof {
            assert(cs.deep_view() =~= Seq::<CityV>::empty());
        }
        return Some(cs);
    }
    match dec_city_ex(&items[i]) {
        Some(c) => match dec_city_list_ex(items, i + 1) {
            Some(rest) => {
                let ghost rest_view = rest.deep_view();
                let ghost c_view = c.deep_view();
                let mut cs = rest;
                cs.insert(0, c);
                proof {
                    assert(cs.deep_view() =~= seq![c_view] + rest_view);
                }
                Some(cs)
            },
            None => None,
        },
        None => None,
    }
}

/// Loads the static city list from the startup file's text: a JSON array
/// of `{name, lon, lat, country}` entries, all fields strings. Succeeds
/// exactly on texts of that shape.
pub fn cities_from_json(text: &str) -> (r: Option<Vec<City>>)
    ensures
        match r {
            Some(cs) => cities_decode(text@) == Some(cs.deep_view()),
            None => cities_decode(text@) is None,
        },
{
    match crate::json::parse_json(text) {
        Some(j) => match &j {
            crate::json::Json::Arr(items) => {
                proof {
                    crate::json::lemma_arr_view(items@);
                    assert(j@ == crate::json::JsonV::Arr(crate::json::arr_view(items@)));
                }
                dec_city_list_ex(items, 0)
            },
            _ => None,
        },
        None => None,
    }
}

} // verus!
