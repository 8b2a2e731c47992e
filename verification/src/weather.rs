//! The weather lookup's data shaping: decoding the provider's JSON
//! response into a typed record, and formatting the reply embed.
//!
//! Numbers from the provider are kept as the decimal text they arrived
//! with; for display they are canonicalised (trailing fractional zeros
//! dropped). Nothing in this crate computes with the measurements.

use vstd::prelude::*;
use crate::json::{Json, JsonV, JsonField, obj_view, json_of};
use crate::city::City;

verus! {

broadcast use crate::json::lemma_arr_view, crate::json::lemma_obj_view;

/// The first field of an object with the given key, scanning from `from`.
/// When a key occurs twice, the first occurrence wins.
pub open spec fn field_get(f: Seq<(Seq<char>, JsonV)>, key: Seq<char>, from: int) -> Option<JsonV>
    decreases f.len() - from,
{
    if from < 0 || from >= f.len() {
        None
    } else if f[from].0 == key {
        Some(f[from].1)
    } else {
        field_get(f, key, from + 1)
    }
}

fn field_get_ex<'a>(fields: &'a Vec<JsonField>, key: &str, from: usize) -> (r: Option<&'a Json>)
    requires
        from <= fields@.len(),
    ensures
        match r {
            Some(j) => field_get(obj_view(fields@), key@, from as int) == Some(j@),
            None => field_get(obj_view(fields@), key@, from as int) is None,
        },
    decreases fields@.len() - from,
{
    if from == fields.len() {
        None
    } else if crate::text::str_eq(fields[from].key.as_str(), key) {
        Some(&fields[from].value)
    } else {
        field_get_ex(fields, key, from + 1)
    }
}

/// The value of the digit character `c`, and `0` for any other character.
pub open spec fn digit_val(c: char) -> int {
    if crate::json::is_digit(c) {
        c as int - 48
    } else {
        0
    }
}

/// The number a digit string denotes, most significant digit first.
pub open spec fn dec_val(t: Seq<char>) -> int
    decreases t.len(),
{
    if t.len() == 0 {
        0
    } else {
        dec_val(t.drop_last()) * 10 + digit_val(t.last())
    }
}

/// A non-empty, all-digits text.
pub open spec fn is_uint_text(t: Seq<char>) -> bool {
    t.len() > 0 && forall|i: int| 0 <= i < t.len() ==> crate::json::is_digit(t[i])
}

proof fn lemma_dec_val_nonneg(t: Seq<char>)
    ensures
        dec_val(t) >= 0,
    decreases t.len(),
{
    if t.len() > 0 {
        lemma_dec_val_nonneg(t.drop_last());
    }
}

proof fn lemma_dec_val_grows(t: Seq<char>, i: int)
    requires
        0 <= i <= t.len(),
    ensures
        dec_val(t.take(i)) <= dec_val(t),
    decreases t.len() - i,
{
    if i < t.len() {
        lemma_dec_val_grows(t, i + 1);
        lemma_dec_val_nonneg(t.take(i));
        assert(t.take(i + 1).drop_last() =~= t.take(i));
        assert(dec_val(t.take(i + 1)) == dec_val(t.take(i)) * 10 + digit_val(t.take(i + 1).last()));
        assert(digit_val(t.take(i + 1).last()) >= 0);
        assert(dec_val(t.take(i)) * 10 >= dec_val(t.take(i))) by {
            lemma_dec_val_nonneg(t.take(i));
        }
    } else {
        assert(t.take(i) =~= t);
    }
}

/// The unsigned integer a number text denotes, when it is all digits and
/// fits in a `u64`.
pub open spec fn spec_parse_u64(t: Seq<char>) -> Option<u64> {
    if is_uint_text(t) && dec_val(t) <= u64::MAX {
        Some(dec_val(t) as u64)
    } else {
        None
    }
}

/// Parses an all-digits text into a `u64`, refusing overflow.
pub fn parse_u64_text(t: &str) -> (r: Option<u64>)
    ensures
        r == spec_parse_u64(t@),
{
    let len = t.unicode_len();
    if len == 0 {
        return None;
    }
    let mut acc: u64 = 0;
    let mut i: usize = 0;
    while i < len
        invariant
            len == t@.len(),
            i <= len,
            forall|j: int| 0 <= j < i ==> crate::json::is_digit(t@[j]),
            acc == dec_val(t@.take(i as int)),
        decreases len - i,
    {
        let c = t.get_char(i);
        if !('0' <= c && c <= '9') {
            return None;
        }
        let d: u64 = (c as u32 - 48) as u64;
        proof {
            assert(t@.take(i + 1).drop_last() =~= t@.take(i as int));
            assert(t@.take(i + 1).last() == t@[i as int]);
        }
        if acc > u64::MAX / 10 {
            proof {
                lemma_dec_val_grows(t@, i + 1);
                assert(dec_val(t@.take(i + 1)) == acc * 10 + digit_val(t@[i as int]));
                assert(acc * 10 > u64::MAX) by (nonlinear_arith)
                    requires
                        acc > u64::MAX / 10,
                ;
                assert(digit_val(t@[i as int]) >= 0);
            }
            return None;
        }
        let acc10 = acc * 10;
        if acc10 > u64::MAX - d {
            proof {
                lemma_dec_val_grows(t@, i + 1);
                assert(dec_val(t@.take(i + 1)) == acc * 10 + digit_val(t@[i as int]));
                assert(digit_val(t@[i as int]) == d);
            }
            return None;
        }
        acc = acc10 + d;
        i += 1;
    }
    proof {
        assert(t@.take(len as int) =~= t@);
    }
    Some(acc)
}

/// The signed integer a number text denotes: an optional minus sign, then
/// digits, fitting in an `i64`.
pub open spec fn spec_parse_i64(t: Seq<char>) -> Option<i64> {
    if t.len() > 0 && t[0] == '-' {
        let m = t.skip(1);
        if is_uint_text(m) && dec_val(m) <= 0x8000000000000000 {
            Some((-dec_val(m)) as i64)
        } else {
            None
        }
    } else {
        if is_uint_text(t) && dec_val(t) <= i64::MAX {
            Some(dec_val(t) as i64)
        } else {
            None
        }
    }
}

/// Parses an optionally signed digit text into an `i64`, refusing overflow.
pub fn parse_i64_text(t: &str) -> (r: Option<i64>)
    ensures
        r == spec_parse_i64(t@),
{
    let len = t.unicode_len();
    if len > 0 && t.get_char(0) == '-' {
        let m = t.substring_char(1, len);
        proof {
            assert(m@ =~= t@.skip(1));
            lemma_dec_val_nonneg(t@.skip(1));
        }
        match parse_u64_text(m) {
            Some(mag) => {
                if mag <= 0x7FFFFFFFFFFFFFFF {
                    Some(-(mag as i64))
                } else if mag == 0x8000000000000000 {
                    Some(i64::MIN)
                } else {
                    None
                }
            },
            None => None,
        }
    } else {
        proof {
            lemma_dec_val_nonneg(t@);
        }
        match parse_u64_text(t) {
            Some(v) => {
                if v <= 0x7FFFFFFFFFFFFFFF {
                    Some(v as i64)
                } else {
                    None
                }
            },
            None => None,
        }
    }
}

/// A required string field.
pub open spec fn req_str(f: Seq<(Seq<char>, JsonV)>, key: Seq<char>) -> Option<Seq<char>> {
    match field_get(f, key, 0) {
        Some(JsonV::Str(t)) => Some(t),
        _ => None,
    }
}

pub fn req_str_ex(fields: &Vec<JsonField>, key: &str) -> (r: Option<String>)
    ensures
        match r {
            Some(t) => req_str(obj_view(fields@), key@) == Some(t@),
            None => req_str(obj_view(fields@), key@) is None,
        },
{
    match field_get_ex(fields, key, 0) {
        Some(j) => match j {
            Json::Str(t) => Some(t.clone()),
            _ => None,
        },
        None => None,
    }
}

/// A required numeric field, as its exact decimal text.
pub open spec fn req_num(f: Seq<(Seq<char>, JsonV)>, key: Seq<char>) -> Option<Seq<char>> {
    match field_get(f, key, 0) {
        Some(JsonV::Num(t)) => Some(t),
        _ => None,
    }
}

fn req_num_ex(fields: &Vec<JsonField>, key: &str) -> (r: Option<String>)
    ensures
        match r {
            Some(t) => req_num(obj_view(fields@), key@) == Some(t@),
            None => req_num(obj_view(fields@), key@) is None,
        },
{
    match field_get_ex(fields, key, 0) {
        Some(j) => match j {
            Json::Num(t) => Some(t.clone()),
            _ => None,
        },
        None => None,
    }
}

/// An optional numeric field: an absent key or a `null` is no value, a
/// number is a value, anything else refuses the document.
pub open spec fn opt_num(f: Seq<(Seq<char>, JsonV)>, key: Seq<char>) -> Option<
    Option<Seq<char>>,
> {
    match field_get(f, key, 0) {
        None => Some(None),
        Some(JsonV::Null) => Some(None),
        Some(JsonV::Num(t)) => Some(Some(t)),
        Some(_) => None,
    }
}

fn opt_num_ex(fields: &Vec<JsonField>, key: &str) -> (r: Option<Option<String>>)
    ensures
        match r {
            Some(Some(t)) => opt_num(obj_view(fields@), key@) == Some(Some(t@)),
            Some(None) => opt_num(obj_view(fields@), key@) == Some(None::<Seq<char>>),
            None => opt_num(obj_view(fields@), key@) is None,
        },
{
    match field_get_ex(fields, key, 0) {
        None => Some(None),
        Some(j) => match j {
            Json::Null => Some(None),
            Json::Num(t) => Some(Some(t.clone())),
            _ => None,
        },
    }
}

/// A required unsigned integer field.
pub open spec fn req_u64(f: Seq<(Seq<char>, JsonV)>, key: Seq<char>) -> Option<u64> {
    match req_num(f, key) {
        Some(t) => spec_parse_u64(t),
        None => None,
    }
}

fn req_u64_ex(fields: &Vec<JsonField>, key: &str) -> (r: Option<u64>)
    ensures
        r == req_u64(obj_view(fields@), key@),
{
    match req_num_ex(fields, key) {
        Some(t) => parse_u64_text(t.as_str()),
        None => None,
    }
}

/// A required signed integer field.
pub open spec fn req_i64(f: Seq<(Seq<char>, JsonV)>, key: Seq<char>) -> Option<i64> {
    match req_num(f, key) {
        Some(t) => spec_parse_i64(t),
        None => None,
    }
}

fn req_i64_ex(fields: &Vec<JsonField>, key: &str) -> (r: Option<i64>)
    ensures
        r == req_i64(obj_view(fields@), key@),
{
    match req_num_ex(fields, key) {
        Some(t) => parse_i64_text(t.as_str()),
        None => None,
    }
}

/// An optional unsigned integer field: absent or `null` is no value, an
/// integer is a value, anything else refuses the document.
pub open spec fn opt_u64(f: Seq<(Seq<char>, JsonV)>, key: Seq<char>) -> Option<Option<u64>> {
    match field_get(f, key, 0) {
        None => Some(None),
        Some(JsonV::Null) => Some(None),
        Some(JsonV::Num(t)) => match spec_parse_u64(t) {
            Some(v) => Some(Some(v)),
            None => None,
        },
        Some(_) => None,
    }
}

fn opt_u64_ex(fields: &Vec<JsonField>, key: &str) -> (r: Option<Option<u64>>)
    ensures
        r == opt_u64(obj_view(fields@), key@),
{
    match field_get_ex(fields, key, 0) {
        None => Some(None),
        Some(j) => match j {
            Json::Null => Some(None),
            Json::Num(t) => match parse_u64_text(t.as_str()) {
                Some(v) => Some(Some(v)),
                None => None,
            },
            _ => None,
        },
    }
}

/// Geographic coordinates, as decimal text.
#[verifier::ext_equal]
pub struct CoordV {
    pub lon: Seq<char>,
    pub lat: Seq<char>,
}

/// Geographic coordinates of the reported location, as decimal text.
pub struct Coord {
    pub lon: String,
    pub lat: String,
}

impl DeepView for Coord {
    type V = CoordV;

    open spec fn deep_view(&self) -> CoordV {
        CoordV { lon: self.lon@, lat: self.lat@ }
    }
}

/// One weather condition entry.
#[verifier::ext_equal]
pub struct WeatherV {
    pub id: u64,
    pub main: Seq<char>,
    pub description: Seq<char>,
    pub icon: Seq<char>,
}

/// One weather condition entry of the response.
pub struct Weather {
    pub id: u64,
    pub main: String,
    pub description: String,
    pub icon: String,
}

impl DeepView for Weather {
    type V = WeatherV;

    open spec fn deep_view(&self) -> WeatherV {
        WeatherV {
            id: self.id,
            main: self.main@,
            description: self.description@,
            icon: self.icon@,
        }
    }
}

/// The main measurements, as decimal text.
#[verifier::ext_equal]
pub struct MainV {
    pub temp: Seq<char>,
    pub feels_like: Seq<char>,
    pub pressure: Seq<char>,
    pub humidity: Seq<char>,
    pub temp_min: Seq<char>,
    pub temp_max: Seq<char>,
    pub sea_level: Option<Seq<char>>,
    pub grnd_level: Option<Seq<char>>,
}

/// The main measurements of the response, as decimal text.
pub struct Main {
    pub temp: String,
    pub feels_like: String,
    pub pressure: String,
    pub humidity: String,
    pub temp_min: String,
    pub temp_max: String,
    pub sea_level: Option<String>,
    pub grnd_level: Option<String>,
}

impl DeepView for Main {
    type V = MainV;

    open spec fn deep_view(&self) -> MainV {
        MainV {
            temp: self.temp@,
            feels_like: self.feels_like@,
            pressure: self.pressure@,
            humidity: self.humidity@,
            temp_min: self.temp_min@,
            temp_max: self.temp_max@,
            sea_level: self.sea_level.deep_view(),
            grnd_level: self.grnd_level.deep_view(),
        }
    }
}

/// Wind measurements, as decimal text.
#[verifier::ext_equal]
pub struct WindV {
    pub speed: Seq<char>,
    pub deg: Seq<char>,
    pub gust: Option<Seq<char>>,
}

/// Wind measurements of the response, as decimal text.
pub struct Wind {
    pub speed: String,
    pub deg: String,
    pub gust: Option<String>,
}

impl DeepView for Wind {
    type V = WindV;

    open spec fn deep_view(&self) -> WindV {
        WindV { speed: self.speed@, deg: self.deg@, gust: self.gust.deep_view() }
    }
}

/// Cloud coverage, as decimal text.
#[verifier::ext_equal]
pub struct CloudsV {
    pub all: Seq<char>,
}

/// Cloud coverage of the response, as decimal text.
pub struct Clouds {
    pub all: String,
}

impl DeepView for Clouds {
    type V = CloudsV;

    open spec fn deep_view(&self) -> CloudsV {
        CloudsV { all: self.all@ }
    }
}

/// Rain or snow volume over the last one and three hours.
#[verifier::ext_equal]
pub struct VolumeV {
    pub h1: Option<Seq<char>>,
    pub h3: Option<Seq<char>>,
}

/// Rain or snow volume of the response, as decimal text.
pub struct Volume {
    pub h1: Option<String>,
    pub h3: Option<String>,
}

impl DeepView for Volume {
    type V = VolumeV;

    open spec fn deep_view(&self) -> VolumeV {
        VolumeV { h1: self.h1.deep_view(), h3: self.h3.deep_view() }
    }
}

/// The response's sys block.
#[verifier::ext_equal]
pub struct SysV {
    pub type_: Option<u64>,
    pub id: Option<u64>,
    pub message: Option<Seq<char>>,
    pub country: Seq<char>,
    pub sunrise: i64,
    pub sunset: i64,
}

/// The sys block of the response.
pub struct Sys {
    pub type_: Option<u64>,
    pub id: Option<u64>,
    pub message: Option<String>,
    pub country: String,
    pub sunrise: i64,
    pub sunset: i64,
}

impl DeepView for Sys {
    type V = SysV;

    open spec fn deep_view(&self) -> SysV {
        SysV {
            type_: self.type_,
            id: self.id,
            message: self.message.deep_view(),
            country: self.country@,
            sunrise: self.sunrise,
            sunset: self.sunset,
        }
    }
}

/// A whole weather response.
#[verifier::ext_equal]
pub struct CurrentWeatherV {
    pub coord: CoordV,
    pub weather: Seq<WeatherV>,
    pub base: Seq<char>,
    pub main: MainV,
    pub visibility: u64,
    pub wind: WindV,
    pub clouds: CloudsV,
    pub rain: Option<VolumeV>,
    pub snow: Option<VolumeV>,
    pub dt: i64,
    pub sys: SysV,
    pub timezone: i64,
    pub id: u64,
    pub name: Seq<char>,
    pub cod: u64,
}

/// A whole weather response, decoded.
pub struct CurrentWeather {
    pub coord: Coord,
    pub weather: Vec<Weather>,
    pub base: String,
    pub main: Main,
    pub visibility: u64,
    pub wind: Wind,
    pub clouds: Clouds,
    pub rain: Option<Volume>,
    pub snow: Option<Volume>,
    pub dt: i64,
    pub sys: Sys,
    pub timezone: i64,
    pub id: u64,
    pub name: String,
    pub cod: u64,
}

impl DeepView for CurrentWeather {
    type V = CurrentWeatherV;

    open spec fn deep_view(&self) -> CurrentWeatherV {
        CurrentWeatherV {
            coord: self.coord.deep_view(),
            weather: self.weather.deep_view(),
            base: self.base@,
            main: self.main.deep_view(),
            visibility: self.visibility,
            wind: self.wind.deep_view(),
            clouds: self.clouds.deep_view(),
            rain: self.rain.deep_view(),
            snow: self.snow.deep_view(),
            dt: self.dt,
            sys: self.sys.deep_view(),
            timezone: self.timezone,
            id: self.id,
            name: self.name@,
            cod: self.cod,
        }
    }
}

/// Decodes a coordinates object.
pub open spec fn dec_coord(v: JsonV) -> Option<CoordV> {
    match v {
        JsonV::Obj(f) => {
            if req_num(f, "lon"@) is Some && req_num(f, "lat"@) is Some {
                Some(CoordV { lon: req_num(f, "lon"@)->Some_0, lat: req_num(f, "lat"@)->Some_0 })
            } else {
                None
            }
        },
        _ => None,
    }
}

fn dec_coord_ex(j: &Json) -> (r: Option<Coord>)
    ensures
        match r {
            Some(c) => dec_coord(j@) == Some(c.deep_view()),
            None => dec_coord(j@) is None,
        },
{
    match j {
        Json::Obj(fields) => {
            proof {
                crate::json::lemma_obj_view(fields@);
                assert(j@ == JsonV::Obj(obj_view(fields@)));
            }
            let lon = match req_num_ex(fields, "lon") {
                Some(t) => t,
                None => {
                    return None;
                },
            };
            let lat = match req_num_ex(fields, "lat") {
                Some(t) => t,
                None => {
                    return None;
                },
            };
            Some(Coord { lon, lat })
        },
        _ => None,
    }
}

/// Decodes one weather condition entry.
pub open spec fn dec_weather(v: JsonV) -> Option<WeatherV> {
    match v {
        JsonV::Obj(f) => {
            if req_u64(f, "id"@) is Some && req_str(f, "main"@) is Some && req_str(
                f,
                "description"@,
            ) is Some && req_str(f, "icon"@) is Some {
                Some(
                    WeatherV {
                        id: req_u64(f, "id"@)->Some_0,
                        main: req_str(f, "main"@)->Some_0,
                        description: req_str(f, "description"@)->Some_0,
                        icon: req_str(f, "icon"@)->Some_0,
                    },
                )
            } else {
                None
            }
        },
        _ => None,
    }
}

fn dec_weather_ex(j: &Json) -> (r: Option<Weather>)
    ensures
        match r {
            Some(w) => dec_weather(j@) == Some(w.deep_view()),
            None => dec_weather(j@) is None,
        },
{
    match j {
        Json::Obj(fields) => {
            proof {
                crate::json::lemma_obj_view(fields@);
                assert(j@ == JsonV::Obj(obj_view(fields@)));
            }
            let id = match req_u64_ex(fields, "id") {
                Some(v) => v,
                None => {
                    return None;
                },
            };
            let main = match req_str_ex(fields, "main") {
                Some(t) => t,
                None => {
                    return None;
                },
            };
            let description = match req_str_ex(fields, "description") {
                Some(t) => t,
                None => {
                    return None;
                },
            };
            let icon = match req_str_ex(fields, "icon") {
                Some(t) => t,
                None => {
                    return None;
                },
            };
            Some(Weather { id, main, description, icon })
        },
        _ => None,
    }
}

/// Decodes the list of weather condition entries at or after `i`.
pub open spec fn dec_weather_list(items: Seq<JsonV>, i: int) -> Option<Seq<WeatherV>>
    decreases items.len() - i,
{
    if i < 0 || i >= items.len() {
        Some(Seq::empty())
    } else {
        match dec_weather(items[i]) {
            Some(w) => match dec_weather_list(items, i + 1) {
                Some(rest) => Some(seq![w] + rest),
                None => None,
            },
            None => None,
        }
    }
}

fn dec_weather_list_ex(items: &Vec<Json>, i: usize) -> (r: Option<Vec<Weather>>)
    requires
        i <= items@.len(),
    ensures
        match r {
            Some(ws) => dec_weather_list(crate::json::arr_view(items@), i as int) == Some(
                ws.deep_view(),
            ),
            None => dec_weather_list(crate::json::arr_view(items@), i as int) is None,
        },
    decreases items@.len() - i,
{
    if i == items.len() {
        let ws: Vec<Weather> = Vec::new();
        proof {
            assert(ws.deep_view() =~= Seq::<WeatherV>::empty());
        }
        return Some(ws);
    }
    match dec_weather_ex(&items[i]) {
        Some(w) => match dec_weather_list_ex(items, i + 1) {
            Some(rest) => {
                let ghost rest_view = rest.deep_view();
                let ghost w_view = w.deep_view();
                let mut ws = rest;
                ws.insert(0, w);
                proof {
                    assert(ws.deep_view() =~= seq![w_view] + rest_view);
                }
                Some(ws)
            },
            None => None,
        },
        None => None,
    }
}

/// Decodes the main measurements object.
pub open spec fn dec_main(v: JsonV) -> Option<MainV> {
    match v {
        JsonV::Obj(f) => {
            if req_num(f, "temp"@) is Some && req_num(f, "feels_like"@) is Some && req_num(
                f,
                "pressure"@,
            ) is Some && req_num(f, "humidity"@) is Some && req_num(f, "temp_min"@) is Some
                && req_num(f, "temp_max"@) is Some && opt_num(f, "sea_level"@) is Some && opt_num(
                f,
                "grnd_level"@,
            ) is Some {
                Some(
                    MainV {
                        temp: req_num(f, "temp"@)->Some_0,
                        feels_like: req_num(f, "feels_like"@)->Some_0,
                        pressure: req_num(f, "pressure"@)->Some_0,
                        humidity: req_num(f, "humidity"@)->Some_0,
                        temp_min: req_num(f, "temp_min"@)->Some_0,
                        temp_max: req_num(f, "temp_max"@)->Some_0,
                        sea_level: opt_num(f, "sea_level"@)->Some_0,
                        grnd_level: opt_num(f, "grnd_level"@)->Some_0,
                    },
                )
            } else {
                None
            }
        },
        _ => None,
    }
}

fn dec_main_ex(j: &Json) -> (r: Option<Main>)
    ensures
        match r {
            Some(m) => dec_main(j@) == Some(m.deep_view()),
            None => dec_main(j@) is None,
        },
{
    match j {
        Json::Obj(fields) => {
            proof {
                crate::json::lemma_obj_view(fields@);
                assert(j@ == JsonV::Obj(obj_view(fields@)));
            }
            let temp = match req_num_ex(fields, "temp") {
                Some(t) => t,
                None => {
                    return None;
                },
            };
            let feels_like = match req_num_ex(fields, "feels_like") {
                Some(t) => t,
                None => {
                    return None;
                },
            };
            let pressure = match req_num_ex(fields, "pressure") {
                Some(t) => t,
                None => {
                    return None;
                },
            };
            let humidity = match req_num_ex(fields, "humidity") {
                Some(t) => t,
                None => {
                    return None;
                },
            };
            let temp_min = match req_num_ex(fields, "temp_min") {
                Some(t) => t,
                None => {
                    return None;
                },
            };
            let temp_max = match req_num_ex(fields, "temp_max") {
                Some(t) => t,
                None => {
                    return None;
                },
            };
            let sea_level = match opt_num_ex(fields, "sea_level") {
                Some(o) => o,
                None => {
                    return None;
                },
            };
            let grnd_level = match opt_num_ex(fields, "grnd_level") {
                Some(o) => o,
                None => {
                    return None;
                },
            };
            Some(
                Main {
                    temp,
                    feels_like,
                    pressure,
                    humidity,
                    temp_min,
                    temp_max,
                    sea_level,
                    grnd_level,
                },
            )
        },
        _ => None,
    }
}

/// Decodes the wind object.
pub open spec fn dec_wind(v: JsonV) -> Option<WindV> {
    match v {
        JsonV::Obj(f) => {
            if req_num(f, "speed"@) is Some && req_num(f, "deg"@) is Some && opt_num(
                f,
                "gust"@,
            ) is Some {
                Some(
                    WindV {
                        speed: req_num(f, "speed"@)->Some_0,
                        deg: req_num(f, "deg"@)->Some_0,
                        gust: opt_num(f, "gust"@)->Some_0,
                    },
                )
            } else {
                None
            }
        },
        _ => None,
    }
}

fn dec_wind_ex(j: &Json) -> (r: Option<Wind>)
    ensures
        match r {
            Some(w) => dec_wind(j@) == Some(w.deep_view()),
            None => dec_wind(j@) is None,
        },
{
    match j {
        Json::Obj(fields) => {
            proof {
                crate::json::lemma_obj_view(fields@);
                assert(j@ == JsonV::Obj(obj_view(fields@)));
            }
            let speed = match req_num_ex(fields, "speed") {
                Some(t) => t,
                None => {
                    return None;
                },
            };
            let deg = match req_num_ex(fields, "deg") {
                Some(t) => t,
                None => {
                    return None;
                },
            };
            let gust = match opt_num_ex(fields, "gust") {
                Some(o) => o,
                None => {
                    return None;
                },
            };
            Some(Wind { speed, deg, gust })
        },
        _ => None,
    }
}

/// Decodes the cloud coverage object.
pub open spec fn dec_clouds(v: JsonV) -> Option<CloudsV> {
    match v {
        JsonV::Obj(f) => {
            if req_num(f, "all"@) is Some {
                Some(CloudsV { all: req_num(f, "all"@)->Some_0 })
            } else {
                None
            }
        },
        _ => None,
    }
}

fn dec_clouds_ex(j: &Json) -> (r: Option<Clouds>)
    ensures
        match r {
            Some(c) => dec_clouds(j@) == Some(c.deep_view()),
            None => dec_clouds(j@) is None,
        },
{
    match j {
        Json::Obj(fields) => {
            proof {
                crate::json::lemma_obj_view(fields@);
                assert(j@ == JsonV::Obj(obj_view(fields@)));
            }
            let all = match req_num_ex(fields, "all") {
                Some(t) => t,
                None => {
                    return None;
                },
            };
            Some(Clouds { all })
        },
        _ => None,
    }
}

/// Decodes a rain or snow volume object.
pub open spec fn dec_volume(v: JsonV) -> Option<VolumeV> {
    match v {
        JsonV::Obj(f) => {
            if opt_num(f, "1h"@) is Some && opt_num(f, "3h"@) is Some {
                Some(VolumeV { h1: opt_num(f, "1h"@)->Some_0, h3: opt_num(f, "3h"@)->Some_0 })
            } else {
                None
            }
        },
        _ => None,
    }
}

fn dec_volume_ex(j: &Json) -> (r: Option<Volume>)
    ensures
        match r {
            Some(v) => dec_volume(j@) == Some(v.deep_view()),
            None => dec_volume(j@) is None,
        },
{
    match j {
        Json::Obj(fields) => {
            proof {
                crate::json::lemma_obj_view(fields@);
                assert(j@ == JsonV::Obj(obj_view(fields@)));
            }
            let h1 = match opt_num_ex(fields, "1h") {
                Some(o) => o,
                None => {
                    return None;
                },
            };
            let h3 = match opt_num_ex(fields, "3h") {
                Some(o) => o,
                None => {
                    return None;
                },
            };
            Some(Volume { h1, h3 })
        },
        _ => None,
    }
}

/// Decodes the sys block.
pub open spec fn dec_sys(v: JsonV) -> Option<SysV> {
    match v {
        JsonV::Obj(f) => {
            if opt_u64(f, "type"@) is Some && opt_u64(f, "id"@) is Some && opt_num(
                f,
                "message"@,
            ) is Some && req_str(f, "country"@) is Some && req_i64(f, "sunrise"@) is Some
                && req_i64(f, "sunset"@) is Some {
                Some(
                    SysV {
                        type_: opt_u64(f, "type"@)->Some_0,
                        id: opt_u64(f, "id"@)->Some_0,
                        message: opt_num(f, "message"@)->Some_0,
                        country: req_str(f, "country"@)->Some_0,
                        sunrise: req_i64(f, "sunrise"@)->Some_0,
                        sunset: req_i64(f, "sunset"@)->Some_0,
                    },
                )
            } else {
                None
            }
        },
        _ => None,
    }
}

fn dec_sys_ex(j: &Json) -> (r: Option<Sys>)
    ensures
        match r {
            Some(s) => dec_sys(j@) == Some(s.deep_view()),
            None => dec_sys(j@) is None,
        },
{
    match j {
        Json::Obj(fields) => {
            proof {
                crate::json::lemma_obj_view(fields@);
                assert(j@ == JsonV::Obj(obj_view(fields@)));
            }
            let type_ = match opt_u64_ex(fields, "type") {
                Some(o) => o,
                None => {
                    return None;
                },
            };
            let id = match opt_u64_ex(fields, "id") {
                Some(o) => o,
                None => {
                    return None;
                },
            };
            let message = match opt_num_ex(fields, "message") {
                Some(o) => o,
                None => {
                    return None;
                },
            };
            let country = match req_str_ex(fields, "country") {
                Some(t) => t,
                None => {
                    return None;
                },
            };
            let sunrise = match req_i64_ex(fields, "sunrise") {
                Some(v) => v,
                None => {
                    return None;
                },
            };
            let sunset = match req_i64_ex(fields, "sunset") {
                Some(v) => v,
                None => {
                    return None;
                },
            };
            Some(Sys { type_, id, message, country, sunrise, sunset })
        },
        _ => None,
    }
}

/// A required sub-object decoded by the given decoder.
pub open spec fn req_coord(f: Seq<(Seq<char>, JsonV)>) -> Option<CoordV> {
    match field_get(f, "coord"@, 0) {
        Some(v) => dec_coord(v),
        None => None,
    }
}

/// The required `weather` array of condition entries.
pub open spec fn req_weather_list(f: Seq<(Seq<char>, JsonV)>) -> Option<Seq<WeatherV>> {
    match field_get(f, "weather"@, 0) {
        Some(JsonV::Arr(items)) => dec_weather_list(items, 0),
        _ => None,
    }
}

/// The required `main` object.
pub open spec fn req_main(f: Seq<(Seq<char>, JsonV)>) -> Option<MainV> {
    match field_get(f, "main"@, 0) {
        Some(v) => dec_main(v),
        None => None,
    }
}

/// The required `wind` object.
pub open spec fn req_wind(f: Seq<(Seq<char>, JsonV)>) -> Option<WindV> {
    match field_get(f, "wind"@, 0) {
        Some(v) => dec_wind(v),
        None => None,
    }
}

/// The required `clouds` object.
pub open spec fn req_clouds(f: Seq<(Seq<char>, JsonV)>) -> Option<CloudsV> {
    match field_get(f, "clouds"@, 0) {
        Some(v) => dec_clouds(v),
        None => None,
    }
}

/// The required `sys` object.
pub open spec fn req_sys(f: Seq<(Seq<char>, JsonV)>) -> Option<SysV> {
    match field_get(f, "sys"@, 0) {
        Some(v) => dec_sys(v),
        None => None,
    }
}

/// An optional volume object: absent or `null` is no value.
pub open spec fn opt_volume(f: Seq<(Seq<char>, JsonV)>, key: Seq<char>) -> Option<Option<VolumeV>> {
    match field_get(f, key, 0) {
        None => Some(None),
        Some(JsonV::Null) => Some(None),
        Some(v) => match dec_volume(v) {
            Some(vol) => Some(Some(vol)),
            None => None,
        },
    }
}

fn opt_volume_ex(fields: &Vec<JsonField>, key: &str) -> (r: Option<Option<Volume>>)
    ensures
        match r {
            Some(Some(v)) => opt_volume(obj_view(fields@), key@) == Some(Some(v.deep_view())),
            Some(None) => opt_volume(obj_view(fields@), key@) == Some(None::<VolumeV>),
            None => opt_volume(obj_view(fields@), key@) is None,
        },
{
    match field_get_ex(fields, key, 0) {
        None => Some(None),
        Some(j) => match j {
            Json::Null => Some(None),
            _ => match dec_volume_ex(j) {
                Some(v) => Some(Some(v)),
                None => None,
            },
        },
    }
}

/// Decodes a whole weather response: every required field present and of
/// the right shape, unknown fields ignored.
pub open spec fn dec_current(v: JsonV) -> Option<CurrentWeatherV> {
    match v {
        JsonV::Obj(f) => {
            if req_coord(f) is Some && req_weather_list(f) is Some && req_str(f, "base"@) is Some
                && req_main(f) is Some && req_u64(f, "visibility"@) is Some && req_wind(f) is Some
                && req_clouds(f) is Some && opt_volume(f, "rain"@) is Some && opt_volume(
                f,
                "snow"@,
            ) is Some && req_i64(f, "dt"@) is Some && req_sys(f) is Some && req_i64(
                f,
                "timezone"@,
            ) is Some && req_u64(f, "id"@) is Some && req_str(f, "name"@) is Some && req_u64(
                f,
                "cod"@,
            ) is Some {
                Some(
                    CurrentWeatherV {
                        coord: req_coord(f)->Some_0,
                        weather: req_weather_list(f)->Some_0,
                        base: req_str(f, "base"@)->Some_0,
                        main: req_main(f)->Some_0,
                        visibility: req_u64(f, "visibility"@)->Some_0,
                        wind: req_wind(f)->Some_0,
                        clouds: req_clouds(f)->Some_0,
                        rain: opt_volume(f, "rain"@)->Some_0,
                        snow: opt_volume(f, "snow"@)->Some_0,
                        dt: req_i64(f, "dt"@)->Some_0,
                        sys: req_sys(f)->Some_0,
                        timezone: req_i64(f, "timezone"@)->Some_0,
                        id: req_u64(f, "id"@)->Some_0,
                        name: req_str(f, "name"@)->Some_0,
                        cod: req_u64(f, "cod"@)->Some_0,
                    },
                )
            } else {
                None
            }
        },
        _ => None,
    }
}

/// Decodes a parsed document into a weather response record.
pub fn dec_current_ex(j: &Json) -> (r: Option<CurrentWeather>)
    ensures
        match r {
            Some(w) => dec_current(j@) == Some(w.deep_view()),
            None => dec_current(j@) is None,
        },
{
    match j {
        Json::Obj(fields) => {
            proof {
                crate::json::lemma_obj_view(fields@);
                assert(j@ == JsonV::Obj(obj_view(fields@)));
            }
            let coord = match field_get_ex(fields, "coord", 0) {
                Some(cj) => match dec_coord_ex(cj) {
                    Some(c) => c,
                    None => {
                        return None;
                    },
                },
                None => {
                    return None;
                },
            };
            let weather = match field_get_ex(fields, "weather", 0) {
                Some(wj) => match wj {
                    Json::Arr(items) => {
                        proof {
                            crate::json::lemma_arr_view(items@);
                            assert(wj@ == JsonV::Arr(crate::json::arr_view(items@)));
                        }
                        match dec_weather_list_ex(items, 0) {
                            Some(ws) => ws,
                            None => {
                                return None;
                            },
                        }
                    },
                    _ => {
                        return None;
                    },
                },
                None => {
                    return None;
                },
            };
            let base = match req_str_ex(fields, "base") {
                Some(t) => t,
                None => {
                    return None;
                },
            };
            let main = match field_get_ex(fields, "main", 0) {
                Some(mj) => match dec_main_ex(mj) {
                    Some(m) => m,
                    None => {
                        return None;
                    },
                },
                None => {
                    return None;
                },
            };
            let visibility = match req_u64_ex(fields, "visibility") {
                Some(v) => v,
                None => {
                    return None;
                },
            };
            let wind = match field_get_ex(fields, "wind", 0) {
                Some(wj) => match dec_wind_ex(wj) {
                    Some(w) => w,
                    None => {
                        return None;
                    },
                },
                None => {
                    return None;
                },
            };
            let clouds = match field_get_ex(fields, "clouds", 0) {
                Some(cj) => match dec_clouds_ex(cj) {
                    Some(c) => c,
                    None => {
                        return None;
                    },
                },
                None => {
                    return None;
                },
            };
            let rain = match opt_volume_ex(fields, "rain") {
                Some(o) => o,
                None => {
                    return None;
                },
            };
            let snow = match opt_volume_ex(fields, "snow") {
                Some(o) => o,
                None => {
                    return None;
                },
            };
            let dt = match req_i64_ex(fields, "dt") {
                Some(v) => v,
                None => {
                    return None;
                },
            };
            let sys = match field_get_ex(fields, "sys", 0) {
                Some(sj) => match dec_sys_ex(sj) {
                    Some(s) => s,
                    None => {
                        return None;
                    },
                },
                None => {
                    return None;
                },
            };
            let timezone = match req_i64_ex(fields, "timezone") {
                Some(v) => v,
                None => {
                    return None;
                },
            };
            let id = match req_u64_ex(fields, "id") {
                Some(v) => v,
                None => {
                    return None;
                },
            };
            let name = match req_str_ex(fields, "name") {
                Some(t) => t,
                None => {
                    return None;
                },
            };
            let cod = match req_u64_ex(fields, "cod") {
                Some(v) => v,
                None => {
                    return None;
                },
            };
            Some(
                CurrentWeather {
                    coord,
                    weather,
                    base,
                    main,
                    visibility,
                    wind,
                    clouds,
                    rain,
                    snow,
                    dt,
                    sys,
                    timezone,
                    id,
                    name,
                    cod,
                },
            )
        },
        _ => None,
    }
}

/// The first position at or after `i` holding character `c`.
pub open spec fn find_char_from(t: Seq<char>, c: char, i: int) -> Option<int>
    decreases t.len() - i,
{
    if i < 0 || i >= t.len() {
        None
    } else if t[i] == c {
        Some(i)
    } else {
        find_char_from(t, c, i + 1)
    }
}

fn find_char_ex(t: &str, len: usize, c: char, i: usize) -> (r: Option<usize>)
    requires
        len == t@.len(),
        i <= len,
    ensures
        match r {
            Some(d) => find_char_from(t@, c, i as int) == Some(d as int) && i <= d < len,
            None => find_char_from(t@, c, i as int) is None,
        },
    decreases len - i,
{
    if i == len {
        None
    } else if t.get_char(i) == c {
        Some(i)
    } else {
        find_char_ex(t, len, c, i + 1)
    }
}

/// The text with its trailing `'0'` characters removed.
pub open spec fn trim_zeros(t: Seq<char>) -> Seq<char>
    decreases t.len(),
{
    if t.len() > 0 && t.last() == '0' {
        trim_zeros(t.drop_last())
    } else {
        t
    }
}

fn trim_end_ex(t: &str, len: usize, d1: usize, end: usize) -> (r: usize)
    requires
        len == t@.len(),
        d1 <= end <= len,
    ensures
        d1 <= r <= end,
        t@.subrange(d1 as int, r as int) == trim_zeros(t@.subrange(d1 as int, end as int)),
    decreases end,
{
    if end == d1 {
        return end;
    }
    if t.get_char(end - 1) == '0' {
        proof {
            assert(t@.subrange(d1 as int, end as int).drop_last() =~= t@.subrange(
                d1 as int,
                end - 1,
            ));
        }
        trim_end_ex(t, len, d1, end - 1)
    } else {
        end
    }
}

/// The display form of a decimal number text: with no exponent, trailing
/// zeros of the fraction are dropped, and a fraction left empty drops its
/// point too; a text with an exponent is kept as it is.
pub open spec fn canon_num(t: Seq<char>) -> Seq<char> {
    if find_char_from(t, 'e', 0) is Some || find_char_from(t, 'E', 0) is Some {
        t
    } else {
        match find_char_from(t, '.', 0) {
            None => t,
            Some(d) => {
                let frac = trim_zeros(t.skip(d + 1));
                if frac.len() == 0 {
                    t.take(d)
                } else {
                    t.take(d + 1) + frac
                }
            },
        }
    }
}

/// Canonicalises a number text for display.
pub fn canonical_number(t: &str) -> (r: String)
    ensures
        r@ == canon_num(t@),
{
    let len = t.unicode_len();
    if find_char_ex(t, len, 'e', 0).is_some() || find_char_ex(t, len, 'E', 0).is_some() {
        return t.to_owned();
    }
    match find_char_ex(t, len, '.', 0) {
        None => t.to_owned(),
        Some(d) => {
            proof {
                assert(t@.subrange(d + 1, len as int) =~= t@.skip(d + 1));
            }
            let end = trim_end_ex(t, len, d + 1, len);
            if end == d + 1 {
                let r = t.substring_char(0, d).to_owned();
                proof {
                    assert(t@.subrange(0, d as int) =~= t@.take(d as int));
                }
                r
            } else {
                let mut r = t.substring_char(0, d + 1).to_owned();
                r.append(t.substring_char(d + 1, end));
                proof {
                    assert(t@.subrange(0, d + 1) =~= t@.take(d + 1));
                }
                r
            }
        },
    }
}

/// A structured reply: a title, a thumbnail image address, an accent
/// colour, and named fields with an inline flag.
#[verifier::ext_equal]
pub struct ReplyV {
    pub title: Seq<char>,
    pub thumbnail: Seq<char>,
    pub colour: u32,
    pub fields: Seq<(Seq<char>, Seq<char>, bool)>,
}

/// A structured reply for the caller to render as an embed.
pub struct Reply {
    pub title: String,
    pub thumbnail: String,
    pub colour: u32,
    pub fields: Vec<(String, String, bool)>,
}

impl DeepView for Reply {
    type V = ReplyV;

    open spec fn deep_view(&self) -> ReplyV {
        ReplyV {
            title: self.title@,
            thumbnail: self.thumbnail@,
            colour: self.colour,
            fields: self.fields.deep_view(),
        }
    }
}

/// The request address for a city's weather: the provider's endpoint with
/// the city's coordinates, the caller's key, and metric units.
pub fn weather_url(city: &City, key: &str) -> (r: String)
    ensures
        r@ == "http://api.openweathermap.org/data/2.5/weather?lat="@ + city.lat@ + "&lon="@
            + city.lon@ + "&appid="@ + key@ + "&units=metric"@,
{
    let mut r = String::new();
    r.append("http://api.openweathermap.org/data/2.5/weather?lat=");
    r.append(city.lat.as_str());
    r.append("&lon=");
    r.append(city.lon.as_str());
    r.append("&appid=");
    r.append(key);
    r.append("&units=metric");
    proof {
        assert(r@ =~= "http://api.openweathermap.org/data/2.5/weather?lat="@ + city.lat@
            + "&lon="@ + city.lon@ + "&appid="@ + key@ + "&units=metric"@);
    }
    r
}

/// The reply embed built for a decoded response: the city's own name and
/// country, the canonicalised measurements, and the first condition
/// entry's description and icon.
pub open spec fn weather_reply_spec(name: Seq<char>, country: Seq<char>, w: CurrentWeatherV) -> ReplyV {
    ReplyV {
        title: "Weather"@,
        thumbnail: "https://openweathermap.org/img/wn/"@ + w.weather[0].icon + "@2x.png"@,
        colour: 0xe10054,
        fields: seq![
            ("Location"@, name + ", "@ + country, false),
            ("Temperature"@, canon_num(w.main.temp) + "°C"@, false),
            ("Feels like"@, canon_num(w.main.feels_like) + "°C"@, false),
            ("Humidity"@, canon_num(w.main.humidity) + "%"@, false),
            ("Wind"@, canon_num(w.wind.speed) + " km/h"@, false),
            ("Condition"@, w.weather[0].description, false),
            ("Pressure"@, canon_num(w.main.pressure) + " hPa"@, false),
        ],
    }
}

/// Builds the reply embed for a decoded response.
pub fn weather_reply(city: &City, w: &CurrentWeather) -> (r: Reply)
    requires
        w.weather@.len() > 0,
    ensures
        r.deep_view() == weather_reply_spec(city.name@, city.country@, w.deep_view()),
{
    let title = "Weather".to_owned();

    let mut thumbnail = String::new();
    thumbnail.append("https://openweathermap.org/img/wn/");
    thumbnail.append(w.weather[0].icon.as_str());
    thumbnail.append("@2x.png");

    let mut location = city.name.clone();
    location.append(", ");
    location.append(city.country.as_str());

    let mut temperature = canonical_number(w.main.temp.as_str());
    temperature.append("°C");

    let mut feels_like = canonical_number(w.main.feels_like.as_str());
    feels_like.append("°C");

    let mut humidity = canonical_number(w.main.humidity.as_str());
    humidity.append("%");

    let mut wind = canonical_number(w.wind.speed.as_str());
    wind.append(" km/h");

    let condition = w.weather[0].description.clone();

    let mut pressure = canonical_number(w.main.pressure.as_str());
    pressure.append(" hPa");

    let mut fields: Vec<(String, String, bool)> = Vec::new();
    fields.push(("Location".to_owned(), location, false));
    fields.push(("Temperature".to_owned(), temperature, false));
    fields.push(("Feels like".to_owned(), feels_like, false));
    fields.push(("Humidity".to_owned(), humidity, false));
    fields.push(("Wind".to_owned(), wind, false));
    fields.push(("Condition".to_owned(), condition, false));
    fields.push(("Pressure".to_owned(), pressure, false));

    let r = Reply { title, thumbnail, colour: 0xe10054, fields };
    proof {
        assert(r.deep_view().fields =~= weather_reply_spec(
            city.name@,
            city.country@,
            w.deep_view(),
        ).fields);
        assert(r.deep_view() =~= weather_reply_spec(city.name@, city.country@, w.deep_view()));
    }
    r
}

/// The decoded weather record a response body denotes, if any.
pub open spec fn weather_decode(s: Seq<char>) -> Option<CurrentWeatherV> {
    match json_of(s) {
        Some(v) => dec_current(v),
        None => None,
    }
}

/// The whole computation of the weather command after the provider has
/// answered: parses the body, decodes it, and formats the reply. Fails
/// with a decode error exactly when the body is not JSON, not of the
/// response shape, or reports no condition entry.
pub fn weather_from_body(city: &City, body: &str) -> (r: Result<Reply, crate::BotError>)
    ensures
        match r {
            Ok(rep) => {
                &&& weather_decode(body@) matches Some(w)
                &&& w.weather.len() > 0
                &&& rep.deep_view() == weather_reply_spec(city.name@, city.country@, w)
            },
            Err(e) => {
                &&& e == crate::BotError::Decode
                &&& match weather_decode(body@) {
                    Some(w) => w.weather.len() == 0,
                    None => true,
                }
            },
        },
{
    let parsed = match crate::json::parse_json(body) {
        Some(j) => j,
        None => {
            return Err(crate::BotError::Decode);
        },
    };
    let w = match dec_current_ex(&parsed) {
        Some(w) => w,
        None => {
            return Err(crate::BotError::Decode);
        },
    };
    if w.weather.len() == 0 {
        return Err(crate::BotError::Decode);
    }
    Ok(weather_reply(city, &w))
}

} // verus!
