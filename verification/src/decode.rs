//! Strict decoding of the upstream JSON into typed structures.
//!
//! The upstream answers with an object holding a `weather` array (whose
//! first entry carries the condition texts) and either a `main` object
//! (current mode) or a `list` array of dated entries (forecast mode).
//! Decoding is strict: a missing field, a field of the wrong shape, or an
//! empty `weather` array is a decode failure, never a default value and
//! never an out-of-bounds read. Unknown fields are ignored.

use vstd::prelude::*;
use crate::digits::{all_digits, parse_u64, spec_dec_val};
use crate::errors::WeatherError;
use crate::json::{obj_get, spec_obj_get, Json};
use crate::model::{CurrentConditions, CurrentView, ForecastEntry, ForecastView};

verus! {

/// The string under `key`, if the object has one there.
pub open spec fn spec_get_str(pairs: Seq<(String, Json)>, key: Seq<char>) -> Option<Seq<char>> {
    match spec_obj_get(pairs, key) {
        Some(Json::Str(s)) => Some(s@),
        _ => None,
    }
}

/// The number under `key`, as its decimal text, if the object has one there.
pub open spec fn spec_get_num(pairs: Seq<(String, Json)>, key: Seq<char>) -> Option<Seq<char>> {
    match spec_obj_get(pairs, key) {
        Some(Json::Num(s)) => Some(s@),
        _ => None,
    }
}

/// The object under `key`, as its pair list, if the object has one there.
pub open spec fn spec_get_obj(pairs: Seq<(String, Json)>, key: Seq<char>) -> Option<
    Seq<(String, Json)>,
> {
    match spec_obj_get(pairs, key) {
        Some(Json::Obj(o)) => Some(o@),
        _ => None,
    }
}

/// The array under `key`, if the object has one there.
pub open spec fn spec_get_arr(pairs: Seq<(String, Json)>, key: Seq<char>) -> Option<Seq<Json>> {
    match spec_obj_get(pairs, key) {
        Some(Json::Arr(a)) => Some(a@),
        _ => None,
    }
}

/// The condition word and description of the first entry of the `weather`
/// array, or `None` when the array is absent, empty, or ill-shaped.
pub open spec fn spec_weather0(pairs: Seq<(String, Json)>) -> Option<(Seq<char>, Seq<char>)> {
    match spec_get_arr(pairs, "weather"@) {
        Some(arr) => {
            if arr.len() == 0 {
                None
            } else {
                match arr[0] {
                    Json::Obj(wo) => match (spec_get_str(wo@, "main"@), spec_get_str(
                        wo@,
                        "description"@,
                    )) {
                        (Some(c), Some(d)) => Some((c, d)),
                        _ => None,
                    },
                    _ => None,
                }
            }
        },
        None => None,
    }
}

/// The current conditions a decoded document denotes, or `None` when the
/// document does not match the schema.
pub open spec fn spec_current_of(j: Json) -> Option<CurrentView> {
    match j {
        Json::Obj(pairs) => match (spec_weather0(pairs@), spec_get_obj(pairs@, "main"@)) {
            (Some(w), Some(mo)) => match (spec_get_num(mo, "temp"@), spec_get_num(
                mo,
                "feels_like"@,
            ), spec_get_num(mo, "humidity"@)) {
                (Some(t), Some(f), Some(h)) => {
                    if h.len() > 0 && all_digits(h) && spec_dec_val(h) <= u64::MAX {
                        Some(
                            CurrentView {
                                condition: w.0,
                                description: w.1,
                                temp: t,
                                feels_like: f,
                                humidity: spec_dec_val(h) as u64,
                            },
                        )
                    } else {
                        None
                    }
                },
                _ => None,
            },
            _ => None,
        },
        _ => None,
    }
}

/// The forecast entry a decoded array element denotes, or `None` when it
/// does not match the schema.
pub open spec fn spec_entry_of(j: Json) -> Option<ForecastView> {
    match j {
        Json::Obj(io) => match (spec_get_str(io@, "dt_txt"@), spec_weather0(io@), spec_get_obj(
            io@,
            "main"@,
        )) {
            (Some(ts), Some(w), Some(mo)) => match spec_get_num(mo, "temp"@) {
                Some(t) => Some(
                    ForecastView { timestamp: ts, condition: w.0, description: w.1, temp: t },
                ),
                None => None,
            },
            _ => None,
        },
        _ => None,
    }
}

/// The forecast entries a decoded `list` array denotes, in order, or
/// `None` as soon as one element does not match the schema.
pub open spec fn spec_entries_of(items: Seq<Json>) -> Option<Seq<ForecastView>>
    decreases items.len(),
{
    if items.len() == 0 {
        Some(Seq::<ForecastView>::empty())
    } else {
        match (spec_entry_of(items[0]), spec_entries_of(items.drop_first())) {
            (Some(e), Some(rest)) => Some(seq![e] + rest),
            _ => None,
        }
    }
}

/// The forecast a decoded document denotes, or `None` when the document
/// does not match the schema.
pub open spec fn spec_forecast_of(j: Json) -> Option<Seq<ForecastView>> {
    match j {
        Json::Obj(pairs) => match spec_get_arr(pairs@, "list"@) {
            Some(items) => spec_entries_of(items),
            None => None,
        },
        _ => None,
    }
}

/// An empty `weather` array never decodes: a document whose `weather`
/// array has length zero denotes no current conditions and no forecast
/// entry, so decoding it fails rather than reading past the end.
pub proof fn lemma_empty_weather_rejected(j: Json)
    requires
        j matches Json::Obj(pairs) && spec_get_arr(pairs@, "weather"@) matches Some(arr)
            && arr.len() == 0,
    ensures
        spec_current_of(j) is None,
        spec_entry_of(j) is None,
{
}

/// A well-shaped `list` array decodes to exactly one entry per element.
proof fn lemma_entries_len(items: Seq<Json>)
    ensures
        spec_entries_of(items) matches Some(m) ==> m.len() == items.len(),
    decreases items.len(),
{
    if items.len() > 0 {
        lemma_entries_len(items.drop_first());
    }
}

/// A decode failure carrying a short description.
fn decode_err(what: &str) -> (r: WeatherError)
    ensures
        r is Decode,
{
    WeatherError::Decode(String::from_str(what))
}

/// Look the string under `key` up.
fn get_str<'a>(pairs: &'a Vec<(String, Json)>, key: &str) -> (r: Option<&'a String>)
    ensures
        match r {
            Some(s) => spec_get_str(pairs@, key@) == Some(s@),
            None => spec_get_str(pairs@, key@) is None,
        },
{
    match obj_get(pairs, key) {
        Some(Json::Str(s)) => Some(s),
        _ => None,
    }
}

/// Look the number under `key` up, as its decimal text.
fn get_num<'a>(pairs: &'a Vec<(String, Json)>, key: &str) -> (r: Option<&'a String>)
    ensures
        match r {
            Some(s) => spec_get_num(pairs@, key@) == Some(s@),
            None => spec_get_num(pairs@, key@) is None,
        },
{
    match obj_get(pairs, key) {
        Some(Json::Num(s)) => Some(s),
        _ => None,
    }
}

/// Look the object under `key` up, as its pair list.
fn get_obj<'a>(pairs: &'a Vec<(String, Json)>, key: &str) -> (r: Option<
    &'a Vec<(String, Json)>,
>)
    ensures
        match r {
            Some(o) => spec_get_obj(pairs@, key@) == Some(o@),
            None => spec_get_obj(pairs@, key@) is None,
        },
{
    match obj_get(pairs, key) {
        Some(Json::Obj(o)) => Some(o),
        _ => None,
    }
}

/// Look the array under `key` up.
fn get_arr<'a>(pairs: &'a Vec<(String, Json)>, key: &str) -> (r: Option<&'a Vec<Json>>)
    ensures
        match r {
            Some(a) => spec_get_arr(pairs@, key@) == Some(a@),
            None => spec_get_arr(pairs@, key@) is None,
        },
{
    match obj_get(pairs, key) {
        Some(Json::Arr(a)) => Some(a),
        _ => None,
    }
}

/// Read the condition word and description out of the first `weather`
/// entry of `pairs`.
fn weather0<'a>(pairs: &'a Vec<(String, Json)>) -> (r: Result<(&'a String, &'a String), WeatherError>)
    ensures
        match r {
            Ok(w) => spec_weather0(pairs@) == Some((w.0@, w.1@)),
            Err(e) => spec_weather0(pairs@) is None && e is Decode,
        },
{
    let arr = match get_arr(pairs, "weather") {
        Some(a) => a,
        None => {
            return Err(decode_err("missing weather array"));
        },
    };
    if arr.len() == 0 {
        return Err(decode_err("empty weather array"));
    }
    let wo = match &arr[0] {
        Json::Obj(o) => o,
        _ => {
            return Err(decode_err("weather entry is not an object"));
        },
    };
    let cond = match get_str(wo, "main") {
        Some(s) => s,
        None => {
            return Err(decode_err("missing weather condition"));
        },
    };
    let desc = match get_str(wo, "description") {
        Some(s) => s,
        None => {
            return Err(decode_err("missing weather description"));
        },
    };
    Ok((cond, desc))
}

/// Decode one set of current conditions out of a parsed document.
/// Succeeds exactly on documents that match the schema; an empty
/// `weather` array is a decode failure.
pub fn decode_current(j: &Json) -> (r: Result<CurrentConditions, WeatherError>)
    ensures
        spec_current_of(*j) matches Some(m) ==> r matches Ok(c) && c@ == m,
        spec_current_of(*j) is None ==> (r matches Err(e) && e is Decode),
{
    let pairs = match j {
        Json::Obj(p) => p,
        _ => {
            return Err(decode_err("response is not an object"));
        },
    };
    let w = match weather0(pairs) {
        Ok(w) => w,
        Err(e) => {
            return Err(e);
        },
    };
    let mo = match get_obj(pairs, "main") {
        Some(o) => o,
        None => {
            return Err(decode_err("missing main object"));
        },
    };
    let temp = match get_num(mo, "temp") {
        Some(s) => s,
        None => {
            return Err(decode_err("missing temperature"));
        },
    };
    let feels = match get_num(mo, "feels_like") {
        Some(s) => s,
        None => {
            return Err(decode_err("missing feels-like temperature"));
        },
    };
    let hum_text = match get_num(mo, "humidity") {
        Some(s) => s,
        None => {
            return Err(decode_err("missing humidity"));
        },
    };
    let humidity = match parse_u64(hum_text.as_str()) {
        Some(v) => v,
        None => {
            return Err(decode_err("humidity is not an integer"));
        },
    };
    let c = CurrentConditions {
        condition: w.0.clone(),
        description: w.1.clone(),
        temp: temp.clone(),
        feels_like: feels.clone(),
        humidity,
    };
    proof {
        assert(c@ =~= spec_current_of(*j)->0);
    }
    Ok(c)
}

/// Decode one forecast entry out of one element of the `list` array.
pub fn decode_entry(j: &Json) -> (r: Result<ForecastEntry, WeatherError>)
    ensures
        spec_entry_of(*j) matches Some(m) ==> r matches Ok(e) && e@ == m,
        spec_entry_of(*j) is None ==> (r matches Err(e) && e is Decode),
{
    let io = match j {
        Json::Obj(p) => p,
        _ => {
            return Err(decode_err("forecast entry is not an object"));
        },
    };
    let ts = match get_str(io, "dt_txt") {
        Some(s) => s,
        None => {
            return Err(decode_err("missing entry timestamp"));
        },
    };
    let w = match weather0(io) {
        Ok(w) => w,
        Err(e) => {
            return Err(e);
        },
    };
    let mo = match get_obj(io, "main") {
        Some(o) => o,
        None => {
            return Err(decode_err("missing entry main object"));
        },
    };
    let temp = match get_num(mo, "temp") {
        Some(s) => s,
        None => {
            return Err(decode_err("missing entry temperature"));
        },
    };
    let e = ForecastEntry {
        timestamp: ts.clone(),
        condition: w.0.clone(),
        description: w.1.clone(),
        temp: temp.clone(),
    };
    proof {
        assert(e@ =~= spec_entry_of(*j)->0);
    }
    Ok(e)
}

/// Decode the whole forecast out of a parsed document, keeping the
/// entries in response order. Succeeds exactly on documents that match
/// the schema, with every `list` element well shaped.
pub fn decode_forecast(j: &Json) -> (r: Result<Vec<ForecastEntry>, WeatherError>)
    ensures
        spec_forecast_of(*j) matches Some(m) ==> r matches Ok(v) && v@.len() == m.len() && (forall|
            i: int,
        | 0 <= i < m.len() ==> #[trigger] v@[i]@ == m[i]),
        spec_forecast_of(*j) is None ==> (r matches Err(e) && e is Decode),
{
    let pairs = match j {
        Json::Obj(p) => p,
        _ => {
            return Err(decode_err("response is not an object"));
        },
    };
    let items = match get_arr(pairs, "list") {
        Some(a) => a,
        None => {
            return Err(decode_err("missing forecast list"));
        },
    };
    let n = items.len();
    let mut out: Vec<ForecastEntry> = Vec::new();
    let mut i: usize = 0;
    proof {
        assert(items@.skip(0) =~= items@);
        lemma_entries_len(items@);
    }
    while i < n
        invariant
            n == items@.len(),
            i <= n,
            out@.len() == i,
            spec_forecast_of(*j) == spec_entries_of(items@),
            spec_entries_of(items@) is Some <==> spec_entries_of(items@.skip(i as int)) is Some,
            spec_entries_of(items@) matches Some(m) ==> m.len() == n && spec_entries_of(
                items@.skip(i as int),
            )->0 =~= m.skip(i as int) && (forall|k: int|
                0 <= k < i ==> #[trigger] out@[k]@ == m[k]),
        decreases n - i,
    {
        proof {
            assert(items@.skip(i as int)[0] == items@[i as int]);
            assert(items@.skip(i as int).drop_first() =~= items@.skip(i as int + 1));
        }
        let e = match decode_entry(&items[i]) {
            Ok(e) => e,
            Err(err) => {
                proof {
                    assert(spec_entries_of(items@.skip(i as int)) is None);
                }
                return Err(err);
            },
        };
        proof {
            assert(spec_entry_of(items@[i as int]) is Some);
            if spec_entries_of(items@) is Some {
                let m = spec_entries_of(items@)->0;
                let s_i = items@.skip(i as int);
                let rest = spec_entries_of(s_i)->0;
                let tail = spec_entries_of(items@.skip(i as int + 1))->0;
                assert(rest == seq![spec_entry_of(s_i[0])->0] + tail);
                assert(rest[0] == e@);
                assert(rest.len() == m.len() - i);
                assert(m[i as int] == m.skip(i as int)[0]);
                assert(tail =~= rest.drop_first());
                assert forall|k: int| 0 <= k < m.skip(i as int + 1).len() implies tail[k] == m.skip(
                    i as int + 1,
                )[k] by {
                    assert(tail[k] == rest[k + 1]);
                    assert(rest[k + 1] == m.skip(i as int)[k + 1]);
                }
                assert(tail =~= m.skip(i as int + 1));
            }
        }
        out.push(e);
        i = i + 1;
    }
    proof {
        assert(items@.skip(n as int).len() == 0);
        assert(spec_entries_of(items@.skip(n as int)) is Some);
    }
    Ok(out)
}

} // verus!
