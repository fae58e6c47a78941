//! The verified decoder: from a response body to an `IpInfo` record.
//!
//! The body is parsed by the trusted boundary of `crate::wire`; everything
//! after the parse — the wire-name mapping, the tolerance for absent, null
//! and unknown fields, and the rejection of ill-typed fields — is verified
//! against the model functions of `crate::record`.

use vstd::prelude::*;

use crate::model::{bool_of, bool_ok, i64_of, i64_ok, num_text_of, num_text_ok, str_of, str_ok,
    u32_of, u32_ok, JsonSpec};
use crate::record::{
    child_ok, connection_ok, currency_ok, decoded_connection, decoded_currency, decoded_language,
    decoded_location, decoded_record, decoded_time_zone, langs_of, langs_ok, language_ok,
    location_ok, record_ok, time_zone_ok, vos, Connection, Currency, IpInfo, Language, Location,
    TimeZone,
};
use crate::text::str_eq;
use crate::wire::{
    array_elems, bool_value, entries_match, i64_value, is_null, json_doc, number_text,
    object_entries, parse_json, str_value, u64_value, value_model,
};
use crate::GeoError;

verus! {

/// When a key was found among entries that match an object model, the model
/// binds that key to the model of the found value.
proof fn lemma_found(
    es: Seq<(String, serde_json::Value)>,
    m: Map<Seq<char>, JsonSpec>,
    key: Seq<char>,
    v: serde_json::Value,
)
    requires
        entries_match(es, m),
        exists|i: int| 0 <= i < es.len() && (#[trigger] es[i]).0@ == key && es[i].1 == v,
    ensures
        m.contains_key(key),
        m[key] == value_model(v),
{
    let i = choose|i: int| 0 <= i < es.len() && (#[trigger] es[i]).0@ == key && es[i].1 == v;
    assert(m.contains_key(es[i].0@));
}

/// When a key appears in no entry of entries that match an object model, the
/// model does not contain that key.
proof fn lemma_missing(
    es: Seq<(String, serde_json::Value)>,
    m: Map<Seq<char>, JsonSpec>,
    key: Seq<char>,
)
    requires
        entries_match(es, m),
        forall|i: int| 0 <= i < es.len() ==> (#[trigger] es[i]).0@ != key,
    ensures
        !m.contains_key(key),
{
    if m.contains_key(key) {
        let i = choose|i: int| 0 <= i < es.len() && (#[trigger] es[i]).0@ == key;
        assert(false);
    }
}

/// The entry bound to `key`, if any.
fn lookup_entry<'a>(es: &'a Vec<(String, serde_json::Value)>, key: &str) -> (r: Option<
    &'a serde_json::Value,
>)
    ensures
        r matches Some(v) ==> exists|i: int|
            0 <= i < es@.len() && (#[trigger] es@[i]).0@ == key@ && es@[i].1 == *v,
        r is None ==> forall|i: int| 0 <= i < es@.len() ==> (#[trigger] es@[i]).0@ != key@,
{
    let mut i: usize = 0;
    while i < es.len()
        invariant
            i <= es@.len(),
            forall|j: int| 0 <= j < i ==> (#[trigger] es@[j]).0@ != key@,
        decreases es@.len() - i,
    {
        if str_eq(es[i].0.as_str(), key) {
            return Some(&es[i].1);
        }
        i += 1;
    }
    None
}

/// Decode an optional string field: `None` is a type error, `Some(None)` an
/// absent field.
fn get_str(
    es: &Vec<(String, serde_json::Value)>,
    key: &str,
    Ghost(m): Ghost<Map<Seq<char>, JsonSpec>>,
) -> (r: Option<Option<String>>)
    requires
        entries_match(es@, m),
    ensures
        r is Some <==> str_ok(m, key@),
        r matches Some(o) ==> vos(o) == str_of(m, key@),
{
    match lookup_entry(es, key) {
        None => {
            proof {
                lemma_missing(es@, m, key@);
            }
            Some(None)
        },
        Some(v) => {
            proof {
                lemma_found(es@, m, key@, *v);
            }
            if is_null(v) {
                Some(None)
            } else {
                match str_value(v) {
                    Some(s) => Some(Some(s)),
                    None => None,
                }
            }
        },
    }
}

/// Decode an optional boolean field.
fn get_bool(
    es: &Vec<(String, serde_json::Value)>,
    key: &str,
    Ghost(m): Ghost<Map<Seq<char>, JsonSpec>>,
) -> (r: Option<Option<bool>>)
    requires
        entries_match(es@, m),
    ensures
        r is Some <==> bool_ok(m, key@),
        r matches Some(o) ==> o == bool_of(m, key@),
{
    match lookup_entry(es, key) {
        None => {
            proof {
                lemma_missing(es@, m, key@);
            }
            Some(None)
        },
        Some(v) => {
            proof {
                lemma_found(es@, m, key@, *v);
            }
            if is_null(v) {
                Some(None)
            } else {
                match bool_value(v) {
                    Some(b) => Some(Some(b)),
                    None => None,
                }
            }
        },
    }
}

/// Decode an optional unsigned 32-bit field.
fn get_u32(
    es: &Vec<(String, serde_json::Value)>,
    key: &str,
    Ghost(m): Ghost<Map<Seq<char>, JsonSpec>>,
) -> (r: Option<Option<u32>>)
    requires
        entries_match(es@, m),
    ensures
        r is Some <==> u32_ok(m, key@),
        r matches Some(o) ==> o == u32_of(m, key@),
{
    match lookup_entry(es, key) {
        None => {
            proof {
                lemma_missing(es@, m, key@);
            }
            Some(None)
        },
        Some(v) => {
            proof {
                lemma_found(es@, m, key@, *v);
            }
            if is_null(v) {
                Some(None)
            } else {
                match u64_value(v) {
                    Some(x) => if x <= u32::MAX as u64 {
                        Some(Some(x as u32))
                    } else {
                        None
                    },
                    None => None,
                }
            }
        },
    }
}

/// Decode an optional signed 64-bit field.
fn get_i64(
    es: &Vec<(String, serde_json::Value)>,
    key: &str,
    Ghost(m): Ghost<Map<Seq<char>, JsonSpec>>,
) -> (r: Option<Option<i64>>)
    requires
        entries_match(es@, m),
    ensures
        r is Some <==> i64_ok(m, key@),
        r matches Some(o) ==> o == i64_of(m, key@),
{
    match lookup_entry(es, key) {
        None => {
            proof {
                lemma_missing(es@, m, key@);
            }
            Some(None)
        },
        Some(v) => {
            proof {
                lemma_found(es@, m, key@, *v);
            }
            if is_null(v) {
                Some(None)
            } else {
                match i64_value(v) {
                    Some(x) => Some(Some(x)),
                    None => None,
                }
            }
        },
    }
}

/// Decode an optional numeric field kept as its decimal text.
fn get_num_text(
    es: &Vec<(String, serde_json::Value)>,
    key: &str,
    Ghost(m): Ghost<Map<Seq<char>, JsonSpec>>,
) -> (r: Option<Option<String>>)
    requires
        entries_match(es@, m),
    ensures
        r is Some <==> num_text_ok(m, key@),
        r matches Some(o) ==> vos(o) == num_text_of(m, key@),
{
    match lookup_entry(es, key) {
        None => {
            proof {
                lemma_missing(es@, m, key@);
            }
            Some(None)
        },
        Some(v) => {
            proof {
                lemma_found(es@, m, key@, *v);
            }
            if is_null(v) {
                Some(None)
            } else {
                match number_text(v) {
                    Some(s) => Some(Some(s)),
                    None => None,
                }
            }
        },
    }
}

/// Decode a language object.
fn decode_language(
    es: &Vec<(String, serde_json::Value)>,
    Ghost(m): Ghost<Map<Seq<char>, JsonSpec>>,
) -> (r: Option<Language>)
    requires
        entries_match(es@, m),
    ensures
        r is Some <==> language_ok(m),
        r matches Some(l) ==> l@ == decoded_language(m),
{
    let code = match get_str(es, "code", Ghost(m)) {
        Some(o) => o,
        None => {
            return None;
        },
    };
    let name = match get_str(es, "name", Ghost(m)) {
        Some(o) => o,
        None => {
            return None;
        },
    };
    let native = match get_str(es, "native", Ghost(m)) {
        Some(o) => o,
        None => {
            return None;
        },
    };
    Some(Language { code, name, native })
}

/// Decode the optional list of languages of a location object: `None` is a
/// type error, `Some(None)` an absent field.
fn get_languages(
    es: &Vec<(String, serde_json::Value)>,
    Ghost(m): Ghost<Map<Seq<char>, JsonSpec>>,
) -> (r: Option<Option<Vec<Language>>>)
    requires
        entries_match(es@, m),
    ensures
        r is Some <==> langs_ok(m, "languages"@),
        r matches Some(o) ==> match o {
            Some(ls) => langs_of(m, "languages"@) == Some(ls@.map_values(|l: Language| l@)),
            None => langs_of(m, "languages"@) is None,
        },
{
    match lookup_entry(es, "languages") {
        None => {
            proof {
                lemma_missing(es@, m, "languages"@);
            }
            Some(None)
        },
        Some(v) => {
            proof {
                lemma_found(es@, m, "languages"@, *v);
            }
            if is_null(v) {
                Some(None)
            } else {
                match array_elems(v) {
                    None => None,
                    Some(elems) => {
                        let ghost arr = value_model(*v)->Arr_0;
                        let mut out: Vec<Language> = Vec::new();
                        let mut j: usize = 0;
                        while j < elems.len()
                            invariant
                                m.contains_key("languages"@),
                                m["languages"@] is Arr,
                                m["languages"@]->Arr_0 == arr,
                                j <= elems@.len(),
                                elems@.len() == arr.len(),
                                forall|t: int|
                                    0 <= t < elems@.len() ==> value_model(#[trigger] elems@[t])
                                        == arr[t],
                                out@.len() == j,
                                forall|t: int|
                                    0 <= t < j ==> (#[trigger] arr[t]) is Obj && language_ok(
                                        arr[t]->Obj_0,
                                    ),
                                forall|t: int|
                                    0 <= t < j ==> (#[trigger] out@[t])@ == decoded_language(
                                        arr[t]->Obj_0,
                                    ),
                            decreases elems@.len() - j,
                        {
                            match object_entries(&elems[j]) {
                                None => {
                                    proof {
                                        assert(value_model(elems@[j as int]) == arr[j as int]);
                                        assert(!(arr[j as int] is Obj));
                                        assert(!langs_ok(m, "languages"@));
                                    }
                                    return None;
                                },
                                Some(le) => {
                                    match decode_language(
                                        &le,
                                        Ghost(value_model(elems@[j as int])->Obj_0),
                                    ) {
                                        None => {
                                            proof {
                                                assert(value_model(elems@[j as int]) == arr[
                                                    j as int
                                                ]);
                                                assert(!language_ok(arr[j as int]->Obj_0));
                                                assert(!langs_ok(m, "languages"@));
                                            }
                                            return None;
                                        },
                                        Some(l) => out.push(l),
                                    }
                                },
                            }
                            j += 1;
                        }
                        proof {
                            assert(out@.map_values(|l: Language| l@) =~= Seq::new(
                                arr.len(),
                                |i: int| decoded_language(arr[i]->Obj_0),
                            ));
                        }
                        Some(Some(out))
                    },
                }
            }
        },
    }
}

/// Decode a location object.
fn decode_location(
    es: &Vec<(String, serde_json::Value)>,
    Ghost(m): Ghost<Map<Seq<char>, JsonSpec>>,
) -> (r: Option<Location>)
    requires
        entries_match(es@, m),
    ensures
        r is Some <==> location_ok(m),
        r matches Some(l) ==> l@ == decoded_location(m),
{
    let geoname_id = match get_u32(es, "geoname_id", Ghost(m)) {
        Some(o) => o,
        None => {
            return None;
        },
    };
    let capital = match get_str(es, "capital", Ghost(m)) {
        Some(o) => o,
        None => {
            return None;
        },
    };
    let languages = match get_languages(es, Ghost(m)) {
        Some(o) => o,
        None => {
            return None;
        },
    };
    let country_flag = match get_str(es, "country_flag", Ghost(m)) {
        Some(o) => o,
        None => {
            return None;
        },
    };
    let country_flag_emoji = match get_str(es, "country_flag_emoji", Ghost(m)) {
        Some(o) => o,
        None => {
            return None;
        },
    };
    let country_flag_emoji_unicode = match get_str(es, "country_flag_emoji_unicode", Ghost(m)) {
        Some(o) => o,
        None => {
            return None;
        },
    };
    let calling_code = match get_str(es, "calling_code", Ghost(m)) {
        Some(o) => o,
        None => {
            return None;
        },
    };
    let is_eu = match get_bool(es, "is_eu", Ghost(m)) {
        Some(o) => o,
        None => {
            return None;
        },
    };
    Some(
        Location {
            geoname_id,
            capital,
            languages,
            country_flag,
            country_flag_emoji,
            country_flag_emoji_unicode,
            calling_code,
            is_eu,
        },
    )
}

/// Decode a time-zone object.
fn decode_time_zone(
    es: &Vec<(String, serde_json::Value)>,
    Ghost(m): Ghost<Map<Seq<char>, JsonSpec>>,
) -> (r: Option<TimeZone>)
    requires
        entries_match(es@, m),
    ensures
        r is Some <==> time_zone_ok(m),
        r matches Some(t) ==> t@ == decoded_time_zone(m),
{
    let id = match get_str(es, "id", Ghost(m)) {
        Some(o) => o,
        None => {
            return None;
        },
    };
    let current_time = match get_str(es, "current_time", Ghost(m)) {
        Some(o) => o,
        None => {
            return None;
        },
    };
    let gmt_offset = match get_i64(es, "gmt_offset", Ghost(m)) {
        Some(o) => o,
        None => {
            return None;
        },
    };
    let code = match get_str(es, "code", Ghost(m)) {
        Some(o) => o,
        None => {
            return None;
        },
    };
    let is_daylight_saving = match get_bool(es, "is_daylight_saving", Ghost(m)) {
        Some(o) => o,
        None => {
            return None;
        },
    };
    Some(TimeZone { id, current_time, gmt_offset, code, is_daylight_saving })
}

/// Decode a currency object.
fn decode_currency(
    es: &Vec<(String, serde_json::Value)>,
    Ghost(m): Ghost<Map<Seq<char>, JsonSpec>>,
) -> (r: Option<Currency>)
    requires
        entries_match(es@, m),
    ensures
        r is Some <==> currency_ok(m),
        r matches Some(c) ==> c@ == decoded_currency(m),
{
    let code = match get_str(es, "code", Ghost(m)) {
        Some(o) => o,
        None => {
            return None;
        },
    };
    let name = match get_str(es, "name", Ghost(m)) {
        Some(o) => o,
        None => {
            return None;
        },
    };
    let plural = match get_str(es, "plural", Ghost(m)) {
        Some(o) => o,
        None => {
            return None;
        },
    };
    let symbol = match get_str(es, "symbol", Ghost(m)) {
        Some(o) => o,
        None => {
            return None;
        },
    };
    let symbol_native = match get_str(es, "symbol_native", Ghost(m)) {
        Some(o) => o,
        None => {
            return None;
        },
    };
    Some(Currency { code, name, plural, symbol, symbol_native })
}

/// Decode a connection object.
fn decode_connection(
    es: &Vec<(String, serde_json::Value)>,
    Ghost(m): Ghost<Map<Seq<char>, JsonSpec>>,
) -> (r: Option<Connection>)
    requires
        entries_match(es@, m),
    ensures
        r is Some <==> connection_ok(m),
        r matches Some(c) ==> c@ == decoded_connection(m),
{
    let asn = match get_u32(es, "asn", Ghost(m)) {
        Some(o) => o,
        None => {
            return None;
        },
    };
    let isp = match get_str(es, "isp", Ghost(m)) {
        Some(o) => o,
        None => {
            return None;
        },
    };
    Some(Connection { asn, isp })
}

/// Decode the response object into a record: `None` when some known field is
/// present, non-null and ill-typed.
fn decode_record(
    es: &Vec<(String, serde_json::Value)>,
    Ghost(m): Ghost<Map<Seq<char>, JsonSpec>>,
) -> (r: Option<IpInfo>)
    requires
        entries_match(es@, m),
    ensures
        r is Some <==> record_ok(m),
        r matches Some(rec) ==> rec@ == decoded_record(m),
{
    let ip = match get_str(es, "ip", Ghost(m)) {
        Some(o) => o,
        None => {
            return None;
        },
    };
    let query = match get_str(es, "query", Ghost(m)) {
        Some(o) => o,
        None => {
            return None;
        },
    };
    let ip_type = match get_str(es, "type", Ghost(m)) {
        Some(o) => o,
        None => {
            return None;
        },
    };
    let status = match get_str(es, "status", Ghost(m)) {
        Some(o) => o,
        None => {
            return None;
        },
    };
    let message = match get_str(es, "message", Ghost(m)) {
        Some(o) => o,
        None => {
            return None;
        },
    };
    let continent_code = match get_str(es, "continent_code", Ghost(m)) {
        Some(o) => o,
        None => {
            return None;
        },
    };
    let continent_name = match get_str(es, "continent_name", Ghost(m)) {
        Some(o) => o,
        None => {
            return None;
        },
    };
    let country_code = match get_str(es, "country_code", Ghost(m)) {
        Some(o) => o,
        None => {
            return None;
        },
    };
    let country_name = match get_str(es, "country_name", Ghost(m)) {
        Some(o) => o,
        None => {
            return None;
        },
    };
    let country = match get_str(es, "country", Ghost(m)) {
        Some(o) => o,
        None => {
            return None;
        },
    };
    let region_code = match get_str(es, "region_code", Ghost(m)) {
        Some(o) => o,
        None => {
            return None;
        },
    };
    let region_name = match get_str(es, "region_name", Ghost(m)) {
        Some(o) => o,
        None => {
            return None;
        },
    };
    let city = match get_str(es, "city", Ghost(m)) {
        Some(o) => o,
        None => {
            return None;
        },
    };
    let zip = match get_str(es, "zip", Ghost(m)) {
        Some(o) => o,
        None => {
            return None;
        },
    };
    let latitude = match get_num_text(es, "latitude", Ghost(m)) {
        Some(o) => o,
        None => {
            return None;
        },
    };
    let longitude = match get_num_text(es, "longitude", Ghost(m)) {
        Some(o) => o,
        None => {
            return None;
        },
    };
    let location: Option<Location> = match lookup_entry(es, "location") {
        None => {
            proof {
                lemma_missing(es@, m, "location"@);
            }
            None
        },
        Some(v) => {
            proof {
                lemma_found(es@, m, "location"@, *v);
            }
            if is_null(v) {
                None
            } else {
                match object_entries(v) {
                    None => {
                        return None;
                    },
                    Some(sub) => match decode_location(&sub, Ghost(value_model(*v)->Obj_0)) {
                        None => {
                            return None;
                        },
                        Some(l) => Some(l),
                    },
                }
            }
        },
    };
    let time_zone: Option<TimeZone> = match lookup_entry(es, "time_zone") {
        None => {
            proof {
                lemma_missing(es@, m, "time_zone"@);
            }
            None
        },
        Some(v) => {
            proof {
                lemma_found(es@, m, "time_zone"@, *v);
            }
            if is_null(v) {
                None
            } else {
                match object_entries(v) {
                    None => {
                        return None;
                    },
                    Some(sub) => match decode_time_zone(&sub, Ghost(value_model(*v)->Obj_0)) {
                        None => {
                            return None;
                        },
                        Some(t) => Some(t),
                    },
                }
            }
        },
    };
    let currency: Option<Currency> = match lookup_entry(es, "currency") {
        None => {
            proof {
                lemma_missing(es@, m, "currency"@);
            }
            None
        },
        Some(v) => {
            proof {
                lemma_found(es@, m, "currency"@, *v);
            }
            if is_null(v) {
                None
            } else {
                match object_entries(v) {
                    None => {
                        return None;
                    },
                    Some(sub) => match decode_currency(&sub, Ghost(value_model(*v)->Obj_0)) {
                        None => {
                            return None;
                        },
                        Some(c) => Some(c),
                    },
                }
            }
        },
    };
    let connection: Option<Connection> = match lookup_entry(es, "connection") {
        None => {
            proof {
                lemma_missing(es@, m, "connection"@);
            }
            None
        },
        Some(v) => {
            proof {
                lemma_found(es@, m, "connection"@, *v);
            }
            if is_null(v) {
                None
            } else {
                match object_entries(v) {
                    None => {
                        return None;
                    },
                    Some(sub) => match decode_connection(&sub, Ghost(value_model(*v)->Obj_0)) {
                        None => {
                            return None;
                        },
                        Some(c) => Some(c),
                    },
                }
            }
        },
    };
    Some(
        IpInfo {
            ip,
            query,
            ip_type,
            status,
            message,
            continent_code,
            continent_name,
            country_code,
            country_name,
            country,
            region_code,
            region_name,
            city,
            zip,
            latitude,
            longitude,
            location,
            time_zone,
            currency,
            connection,
        },
    )
}

/// Decode a response body into a record.
///
/// The body must be a valid JSON object; fields absent from it, or bound to
/// null, decode to `None`; unknown keys are ignored; a known field bound to a
/// value of the wrong type is a decode error. A body that is not valid JSON,
/// or not an object, or holds an ill-typed known field, yields
/// `GeoError::DecodeError` — never a silently defaulted record.
pub fn decode_body(body: &str) -> (r: Result<IpInfo, GeoError>)
    ensures
        json_doc(body@) is None ==> r matches Err(GeoError::DecodeError),
        json_doc(body@) matches Some(doc) ==> {
            &&& r is Ok <==> (doc is Obj && record_ok(doc->Obj_0))
            &&& (r matches Ok(rec) ==> rec@ == decoded_record(doc->Obj_0))
            &&& (r is Err ==> r matches Err(GeoError::DecodeError))
        },
{
    match parse_json(body) {
        None => Err(GeoError::DecodeError),
        Some(v) => match object_entries(&v) {
            None => Err(GeoError::DecodeError),
            Some(es) => match decode_record(&es, Ghost(value_model(v)->Obj_0)) {
                None => Err(GeoError::DecodeError),
                Some(rec) => Ok(rec),
            },
        },
    }
}

} // verus!
