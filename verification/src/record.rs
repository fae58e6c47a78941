//! The geolocation record: the decode target of a lookup, immutable once
//! decoded. Every field is optional — a field absent from the vendor payload,
//! or bound to null, decodes to `None` — and each field's wire key is fixed
//! here, next to the model function that extracts it.

use vstd::prelude::*;

use crate::model::{
    bool_of, bool_ok, i64_of, i64_ok, num_text_of, num_text_ok, present, str_of, str_ok, u32_of,
    u32_ok, JsonSpec,
};
use crate::text::str_eq;

verus! {

/// A language spoken where a subject is located.
#[derive(Debug, Clone, PartialEq, Eq)]
pub struct Language {
    pub code: Option<String>,
    pub name: Option<String>,
    pub native: Option<String>,
}

/// Extended location data.
#[derive(Debug, Clone, PartialEq, Eq)]
pub struct Location {
    pub geoname_id: Option<u32>,
    pub capital: Option<String>,
    pub languages: Option<Vec<Language>>,
    pub country_flag: Option<String>,
    pub country_flag_emoji: Option<String>,
    pub country_flag_emoji_unicode: Option<String>,
    pub calling_code: Option<String>,
    pub is_eu: Option<bool>,
}

/// The time zone in force at the located place.
#[derive(Debug, Clone, PartialEq, Eq)]
pub struct TimeZone {
    pub id: Option<String>,
    pub current_time: Option<String>,
    pub gmt_offset: Option<i64>,
    pub code: Option<String>,
    pub is_daylight_saving: Option<bool>,
}

/// The currency in use at the located place.
#[derive(Debug, Clone, PartialEq, Eq)]
pub struct Currency {
    pub code: Option<String>,
    pub name: Option<String>,
    pub plural: Option<String>,
    pub symbol: Option<String>,
    pub symbol_native: Option<String>,
}

/// The network the subject belongs to.
#[derive(Debug, Clone, PartialEq, Eq)]
pub struct Connection {
    pub asn: Option<u32>,
    pub isp: Option<String>,
}

/// One geolocation lookup result. Latitude and longitude are carried as the
/// decimal text of the vendor's numbers, so that no precision is invented or
/// lost by the decoder.
#[derive(Debug, Clone, PartialEq, Eq)]
pub struct IpInfo {
    pub ip: Option<String>,
    pub query: Option<String>,
    pub ip_type: Option<String>,
    pub status: Option<String>,
    pub message: Option<String>,
    pub continent_code: Option<String>,
    pub continent_name: Option<String>,
    pub country_code: Option<String>,
    pub country_name: Option<String>,
    pub country: Option<String>,
    pub region_code: Option<String>,
    pub region_name: Option<String>,
    pub city: Option<String>,
    pub zip: Option<String>,
    pub latitude: Option<String>,
    pub longitude: Option<String>,
    pub location: Option<Location>,
    pub time_zone: Option<TimeZone>,
    pub currency: Option<Currency>,
    pub connection: Option<Connection>,
}

/// The view of an optional owned string: the text it holds, if any.
pub open spec fn vos(o: Option<String>) -> Option<Seq<char>> {
    match o {
        Some(s) => Some(s@),
        None => None,
    }
}

pub struct LanguageModel {
    pub code: Option<Seq<char>>,
    pub name: Option<Seq<char>>,
    pub native: Option<Seq<char>>,
}

pub struct LocationModel {
    pub geoname_id: Option<u32>,
    pub capital: Option<Seq<char>>,
    pub languages: Option<Seq<LanguageModel>>,
    pub country_flag: Option<Seq<char>>,
    pub country_flag_emoji: Option<Seq<char>>,
    pub country_flag_emoji_unicode: Option<Seq<char>>,
    pub calling_code: Option<Seq<char>>,
    pub is_eu: Option<bool>,
}

pub struct TimeZoneModel {
    pub id: Option<Seq<char>>,
    pub current_time: Option<Seq<char>>,
    pub gmt_offset: Option<i64>,
    pub code: Option<Seq<char>>,
    pub is_daylight_saving: Option<bool>,
}

pub struct CurrencyModel {
    pub code: Option<Seq<char>>,
    pub name: Option<Seq<char>>,
    pub plural: Option<Seq<char>>,
    pub symbol: Option<Seq<char>>,
    pub symbol_native: Option<Seq<char>>,
}

pub struct ConnectionModel {
    pub asn: Option<u32>,
    pub isp: Option<Seq<char>>,
}

pub struct IpInfoModel {
    pub ip: Option<Seq<char>>,
    pub query: Option<Seq<char>>,
    pub ip_type: Option<Seq<char>>,
    pub status: Option<Seq<char>>,
    pub message: Option<Seq<char>>,
    pub continent_code: Option<Seq<char>>,
    pub continent_name: Option<Seq<char>>,
    pub country_code: Option<Seq<char>>,
    pub country_name: Option<Seq<char>>,
    pub country: Option<Seq<char>>,
    pub region_code: Option<Seq<char>>,
    pub region_name: Option<Seq<char>>,
    pub city: Option<Seq<char>>,
    pub zip: Option<Seq<char>>,
    pub latitude: Option<Seq<char>>,
    pub longitude: Option<Seq<char>>,
    pub location: Option<LocationModel>,
    pub time_zone: Option<TimeZoneModel>,
    pub currency: Option<CurrencyModel>,
    pub connection: Option<ConnectionModel>,
}

impl View for Language {
    type V = LanguageModel;

    open spec fn view(&self) -> LanguageModel {
        LanguageModel { code: vos(self.code), name: vos(self.name), native: vos(self.native) }
    }
}

impl View for Location {
    type V = LocationModel;

    open spec fn view(&self) -> LocationModel {
        LocationModel {
            geoname_id: self.geoname_id,
            capital: vos(self.capital),
            languages: match self.languages {
                Some(ls) => Some(ls@.map_values(|l: Language| l@)),
                None => None,
            },
            country_flag: vos(self.country_flag),
            country_flag_emoji: vos(self.country_flag_emoji),
            country_flag_emoji_unicode: vos(self.country_flag_emoji_unicode),
            calling_code: vos(self.calling_code),
            is_eu: self.is_eu,
        }
    }
}

impl View for TimeZone {
    type V = TimeZoneModel;

    open spec fn view(&self) -> TimeZoneModel {
        TimeZoneModel {
            id: vos(self.id),
            current_time: vos(self.current_time),
            gmt_offset: self.gmt_offset,
            code: vos(self.code),
            is_daylight_saving: self.is_daylight_saving,
        }
    }
}

impl View for Currency {
    type V = CurrencyModel;

    open spec fn view(&self) -> CurrencyModel {
        CurrencyModel {
            code: vos(self.code),
            name: vos(self.name),
            plural: vos(self.plural),
            symbol: vos(self.symbol),
            symbol_native: vos(self.symbol_native),
        }
    }
}

impl View for Connection {
    type V = ConnectionModel;

    open spec fn view(&self) -> ConnectionModel {
        ConnectionModel { asn: self.asn, isp: vos(self.isp) }
    }
}

impl View for IpInfo {
    type V = IpInfoModel;

    open spec fn view(&self) -> IpInfoModel {
        IpInfoModel {
            ip: vos(self.ip),
            query: vos(self.query),
            ip_type: vos(self.ip_type),
            status: vos(self.status),
            message: vos(self.message),
            continent_code: vos(self.continent_code),
            continent_name: vos(self.continent_name),
            country_code: vos(self.country_code),
            country_name: vos(self.country_name),
            country: vos(self.country),
            region_code: vos(self.region_code),
            region_name: vos(self.region_name),
            city: vos(self.city),
            zip: vos(self.zip),
            latitude: vos(self.latitude),
            longitude: vos(self.longitude),
            location: match self.location {
                Some(l) => Some(l@),
                None => None,
            },
            time_zone: match self.time_zone {
                Some(t) => Some(t@),
                None => None,
            },
            currency: match self.currency {
                Some(c) => Some(c@),
                None => None,
            },
            connection: match self.connection {
                Some(c) => Some(c@),
                None => None,
            },
        }
    }
}

/// A language object is well-typed.
pub open spec fn language_ok(m: Map<Seq<char>, JsonSpec>) -> bool {
    &&& str_ok(m, "code"@)
    &&& str_ok(m, "name"@)
    &&& str_ok(m, "native"@)
}

/// The language decoded from a well-typed language object.
pub open spec fn decoded_language(m: Map<Seq<char>, JsonSpec>) -> LanguageModel {
    LanguageModel { code: str_of(m, "code"@), name: str_of(m, "name"@), native: str_of(
        m,
        "native"@,
    ) }
}

/// The optional list of languages under key `k` is well-typed: absent, null,
/// or an array of well-typed language objects.
pub open spec fn langs_ok(m: Map<Seq<char>, JsonSpec>, k: Seq<char>) -> bool {
    !present(m, k) || (m[k] matches JsonSpec::Arr(a) && forall|i: int|
        0 <= i < a.len() ==> (#[trigger] a[i]) is Obj && language_ok(a[i]->Obj_0))
}

/// The decoded list of languages under key `k`.
pub open spec fn langs_of(m: Map<Seq<char>, JsonSpec>, k: Seq<char>) -> Option<Seq<LanguageModel>> {
    if present(m, k) && m[k] is Arr {
        Some(Seq::new(m[k]->Arr_0.len(), |i: int| decoded_language(m[k]->Arr_0[i]->Obj_0)))
    } else {
        None
    }
}

/// A location object is well-typed.
pub open spec fn location_ok(m: Map<Seq<char>, JsonSpec>) -> bool {
    &&& u32_ok(m, "geoname_id"@)
    &&& str_ok(m, "capital"@)
    &&& langs_ok(m, "languages"@)
    &&& str_ok(m, "country_flag"@)
    &&& str_ok(m, "country_flag_emoji"@)
    &&& str_ok(m, "country_flag_emoji_unicode"@)
    &&& str_ok(m, "calling_code"@)
    &&& bool_ok(m, "is_eu"@)
}

/// The location decoded from a well-typed location object.
pub open spec fn decoded_location(m: Map<Seq<char>, JsonSpec>) -> LocationModel {
    LocationModel {
        geoname_id: u32_of(m, "geoname_id"@),
        capital: str_of(m, "capital"@),
        languages: langs_of(m, "languages"@),
        country_flag: str_of(m, "country_flag"@),
        country_flag_emoji: str_of(m, "country_flag_emoji"@),
        country_flag_emoji_unicode: str_of(m, "country_flag_emoji_unicode"@),
        calling_code: str_of(m, "calling_code"@),
        is_eu: bool_of(m, "is_eu"@),
    }
}

/// A time-zone object is well-typed.
pub open spec fn time_zone_ok(m: Map<Seq<char>, JsonSpec>) -> bool {
    &&& str_ok(m, "id"@)
    &&& str_ok(m, "current_time"@)
    &&& i64_ok(m, "gmt_offset"@)
    &&& str_ok(m, "code"@)
    &&& bool_ok(m, "is_daylight_saving"@)
}

/// The time zone decoded from a well-typed time-zone object.
pub open spec fn decoded_time_zone(m: Map<Seq<char>, JsonSpec>) -> TimeZoneModel {
    TimeZoneModel {
        id: str_of(m, "id"@),
        current_time: str_of(m, "current_time"@),
        gmt_offset: i64_of(m, "gmt_offset"@),
        code: str_of(m, "code"@),
        is_daylight_saving: bool_of(m, "is_daylight_saving"@),
    }
}

/// A currency object is well-typed.
pub open spec fn currency_ok(m: Map<Seq<char>, JsonSpec>) -> bool {
    &&& str_ok(m, "code"@)
    &&& str_ok(m, "name"@)
    &&& str_ok(m, "plural"@)
    &&& str_ok(m, "symbol"@)
    &&& str_ok(m, "symbol_native"@)
}

/// The currency decoded from a well-typed currency object.
pub open spec fn decoded_currency(m: Map<Seq<char>, JsonSpec>) -> CurrencyModel {
    CurrencyModel {
        code: str_of(m, "code"@),
        name: str_of(m, "name"@),
        plural: str_of(m, "plural"@),
        symbol: str_of(m, "symbol"@),
        symbol_native: str_of(m, "symbol_native"@),
    }
}

/// A connection object is well-typed.
pub open spec fn connection_ok(m: Map<Seq<char>, JsonSpec>) -> bool {
    &&& u32_ok(m, "asn"@)
    &&& str_ok(m, "isp"@)
}

/// The connection decoded from a well-typed connection object.
pub open spec fn decoded_connection(m: Map<Seq<char>, JsonSpec>) -> ConnectionModel {
    ConnectionModel { asn: u32_of(m, "asn"@), isp: str_of(m, "isp"@) }
}

/// The optional child object under key `k` is well-typed: absent, null, or an
/// object whose own fields satisfy `ok`.
pub open spec fn child_ok(
    m: Map<Seq<char>, JsonSpec>,
    k: Seq<char>,
    ok: spec_fn(Map<Seq<char>, JsonSpec>) -> bool,
) -> bool {
    !present(m, k) || (m[k] is Obj && ok(m[k]->Obj_0))
}

/// The wire keys the decoder reads at the top level of a response body.
pub open spec fn known_top_key(k: Seq<char>) -> bool {
    ||| k == "ip"@
    ||| k == "query"@
    ||| k == "type"@
    ||| k == "status"@
    ||| k == "message"@
    ||| k == "continent_code"@
    ||| k == "continent_name"@
    ||| k == "country_code"@
    ||| k == "country_name"@
    ||| k == "country"@
    ||| k == "region_code"@
    ||| k == "region_name"@
    ||| k == "city"@
    ||| k == "zip"@
    ||| k == "latitude"@
    ||| k == "longitude"@
    ||| k == "location"@
    ||| k == "time_zone"@
    ||| k == "currency"@
    ||| k == "connection"@
}

/// A response object is well-typed: every known key that is present and
/// non-null holds a value of its field's type. Unknown keys are ignored.
pub open spec fn record_ok(m: Map<Seq<char>, JsonSpec>) -> bool {
    &&& str_ok(m, "ip"@)
    &&& str_ok(m, "query"@)
    &&& str_ok(m, "type"@)
    &&& str_ok(m, "status"@)
    &&& str_ok(m, "message"@)
    &&& str_ok(m, "continent_code"@)
    &&& str_ok(m, "continent_name"@)
    &&& str_ok(m, "country_code"@)
    &&& str_ok(m, "country_name"@)
    &&& str_ok(m, "country"@)
    &&& str_ok(m, "region_code"@)
    &&& str_ok(m, "region_name"@)
    &&& str_ok(m, "city"@)
    &&& str_ok(m, "zip"@)
    &&& num_text_ok(m, "latitude"@)
    &&& num_text_ok(m, "longitude"@)
    &&& child_ok(m, "location"@, |s: Map<Seq<char>, JsonSpec>| location_ok(s))
    &&& child_ok(m, "time_zone"@, |s: Map<Seq<char>, JsonSpec>| time_zone_ok(s))
    &&& child_ok(m, "currency"@, |s: Map<Seq<char>, JsonSpec>| currency_ok(s))
    &&& child_ok(m, "connection"@, |s: Map<Seq<char>, JsonSpec>| connection_ok(s))
}

/// The record decoded from a well-typed response object.
pub open spec fn decoded_record(m: Map<Seq<char>, JsonSpec>) -> IpInfoModel {
    IpInfoModel {
        ip: str_of(m, "ip"@),
        query: str_of(m, "query"@),
        ip_type: str_of(m, "type"@),
        status: str_of(m, "status"@),
        message: str_of(m, "message"@),
        continent_code: str_of(m, "continent_code"@),
        continent_name: str_of(m, "continent_name"@),
        country_code: str_of(m, "country_code"@),
        country_name: str_of(m, "country_name"@),
        country: str_of(m, "country"@),
        region_code: str_of(m, "region_code"@),
        region_name: str_of(m, "region_name"@),
        city: str_of(m, "city"@),
        zip: str_of(m, "zip"@),
        latitude: num_text_of(m, "latitude"@),
        longitude: num_text_of(m, "longitude"@),
        location: if present(m, "location"@) && m["location"@] is Obj {
            Some(decoded_location(m["location"@]->Obj_0))
        } else {
            None
        },
        time_zone: if present(m, "time_zone"@) && m["time_zone"@] is Obj {
            Some(decoded_time_zone(m["time_zone"@]->Obj_0))
        } else {
            None
        },
        currency: if present(m, "currency"@) && m["currency"@] is Obj {
            Some(decoded_currency(m["currency"@]->Obj_0))
        } else {
            None
        },
        connection: if present(m, "connection"@) && m["connection"@] is Obj {
            Some(decoded_connection(m["connection"@]->Obj_0))
        } else {
            None
        },
    }
}

/// The success predicate of a record: its status field is present and equals
/// the vendor's success marker.
pub open spec fn record_success(v: IpInfoModel) -> bool {
    v.status matches Some(s) && s == "success"@
}

/// One step of the address rendering: append a present part, preceded by a
/// separator when it is not the first.
pub open spec fn addr_step(acc: Seq<char>, first: bool, part: Option<Seq<char>>) -> (
    Seq<char>,
    bool,
) {
    match part {
        Some(p) => (
            if first {
                acc + p
            } else {
                acc + ", "@ + p
            },
            false,
        ),
        None => (acc, first),
    }
}

/// The human-readable address of a record: whichever of city, region, country
/// and postal code are present, in that order, joined by a comma and a space,
/// with absent parts skipped.
pub open spec fn joined_address(v: IpInfoModel) -> Seq<char> {
    let a = addr_step(Seq::empty(), true, v.city);
    let b = addr_step(a.0, a.1, v.region_name);
    let c = addr_step(b.0, b.1, v.country_name);
    let d = addr_step(c.0, c.1, v.zip);
    d.0
}

impl IpInfo {
    /// True exactly when the vendor reported a successful lookup: the status
    /// field is present and equals the success marker. A record without a
    /// status field is not successful.
    pub fn success(&self) -> (r: bool)
        ensures
            r == record_success(self@),
    {
        match &self.status {
            Some(s) => str_eq(s.as_str(), "success"),
            None => false,
        }
    }

    /// The joined address rendering of the record.
    pub fn address(&self) -> (r: String)
        ensures
            r@ == joined_address(self@),
    {
        let mut s = String::new();
        let mut first = true;
        if let Some(p) = &self.city {
            if !first {
                s.append(", ");
            }
            s.append(p.as_str());
            first = false;
        }
        if let Some(p) = &self.region_name {
            if !first {
                s.append(", ");
            }
            s.append(p.as_str());
            first = false;
        }
        if let Some(p) = &self.country_name {
            if !first {
                s.append(", ");
            }
            s.append(p.as_str());
            first = false;
        }
        if let Some(p) = &self.zip {
            if !first {
                s.append(", ");
            }
            s.append(p.as_str());
            first = false;
        }
        s
    }
}

/// The record every field of which is absent.
pub open spec fn absent_record() -> IpInfoModel {
    IpInfoModel {
        ip: None,
        query: None,
        ip_type: None,
        status: None,
        message: None,
        continent_code: None,
        continent_name: None,
        country_code: None,
        country_name: None,
        country: None,
        region_code: None,
        region_name: None,
        city: None,
        zip: None,
        latitude: None,
        longitude: None,
        location: None,
        time_zone: None,
        currency: None,
        connection: None,
    }
}

/// Decoding an object that binds none of the known keys succeeds, and every
/// optional field of the decoded record is absent.
pub proof fn lemma_decode_absent_fields(m: Map<Seq<char>, JsonSpec>)
    requires
        forall|k: Seq<char>| #![trigger m.contains_key(k)] known_top_key(k) ==> !m.contains_key(k),
    ensures
        record_ok(m),
        decoded_record(m) == absent_record(),
{
    assert(!m.contains_key("ip"@));
    assert(!m.contains_key("query"@));
    assert(!m.contains_key("type"@));
    assert(!m.contains_key("status"@));
    assert(!m.contains_key("message"@));
    assert(!m.contains_key("continent_code"@));
    assert(!m.contains_key("continent_name"@));
    assert(!m.contains_key("country_code"@));
    assert(!m.contains_key("country_name"@));
    assert(!m.contains_key("country"@));
    assert(!m.contains_key("region_code"@));
    assert(!m.contains_key("region_name"@));
    assert(!m.contains_key("city"@));
    assert(!m.contains_key("zip"@));
    assert(!m.contains_key("latitude"@));
    assert(!m.contains_key("longitude"@));
    assert(!m.contains_key("location"@));
    assert(!m.contains_key("time_zone"@));
    assert(!m.contains_key("currency"@));
    assert(!m.contains_key("connection"@));
}

/// Two objects agree on a key: it is present in one exactly when it is
/// present in the other, and then with the same value.
pub open spec fn agree_on(m1: Map<Seq<char>, JsonSpec>, m2: Map<Seq<char>, JsonSpec>, k: Seq<char>) -> bool {
    &&& (m1.contains_key(k) <==> m2.contains_key(k))
    &&& (m1.contains_key(k) ==> m1[k] == m2[k])
}

/// Agreement on a key carries over to the extraction of every field type.
proof fn lemma_agree_field(m1: Map<Seq<char>, JsonSpec>, m2: Map<Seq<char>, JsonSpec>, k: Seq<char>)
    requires
        agree_on(m1, m2, k),
    ensures
        present(m1, k) == present(m2, k),
        str_ok(m1, k) == str_ok(m2, k),
        str_of(m1, k) == str_of(m2, k),
        num_text_ok(m1, k) == num_text_ok(m2, k),
        num_text_of(m1, k) == num_text_of(m2, k),
        present(m1, k) ==> m1[k] == m2[k],
{
}

/// Decoding reads only the known keys: two objects that agree on every known
/// key — both on presence and on value — are equally well-typed and decode to
/// the same record. Extra, unrecognized keys are ignored.
pub proof fn lemma_decode_ignores_unknown(m1: Map<Seq<char>, JsonSpec>, m2: Map<Seq<char>, JsonSpec>)
    requires
        forall|k: Seq<char>| #![trigger m1.contains_key(k)] known_top_key(k) ==> agree_on(m1, m2, k),
    ensures
        record_ok(m1) == record_ok(m2),
        record_ok(m1) ==> decoded_record(m1) == decoded_record(m2),
{
    assert(agree_on(m1, m2, "ip"@));
    lemma_agree_field(m1, m2, "ip"@);
    assert(agree_on(m1, m2, "query"@));
    lemma_agree_field(m1, m2, "query"@);
    assert(agree_on(m1, m2, "type"@));
    lemma_agree_field(m1, m2, "type"@);
    assert(agree_on(m1, m2, "status"@));
    lemma_agree_field(m1, m2, "status"@);
    assert(agree_on(m1, m2, "message"@));
    lemma_agree_field(m1, m2, "message"@);
    assert(agree_on(m1, m2, "continent_code"@));
    lemma_agree_field(m1, m2, "continent_code"@);
    assert(agree_on(m1, m2, "continent_name"@));
    lemma_agree_field(m1, m2, "continent_name"@);
    assert(agree_on(m1, m2, "country_code"@));
    lemma_agree_field(m1, m2, "country_code"@);
    assert(agree_on(m1, m2, "country_name"@));
    lemma_agree_field(m1, m2, "country_name"@);
    assert(agree_on(m1, m2, "country"@));
    lemma_agree_field(m1, m2, "country"@);
    assert(agree_on(m1, m2, "region_code"@));
    lemma_agree_field(m1, m2, "region_code"@);
    assert(agree_on(m1, m2, "region_name"@));
    lemma_agree_field(m1, m2, "region_name"@);
    assert(agree_on(m1, m2, "city"@));
    lemma_agree_field(m1, m2, "city"@);
    assert(agree_on(m1, m2, "zip"@));
    lemma_agree_field(m1, m2, "zip"@);
    assert(agree_on(m1, m2, "latitude"@));
    lemma_agree_field(m1, m2, "latitude"@);
    assert(agree_on(m1, m2, "longitude"@));
    lemma_agree_field(m1, m2, "longitude"@);
    assert(agree_on(m1, m2, "location"@));
    lemma_agree_field(m1, m2, "location"@);
    assert(agree_on(m1, m2, "time_zone"@));
    lemma_agree_field(m1, m2, "time_zone"@);
    assert(agree_on(m1, m2, "currency"@));
    lemma_agree_field(m1, m2, "currency"@);
    assert(agree_on(m1, m2, "connection"@));
    lemma_agree_field(m1, m2, "connection"@);
    assert(record_ok(m1) == record_ok(m2));
    if record_ok(m1) {
        assert(decoded_record(m1) == decoded_record(m2));
    }
}

/// The success predicate of a record decoded from an object without a status
/// field is false — absence of status is not an error, only not a success.
pub proof fn lemma_no_status_not_success(m: Map<Seq<char>, JsonSpec>)
    requires
        !m.contains_key("status"@),
    ensures
        !record_success(decoded_record(m)),
{
}

} // verus!
