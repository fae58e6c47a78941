use ipapi_client::decode::decode_body;
use ipapi_client::GeoError;

#[test]
fn empty_object_decodes_all_absent() {
    let rec = decode_body("{}").unwrap();
    assert_eq!(rec.ip, None);
    assert_eq!(rec.query, None);
    assert_eq!(rec.ip_type, None);
    assert_eq!(rec.status, None);
    assert_eq!(rec.message, None);
    assert_eq!(rec.continent_code, None);
    assert_eq!(rec.continent_name, None);
    assert_eq!(rec.country_code, None);
    assert_eq!(rec.country_name, None);
    assert_eq!(rec.country, None);
    assert_eq!(rec.region_code, None);
    assert_eq!(rec.region_name, None);
    assert_eq!(rec.city, None);
    assert_eq!(rec.zip, None);
    assert_eq!(rec.latitude, None);
    assert_eq!(rec.longitude, None);
    assert_eq!(rec.location, None);
    assert_eq!(rec.time_zone, None);
    assert_eq!(rec.currency, None);
    assert_eq!(rec.connection, None);
    assert!(!rec.success());
}

#[test]
fn unknown_keys_are_ignored() {
    let with_extra =
        decode_body("{\"city\":\"Oslo\",\"some_future_key\":7,\"other\":[1,2,{\"x\":null}]}")
            .unwrap();
    let without_extra = decode_body("{\"city\":\"Oslo\"}").unwrap();
    assert_eq!(with_extra, without_extra);
    assert_eq!(with_extra.city, Some("Oslo".to_string()));
}

#[test]
fn omitted_status_is_not_success_and_not_error() {
    let rec = decode_body("{\"country_name\":\"Norway\"}").unwrap();
    assert_eq!(rec.status, None);
    assert!(!rec.success());
}

#[test]
fn status_success_marker() {
    let rec = decode_body("{\"status\":\"success\"}").unwrap();
    assert!(rec.success());
    let rec = decode_body("{\"status\":\"fail\"}").unwrap();
    assert!(!rec.success());
}

#[test]
fn invalid_json_is_decode_error() {
    assert_eq!(decode_body("not json at all"), Err(GeoError::DecodeError));
    assert_eq!(decode_body(""), Err(GeoError::DecodeError));
    assert_eq!(decode_body("{\"city\":"), Err(GeoError::DecodeError));
}

#[test]
fn non_object_body_is_decode_error() {
    assert_eq!(decode_body("[1,2,3]"), Err(GeoError::DecodeError));
    assert_eq!(decode_body("\"hello\""), Err(GeoError::DecodeError));
    assert_eq!(decode_body("42"), Err(GeoError::DecodeError));
}

#[test]
fn ill_typed_known_field_is_decode_error() {
    assert_eq!(decode_body("{\"city\":5}"), Err(GeoError::DecodeError));
    assert_eq!(decode_body("{\"location\":\"here\"}"), Err(GeoError::DecodeError));
    assert_eq!(
        decode_body("{\"location\":{\"is_eu\":\"yes\"}}"),
        Err(GeoError::DecodeError)
    );
    assert_eq!(
        decode_body("{\"time_zone\":{\"gmt_offset\":\"x\"}}"),
        Err(GeoError::DecodeError)
    );
    assert_eq!(
        decode_body("{\"location\":{\"languages\":[\"no\"]}}"),
        Err(GeoError::DecodeError)
    );
}

#[test]
fn null_known_field_is_absent() {
    let rec = decode_body("{\"city\":null,\"location\":null}").unwrap();
    assert_eq!(rec.city, None);
    assert_eq!(rec.location, None);
}

#[test]
fn numbers_out_of_range_are_decode_errors() {
    assert_eq!(
        decode_body("{\"connection\":{\"asn\":4294967296}}"),
        Err(GeoError::DecodeError)
    );
    assert_eq!(
        decode_body("{\"connection\":{\"asn\":-1}}"),
        Err(GeoError::DecodeError)
    );
    assert_eq!(
        decode_body("{\"connection\":{\"asn\":1.5}}"),
        Err(GeoError::DecodeError)
    );
}

#[test]
fn full_payload_decodes() {
    let body = "{\
        \"ip\":\"8.8.8.8\",\
        \"type\":\"ipv4\",\
        \"continent_code\":\"NA\",\
        \"continent_name\":\"North America\",\
        \"country_code\":\"US\",\
        \"country_name\":\"United States\",\
        \"region_code\":\"CA\",\
        \"region_name\":\"California\",\
        \"city\":\"Mountain View\",\
        \"zip\":\"94043\",\
        \"latitude\":37.751,\
        \"longitude\":-97.822,\
        \"location\":{\
            \"geoname_id\":5375480,\
            \"capital\":\"Washington D.C.\",\
            \"languages\":[{\"code\":\"en\",\"name\":\"English\",\"native\":\"English\"}],\
            \"country_flag\":\"https://flags.test/us.svg\",\
            \"country_flag_emoji\":\"US\",\
            \"country_flag_emoji_unicode\":\"U+1F1FA U+1F1F8\",\
            \"calling_code\":\"1\",\
            \"is_eu\":false\
        },\
        \"time_zone\":{\
            \"id\":\"America/Los_Angeles\",\
            \"current_time\":\"2020-01-01T00:00:00-08:00\",\
            \"gmt_offset\":-28800,\
            \"code\":\"PST\",\
            \"is_daylight_saving\":false\
        },\
        \"currency\":{\
            \"code\":\"USD\",\
            \"name\":\"US Dollar\",\
            \"plural\":\"US dollars\",\
            \"symbol\":\"$\",\
            \"symbol_native\":\"$\"\
        },\
        \"connection\":{\"asn\":15169,\"isp\":\"Google LLC\"}\
    }";
    let rec = decode_body(body).unwrap();
    assert_eq!(rec.ip, Some("8.8.8.8".to_string()));
    assert_eq!(rec.ip_type, Some("ipv4".to_string()));
    assert_eq!(rec.country_name, Some("United States".to_string()));
    assert_eq!(rec.city, Some("Mountain View".to_string()));
    assert_eq!(rec.latitude, Some("37.751".to_string()));
    assert_eq!(rec.longitude, Some("-97.822".to_string()));
    let loc = rec.location.unwrap();
    assert_eq!(loc.geoname_id, Some(5375480));
    assert_eq!(loc.is_eu, Some(false));
    let langs = loc.languages.unwrap();
    assert_eq!(langs.len(), 1);
    assert_eq!(langs[0].code, Some("en".to_string()));
    assert_eq!(langs[0].native, Some("English".to_string()));
    let tz = rec.time_zone.unwrap();
    assert_eq!(tz.gmt_offset, Some(-28800));
    assert_eq!(tz.id, Some("America/Los_Angeles".to_string()));
    let cur = rec.currency.unwrap();
    assert_eq!(cur.symbol, Some("$".to_string()));
    let conn = rec.connection.unwrap();
    assert_eq!(conn.asn, Some(15169));
    assert_eq!(conn.isp, Some("Google LLC".to_string()));
}

#[test]
fn integral_latitude_keeps_integral_text() {
    let rec = decode_body("{\"latitude\":37,\"longitude\":-97}").unwrap();
    assert_eq!(rec.latitude, Some("37".to_string()));
    assert_eq!(rec.longitude, Some("-97".to_string()));
}

#[test]
fn address_joins_present_parts() {
    let rec = decode_body(
        "{\"city\":\"Mountain View\",\"region_name\":\"California\",\
         \"country_name\":\"United States\",\"zip\":\"94043\"}",
    )
    .unwrap();
    assert_eq!(rec.address(), "Mountain View, California, United States, 94043");
}

#[test]
fn address_skips_absent_parts() {
    let rec = decode_body("{\"country_name\":\"Norway\",\"zip\":\"0150\"}").unwrap();
    assert_eq!(rec.address(), "Norway, 0150");
    let empty = decode_body("{}").unwrap();
    assert_eq!(empty.address(), "");
}

#[test]
fn end_to_end_example() {
    let url = ipapi_client::client::build_request_url(
        "http://vendor.test/json",
        Some("8.8.8.8"),
        None,
        None,
        None,
    )
    .unwrap();
    assert_eq!(url, "http://vendor.test/json/8.8.8.8");
    let body = "{\"status\":\"success\",\"country\":\"United States\",\"query\":\"8.8.8.8\"}";
    let rec = decode_body(body).unwrap();
    assert_eq!(rec.country, Some("United States".to_string()));
    assert_eq!(rec.query, Some("8.8.8.8".to_string()));
    assert!(rec.success());
    assert_eq!(rec.ip, None);
    assert_eq!(rec.city, None);
    assert_eq!(rec.location, None);
    assert_eq!(rec.time_zone, None);
    assert_eq!(rec.currency, None);
    assert_eq!(rec.connection, None);
}

#[test]
fn error_variants_are_distinct() {
    let transport = GeoError::TransportError("connection refused".to_string());
    assert_ne!(transport, GeoError::DecodeError);
    assert_ne!(transport, GeoError::InvalidRequest);
    assert_ne!(GeoError::DecodeError, GeoError::InvalidRequest);
}
