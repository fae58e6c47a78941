use ipapi_client::client::{build_request_url, join_fields, IpApiClient};
use ipapi_client::GeoError;

#[test]
fn subject_only_no_credential() {
    let url = build_request_url("http://vendor.test/json", Some("8.8.8.8"), None, None, None);
    assert_eq!(url, Ok("http://vendor.test/json/8.8.8.8".to_string()));
}

#[test]
fn subject_with_credential() {
    let url = build_request_url(
        "https://api.ipapi.com/api",
        Some("1.2.3.4"),
        None,
        None,
        Some("k123"),
    );
    assert_eq!(
        url,
        Ok("https://api.ipapi.com/api/1.2.3.4?access_key=k123".to_string())
    );
}

#[test]
fn no_subject_no_modifiers() {
    let url = build_request_url("https://api.ipapi.com/api", None, None, None, None);
    assert_eq!(url, Ok("https://api.ipapi.com/api".to_string()));
}

#[test]
fn fields_join_in_order() {
    let fields = vec!["country_name".to_string(), "city".to_string(), "zip".to_string()];
    assert_eq!(join_fields(&fields), "country_name,city,zip");
}

#[test]
fn fields_join_keeps_duplicates() {
    let fields = vec!["city".to_string(), "city".to_string()];
    assert_eq!(join_fields(&fields), "city,city");
}

#[test]
fn fields_join_single_and_empty() {
    assert_eq!(join_fields(&vec!["zip".to_string()]), "zip");
    assert_eq!(join_fields(&Vec::new()), "");
}

#[test]
fn all_modifiers_in_order() {
    let fields = vec!["country_name".to_string(), "city".to_string()];
    let url = build_request_url(
        "https://api.ipapi.com/api",
        Some("1.2.3.4"),
        Some("en"),
        Some(&fields),
        Some("k123"),
    );
    assert_eq!(
        url,
        Ok("https://api.ipapi.com/api/1.2.3.4?lang=en&fields=country_name,city&access_key=k123"
            .to_string())
    );
}

#[test]
fn fields_without_subject() {
    let fields = vec!["city".to_string()];
    let url = build_request_url("https://api.ipapi.com/api", None, None, Some(&fields), None);
    assert_eq!(url, Ok("https://api.ipapi.com/api?fields=city".to_string()));
}

#[test]
fn empty_subject_rejected() {
    let url = build_request_url("https://api.ipapi.com/api", Some(""), None, None, None);
    assert_eq!(url, Err(GeoError::InvalidRequest));
}

#[test]
fn subject_with_slash_rejected() {
    let url = build_request_url("https://api.ipapi.com/api", Some("8.8.8.8/x"), None, None, None);
    assert_eq!(url, Err(GeoError::InvalidRequest));
}

#[test]
fn subject_with_space_rejected() {
    let url = build_request_url("https://api.ipapi.com/api", Some("8.8 8.8"), None, None, None);
    assert_eq!(url, Err(GeoError::InvalidRequest));
}

#[test]
fn ipv6_subject_accepted() {
    let url = build_request_url("https://api.ipapi.com/api", Some("2001:4860:4860::8888"), None,
        None, None);
    assert_eq!(
        url,
        Ok("https://api.ipapi.com/api/2001:4860:4860::8888".to_string())
    );
}

#[test]
fn bad_language_rejected() {
    let url = build_request_url("https://api.ipapi.com/api", Some("1.2.3.4"), Some("en us"), None,
        None);
    assert_eq!(url, Err(GeoError::InvalidRequest));
}

#[test]
fn bad_field_name_rejected() {
    let fields = vec!["city".to_string(), "a&b".to_string()];
    let url = build_request_url("https://api.ipapi.com/api", Some("1.2.3.4"), None, Some(&fields),
        None);
    assert_eq!(url, Err(GeoError::InvalidRequest));
}

#[test]
fn bad_credential_rejected() {
    let url = build_request_url("https://api.ipapi.com/api", Some("1.2.3.4"), None, None,
        Some("k=123"));
    assert_eq!(url, Err(GeoError::InvalidRequest));
}

#[test]
fn client_stores_configuration() {
    let client = IpApiClient::new(Some("secret".to_string()));
    assert_eq!(client.base_url, "https://api.ipapi.com/api");
    assert_eq!(client.access_key, Some("secret".to_string()));
    let bare = IpApiClient::new(None);
    assert_eq!(bare.access_key, None);
}

#[test]
fn client_lookup_url_without_credential() {
    let client = IpApiClient::new(None);
    assert_eq!(
        client.lookup_url("8.8.8.8"),
        Ok("https://api.ipapi.com/api/8.8.8.8".to_string())
    );
}

#[test]
fn client_lookup_url_with_credential() {
    let client = IpApiClient::new(Some("k123".to_string()));
    assert_eq!(
        client.lookup_url("8.8.8.8"),
        Ok("https://api.ipapi.com/api/8.8.8.8?access_key=k123".to_string())
    );
}

#[test]
fn client_lookup_url_rejects_bad_subject() {
    let client = IpApiClient::new(None);
    assert_eq!(client.lookup_url("a b"), Err(GeoError::InvalidRequest));
}
