use ratquest::{
    ApiRequest, AuthDetails, AuthType, BasicAuth, DetailField, RequestDetails, RequestType,
};

#[test]
fn test_request_type_transitions() {
    let request_type = RequestType::GET;

    assert!(matches!(request_type.next(), RequestType::POST));
    assert!(matches!(RequestType::POST.next(), RequestType::PUT));
    assert!(matches!(RequestType::PUT.next(), RequestType::DELETE));
    assert!(matches!(RequestType::DELETE.next(), RequestType::PATCH));
    assert!(matches!(RequestType::PATCH.next(), RequestType::GET));
}

#[test]
fn test_auth_type_transitions() {
    let auth_type = AuthType::NoAuth;
    assert!(matches!(auth_type.next(), AuthType::Basic));
    assert!(matches!(AuthType::Basic.next(), AuthType::NoAuth));
}

#[test]
fn test_basic_auth_creation() {
    let basic_auth = BasicAuth {
        username: "test_user".to_string(),
        password: "test_pass".to_string(),
    };

    assert_eq!(basic_auth.username, "test_user");
    assert_eq!(basic_auth.password, "test_pass");
}

#[test]
fn test_request_details_new() {
    let details = RequestDetails::new();
    assert!(details.url.is_empty());
    assert!(details.body.is_empty());
    assert!(details.headers.is_empty());
    assert!(matches!(details.auth_type, AuthType::NoAuth));
}

#[test]
fn request_type_previous_is_the_reverse_cycle() {
    assert_eq!(RequestType::GET.previous(), RequestType::PATCH);
    assert_eq!(RequestType::PATCH.previous(), RequestType::DELETE);
    assert_eq!(RequestType::DELETE.previous(), RequestType::PUT);
    assert_eq!(RequestType::PUT.previous(), RequestType::POST);
    assert_eq!(RequestType::POST.previous(), RequestType::GET);
}

#[test]
fn five_steps_forward_return_to_the_start() {
    for start in [
        RequestType::GET,
        RequestType::POST,
        RequestType::PUT,
        RequestType::DELETE,
        RequestType::PATCH,
    ] {
        assert_eq!(start.next().next().next().next().next(), start);
        assert_eq!(start.next().previous(), start);
        assert_eq!(start.previous().next(), start);
    }
}

#[test]
fn names_of_methods_and_schemes() {
    assert_eq!(RequestType::GET.as_str(), "GET");
    assert_eq!(RequestType::POST.as_str(), "POST");
    assert_eq!(RequestType::PUT.as_str(), "PUT");
    assert_eq!(RequestType::DELETE.as_str(), "DELETE");
    assert_eq!(RequestType::PATCH.as_str(), "PATCH");
    assert_eq!(AuthType::NoAuth.as_str(), "None");
    assert_eq!(AuthType::Basic.as_str(), "Basic");
    assert_eq!(AuthType::Basic.previous(), AuthType::NoAuth);
    assert_eq!(AuthType::NoAuth.previous(), AuthType::Basic);
}

#[test]
fn new_request_has_nothing_set() {
    let request = ApiRequest::new("r".to_string(), RequestType::PUT);
    assert_eq!(request.name, "r");
    assert_eq!(request.request_type, RequestType::PUT);
    assert!(request.details.url.is_empty());
    assert!(request.details.params.is_empty());
    assert!(request.details.get_basic_auth().is_none());
    let default = ApiRequest::default();
    assert_eq!(default.name, "");
    assert_eq!(default.request_type, RequestType::GET);
}

#[test]
fn basic_then_none_leaves_no_authorization_header() {
    let mut details = RequestDetails::new();
    details.set_auth_type(AuthType::Basic);
    details.apply_buffers("http://x", "", "u", "p");
    assert!(details.headers.contains_key("Authorization"));
    details.set_auth_type(AuthType::NoAuth);
    assert!(!details.headers.contains_key("Authorization"));
    assert!(matches!(details.auth_details, AuthDetails::NoAuth));
}

#[test]
fn flushing_basic_credentials_derives_the_header() {
    let mut details = RequestDetails::new();
    details.set_auth_type(AuthType::Basic);
    details.apply_buffers("http://x", "body", "u", "p");
    assert_eq!(details.headers.get("Authorization").unwrap(), "Basic dTpw");
    assert_eq!(details.url, "http://x");
    assert_eq!(details.body, "body");
    details.apply_buffers("http://x", "body", "testuser", "testpass");
    assert_eq!(
        details.headers.get("Authorization").unwrap(),
        "Basic dGVzdHVzZXI6dGVzdHBhc3M="
    );
    assert_eq!(details.headers.len(), 1);
}

#[test]
fn empty_username_removes_the_header() {
    let mut details = RequestDetails::new();
    details.set_auth_type(AuthType::Basic);
    details.apply_buffers("", "", "u", "p");
    assert!(details.headers.contains_key("Authorization"));
    details.apply_buffers("", "", "", "p");
    assert!(!details.headers.contains_key("Authorization"));
    let basic = details.get_basic_auth().unwrap();
    assert_eq!(basic.username, "");
    assert_eq!(basic.password, "p");
}

#[test]
fn flushing_twice_changes_nothing_more() {
    let mut details = RequestDetails::new();
    details.set_auth_type(AuthType::Basic);
    details.upsert_header("X-A".to_string(), "1".to_string());
    details.apply_buffers("http://x", "b", "alice", "secret");
    let once = details.clone();
    details.apply_buffers("http://x", "b", "alice", "secret");
    assert_eq!(details.url, once.url);
    assert_eq!(details.body, once.body);
    assert_eq!(details.headers.to_vec(), once.headers.to_vec());
    assert_eq!(details.params.to_vec(), once.params.to_vec());
    assert_eq!(
        details.get_basic_auth().unwrap().username,
        once.get_basic_auth().unwrap().username
    );
}

#[test]
fn entering_basic_starts_with_empty_credentials() {
    let mut details = RequestDetails::new();
    details.set_auth_type(AuthType::Basic);
    details.apply_buffers("", "", "u", "p");
    details.set_auth_type(AuthType::NoAuth);
    details.set_auth_type(AuthType::Basic);
    let basic = details.get_basic_auth().unwrap();
    assert_eq!(basic.username, "");
    assert_eq!(basic.password, "");
    assert!(!details.headers.contains_key("Authorization"));
}

#[test]
fn without_a_payload_credentials_are_not_kept() {
    let mut details = RequestDetails::new();
    details.apply_buffers("http://x", "b", "u", "p");
    assert!(details.get_basic_auth().is_none());
    assert!(!details.headers.contains_key("Authorization"));
    assert_eq!(details.url, "http://x");
}

#[test]
fn reserved_header_is_refused_in_any_case() {
    let mut details = RequestDetails::new();
    assert!(!details.upsert_header("Authorization".to_string(), "x".to_string()));
    assert!(!details.upsert_header("authorization".to_string(), "x".to_string()));
    assert!(!details.upsert_header("AUTHORIZATION".to_string(), "x".to_string()));
    assert!(!details.upsert_header("aUtHoRiZaTiOn".to_string(), "x".to_string()));
    assert!(details.headers.is_empty());
    assert!(details.upsert_header("Authorizatio".to_string(), "x".to_string()));
    assert!(details.upsert_header("Authorization2".to_string(), "y".to_string()));
    assert!(details.upsert_header("X-A".to_string(), "1".to_string()));
    assert!(details.upsert_header("X-A".to_string(), "2".to_string()));
    assert_eq!(details.headers.len(), 3);
    assert_eq!(details.headers.get("X-A").unwrap(), "2");
    details.upsert_param("q".to_string(), "v".to_string());
    assert_eq!(details.params.get("q").unwrap(), "v");
}

#[test]
fn set_field_writes_one_field() {
    let mut details = RequestDetails::new();
    details.set_field(DetailField::Url, "http://y");
    details.set_field(DetailField::Body, "{}");
    details.set_field(DetailField::AuthUsername, "nobody");
    details.set_field(DetailField::Headers, "ignored");
    assert_eq!(details.url, "http://y");
    assert_eq!(details.body, "{}");
    assert!(details.get_basic_auth().is_none());
    details.set_auth_type(AuthType::Basic);
    details.set_field(DetailField::AuthUsername, "u");
    details.set_field(DetailField::AuthPassword, "p");
    assert_eq!(details.headers.get("Authorization").unwrap(), "Basic dTpw");
}

#[test]
fn basic_auth_can_be_edited_in_place() {
    let mut details = RequestDetails::new();
    assert!(details.get_basic_auth_mut().is_none());
    details.set_auth_type(AuthType::Basic);
    if let Some(basic) = details.get_basic_auth_mut() {
        basic.username = "u".to_string();
        basic.password = "p".to_string();
    }
    details.rederive_authorization();
    assert_eq!(details.headers.get("Authorization").unwrap(), "Basic dTpw");
    details.set_authorization(None);
    assert!(!details.headers.contains_key("Authorization"));
}
