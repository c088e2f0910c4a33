use ratquest::requests::{fold_headers, snapshot};
use ratquest::storage::{
    create_group_plan, create_request_plan, delete_request_plan, parse_auth_type,
    parse_request_type, request_from_row, request_row, update_request_plan, RequestRow, RowRef,
    Statement,
};
use ratquest::{
    ApiRequest, AuthDetails, AuthType, NetworkError, RequestResponse, RequestType,
};
use std::time::Duration;

fn sample() -> ApiRequest {
    let mut request = ApiRequest::new("r1".to_string(), RequestType::POST);
    request.details.set_auth_type(AuthType::Basic);
    request.details.upsert_header("X-A".to_string(), "1".to_string());
    request.details.upsert_param("q".to_string(), "v".to_string());
    request.details.apply_buffers("http://x", "payload", "u", "p");
    request
}

#[test]
fn stored_request_reads_back_identical() {
    let request = sample();
    let row = request_row(&request);
    let back = request_from_row(
        row,
        request.details.headers.to_vec(),
        request.details.params.to_vec(),
    );
    assert_eq!(back.name, "r1");
    assert_eq!(back.request_type, RequestType::POST);
    assert_eq!(back.details.url, "http://x");
    assert_eq!(back.details.body, "payload");
    assert_eq!(back.details.auth_type, AuthType::Basic);
    let basic = back.details.get_basic_auth().unwrap();
    assert_eq!(basic.username, "u");
    assert_eq!(basic.password, "p");
    assert_eq!(back.details.headers.to_vec(), request.details.headers.to_vec());
    assert_eq!(back.details.params.to_vec(), request.details.params.to_vec());
    assert_eq!(back.details.headers.get("X-A").unwrap(), "1");
    assert_eq!(back.details.params.get("q").unwrap(), "v");
}

#[test]
fn row_holds_the_scalar_columns() {
    let row = request_row(&sample());
    assert_eq!(row.name, "r1");
    assert_eq!(row.request_type, "POST");
    assert_eq!(row.url, "http://x");
    assert_eq!(row.body, "payload");
    assert_eq!(row.auth_type, "Basic");
    assert_eq!(row.auth_username.as_deref(), Some("u"));
    assert_eq!(row.auth_password.as_deref(), Some("p"));
    let plain = request_row(&ApiRequest::new("r".to_string(), RequestType::GET));
    assert_eq!(plain.auth_type, "None");
    assert!(plain.auth_username.is_none());
    assert!(plain.auth_password.is_none());
}

#[test]
fn unknown_names_read_as_the_defaults() {
    assert_eq!(parse_request_type("GET"), RequestType::GET);
    assert_eq!(parse_request_type("POST"), RequestType::POST);
    assert_eq!(parse_request_type("PUT"), RequestType::PUT);
    assert_eq!(parse_request_type("DELETE"), RequestType::DELETE);
    assert_eq!(parse_request_type("PATCH"), RequestType::PATCH);
    assert_eq!(parse_request_type("post"), RequestType::GET);
    assert_eq!(parse_request_type(""), RequestType::GET);
    assert_eq!(parse_auth_type("Basic"), AuthType::Basic);
    assert_eq!(parse_auth_type("None"), AuthType::NoAuth);
    assert_eq!(parse_auth_type("Bearer"), AuthType::NoAuth);
}

#[test]
fn a_payload_needs_both_credentials() {
    let row = RequestRow {
        name: "r".to_string(),
        request_type: "GET".to_string(),
        url: String::new(),
        body: String::new(),
        auth_type: "Basic".to_string(),
        auth_username: Some("u".to_string()),
        auth_password: None,
    };
    let request = request_from_row(row, Vec::new(), Vec::new());
    assert_eq!(request.details.auth_type, AuthType::Basic);
    assert!(matches!(request.details.auth_details, AuthDetails::NoAuth));
}

#[test]
fn creation_plan_inserts_the_row_then_headers_then_params() {
    let plan = create_request_plan(7, &sample());
    assert_eq!(plan.len(), 4);
    match &plan[0] {
        Statement::InsertRequest { group_id, row } => {
            assert_eq!(*group_id, 7);
            assert_eq!(row.name, "r1");
        }
        other => panic!("unexpected statement {:?}", other),
    }
    match &plan[1] {
        Statement::InsertHeader { request, key, value } => {
            assert_eq!(*request, RowRef::LastInserted);
            assert_eq!((key.as_str(), value.as_str()), ("X-A", "1"));
        }
        other => panic!("unexpected statement {:?}", other),
    }
    match &plan[2] {
        Statement::InsertHeader { request, key, value } => {
            assert_eq!(*request, RowRef::LastInserted);
            assert_eq!((key.as_str(), value.as_str()), ("Authorization", "Basic dTpw"));
        }
        other => panic!("unexpected statement {:?}", other),
    }
    match &plan[3] {
        Statement::InsertParam { request, key, value } => {
            assert_eq!(*request, RowRef::LastInserted);
            assert_eq!((key.as_str(), value.as_str()), ("q", "v"));
        }
        other => panic!("unexpected statement {:?}", other),
    }
}

#[test]
fn update_plan_deletes_before_it_inserts() {
    let plan = update_request_plan(3, &sample());
    assert_eq!(plan.len(), 6);
    assert!(matches!(&plan[0], Statement::UpdateRequest { id: 3, .. }));
    assert!(matches!(&plan[1], Statement::DeleteHeaders { request_id: 3 }));
    assert!(matches!(&plan[2], Statement::InsertHeader { request: RowRef::Id(3), .. }));
    assert!(matches!(&plan[3], Statement::InsertHeader { request: RowRef::Id(3), .. }));
    assert!(matches!(&plan[4], Statement::DeleteParams { request_id: 3 }));
    assert!(matches!(&plan[5], Statement::InsertParam { request: RowRef::Id(3), .. }));
}

#[test]
fn deletion_plan_removes_children_first() {
    let plan = delete_request_plan(9);
    assert_eq!(plan.len(), 3);
    assert!(matches!(&plan[0], Statement::DeleteHeaders { request_id: 9 }));
    assert!(matches!(&plan[1], Statement::DeleteParams { request_id: 9 }));
    assert!(matches!(&plan[2], Statement::DeleteRequest { id: 9 }));
    let group = create_group_plan("g1");
    assert_eq!(group.len(), 1);
    assert!(matches!(&group[0], Statement::InsertGroup { name } if name == "g1"));
}

#[test]
fn snapshot_attaches_a_body_to_all_but_get() {
    let out = snapshot(&sample());
    assert_eq!(out.method, RequestType::POST);
    assert_eq!(out.url, "http://x");
    assert_eq!(out.body.as_deref(), Some("payload"));
    assert_eq!(
        out.headers,
        vec![
            ("X-A".to_string(), "1".to_string()),
            ("Authorization".to_string(), "Basic dTpw".to_string())
        ]
    );
    assert_eq!(out.params, vec![("q".to_string(), "v".to_string())]);
    let mut get = sample();
    get.request_type = RequestType::GET;
    assert!(snapshot(&get).body.is_none());
    for method in [RequestType::PUT, RequestType::DELETE, RequestType::PATCH] {
        let mut other = sample();
        other.request_type = method;
        assert_eq!(snapshot(&other).body.as_deref(), Some("payload"));
    }
}

#[test]
fn response_headers_fold_to_the_last_value() {
    let headers = fold_headers(vec![
        ("set-cookie".to_string(), "a=1".to_string()),
        ("content-type".to_string(), "text/plain".to_string()),
        ("set-cookie".to_string(), "b=2".to_string()),
    ]);
    assert_eq!(headers.len(), 2);
    assert_eq!(headers.get("set-cookie").unwrap(), "b=2");
    let response = RequestResponse::new(
        200,
        "200 OK".to_string(),
        vec![("a".to_string(), "1".to_string())],
        "hello".to_string(),
        Duration::from_millis(12),
    );
    assert_eq!(response.status, 200);
    assert_eq!(response.status_text, "200 OK");
    assert_eq!(response.body, "hello");
    assert_eq!(response.time_taken, Duration::from_millis(12));
    assert!(!response.is_failure());
    let copy = response.clone();
    assert_eq!(copy.time_taken, Duration::from_millis(12));
    assert_eq!(copy.headers.get("a").unwrap(), "1");
}

#[test]
fn a_failure_is_shaped_like_a_response() {
    let response = RequestResponse::from_error(NetworkError {
        message: "connection refused".to_string(),
        time_taken: Duration::from_millis(3),
    });
    assert_eq!(response.status, 0);
    assert_eq!(response.status_text, "connection refused");
    assert!(response.headers.is_empty());
    assert!(response.body.is_empty());
    assert_eq!(response.time_taken, Duration::from_millis(3));
    assert!(response.is_failure());
}
