//! Tests of the stated properties: read-after-write, empty list, the
//! not-found mapping, delete of an absent id, delete idempotence, the
//! end-to-end scenario with exact wire bodies, the discovery table, and
//! the fallback body.

use teachertapp::handlers::{handle_request, ResponseBody};
use teachertapp::json::render_body;
use teachertapp::models::{APIError, CreateSchool, School, StoreError};
use teachertapp::routing::{match_route, parse_i32, Route};
use teachertapp::schema_files::get_schema_path;
use teachertapp::store::SchoolStore;

#[test]
fn insert_then_get_returns_insert_result() {
    let mut db = SchoolStore::new();
    let payload = CreateSchool { name: "Newbie High".to_string() };
    let created = db.create_school(&payload).expect("School created");
    let fetched = db.get_school(created.id).expect("Retrieved school");
    assert_eq!(fetched.id, created.id);
    assert_eq!(fetched.name, created.name);
}

#[test]
fn list_on_empty_store_is_empty() {
    let db = SchoolStore::new();
    let res = db.get_schools().expect("list never fails");
    assert_eq!(res.len(), 0);
}

#[test]
fn get_of_absent_id_is_not_found() {
    let db = SchoolStore::new();
    let err = db.get_school(5).unwrap_err();
    assert_eq!(err, StoreError::NotFound);
    let api_error = APIError::from(err);
    assert_eq!(api_error.status_code, 404);
    assert_eq!(api_error.error.message, "Resource not found");
}

#[test]
fn storage_failure_maps_to_500() {
    let api_error = APIError::from(StoreError::StorageFailure);
    assert_eq!(api_error.status_code, 500);
    assert_eq!(api_error.error.message, "Unexpected error");
}

#[test]
fn delete_of_absent_id_counts_zero() {
    let mut db = SchoolStore::new();
    let count = db.delete_school(77).expect("delete never fails");
    assert_eq!(count, 0);
}

#[test]
fn insert_delete_then_get_is_not_found() {
    let mut db = SchoolStore::new();
    let payload = CreateSchool { name: "Newbie High".to_string() };
    let created = db.create_school(&payload).expect("School created");
    let count = db.delete_school(created.id).expect("delete never fails");
    assert_eq!(count, 1);
    let err = db.get_school(created.id).unwrap_err();
    assert_eq!(err, StoreError::NotFound);
}

#[test]
fn delete_twice_is_idempotent() {
    let mut db = SchoolStore::new();
    let payload = CreateSchool { name: "Newbie High".to_string() };
    let created = db.create_school(&payload).expect("School created");
    assert_eq!(db.delete_school(created.id).unwrap(), 1);
    assert_eq!(db.delete_school(created.id).unwrap(), 0);
    assert_eq!(db.get_schools().unwrap().len(), 0);
}

#[test]
fn crud_scenario_with_exact_bodies() {
    let mut store = SchoolStore::new();

    let payload = CreateSchool { name: "Newbie High".to_string() };
    let res = handle_request(&mut store, "POST", "/school/", Some(&payload));
    assert_eq!(res.status, 200);
    assert_eq!(render_body(&res.body), "{\"id\":1,\"name\":\"Newbie High\"}");

    let res = handle_request(&mut store, "GET", "/school/1", None);
    assert_eq!(res.status, 200);
    assert_eq!(render_body(&res.body), "{\"id\":1,\"name\":\"Newbie High\"}");

    let res = handle_request(&mut store, "GET", "/school/", None);
    assert_eq!(res.status, 200);
    assert_eq!(render_body(&res.body), "[{\"id\":1,\"name\":\"Newbie High\"}]");

    let res = handle_request(&mut store, "DELETE", "/school/1", None);
    assert_eq!(res.status, 200);
    assert_eq!(render_body(&res.body), "1");

    let res = handle_request(&mut store, "GET", "/school/1", None);
    assert_eq!(res.status, 404);
    assert_eq!(render_body(&res.body), "{\"message\":\"Resource not found\"}");
}

#[test]
fn discovery_lists_the_declared_routes() {
    let mut store = SchoolStore::new();
    let res = handle_request(&mut store, "GET", "/", None);
    assert_eq!(res.status, 200);
    let expected = "[{\"url\":\"/school/\",\"method\":\"GET\"},\
{\"url\":\"/school/:id\",\"method\":\"GET\"},\
{\"url\":\"/school/\",\"method\":\"POST\"},\
{\"url\":\"/school/:id\",\"method\":\"DELETE\"}]";
    assert_eq!(render_body(&res.body), expected);
}

#[test]
fn unmatched_route_gets_bare_string_body() {
    let mut store = SchoolStore::new();
    let res = handle_request(&mut store, "GET", "/nonexistent", None);
    assert_eq!(res.status, 404);
    assert_eq!(render_body(&res.body), "\"Route not found\"");
}

#[test]
fn exhausted_id_space_is_a_storage_failure() {
    let mut store = SchoolStore { rows: Vec::new(), next_id: i32::MAX };
    let payload = CreateSchool { name: "Newbie High".to_string() };
    let res = handle_request(&mut store, "POST", "/school/", Some(&payload));
    assert_eq!(res.status, 500);
    assert_eq!(render_body(&res.body), "{\"message\":\"Unexpected error\"}");
    assert_eq!(store.rows.len(), 0);
}

#[test]
fn route_table_matches() {
    assert_eq!(match_route("GET", "/"), Route::Index);
    assert_eq!(match_route("GET", "/school/"), Route::ListSchools);
    assert_eq!(match_route("POST", "/school/"), Route::CreateSchool);
    assert_eq!(match_route("GET", "/school/12"), Route::GetSchool(12));
    assert_eq!(match_route("DELETE", "/school/-3"), Route::DeleteSchool(-3));
    assert_eq!(match_route("GET", "/school/abc"), Route::InvalidId);
    assert_eq!(match_route("DELETE", "/school/2147483648"), Route::InvalidId);
    assert_eq!(match_route("GET", "/school/1/2"), Route::Fallback);
    assert_eq!(match_route("POST", "/"), Route::Fallback);
    assert_eq!(match_route("PUT", "/school/"), Route::Fallback);
    assert_eq!(match_route("DELETE", "/school/"), Route::Fallback);
    assert_eq!(match_route("GET", ""), Route::Fallback);
}

#[test]
fn id_segments_parse_as_signed_integers() {
    assert_eq!(parse_i32("0"), Some(0));
    assert_eq!(parse_i32("007"), Some(7));
    assert_eq!(parse_i32("+42"), Some(42));
    assert_eq!(parse_i32("-0"), Some(0));
    assert_eq!(parse_i32("2147483647"), Some(i32::MAX));
    assert_eq!(parse_i32("-2147483648"), Some(i32::MIN));
    assert_eq!(parse_i32("2147483648"), None);
    assert_eq!(parse_i32("-2147483649"), None);
    assert_eq!(parse_i32("99999999999999999999"), None);
    assert_eq!(parse_i32(""), None);
    assert_eq!(parse_i32("+"), None);
    assert_eq!(parse_i32("-"), None);
    assert_eq!(parse_i32("1a"), None);
    assert_eq!(parse_i32(" 1"), None);
}

#[test]
fn string_rendering_agrees_with_the_reference_encoder() {
    let samples = [
        "Newbie High",
        "",
        "quote \" backslash \\ slash /",
        "control \u{1} tab \t newline \n return \r",
        "backspace \u{8} formfeed \u{c} unit \u{1f}",
        "unicode \u{e9}\u{4e16}\u{1f600}",
    ];
    for s in samples {
        let rendered = render_body(&ResponseBody::Text(s.to_string()));
        let reference = serde_json::to_string(&serde_json::Value::String(s.to_string())).unwrap();
        assert_eq!(rendered, reference);
    }
}

#[test]
fn school_rendering_agrees_with_the_reference_encoder() {
    let school = School { id: i32::MIN, name: "x".to_string() };
    let rendered = render_body(&ResponseBody::School(school));
    assert_eq!(rendered, "{\"id\":-2147483648,\"name\":\"x\"}");
    assert_eq!(render_body(&ResponseBody::Count(42)), "42");
}

#[test]
fn schema_documents_are_named_after_their_model() {
    assert_eq!(get_schema_path("School"), "School.schema.json");
    assert_eq!(get_schema_path("CreateSchool"), "CreateSchool.schema.json");
}
