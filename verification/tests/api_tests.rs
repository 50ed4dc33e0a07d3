//! Tests of the request pipeline: dispatch, handlers, and the rendered
//! response bodies, driven the way the HTTP tests of the service drive
//! the transport.

use teachertapp::handlers::{handle_request, ApiResponse, ResponseBody};
use teachertapp::json::render_body;
use teachertapp::models::CreateSchool;
use teachertapp::store::SchoolStore;

fn body_json(r: &ApiResponse) -> serde_json::Value {
    let text = render_body(&r.body);
    serde_json::from_str(&text).expect("response body is valid JSON")
}

#[test]
fn api_can_get_index() {
    let mut store = SchoolStore::new();
    let res = handle_request(&mut store, "GET", "/", None);
    assert_eq!(res.status, 200);
    assert_eq!(body_json(&res).as_array().unwrap().len(), 4);
}

#[test]
fn api_can_handle_404() {
    let mut store = SchoolStore::new();
    let res = handle_request(&mut store, "GET", "/badurl", None);
    assert_eq!(res.status, 404);
    assert_eq!(body_json(&res).as_str().unwrap(), "Route not found");
}

#[test]
fn api_can_create_school() {
    let mut store = SchoolStore::new();
    let new_school = CreateSchool { name: "Newbie High".to_string() };
    let res = handle_request(&mut store, "POST", "/school/", Some(&new_school));
    assert_eq!(res.status, 200);
    assert_eq!(body_json(&res)["name"], "Newbie High");
}

#[test]
fn api_can_list_schools() {
    let mut store = SchoolStore::new();

    // nothing exists yet, should see an empty list
    let res = handle_request(&mut store, "GET", "/school/", None);
    assert_eq!(res.status, 200);
    assert_eq!(body_json(&res).as_array().unwrap().len(), 0);

    // create a school
    let new_school = CreateSchool { name: "Newbie High".to_string() };
    handle_request(&mut store, "POST", "/school/", Some(&new_school));

    // should now be able to successfully GET
    let res = handle_request(&mut store, "GET", "/school/", None);
    assert_eq!(res.status, 200);
    assert_eq!(body_json(&res).as_array().unwrap().len(), 1);
}

#[test]
fn api_can_get_school() {
    let mut store = SchoolStore::new();

    // nothing exists yet, should see a 404
    let res = handle_request(&mut store, "GET", "/school/1", None);
    assert_eq!(res.status, 404);
    assert_eq!(body_json(&res)["message"], "Resource not found");

    // create a school
    let new_school = CreateSchool { name: "Newbie High".to_string() };
    handle_request(&mut store, "POST", "/school/", Some(&new_school));

    // should now be able to successfully GET
    let res = handle_request(&mut store, "GET", "/school/1", None);
    assert_eq!(res.status, 200);
    assert_eq!(body_json(&res)["name"], "Newbie High");
}

#[test]
fn can_delete_school() {
    let mut store = SchoolStore::new();

    // create a school
    let new_school = CreateSchool { name: "Newbie High".to_string() };
    handle_request(&mut store, "POST", "/school/", Some(&new_school));

    // should now exist
    let res = handle_request(&mut store, "GET", "/school/1", None);
    assert_eq!(res.status, 200);

    // delete school
    handle_request(&mut store, "DELETE", "/school/1", None);

    // check deleted
    let res = handle_request(&mut store, "GET", "/school/1", None);
    assert_eq!(res.status, 404);
}

#[test]
fn create_without_body_is_client_error() {
    let mut store = SchoolStore::new();
    let res = handle_request(&mut store, "POST", "/school/", None);
    assert_eq!(res.status, 400);
    assert!(matches!(res.body, ResponseBody::Error(_)));
    // nothing was stored
    let res = handle_request(&mut store, "GET", "/school/", None);
    assert_eq!(body_json(&res).as_array().unwrap().len(), 0);
}

#[test]
fn malformed_id_is_client_error() {
    let mut store = SchoolStore::new();
    let res = handle_request(&mut store, "GET", "/school/abc", None);
    assert_eq!(res.status, 400);
    assert!(matches!(res.body, ResponseBody::Error(_)));
}
