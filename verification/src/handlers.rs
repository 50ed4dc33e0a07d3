//! The handler layer: one function per route, each calling the
//! persistence gateway and translating its outcome into a status and a
//! response body, plus the dispatcher that ties the route table to the
//! handlers.

use vstd::prelude::*;

use crate::models::{
    APIError, CreateSchool, ErrorDetail, RouteDefinition, School, StoreError,
    STATUS_BAD_REQUEST, STATUS_INTERNAL_SERVER_ERROR, STATUS_NOT_FOUND, STATUS_OK,
};
use crate::routing::{match_route, route_definitions, spec_route, Route};
use crate::store::{has_id, rows_without, SchoolStore};

verus! {

/// A response body: one of the JSON-serialisable shapes the service
/// produces, or the bare string of the fallback route.
pub enum ResponseBody {
    /// The route table, served by the discovery endpoint.
    Routes(Vec<RouteDefinition>),
    /// A list of schools.
    Schools(Vec<School>),
    /// A single school.
    School(School),
    /// A row count, as returned by delete.
    Count(usize),
    /// An error object with a single `message` field.
    Error(ErrorDetail),
    /// A bare string, used only by the fallback route.
    Text(String),
}

/// What a handler hands back to the transport: a status code and a body.
pub struct ApiResponse {
    pub status: u16,
    pub body: ResponseBody,
}

/// The discovery route table: the four resource operations, excluding
/// the discovery route itself and the fallback.
pub open spec fn spec_route_table(defs: Seq<RouteDefinition>) -> bool {
    &&& defs.len() == 4
    &&& defs[0].method@ == "GET"@ && defs[0].url@ == "/school/"@
    &&& defs[1].method@ == "GET"@ && defs[1].url@ == "/school/:id"@
    &&& defs[2].method@ == "POST"@ && defs[2].url@ == "/school/"@
    &&& defs[3].method@ == "DELETE"@ && defs[3].url@ == "/school/:id"@
}

/// Routes a persistence failure through the error translator and wraps
/// it as a response.
pub fn error_response(e: StoreError) -> (r: ApiResponse)
    ensures
        e == StoreError::NotFound ==> r.status == STATUS_NOT_FOUND,
        e != StoreError::NotFound ==> r.status == STATUS_INTERNAL_SERVER_ERROR,
        r.body matches ResponseBody::Error(d) && d.message@ == (if e == StoreError::NotFound {
            "Resource not found"@
        } else {
            "Unexpected error"@
        }),
{
    let api_error = APIError::from(e);
    ApiResponse { status: api_error.status_code, body: ResponseBody::Error(api_error.error) }
}

/// A request-level client error, reported before the store is consulted.
pub fn bad_request(msg: &str) -> (r: ApiResponse)
    ensures
        r.status == STATUS_BAD_REQUEST,
        r.body matches ResponseBody::Error(d) && d.message@ == msg@,
{
    ApiResponse {
        status: STATUS_BAD_REQUEST,
        body: ResponseBody::Error(ErrorDetail { message: msg.to_owned() }),
    }
}

/// The discovery handler: always 200 with the static route table.
pub fn root() -> (r: ApiResponse)
    ensures
        r.status == STATUS_OK,
        r.body matches ResponseBody::Routes(defs) && spec_route_table(defs@),
{
    ApiResponse { status: STATUS_OK, body: ResponseBody::Routes(route_definitions()) }
}

/// The fallback handler: 404 with the bare string body.
pub fn handler_404() -> (r: ApiResponse)
    ensures
        r.status == STATUS_NOT_FOUND,
        r.body matches ResponseBody::Text(t) && t@ == "Route not found"@,
{
    ApiResponse { status: STATUS_NOT_FOUND, body: ResponseBody::Text("Route not found".to_owned()) }
}

/// The list handler: 200 with every school, in insertion order.
pub fn get_schools(store: &SchoolStore) -> (r: ApiResponse)
    ensures
        r.status == STATUS_OK,
        r.body matches ResponseBody::Schools(list) && list@ =~= store.rows@,
{
    match store.get_schools() {
        Ok(list) => ApiResponse { status: STATUS_OK, body: ResponseBody::Schools(list) },
        Err(e) => error_response(e),
    }
}

/// The get handler: 200 with the row carrying the id, or 404 with
/// "Resource not found" when no row does.
pub fn get_school(store: &SchoolStore, school_id: i32) -> (r: ApiResponse)
    requires
        store.wf(),
    ensures
        has_id(store.rows@, school_id) ==> ({
            &&& r.status == STATUS_OK
            &&& r.body matches ResponseBody::School(s) && s.id == school_id && exists|i: int|
                #![trigger store.rows@[i]]
                0 <= i < store.rows@.len() && store.rows@[i] == s
        }),
        !has_id(store.rows@, school_id) ==> ({
            &&& r.status == STATUS_NOT_FOUND
            &&& r.body matches ResponseBody::Error(d) && d.message@ == "Resource not found"@
        }),
{
    match store.get_school(school_id) {
        Ok(s) => ApiResponse { status: STATUS_OK, body: ResponseBody::School(s) },
        Err(e) => error_response(e),
    }
}

/// The create handler: 200 with the created row (200, not 201, is the
/// documented contract), or the translated storage error.
pub fn create_school(store: &mut SchoolStore, payload: &CreateSchool) -> (r: ApiResponse)
    requires
        old(store).wf(),
    ensures
        final(store).wf(),
        old(store).next_id < i32::MAX ==> ({
            &&& r.status == STATUS_OK
            &&& r.body matches ResponseBody::School(s) && s.id == old(store).next_id
                && s.name@ == payload.name@ && final(store).rows@ =~= old(store).rows@.push(s)
            &&& final(store).next_id == old(store).next_id + 1
        }),
        old(store).next_id == i32::MAX ==> ({
            &&& r.status == STATUS_INTERNAL_SERVER_ERROR
            &&& r.body matches ResponseBody::Error(d) && d.message@ == "Unexpected error"@
            &&& final(store).rows@ =~= old(store).rows@
            &&& final(store).next_id == old(store).next_id
        }),
{
    match store.create_school(payload) {
        Ok(s) => ApiResponse { status: STATUS_OK, body: ResponseBody::School(s) },
        Err(e) => error_response(e),
    }
}

/// The delete handler: always 200 with the number of rows removed;
/// deleting an absent id is success with count 0.
pub fn delete_school(store: &mut SchoolStore, school_id: i32) -> (r: ApiResponse)
    requires
        old(store).wf(),
    ensures
        final(store).wf(),
        final(store).rows@ =~= rows_without(old(store).rows@, school_id),
        final(store).next_id == old(store).next_id,
        r.status == STATUS_OK,
        r.body matches ResponseBody::Count(c) && c == old(store).rows@.len()
            - final(store).rows@.len() && c <= 1 && ((c == 1) <==> has_id(
            old(store).rows@,
            school_id,
        )),
{
    match store.delete_school(school_id) {
        Ok(c) => ApiResponse { status: STATUS_OK, body: ResponseBody::Count(c) },
        Err(e) => error_response(e),
    }
}

/// The full request pipeline: dispatch the method and path through the
/// route table, run the matched handler against the store, and return
/// its status and body.  `payload` is the decoded body of a create
/// request; its absence on the create route is a client error.
pub fn handle_request(
    store: &mut SchoolStore,
    method: &str,
    path: &str,
    payload: Option<&CreateSchool>,
) -> (r: ApiResponse)
    requires
        old(store).wf(),
    ensures
        final(store).wf(),
        spec_route(method@, path@) == Route::Index ==> ({
            &&& *final(store) == *old(store)
            &&& r.status == STATUS_OK
            &&& r.body matches ResponseBody::Routes(defs) && spec_route_table(defs@)
        }),
        spec_route(method@, path@) == Route::ListSchools ==> ({
            &&& *final(store) == *old(store)
            &&& r.status == STATUS_OK
            &&& r.body matches ResponseBody::Schools(list) && list@ =~= old(store).rows@
        }),
        spec_route(method@, path@) matches Route::GetSchool(id) ==> ({
            &&& *final(store) == *old(store)
            &&& has_id(old(store).rows@, id) ==> r.status == STATUS_OK
                && (r.body matches ResponseBody::School(s) && s.id == id && exists|i: int|
                    #![trigger old(store).rows@[i]]
                    0 <= i < old(store).rows@.len() && old(store).rows@[i] == s)
            &&& !has_id(old(store).rows@, id) ==> r.status == STATUS_NOT_FOUND
                && (r.body matches ResponseBody::Error(d) && d.message@ == "Resource not found"@)
        }),
        spec_route(method@, path@) == Route::CreateSchool ==> (payload matches Some(p) ==> ({
            &&& old(store).next_id < i32::MAX ==> ({
                &&& r.status == STATUS_OK
                &&& r.body matches ResponseBody::School(s) && s.id == old(store).next_id
                    && s.name@ == p.name@
                    && final(store).rows@ =~= old(store).rows@.push(s)
                &&& final(store).next_id == old(store).next_id + 1
            })
            &&& old(store).next_id == i32::MAX ==> r.status == STATUS_INTERNAL_SERVER_ERROR
                && final(store).rows@ =~= old(store).rows@
                && final(store).next_id == old(store).next_id
        })),
        spec_route(method@, path@) == Route::CreateSchool && payload is None ==> ({
            &&& *final(store) == *old(store)
            &&& r.status == STATUS_BAD_REQUEST
            &&& r.body is Error
        }),
        spec_route(method@, path@) matches Route::DeleteSchool(id) ==> ({
            &&& final(store).rows@ =~= rows_without(old(store).rows@, id)
            &&& final(store).next_id == old(store).next_id
            &&& r.status == STATUS_OK
            &&& r.body matches ResponseBody::Count(c) && c <= 1 && ((c == 1) <==> has_id(
                old(store).rows@,
                id,
            ))
        }),
        spec_route(method@, path@) == Route::InvalidId ==> ({
            &&& *final(store) == *old(store)
            &&& r.status == STATUS_BAD_REQUEST
            &&& r.body is Error
        }),
        spec_route(method@, path@) == Route::Fallback ==> ({
            &&& *final(store) == *old(store)
            &&& r.status == STATUS_NOT_FOUND
            &&& r.body matches ResponseBody::Text(t) && t@ == "Route not found"@
        }),
{
    match match_route(method, path) {
        Route::Index => root(),
        Route::ListSchools => get_schools(store),
        Route::GetSchool(id) => get_school(store, id),
        Route::CreateSchool => match payload {
            Some(p) => create_school(store, p),
            None => bad_request("Invalid body"),
        },
        Route::DeleteSchool(id) => delete_school(store, id),
        Route::InvalidId => bad_request("Invalid id"),
        Route::Fallback => handler_404(),
    }
}

} // verus!
