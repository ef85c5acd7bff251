//! The handlers: the decision logic of each route.
//!
//! A handler runs one repository operation and maps its outcome to an HTTP
//! status code and a JSON body.  The mapping stands alone in the
//! `respond_*` functions, so that an outer HTTP program that runs a real
//! database can hand each outcome to the same verified mapping; the
//! `user_*` functions are the full pipeline over the in-memory store.
//!
//! The status mapping: listing answers 200 (500 on a storage failure), a
//! lookup answers 200 or 404, a create answers 201 or 422, and a delete
//! answers 200 when a row was deleted, 404 when the id missed, and 500 on
//! a storage failure.  A connection-pool failure answers 503.

use vstd::prelude::*;
use vstd::string::StringSliceAdditionalSpecFns;

use crate::errors::ApiError;
use crate::json::{json_string, push_json_string, push_str_bytes};
use crate::model::{NewUser, RequestBody, User, UserView};
use crate::repository::{
    find_row, has_id, has_username, remove_id, store_wf, views_of, UserRepo,
};
use crate::view;
use crate::view::{user_create_json, user_details_json, user_list_json};

verus! {

/// One HTTP response: the status code and the JSON body bytes.
pub struct Response {
    pub status: u16,
    pub body: Vec<u8>,
}

/// The body carried by an error response: the JSON string of the error's
/// description.
pub open spec fn error_body_json(e: ApiError) -> Seq<u8> {
    json_string(e.describe_spec())
}

/// The body of a delete response: whether a row was deleted.
pub open spec fn success_json(ok: bool) -> Seq<u8> {
    if ok {
        "{\"success\":true}".spec_bytes()
    } else {
        "{\"success\":false}".spec_bytes()
    }
}

fn error_body(e: ApiError) -> (body: Vec<u8>)
    ensures
        body@ == error_body_json(e),
{
    let mut out: Vec<u8> = Vec::new();
    push_json_string(&mut out, e.describe());
    proof {
        assert(out@ =~= error_body_json(e));
    }
    out
}

fn success_body(ok: bool) -> (body: Vec<u8>)
    ensures
        body@ == success_json(ok),
{
    let mut out: Vec<u8> = Vec::new();
    if ok {
        push_str_bytes(&mut out, "{\"success\":true}");
    } else {
        push_str_bytes(&mut out, "{\"success\":false}");
    }
    proof {
        assert(out@ =~= success_json(ok));
    }
    out
}

/// Maps the outcome of the list operation: 200 with the list view on
/// success, 500 with the error description when storage failed.
pub fn respond_index(outcome: Result<Vec<User>, ApiError>) -> (resp: Response)
    ensures
        match outcome {
            Ok(users) => resp.status == 200 && resp.body@ == user_list_json(views_of(users@)),
            Err(e) => resp.status == 500 && resp.body@ == error_body_json(e),
        },
{
    match outcome {
        Ok(users) => Response { status: 200, body: view::user_list(&users) },
        Err(e) => Response { status: 500, body: error_body(e) },
    }
}

/// Maps the outcome of a lookup: 200 with the details view on success,
/// 404 with the error description otherwise.
pub fn respond_details(outcome: Result<User, ApiError>) -> (resp: Response)
    ensures
        match outcome {
            Ok(user) => resp.status == 200 && resp.body@ == user_details_json(user@),
            Err(e) => resp.status == 404 && resp.body@ == error_body_json(e),
        },
{
    match outcome {
        Ok(user) => Response { status: 200, body: view::user_details(&user) },
        Err(e) => Response { status: 404, body: error_body(e) },
    }
}

/// Maps the outcome of a create: 201 with the create view on success,
/// 422 with the error description otherwise.
pub fn respond_create(outcome: Result<User, ApiError>) -> (resp: Response)
    ensures
        match outcome {
            Ok(user) => resp.status == 201 && resp.body@ == user_create_json(user@),
            Err(e) => resp.status == 422 && resp.body@ == error_body_json(e),
        },
{
    match outcome {
        Ok(user) => Response { status: 201, body: view::user_create(&user) },
        Err(e) => Response { status: 422, body: error_body(e) },
    }
}

/// Maps the outcome of a delete: 200 when a row was deleted, 404 with the
/// not-successful body when the id missed, and 500 with the error
/// description when storage failed.
pub fn respond_delete(outcome: Result<usize, ApiError>) -> (resp: Response)
    ensures
        match outcome {
            Ok(count) => {
                &&& count > 0 ==> resp.status == 200 && resp.body@ == success_json(true)
                &&& count == 0 ==> resp.status == 404 && resp.body@ == success_json(false)
            },
            Err(e) => resp.status == 500 && resp.body@ == error_body_json(e),
        },
{
    match outcome {
        Ok(count) => {
            if count > 0 {
                Response { status: 200, body: success_body(true) }
            } else {
                Response { status: 404, body: success_body(false) }
            }
        },
        Err(e) => Response { status: 500, body: error_body(e) },
    }
}

/// The response for a request that could not acquire a storage connection
/// in time: 503 with the description of `StorageUnavailable`.
pub fn respond_unavailable() -> (resp: Response)
    ensures
        resp.status == 503,
        resp.body@ == error_body_json(ApiError::StorageUnavailable),
{
    Response { status: 503, body: error_body(ApiError::StorageUnavailable) }
}

/// GET `/users`: every stored user as the list view, status 200.
pub fn user_index(repo: &UserRepo) -> (resp: Response)
    ensures
        resp.status == 200,
        resp.body@ == user_list_json(repo@.rows),
{
    let users = repo.read_all();
    respond_index(Ok(users))
}

/// GET `/users/{id}`: the details view of the row with this id, or 404
/// with the `NotFound` description when no row carries it.
pub fn user_details(repo: &UserRepo, user_id: u128) -> (resp: Response)
    ensures
        match find_row(repo@.rows, user_id) {
            Some(row) => resp.status == 200 && resp.body@ == user_details_json(row),
            None => resp.status == 404 && resp.body@ == error_body_json(ApiError::NotFound),
        },
{
    respond_details(repo.find(user_id))
}

/// POST `/users`: turns the parsed request body into a creation request,
/// inserts it, and answers 201 with the created id, or 422 with the error
/// description when the username is taken or the insert failed.
pub fn user_create(repo: &mut UserRepo, req: RequestBody) -> (resp: Response)
    ensures
        store_wf(final(repo)@),
        has_username(old(repo)@.rows, req.username@) ==> {
            &&& resp.status == 422
            &&& resp.body@ == error_body_json(ApiError::DuplicateKey)
            &&& final(repo)@ == old(repo)@
        },
        !has_username(old(repo)@.rows, req.username@) && old(repo)@.next_id == u128::MAX ==> {
            &&& resp.status == 422
            &&& resp.body@ == error_body_json(ApiError::Unexpected)
            &&& final(repo)@ == old(repo)@
        },
        !has_username(old(repo)@.rows, req.username@) && old(repo)@.next_id < u128::MAX ==> ({
            let created = UserView {
                id: old(repo)@.next_id,
                username: req.username@,
                email: req.email@,
                password: req.password@,
            };
            &&& resp.status == 201
            &&& resp.body@ == user_create_json(created)
            &&& final(repo)@.rows == old(repo)@.rows.push(created)
            &&& final(repo)@.next_id == old(repo)@.next_id + 1
        }),
{
    let new_user = NewUser::from(req);
    let outcome = repo.create(new_user);
    respond_create(outcome)
}

/// DELETE `/users/{id}`: takes the row with this id out.  Answers 200
/// with the successful body when a row went away, and 404 with the
/// not-successful body when the id was not there — a miss is a completed
/// call, not a storage error.
pub fn user_delete(repo: &mut UserRepo, user_id: u128) -> (resp: Response)
    ensures
        store_wf(final(repo)@),
        final(repo)@.rows == remove_id(old(repo)@.rows, user_id),
        final(repo)@.next_id == old(repo)@.next_id,
        has_id(old(repo)@.rows, user_id) ==> resp.status == 200 && resp.body@ == success_json(
            true,
        ),
        !has_id(old(repo)@.rows, user_id) ==> resp.status == 404 && resp.body@ == success_json(
            false,
        ),
{
    let outcome = repo.delete(user_id);
    respond_delete(outcome)
}

} // verus!
