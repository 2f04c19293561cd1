use vstd::prelude::*;
use vstd::string::*;
use crate::envelope::{ApiResponse, CODE_FAILED, successful_text};
use crate::post::{
    Post, PostVo, ServiceError, lookup_matches, listing_matches, is_view_of, are_views_of,
    ids_unique, has_id, row_with_id, not_found_text,
};

verus! {

/// HTTP status of every envelope a handler produces itself.
pub const STATUS_OK: u16 = 200;

/// HTTP status of the fallback for undeclared routes.
pub const STATUS_NOT_FOUND: u16 = 404;

/// HTTP status of a failure caught by the error-mapping layer.
pub const STATUS_INTERNAL_ERROR: u16 = 500;

/// The message of the fallback for an undeclared route.
pub open spec fn not_found_message(method: Seq<char>, uri: Seq<char>) -> Seq<char> {
    method + " "@ + uri + " Not Found"@
}

/// The message of an envelope made by the error-mapping layer.
pub open spec fn failed_text() -> Seq<char> {
    "failed"@
}

/// The text a timed-out request reports as its detail.
pub open spec fn timed_out_text() -> Seq<char> {
    "request timed out"@
}

/// `r` is the envelope a handler answers with, given the service's outcome.
pub open spec fn envelope_for<T>(outcome: Result<T, ServiceError>, r: ApiResponse<T>) -> bool {
    match outcome {
        Ok(v) => r.is_success_with(v),
        Err(e) => r.is_failure_with(CODE_FAILED, e.text()),
    }
}

/// `GET /`: a success envelope with the payload `"good"`.
pub fn root() -> (r: ApiResponse<String>)
    ensures
        r.code == 0,
        r.message@ == successful_text(),
        r.data matches Some(d) && d@ == "good"@,
{
    proof {
        reveal_strlit("good");
    }
    ApiResponse::ok(String::from_str("good"))
}

/// The envelope for `GET /posts/{id}`, from what the service returned.
pub fn get_post(outcome: Result<PostVo, ServiceError>) -> (r: ApiResponse<PostVo>)
    ensures
        envelope_for(outcome, r),
{
    match outcome {
        Ok(post) => ApiResponse::ok(post),
        Err(err) => ApiResponse::err(CODE_FAILED, err.message()),
    }
}

/// The envelope for `GET /posts`, from what the service returned.
pub fn get_posts(outcome: Result<Vec<PostVo>, ServiceError>) -> (r: ApiResponse<Vec<PostVo>>)
    ensures
        envelope_for(outcome, r),
{
    match outcome {
        Ok(posts) => ApiResponse::ok(posts),
        Err(err) => ApiResponse::err(CODE_FAILED, err.message()),
    }
}

/// The fallback for a request that matches no route: status 404 and a
/// failure envelope naming the method and the URI as given.
pub fn handler_404(method: &str, uri: &str) -> (r: (u16, ApiResponse<String>))
    ensures
        r.0 == STATUS_NOT_FOUND,
        r.1.is_failure_with(CODE_FAILED, not_found_message(method@, uri@)),
{
    let mut text = String::from_str(method);
    text.append(" ");
    text.append(uri);
    text.append(" Not Found");
    (STATUS_NOT_FOUND, ApiResponse::err(CODE_FAILED, text))
}

/// The error-mapping layer: any failure that escaped a handler becomes
/// status 500 and a failure envelope that carries the failure's detail.
pub fn handle_error(detail: String) -> (r: (u16, ApiResponse<String>))
    ensures
        r.0 == STATUS_INTERNAL_ERROR,
        r.1.code == CODE_FAILED,
        r.1.message@ == failed_text(),
        r.1.data == Some(detail),
{
    proof {
        reveal_strlit("failed");
    }
    (STATUS_INTERNAL_ERROR, ApiResponse::new(CODE_FAILED, String::from_str("failed"), Some(detail)))
}

/// What a client receives for one request.
pub enum Reply<T> {
    /// The handler's own status and envelope.
    Handled(u16, ApiResponse<T>),
    /// The error-mapping layer's status and envelope.
    Fault(u16, ApiResponse<String>),
}

/// Whether a request that has run `elapsed` seconds is past its deadline.
pub open spec fn is_overdue(elapsed: u64, timeout: u64) -> bool {
    elapsed > timeout
}

/// The reply of a request cut off by its timeout: status 500 and a failure
/// envelope whose detail says that the request timed out.
pub open spec fn is_timeout_fault<T>(r: Option<Reply<T>>) -> bool {
    match r {
        Some(Reply::Fault(s, env)) => {
            &&& s == STATUS_INTERNAL_ERROR
            &&& env.code == CODE_FAILED
            &&& env.message@ == failed_text()
            &&& env.data matches Some(d) && d@ == timed_out_text()
        },
        _ => false,
    }
}

/// Decides what a request gets after `elapsed` seconds, under a timeout of
/// `timeout` seconds; `handled` is the handler's reply if it has finished.
/// `None` means the request is still within its time and has no reply yet.
pub fn settle<T>(elapsed: u64, timeout: u64, handled: Option<(u16, ApiResponse<T>)>) -> (r: Option<Reply<T>>)
    ensures
        is_overdue(elapsed, timeout) ==> is_timeout_fault(r),
        !is_overdue(elapsed, timeout) ==> match handled {
            Some(h) => r == Some(Reply::Handled(h.0, h.1)),
            None => r.is_none(),
        },
{
    if elapsed > timeout {
        proof {
            reveal_strlit("request timed out");
        }
        let (status, env) = handle_error(String::from_str("request timed out"));
        Some(Reply::Fault(status, env))
    } else {
        match handled {
            Some(h) => Some(Reply::Handled(h.0, h.1)),
            None => None,
        }
    }
}

/// Reading an id that the table holds answers with code 0 and the view of
/// exactly that row.
pub proof fn lemma_present_id_succeeds(
    rows: Seq<Post>,
    i: int,
    found: Result<Option<Post>, String>,
    outcome: Result<PostVo, ServiceError>,
    env: ApiResponse<PostVo>,
)
    requires
        ids_unique(rows),
        0 <= i < rows.len(),
        found == Ok::<Option<Post>, String>(row_with_id(rows, rows[i].id)),
        lookup_matches(found, outcome),
        envelope_for(outcome, env),
    ensures
        env.code == 0,
        env.message@ == successful_text(),
        env.data matches Some(v) && is_view_of(v, rows[i]),
{
    assert(has_id(rows, rows[i].id));
    let j = choose|j: int| 0 <= j < rows.len() && #[trigger] rows[j].id == rows[i].id;
    assert(j == i);
}

/// Reading an id that the table does not hold answers with code -1, the
/// not-found text and no data.
pub proof fn lemma_absent_id_fails(
    rows: Seq<Post>,
    id: i32,
    found: Result<Option<Post>, String>,
    outcome: Result<PostVo, ServiceError>,
    env: ApiResponse<PostVo>,
)
    requires
        !has_id(rows, id),
        found == Ok::<Option<Post>, String>(row_with_id(rows, id)),
        lookup_matches(found, outcome),
        envelope_for(outcome, env),
    ensures
        env.is_failure_with(CODE_FAILED, not_found_text()),
{
}

/// Listing an empty table succeeds with an empty listing.
pub proof fn lemma_empty_listing(
    rows: Vec<Post>,
    outcome: Result<Vec<PostVo>, ServiceError>,
    env: ApiResponse<Vec<PostVo>>,
)
    requires
        rows@.len() == 0,
        listing_matches(Ok(rows), outcome),
        envelope_for(outcome, env),
    ensures
        env.code == 0,
        env.message@ == successful_text(),
        env.data matches Some(vs) && vs@.len() == 0,
{
}

/// Listing answers with one view per stored row, field for field and in the
/// store's order: none left out, none repeated.
pub proof fn lemma_listing_is_faithful(
    rows: Vec<Post>,
    outcome: Result<Vec<PostVo>, ServiceError>,
    env: ApiResponse<Vec<PostVo>>,
)
    requires
        listing_matches(Ok(rows), outcome),
        envelope_for(outcome, env),
    ensures
        env.code == 0,
        env.message@ == successful_text(),
        env.data matches Some(vs) && are_views_of(vs@, rows@),
{
}

} // verus!
