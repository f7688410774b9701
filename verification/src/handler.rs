//! HTTP handlers: stateless request/response transforms that default the
//! validated input, call the data-access layer, and pick the status code
//! and envelope.

use vstd::prelude::*;
use crate::db::{contains_id, created_post, is_single_post_envelope, is_response_of, page_of,
    title_taken, DB};
use crate::error::Error;
use crate::oid::{id_of_hex, valid_hex_id, PostId};
use crate::response::{GenericResponse, PostListResponse, SinglePostResponse};
use crate::schema::{CreatePostSchema, FilterOptions};

verus! {

/// The limit a list request uses: the given one, or 10 when absent.
pub open spec fn default_limit(opts: FilterOptions) -> int {
    match opts.limit {
        Some(l) => l as int,
        None => 10,
    }
}

/// The page a list request uses: the given one, or 1 when absent.
pub open spec fn default_page(opts: FilterOptions) -> int {
    match opts.page {
        Some(p) => p as int,
        None => 1,
    }
}

/// What a fetch-by-id request answers when the identifier was well formed:
/// 200 with the post's envelope, or 404 with a message envelope naming the
/// identifier.
pub enum GetPostReply {
    Found(u16, SinglePostResponse),
    NotFound(u16, GenericResponse),
}

/// The pagination a list request runs with: the given limit and page,
/// defaulted to `limit=10`, `page=1` where absent.
pub fn pagination_params(opts: &FilterOptions) -> (r: (i64, i64))
    requires
        opts.page matches Some(p) ==> p <= i64::MAX,
        opts.limit matches Some(l) ==> l <= i64::MAX,
    ensures
        r.0 == default_limit(*opts),
        r.1 == default_page(*opts),
{
    let limit: i64 = match opts.limit {
        Some(l) => l as i64,
        None => 10,
    };
    let page: i64 = match opts.page {
        Some(p) => p as i64,
        None => 1,
    };
    (limit, page)
}

/// The 404 envelope of a fetch-by-id request whose well-formed identifier
/// no stored post carries: it names the identifier.
pub fn not_found_response(id: &str) -> (r: GenericResponse)
    ensures
        r.status@ == "fail"@,
        r.message@ == "Post with ID: "@ + id@ + " not found"@,
{
    let mut message = String::from_str("Post with ID: ");
    message.append(id);
    message.append(" not found");
    GenericResponse { status: String::from_str("fail"), message }
}

/// The fixed success envelope of the health check; no side effects.
pub fn health_checker_handler() -> (r: GenericResponse)
    ensures
        r.status@ == "success"@,
        r.message@ == "LinkedIn App lol"@,
{
    GenericResponse {
        status: String::from_str("success"),
        message: String::from_str("LinkedIn App lol"),
    }
}

/// List posts: default the pagination parameters (`limit=10`, `page=1`),
/// then answer the selected page in storage order.
pub fn posts_list_handler(opts: &FilterOptions, db: &DB) -> (r: Result<PostListResponse, Error>)
    requires
        db.wf(),
        opts.page matches Some(p) ==> 1 <= p <= i64::MAX,
        opts.limit matches Some(l) ==> l <= i64::MAX,
        (default_page(*opts) - 1) * default_limit(*opts) <= i64::MAX,
    ensures
        r matches Ok(list) && list.status@ == "success"@ && list.results == list.posts@.len()
            && list.posts@.len() == page_of(
            db.posts@,
            default_limit(*opts),
            default_page(*opts),
        ).len() && (forall|k: int|
            0 <= k < list.posts@.len() ==> is_response_of(
                #[trigger] list.posts@[k],
                page_of(db.posts@, default_limit(*opts), default_page(*opts))[k],
            )),
{
    let (limit, page) = pagination_params(opts);
    db.fetch_posts(limit, page)
}

/// Create a post: delegate to the data-access layer and answer 201 with
/// the created-post envelope, or propagate the mapped error.
pub fn create_post_handler(body: &CreatePostSchema, db: &mut DB) -> (r: Result<
    (Option<SinglePostResponse>, u16),
    Error,
>)
    requires
        old(db).wf(),
        old(db).next_seq < u64::MAX,
    ensures
        final(db).wf(),
        title_taken(old(db).posts@, body.title@) ==> (r matches Err(e) && e
            is MongoDuplicateError && final(db).posts@ == old(db).posts@ && final(db).next_seq
            == old(db).next_seq),
        !title_taken(old(db).posts@, body.title@) ==> (r matches Ok(pair) && pair.0 matches Some(
            e,
        ) && pair.1 == 201 && final(db).posts@.len() == old(db).posts@.len() + 1 && (
        forall|k: int|
            0 <= k < old(db).posts@.len() ==> final(db).posts@[k] == old(db).posts@[k])
            && created_post(
            final(db).posts@.last(),
            *body,
            PostId { hi: 0, lo: old(db).next_seq },
            final(db).posts@.last().createdAt,
        ) && final(db).posts@.last().createdAt == final(db).posts@.last().updatedAt
            && is_single_post_envelope(e, final(db).posts@.last())),
{
    match db.create_posts(body) {
        Ok(post) => Ok((post, 201)),
        Err(e) => Err(e),
    }
}

/// Fetch one post by identifier: 200 with its envelope when it exists,
/// 404 with a `Post with ID: <id> not found` message when no post carries
/// the well-formed identifier, and the invalid-identifier error when the
/// string is malformed.
pub fn get_post_handler(id: String, db: &DB) -> (r: Result<GetPostReply, Error>)
    requires
        db.wf(),
    ensures
        !valid_hex_id(id@) ==> (r matches Err(e) && e matches Error::InvalidIDError(s) && s@
            == id@),
        valid_hex_id(id@) && !contains_id(db.posts@, id_of_hex(id@)) ==> (r matches Ok(rep)
            && rep matches GetPostReply::NotFound(code, g) && code == 404 && g.status@
            == "fail"@ && g.message@ == "Post with ID: "@ + id@ + " not found"@),
        valid_hex_id(id@) && contains_id(db.posts@, id_of_hex(id@)) ==> (r matches Ok(rep)
            && rep matches GetPostReply::Found(code, e) && code == 200 && (forall|j: int|
            0 <= j < db.posts@.len() && (#[trigger] db.posts@[j]).id == id_of_hex(id@)
                ==> is_single_post_envelope(e, db.posts@[j]))),
{
    match db.get_post(id.as_str()) {
        Err(e) => Err(e),
        Ok(Some(envelope)) => Ok(GetPostReply::Found(200, envelope)),
        Ok(None) => Ok(GetPostReply::NotFound(404, not_found_response(id.as_str()))),
    }
}

} // verus!
