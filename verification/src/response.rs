//! Response envelopes returned to clients: a generic `{status, message}`
//! shape, a single-post envelope and a paginated list envelope.

use vstd::prelude::*;

verus! {

/// Generic `{status, message}` envelope used for health checks and errors.
pub struct GenericResponse {
    pub status: String,
    pub message: String,
}

/// One post as it is handed back to a client. The identifier is rendered as
/// a 24-digit hex string; the timestamps are milliseconds since the epoch.
#[allow(non_snake_case)]
pub struct PostResponse {
    pub id: String,
    pub title: String,
    pub content: String,
    pub published: bool,
    pub createdAt: i64,
    pub updatedAt: i64,
}

/// Payload of the single-post envelope.
pub struct PostData {
    pub post: PostResponse,
}

/// Envelope around one post: `{status, data: {post}}`.
pub struct SinglePostResponse {
    pub status: String,
    pub data: PostData,
}

/// Envelope around a page of posts: `{status, results, posts}`.
pub struct PostListResponse {
    pub status: String,
    pub results: usize,
    pub posts: Vec<PostResponse>,
}

/// Wrap one post in its success envelope.
pub fn single_post_envelope(post: PostResponse) -> (r: SinglePostResponse)
    ensures
        r.status@ == "success"@,
        r.data.post == post,
{
    SinglePostResponse { status: String::from_str("success"), data: PostData { post } }
}

/// Wrap a page of posts in the success list envelope; the result count is
/// the number of posts carried.
pub fn post_list_envelope(posts: Vec<PostResponse>) -> (r: PostListResponse)
    ensures
        r.status@ == "success"@,
        r.results == r.posts@.len(),
        r.posts == posts,
{
    let results = posts.len();
    PostListResponse { status: String::from_str("success"), results, posts }
}

} // verus!
