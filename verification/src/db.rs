//! The data-access layer.
//!
//! The document database owns the persisted posts. This module carries the
//! semantics the service relies on — natural storage order, title
//! uniqueness, identifier lookup, skip/limit pagination — as a verified
//! store of post documents whose operations have exact contracts. The
//! process-level glue runs the same operations against the database
//! engine, taking the identifier parsing, envelope shapes, defaulting and
//! error classification from here.

use vstd::prelude::*;
use crate::error::Error;
use crate::model::PostModel;
use crate::oid::{hex_str_of_id, id_of_hex, id_to_hex, lemma_id_hex_round_trip, parse_hex_id,
    valid_hex_id, PostId};
use crate::response::{post_list_envelope, single_post_envelope, PostListResponse,
    PostResponse, SinglePostResponse};
use crate::schema::{requested_published, CreatePostSchema};

verus! {

/// The externally supplied connection parameters, each of which is
/// required: connection string, database name, collection name.
pub struct DbConfig {
    pub database_url: String,
    pub database_name: String,
    pub posts_collection: String,
}

impl DbConfig {
    /// Gather the connection parameters; `None` as soon as any required
    /// one is absent.
    pub fn new(
        database_url: Option<String>,
        database_name: Option<String>,
        posts_collection: Option<String>,
    ) -> (r: Option<DbConfig>)
        ensures
            r is Some <==> database_url is Some && database_name is Some && posts_collection
                is Some,
            r matches Some(c) ==> ({
                &&& database_url matches Some(u) && c.database_url == u
                &&& database_name matches Some(n) && c.database_name == n
                &&& posts_collection matches Some(p) && c.posts_collection == p
            }),
    {
        match (database_url, database_name, posts_collection) {
            (Some(u), Some(n), Some(p)) => Some(
                DbConfig { database_url: u, database_name: n, posts_collection: p },
            ),
            _ => None,
        }
    }
}

/// Does some stored post already use this title?
pub open spec fn title_taken(posts: Seq<PostModel>, title: Seq<char>) -> bool {
    exists|i: int| 0 <= i < posts.len() && (#[trigger] posts[i]).title@ == title
}

/// Does some stored post carry this identifier?
pub open spec fn contains_id(posts: Seq<PostModel>, id: PostId) -> bool {
    exists|i: int| 0 <= i < posts.len() && (#[trigger] posts[i]).id == id
}

/// The published flag of a stored post (false where the field is absent).
pub open spec fn stored_published(p: PostModel) -> bool {
    match p.published {
        Some(b) => b,
        None => false,
    }
}

/// Is `r` exactly the client rendering of the stored post `p`: the
/// identifier in hex, every other field verbatim?
pub open spec fn is_response_of(r: PostResponse, p: PostModel) -> bool {
    &&& r.id@ == hex_str_of_id(p.id)
    &&& r.title@ == p.title@
    &&& r.content@ == p.content@
    &&& r.published == stored_published(p)
    &&& r.createdAt == p.createdAt
    &&& r.updatedAt == p.updatedAt
}

/// Is `e` the success envelope around the stored post `p`?
pub open spec fn is_single_post_envelope(e: SinglePostResponse, p: PostModel) -> bool {
    e.status@ == "success"@ && is_response_of(e.data.post, p)
}

/// The page a list request selects: skip `(page-1)*limit` posts in storage
/// order, then up to `limit` of them. Meaningful for `page >= 1` and
/// `limit >= 0`.
pub open spec fn page_of(posts: Seq<PostModel>, limit: int, page: int) -> Seq<PostModel> {
    let start = (page - 1) * limit;
    if start <= posts.len() {
        posts.subrange(
            start,
            if start + limit <= posts.len() {
                start + limit
            } else {
                posts.len() as int
            },
        )
    } else {
        Seq::empty()
    }
}

/// Is `p` the post a create request with body `body` persists, under the
/// fresh identifier `id` at time `now`: server-set equal timestamps, the
/// published flag defaulted to false when omitted?
pub open spec fn created_post(p: PostModel, body: CreatePostSchema, id: PostId, now: i64) -> bool {
    &&& p.id == id
    &&& p.title@ == body.title@
    &&& p.content@ == body.content@
    &&& p.published == Some(requested_published(body))
    &&& p.createdAt == now
    &&& p.updatedAt == now
}

/// The store of post documents, in natural (insertion) order, with the
/// counter from which fresh identifiers are drawn.
pub struct DB {
    pub posts: Vec<PostModel>,
    pub next_seq: u64,
}

impl DB {
    /// The store's invariant: identifiers are pairwise distinct and drawn
    /// from below the counter, titles are pairwise distinct (the
    /// uniqueness constraint), and every stored post carries a published
    /// flag.
    pub open spec fn wf(self) -> bool {
        &&& forall|i: int, j: int|
            0 <= i < j < self.posts@.len() ==> (#[trigger] self.posts@[i]).id != (
            #[trigger] self.posts@[j]).id
        &&& forall|i: int, j: int|
            0 <= i < j < self.posts@.len() ==> (#[trigger] self.posts@[i]).title@ != (
            #[trigger] self.posts@[j]).title@
        &&& forall|i: int|
            0 <= i < self.posts@.len() ==> (#[trigger] self.posts@[i]).published is Some
                && self.posts@[i].id.hi == 0 && self.posts@[i].id.lo < self.next_seq
    }

    /// An empty store. Connecting to the database engine itself is the
    /// process's part; the store starts with no documents either way.
    pub fn init() -> (db: DB)
        ensures
            db.wf(),
            db.posts@.len() == 0,
            db.next_seq == 0,
    {
        DB { posts: Vec::new(), next_seq: 0 }
    }

    /// Render one stored document for a client. A document without a
    /// published flag is malformed stored data and becomes a data-access
    /// error rather than a crash.
    pub fn doc_to_post(&self, post: &PostModel) -> (r: Result<PostResponse, Error>)
        ensures
            post.published is Some ==> (r matches Ok(p) && is_response_of(p, *post)),
            post.published is None ==> (r matches Err(e) && e is MongoDataError),
    {
        let published = match post.published {
            Some(b) => b,
            None => {
                return Err(
                    Error::MongoDataError(String::from_str("no value found for published")),
                );
            },
        };
        Ok(
            PostResponse {
                id: id_to_hex(&post.id),
                title: post.title.clone(),
                content: post.content.clone(),
                published,
                createdAt: post.createdAt,
                updatedAt: post.updatedAt,
            },
        )
    }

    /// The page `(limit, page)` selects, in storage order, wrapped in the
    /// list envelope with its result count.
    pub fn fetch_posts(&self, limit: i64, page: i64) -> (r: Result<PostListResponse, Error>)
        requires
            self.wf(),
            1 <= page,
            0 <= limit,
            (page - 1) * limit <= i64::MAX,
        ensures
            r matches Ok(list) && list.status@ == "success"@ && list.results == list.posts@.len()
                && list.posts@.len() == page_of(self.posts@, limit as int, page as int).len() && (
            forall|k: int|
                0 <= k < list.posts@.len() ==> is_response_of(
                    #[trigger] list.posts@[k],
                    page_of(self.posts@, limit as int, page as int)[k],
                )),
    {
        let skip: u64 = ((page - 1) * limit) as u64;
        let lim: u64 = limit as u64;
        let mut out: Vec<PostResponse> = Vec::new();
        let mut i: usize = 0;
        while i < self.posts.len() && (out.len() as u64) < lim
            invariant
                self.wf(),
                skip == (page - 1) * limit,
                lim == limit,
                0 <= i <= self.posts@.len(),
                out@.len() == if i <= skip {
                    0int
                } else if i - skip <= lim {
                    i - skip
                } else {
                    lim as int
                },
                out@.len() <= lim,
                i > skip || out@.len() == 0,
                forall|k: int|
                    0 <= k < out@.len() ==> is_response_of(
                        #[trigger] out@[k],
                        self.posts@[skip + k],
                    ),
            decreases self.posts@.len() - i,
        {
            if (i as u64) >= skip {
                match self.doc_to_post(&self.posts[i]) {
                    Ok(p) => {
                        out.push(p);
                    },
                    Err(e) => {
                        proof {
                            assert(self.posts@[i as int].published is Some);
                            assert(false);
                        }
                        return Err(e);
                    },
                }
            }
            i = i + 1;
        }
        proof {
            let sel = page_of(self.posts@, limit as int, page as int);
            assert(out@.len() == sel.len());
            assert forall|k: int| 0 <= k < out@.len() implies is_response_of(
                #[trigger] out@[k],
                sel[k],
            ) by {
                assert(sel[k] == self.posts@[skip + k]);
            }
        }
        Ok(post_list_envelope(out))
    }

    /// Does some stored post already use this title?
    fn title_exists(&self, title: &String) -> (b: bool)
        ensures
            b == title_taken(self.posts@, title@),
    {
        let mut i: usize = 0;
        while i < self.posts.len()
            invariant
                0 <= i <= self.posts@.len(),
                forall|k: int| 0 <= k < i ==> (#[trigger] self.posts@[k]).title@ != title@,
            decreases self.posts@.len() - i,
        {
            if self.posts[i].title == *title {
                return true;
            }
            i = i + 1;
        }
        false
    }

    /// Persist the post a create request asks for, timestamped `now_ms`.
    ///
    /// A title already in use is a duplicate-key conflict and persists
    /// nothing. Otherwise exactly one document is appended: the body's
    /// fields, the published flag defaulted to false, a fresh identifier,
    /// and `createdAt` equal to `updatedAt` — and its success envelope is
    /// returned.
    pub fn create_post_at(&mut self, body: &CreatePostSchema, now_ms: i64) -> (r: Result<
        Option<SinglePostResponse>,
        Error,
    >)
        requires
            old(self).wf(),
            old(self).next_seq < u64::MAX,
        ensures
            final(self).wf(),
            title_taken(old(self).posts@, body.title@) ==> (r matches Err(e) && e
                is MongoDuplicateError && final(self).posts@ == old(self).posts@
                && final(self).next_seq == old(self).next_seq),
            !title_taken(old(self).posts@, body.title@) ==> (r matches Ok(o) && o matches Some(
                e,
            ) && final(self).posts@.len() == old(self).posts@.len() + 1 && (forall|k: int|
                0 <= k < old(self).posts@.len() ==> final(self).posts@[k] == old(self).posts@[k])
                && created_post(
                final(self).posts@.last(),
                *body,
                PostId { hi: 0, lo: old(self).next_seq },
                now_ms,
            ) && is_single_post_envelope(e, final(self).posts@.last()) && final(self).next_seq
                == old(self).next_seq + 1),
    {
        if self.title_exists(&body.title) {
            return Err(
                Error::MongoDuplicateError(
                    String::from_str("E11000 duplicate key error collection"),
                ),
            );
        }
        let id = PostId { hi: 0, lo: self.next_seq };
        let published = match body.published {
            Some(b) => b,
            None => false,
        };
        let post = PostModel {
            id,
            title: body.title.clone(),
            content: body.content.clone(),
            published: Some(published),
            createdAt: now_ms,
            updatedAt: now_ms,
        };
        let rendered = match self.doc_to_post(&post) {
            Ok(p) => p,
            Err(e) => {
                proof {
                    assert(false);
                }
                return Err(e);
            },
        };
        self.posts.push(post);
        self.next_seq = self.next_seq + 1;
        proof {
            let posts = self.posts@;
            let n = posts.len() - 1;
            assert forall|i: int, j: int| 0 <= i < j < posts.len() implies (
            #[trigger] posts[i]).id != (#[trigger] posts[j]).id by {
                if j == n {
                    assert(posts[i].id.lo < old(self).next_seq);
                }
            }
            assert forall|i: int, j: int| 0 <= i < j < posts.len() implies (
            #[trigger] posts[i]).title@ != (#[trigger] posts[j]).title@ by {
                if j == n {
                    assert(!title_taken(old(self).posts@, body.title@));
                    assert(old(self).posts@[i].title@ != body.title@);
                }
            }
        }
        Ok(Some(single_post_envelope(rendered)))
    }

    /// Persist the post a create request asks for, timestamped with the
    /// current wall-clock time. The contract is that of `create_post_at`,
    /// with the one server-set creation time left unpinned: whatever the
    /// clock read, `createdAt` equals `updatedAt`.
    pub fn create_posts(&mut self, body: &CreatePostSchema) -> (r: Result<
        Option<SinglePostResponse>,
        Error,
    >)
        requires
            old(self).wf(),
            old(self).next_seq < u64::MAX,
        ensures
            final(self).wf(),
            title_taken(old(self).posts@, body.title@) ==> (r matches Err(e) && e
                is MongoDuplicateError && final(self).posts@ == old(self).posts@
                && final(self).next_seq == old(self).next_seq),
            !title_taken(old(self).posts@, body.title@) ==> (r matches Ok(o) && o matches Some(
                e,
            ) && final(self).posts@.len() == old(self).posts@.len() + 1 && (forall|k: int|
                0 <= k < old(self).posts@.len() ==> final(self).posts@[k] == old(self).posts@[k])
                && created_post(
                final(self).posts@.last(),
                *body,
                PostId { hi: 0, lo: old(self).next_seq },
                final(self).posts@.last().createdAt,
            ) && final(self).posts@.last().createdAt == final(self).posts@.last().updatedAt
                && is_single_post_envelope(e, final(self).posts@.last()) && final(self).next_seq
                == old(self).next_seq + 1),
    {
        let now = now_timestamp_millis();
        self.create_post_at(body, now)
    }

    /// Fetch one post by its external identifier string.
    ///
    /// A string that is not 24 hex digits is an invalid-identifier error
    /// carrying the string itself; a well-formed identifier that no stored
    /// post carries is an empty result, not an error; otherwise the one
    /// post with that identifier is returned in its success envelope.
    pub fn get_post(&self, id: &str) -> (r: Result<Option<SinglePostResponse>, Error>)
        requires
            self.wf(),
        ensures
            !valid_hex_id(id@) ==> (r matches Err(e) && e matches Error::InvalidIDError(s) && s@
                == id@),
            valid_hex_id(id@) && !contains_id(self.posts@, id_of_hex(id@)) ==> (r matches Ok(o)
                && o is None),
            valid_hex_id(id@) && contains_id(self.posts@, id_of_hex(id@)) ==> (r matches Ok(o)
                && o matches Some(e) && (forall|j: int|
                0 <= j < self.posts@.len() && (#[trigger] self.posts@[j]).id == id_of_hex(id@)
                    ==> is_single_post_envelope(e, self.posts@[j]))),
    {
        let oid = match parse_hex_id(id) {
            Some(p) => p,
            None => {
                return Err(Error::InvalidIDError(id.to_owned()));
            },
        };
        let mut i: usize = 0;
        while i < self.posts.len()
            invariant
                self.wf(),
                valid_hex_id(id@),
                oid == id_of_hex(id@),
                0 <= i <= self.posts@.len(),
                forall|k: int| 0 <= k < i ==> (#[trigger] self.posts@[k]).id != oid,
            decreases self.posts@.len() - i,
        {
            if self.posts[i].id == oid {
                let rendered = match self.doc_to_post(&self.posts[i]) {
                    Ok(p) => p,
                    Err(e) => {
                        proof {
                            assert(false);
                        }
                        return Err(e);
                    },
                };
                let envelope = single_post_envelope(rendered);
                proof {
                    assert forall|j: int|
                        0 <= j < self.posts@.len() && (#[trigger] self.posts@[j]).id == oid
                            implies j == i by {
                        if j < i {
                            assert(self.posts@[j].id != oid);
                        }
                    }
                }
                return Ok(Some(envelope));
            }
            i = i + 1;
        }
        Ok(None)
    }
}

/// Relies on chrono's `Utc::now`, read as milliseconds since the Unix
/// epoch. Nothing is assumed of the clock's value; `Utc::now` aborts only
/// when the system clock stands before the epoch.
#[verifier::external_body]
fn now_timestamp_millis() -> i64 {
    chrono::Utc::now().timestamp_millis()
}

/// What pagination selects: never more than `limit` posts, and the k-th
/// selected post is the one standing `(page-1)*limit + k` deep in storage
/// order — the first `(page-1)*limit` posts are skipped.
pub proof fn lemma_page_of_bounds(posts: Seq<PostModel>, limit: int, page: int)
    requires
        0 <= limit,
        1 <= page,
    ensures
        page_of(posts, limit, page).len() <= limit,
        forall|k: int|
            0 <= k < page_of(posts, limit, page).len() ==> #[trigger] page_of(posts, limit, page)[k]
                == posts[(page - 1) * limit + k],
{
}

/// In a well-formed store the identifier the next create will assign is
/// not yet carried by any stored post, so `law_create_then_get` applies to
/// every create that a well-formed store admits.
pub proof fn lemma_fresh_id_is_new(db: DB)
    requires
        db.wf(),
    ensures
        !contains_id(db.posts@, PostId { hi: 0, lo: db.next_seq }),
{
}

/// Round trip of create and fetch-by-id: a freshly created post, looked up
/// under the hex rendering of its new identifier in the store that the
/// create left behind, is found, and is exactly the created post — same
/// title, content and published flag as the request body, and equal
/// creation and update timestamps.
pub proof fn law_create_then_get(
    posts: Seq<PostModel>,
    p: PostModel,
    body: CreatePostSchema,
    id: PostId,
    now: i64,
)
    requires
        created_post(p, body, id, now),
        !contains_id(posts, id),
    ensures
        valid_hex_id(hex_str_of_id(id)),
        contains_id(posts.push(p), id_of_hex(hex_str_of_id(id))),
        forall|j: int|
            0 <= j < posts.push(p).len() && (#[trigger] posts.push(p)[j]).id == id_of_hex(
                hex_str_of_id(id),
            ) ==> posts.push(p)[j] == p && posts.push(p)[j].title@ == body.title@
                && posts.push(p)[j].content@ == body.content@ && posts.push(p)[j].published
                == Some(requested_published(body)) && posts.push(p)[j].createdAt
                == posts.push(p)[j].updatedAt,
{
    lemma_id_hex_round_trip(id);
    let s = posts.push(p);
    assert(s[posts.len() as int] == p);
    assert forall|j: int|
        0 <= j < s.len() && (#[trigger] s[j]).id == id_of_hex(hex_str_of_id(id)) implies s[j]
        == p by {
        if j < posts.len() {
            assert(posts[j] == s[j]);
            assert(!contains_id(posts, id));
        }
    }
}

} // verus!
