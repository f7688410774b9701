//! Validated request shapes: pagination query parameters, a path
//! parameter, and the body of a create request.

use vstd::prelude::*;

verus! {

/// Pagination query parameters of a list request; either may be absent.
pub struct FilterOptions {
    pub page: Option<usize>,
    pub limit: Option<usize>,
}

/// The identifier path parameter of a fetch-by-id request.
pub struct ParamOptions {
    pub id: String,
}

/// Body of a create request: a title, free content, and an optional
/// published flag that defaults to false.
pub struct CreatePostSchema {
    pub title: String,
    pub content: String,
    pub published: Option<bool>,
}

/// The published flag a create request asks for: the given value, or
/// false when the field was omitted.
pub open spec fn requested_published(body: CreatePostSchema) -> bool {
    match body.published {
        Some(p) => p,
        None => false,
    }
}

} // verus!
