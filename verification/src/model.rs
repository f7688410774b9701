//! The stored shape of a post, as the data-access layer holds it.

use vstd::prelude::*;
use crate::oid::PostId;

verus! {

/// One post document as stored: identifier, title, content, the optional
/// published flag, and creation/update times in milliseconds since the
/// epoch.
#[allow(non_snake_case)]
pub struct PostModel {
    pub id: PostId,
    pub title: String,
    pub content: String,
    pub published: Option<bool>,
    pub createdAt: i64,
    pub updatedAt: i64,
}

} // verus!
