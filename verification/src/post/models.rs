//! Blog posts.
use vstd::prelude::*;

verus! {

/// Where a post is in its life.
pub enum PostStatus {
    Draft,
    Published,
    Archived,
}

/// A blog post. Instants are microseconds since the Unix epoch.
pub struct Post {
    pub id: i32,
    pub title: String,
    pub content: String,
    pub author_id: i32,
    pub created_at: i64,
    pub published_at: Option<i64>,
    pub edited_at: Option<i64>,
    pub status: PostStatus,
}

} // verus!
