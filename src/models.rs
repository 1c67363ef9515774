//! Shapes of the data that the API sends and receives.

use vstd::prelude::*;

verus! {

/// The error the instance returns with a non-2xx status:
/// `{id, message, request_id, status_code, is_oauth}`.
#[derive(Debug, PartialEq, Eq)]
pub struct MattermostError {
    pub id: String,
    pub message: String,
    pub request_id: String,
    pub status_code: i16,
    pub is_oauth: Option<bool>,
}

/// A team, as `teams/{id}` and `teams/name/{name}` return it.
#[derive(Debug, PartialEq, Eq)]
pub struct TeamInformation {
    pub id: String,
    pub create_at: i64,
    pub update_at: i64,
    pub delete_at: i64,
    pub display_name: String,
    pub name: String,
    pub description: String,
    pub email: String,
    pub type_: String,
    pub allowed_domains: String,
    pub invite_id: String,
    pub allow_open_invite: bool,
    pub policy_id: Option<String>,
}

/// Unread counts of a team, as `users/{user_id}/teams/unread` returns them.
#[derive(Debug, PartialEq, Eq)]
pub struct TeamsUnreadInformation {
    pub teams_id: String,
    pub msg_count: u64,
    pub mention_count: u64,
}

/// Information about a single channel on the instance.
#[derive(Debug, PartialEq, Eq)]
pub struct ChannelInformation {}

/// A post, as `posts` returns it once created.
#[derive(Debug, PartialEq, Eq)]
pub struct Post {
    pub id: String,
    pub message: String,
    pub create_at: i64,
    pub update_at: i64,
    pub delete_at: i64,
    pub edit_at: i64,
    pub user_id: String,
    pub channel_id: String,
    pub root_id: String,
    pub original_id: String,
    pub type_: String,
    pub hashtags: String,
    pub pending_post_id: String,
}

/// The body of a new post.
#[derive(Debug, PartialEq, Eq)]
pub struct PostBody {
    pub channel_id: String,
    pub message: String,
    pub root_id: Option<String>,
}

} // verus!
