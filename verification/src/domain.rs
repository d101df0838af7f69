//! The records that the use cases read and return. Ids are the 128-bit values
//! of UUIDs; instants are nanoseconds since the Unix epoch (UTC).
use vstd::prelude::*;

verus! {

/// A user row as read for a login.
#[derive(Debug, Clone, PartialEq, Eq)]
pub struct UserRecord {
    pub id: u128,
    pub username: String,
    pub email: Option<String>,
    pub password_hash: String,
}

/// The public profile of a user.
#[derive(Debug, Clone, PartialEq, Eq)]
pub struct UserProfile {
    pub id: u128,
    pub username: String,
    pub email: Option<String>,
}

/// An access token and the refresh token that renews it.
#[derive(Debug, Clone, PartialEq, Eq)]
pub struct TokenPair {
    pub access_token: String,
    pub refresh_token: String,
}

/// Where a session was opened from.
#[derive(Debug, Clone, PartialEq, Eq)]
pub struct SessionContext {
    pub user_agent: Option<String>,
    pub ip: Option<String>,
}

/// A refresh session to persist.
#[derive(Debug, Clone, PartialEq, Eq)]
pub struct SessionCreate {
    pub user_id: u128,
    pub refresh_token_hash: String,
    pub expires_at: i128,
    pub context: SessionContext,
}

/// The replacement of a refresh session by a new one.
#[derive(Debug, Clone, PartialEq, Eq)]
pub struct SessionRotate {
    pub old_refresh_token_hash: String,
    pub new_refresh_token_hash: String,
    pub expires_at: i128,
    pub context: SessionContext,
}

/// A guild channel as seen by a member.
#[derive(Debug, Clone, PartialEq, Eq)]
pub struct ChannelRecord {
    pub id: u128,
    pub guild_id: u128,
    pub name: String,
    pub channel_type: String,
    pub position: i32,
    pub created_at: i128,
    pub has_unread: bool,
}

/// A direct thread as seen by one of its two participants.
#[derive(Debug, Clone, PartialEq, Eq)]
pub struct DirectThreadSummary {
    pub id: u128,
    pub peer_user_id: u128,
    pub peer_username: String,
    pub status: String,
    pub requested_by: Option<u128>,
    pub accepted_at: Option<i128>,
    pub created_at: i128,
    pub has_unread: bool,
}

/// A direct thread and whether the request created it.
#[derive(Debug, Clone, PartialEq, Eq)]
pub struct DirectThreadUpsertResult {
    pub thread: DirectThreadSummary,
    pub created: bool,
}

/// The outcome of accepting or rejecting a direct thread request.
#[derive(Debug, Clone, PartialEq, Eq)]
pub struct DirectThreadTransition {
    pub thread_id: u128,
    pub requester_user_id: u128,
    pub receiver_user_id: u128,
    pub accepted_at: Option<i128>,
}

/// A group thread as seen by a member.
#[derive(Debug, Clone, PartialEq, Eq)]
pub struct GroupThreadSummary {
    pub id: u128,
    pub name: String,
    pub owner_id: u128,
    pub created_at: i128,
    pub has_unread: bool,
}

/// An invite token to a group thread.
#[derive(Debug, Clone, PartialEq, Eq)]
pub struct GroupInviteRecord {
    pub token: String,
    pub thread_id: u128,
    pub created_by: u128,
    pub expires_at: i128,
    pub max_uses: Option<i32>,
    pub used_count: i32,
    pub created_at: i128,
}

/// What decides whether a thread member may write in the thread.
#[derive(Debug, Clone, PartialEq, Eq)]
pub struct ThreadAccessRecord {
    pub thread_id: u128,
    pub kind: String,
    pub direct_status: String,
    pub requested_by: Option<u128>,
}

/// A friend request.
#[derive(Debug, Clone, PartialEq, Eq)]
pub struct FriendRequestRecord {
    pub from_user_id: u128,
    pub to_user_id: u128,
    pub status: String,
    pub created_at: i128,
    pub responded_at: Option<i128>,
}

/// A friend request with the names of both users.
#[derive(Debug, Clone, PartialEq, Eq)]
pub struct FriendRequestSummary {
    pub from_user_id: u128,
    pub to_user_id: u128,
    pub from_username: String,
    pub to_username: String,
    pub status: String,
    pub created_at: i128,
    pub responded_at: Option<i128>,
}

/// A friend of a user.
#[derive(Debug, Clone, PartialEq, Eq)]
pub struct FriendSummary {
    pub user_id: u128,
    pub username: String,
    pub created_at: i128,
}

/// A guild.
#[derive(Debug, Clone, PartialEq, Eq)]
pub struct GuildSummary {
    pub id: u128,
    pub name: String,
    pub owner_id: u128,
    pub created_at: i128,
}

/// An invite token to a guild.
#[derive(Debug, Clone, PartialEq, Eq)]
pub struct GuildInviteRecord {
    pub token: String,
    pub guild_id: u128,
    pub created_by: u128,
    pub expires_at: i128,
    pub max_uses: Option<i32>,
    pub uses_count: i32,
    pub created_at: i128,
}

/// A guild and whether joining through an invite added the user to it.
#[derive(Debug, Clone, PartialEq, Eq)]
pub struct GuildInviteJoinResult {
    pub guild: GuildSummary,
    pub joined: bool,
}

/// A channel message; `deleted_at` marks a soft deleted one.
#[derive(Debug, Clone, PartialEq, Eq)]
pub struct MessageRecord {
    pub id: u128,
    pub channel_id: u128,
    pub author_id: u128,
    pub content: String,
    pub created_at: i128,
    pub edited_at: Option<i128>,
    pub deleted_at: Option<i128>,
}

/// The outcome of deleting a channel message.
#[derive(Debug, Clone, PartialEq, Eq)]
pub struct MessageDeleted {
    pub channel_id: u128,
    pub message_id: u128,
    pub deleted_at: i128,
}

/// A thread message; `deleted_at` marks a soft deleted one.
#[derive(Debug, Clone, PartialEq, Eq)]
pub struct ThreadMessageRecord {
    pub id: u128,
    pub thread_id: u128,
    pub author_id: u128,
    pub content: String,
    pub created_at: i128,
    pub edited_at: Option<i128>,
    pub deleted_at: Option<i128>,
}

/// The outcome of deleting a thread message.
#[derive(Debug, Clone, PartialEq, Eq)]
pub struct ThreadMessageDeleted {
    pub thread_id: u128,
    pub message_id: u128,
    pub deleted_at: i128,
}

/// A channel read marker of a user.
#[derive(Debug, Clone, PartialEq, Eq)]
pub struct ChannelReadState {
    pub user_id: u128,
    pub channel_id: u128,
    pub last_read_message_id: Option<u128>,
    pub updated_at: i128,
}

/// A thread read marker of a user.
#[derive(Debug, Clone, PartialEq, Eq)]
pub struct ThreadReadState {
    pub user_id: u128,
    pub thread_id: u128,
    pub last_read_message_id: Option<u128>,
    pub updated_at: i128,
}

} // verus!
