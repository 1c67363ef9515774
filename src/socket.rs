//! The WebSocket API: inbound events and the event channel's state machine.

use crate::client::{ws_view, Mattermost};
use crate::errors::ApiError;
use crate::json::{challenge, challenge_text};
use crate::text::{contains_seq, contains_text, same_text};
use crate::web_url::{joined_url, UrlView, WebUrl};
use std::collections::HashMap;
use vstd::prelude::*;

verus! {

/// `serde_json::Value`, the free-form data of an event.
#[verifier::external_type_specification]
#[verifier::external_body]
pub struct ExValue(serde_json::Value);

/// Broadcast information of an event.
#[derive(Debug)]
pub struct WebsocketEventBroadcast {
    /// Users who were omitted from receiving the event.
    pub omit_users: Option<HashMap<String, bool>>,
    /// Event recipient.
    pub user_id: Option<String>,
    pub channel_id: String,
    pub team_id: String,
}

/// An event from the WebSocket API.
#[derive(Debug)]
pub struct WebsocketEvent {
    /// Event type.
    pub event: WebsocketEventType,
    /// Event data.
    pub data: serde_json::Value,
    /// Event recipient information.
    pub broadcast: WebsocketEventBroadcast,
    /// Sequence number.
    pub seq: usize,
}

/// Names of WebSocket events: the known ones, and any other by its name.
#[derive(Debug, PartialEq, Eq)]
pub enum WebsocketEventType {
    AddedToTeam,
    AuthenticationChallenge,
    ChannelConverted,
    ChannelCreated,
    ChannelDeleted,
    ChannelMemberUpdated,
    ChannelUpdated,
    ChannelViewed,
    ConfigChanged,
    DeleteTeam,
    DirectAdded,
    EmojiAdded,
    EphemeralMessage,
    GroupAdded,
    Hello,
    LeaveTeam,
    LicenseChanged,
    MemberroleUpdated,
    NewUser,
    PluginDisabled,
    PluginEnabled,
    PluginStatusesChanged,
    PostDeleted,
    PostEdited,
    PostUnread,
    Posted,
    PreferenceChanged,
    PreferencesChanged,
    PreferencesDeleted,
    ReactionAdded,
    ReactionRemoved,
    Response,
    RoleUpdated,
    StatusChange,
    Typing,
    UpdateTeam,
    UserAdded,
    UserRemoved,
    UserRoleUpdated,
    UserUpdated,
    DialogOpened,
    ThreadUpdated,
    ThreadFollowChanged,
    ThreadReadChanged,
    /// An event name that is none of the above.
    Unrecognized(String),
}

/// The event type a known name stands for.
pub open spec fn known_event(name: Seq<char>) -> Option<WebsocketEventType> {
    if name == "added_to_team"@ {
        Some(WebsocketEventType::AddedToTeam)
    } else if name == "authentication_challenge"@ {
        Some(WebsocketEventType::AuthenticationChallenge)
    } else if name == "channel_converted"@ {
        Some(WebsocketEventType::ChannelConverted)
    } else if name == "channel_created"@ {
        Some(WebsocketEventType::ChannelCreated)
    } else if name == "channel_deleted"@ {
        Some(WebsocketEventType::ChannelDeleted)
    } else if name == "channel_member_updated"@ {
        Some(WebsocketEventType::ChannelMemberUpdated)
    } else if name == "channel_updated"@ {
        Some(WebsocketEventType::ChannelUpdated)
    } else if name == "channel_viewed"@ {
        Some(WebsocketEventType::ChannelViewed)
    } else if name == "config_changed"@ {
        Some(WebsocketEventType::ConfigChanged)
    } else if name == "delete_team"@ {
        Some(WebsocketEventType::DeleteTeam)
    } else if name == "direct_added"@ {
        Some(WebsocketEventType::DirectAdded)
    } else if name == "emoji_added"@ {
        Some(WebsocketEventType::EmojiAdded)
    } else if name == "ephemeral_message"@ {
        Some(WebsocketEventType::EphemeralMessage)
    } else if name == "group_added"@ {
        Some(WebsocketEventType::GroupAdded)
    } else if name == "hello"@ {
        Some(WebsocketEventType::Hello)
    } else if name == "leave_team"@ {
        Some(WebsocketEventType::LeaveTeam)
    } else if name == "license_changed"@ {
        Some(WebsocketEventType::LicenseChanged)
    } else if name == "memberrole_updated"@ {
        Some(WebsocketEventType::MemberroleUpdated)
    } else if name == "new_user"@ {
        Some(WebsocketEventType::NewUser)
    } else if name == "plugin_disabled"@ {
        Some(WebsocketEventType::PluginDisabled)
    } else if name == "plugin_enabled"@ {
        Some(WebsocketEventType::PluginEnabled)
    } else if name == "plugin_statuses_changed"@ {
        Some(WebsocketEventType::PluginStatusesChanged)
    } else if name == "post_deleted"@ {
        Some(WebsocketEventType::PostDeleted)
    } else if name == "post_edited"@ {
        Some(WebsocketEventType::PostEdited)
    } else if name == "post_unread"@ {
        Some(WebsocketEventType::PostUnread)
    } else if name == "posted"@ {
        Some(WebsocketEventType::Posted)
    } else if name == "preference_changed"@ {
        Some(WebsocketEventType::PreferenceChanged)
    } else if name == "preferences_changed"@ {
        Some(WebsocketEventType::PreferencesChanged)
    } else if name == "preferences_deleted"@ {
        Some(WebsocketEventType::PreferencesDeleted)
    } else if name == "reaction_added"@ {
        Some(WebsocketEventType::ReactionAdded)
    } else if name == "reaction_removed"@ {
        Some(WebsocketEventType::ReactionRemoved)
    } else if name == "response"@ {
        Some(WebsocketEventType::Response)
    } else if name == "role_updated"@ {
        Some(WebsocketEventType::RoleUpdated)
    } else if name == "status_change"@ {
        Some(WebsocketEventType::StatusChange)
    } else if name == "typing"@ {
        Some(WebsocketEventType::Typing)
    } else if name == "update_team"@ {
        Some(WebsocketEventType::UpdateTeam)
    } else if name == "user_added"@ {
        Some(WebsocketEventType::UserAdded)
    } else if name == "user_removed"@ {
        Some(WebsocketEventType::UserRemoved)
    } else if name == "user_role_updated"@ {
        Some(WebsocketEventType::UserRoleUpdated)
    } else if name == "user_updated"@ {
        Some(WebsocketEventType::UserUpdated)
    } else if name == "dialog_opened"@ {
        Some(WebsocketEventType::DialogOpened)
    } else if name == "thread_updated"@ {
        Some(WebsocketEventType::ThreadUpdated)
    } else if name == "thread_follow_changed"@ {
        Some(WebsocketEventType::ThreadFollowChanged)
    } else if name == "thread_read_changed"@ {
        Some(WebsocketEventType::ThreadReadChanged)
    } else {
        None
    }
}

/// The name of an event type.
pub open spec fn event_name(t: WebsocketEventType) -> Seq<char> {
    match t {
        WebsocketEventType::AddedToTeam => "added_to_team"@,
        WebsocketEventType::AuthenticationChallenge => "authentication_challenge"@,
        WebsocketEventType::ChannelConverted => "channel_converted"@,
        WebsocketEventType::ChannelCreated => "channel_created"@,
        WebsocketEventType::ChannelDeleted => "channel_deleted"@,
        WebsocketEventType::ChannelMemberUpdated => "channel_member_updated"@,
        WebsocketEventType::ChannelUpdated => "channel_updated"@,
        WebsocketEventType::ChannelViewed => "channel_viewed"@,
        WebsocketEventType::ConfigChanged => "config_changed"@,
        WebsocketEventType::DeleteTeam => "delete_team"@,
        WebsocketEventType::DirectAdded => "direct_added"@,
        WebsocketEventType::EmojiAdded => "emoji_added"@,
        WebsocketEventType::EphemeralMessage => "ephemeral_message"@,
        WebsocketEventType::GroupAdded => "group_added"@,
        WebsocketEventType::Hello => "hello"@,
        WebsocketEventType::LeaveTeam => "leave_team"@,
        WebsocketEventType::LicenseChanged => "license_changed"@,
        WebsocketEventType::MemberroleUpdated => "memberrole_updated"@,
        WebsocketEventType::NewUser => "new_user"@,
        WebsocketEventType::PluginDisabled => "plugin_disabled"@,
        WebsocketEventType::PluginEnabled => "plugin_enabled"@,
        WebsocketEventType::PluginStatusesChanged => "plugin_statuses_changed"@,
        WebsocketEventType::PostDeleted => "post_deleted"@,
        WebsocketEventType::PostEdited => "post_edited"@,
        WebsocketEventType::PostUnread => "post_unread"@,
        WebsocketEventType::Posted => "posted"@,
        WebsocketEventType::PreferenceChanged => "preference_changed"@,
        WebsocketEventType::PreferencesChanged => "preferences_changed"@,
        WebsocketEventType::PreferencesDeleted => "preferences_deleted"@,
        WebsocketEventType::ReactionAdded => "reaction_added"@,
        WebsocketEventType::ReactionRemoved => "reaction_removed"@,
        WebsocketEventType::Response => "response"@,
        WebsocketEventType::RoleUpdated => "role_updated"@,
        WebsocketEventType::StatusChange => "status_change"@,
        WebsocketEventType::Typing => "typing"@,
        WebsocketEventType::UpdateTeam => "update_team"@,
        WebsocketEventType::UserAdded => "user_added"@,
        WebsocketEventType::UserRemoved => "user_removed"@,
        WebsocketEventType::UserRoleUpdated => "user_role_updated"@,
        WebsocketEventType::UserUpdated => "user_updated"@,
        WebsocketEventType::DialogOpened => "dialog_opened"@,
        WebsocketEventType::ThreadUpdated => "thread_updated"@,
        WebsocketEventType::ThreadFollowChanged => "thread_follow_changed"@,
        WebsocketEventType::ThreadReadChanged => "thread_read_changed"@,
        WebsocketEventType::Unrecognized(s) => s@,
    }
}

/// A name read as an event type is that type's name: reading a name and
/// writing it back gives the name unchanged.
pub proof fn lemma_names_read_back(name: Seq<char>)
    ensures
        known_event(name) is Some ==> event_name(known_event(name)->Some_0) == name,
{
}

/// The name of a known event type reads back as that type.
pub proof fn lemma_event_names_round_trip(t: WebsocketEventType)
    requires
        !(t is Unrecognized),
    ensures
        known_event(event_name(t)) == Some(t),
{
    reveal_strlit("added_to_team");
    assert("added_to_team"@.len() == 13);
    reveal_strlit("authentication_challenge");
    assert("authentication_challenge"@.len() == 24);
    reveal_strlit("channel_converted");
    assert("channel_converted"@.len() == 17);
    reveal_strlit("channel_created");
    assert("channel_created"@.len() == 15);
    reveal_strlit("channel_deleted");
    assert("channel_deleted"@.len() == 15);
    reveal_strlit("channel_member_updated");
    assert("channel_member_updated"@.len() == 22);
    reveal_strlit("channel_updated");
    assert("channel_updated"@.len() == 15);
    reveal_strlit("channel_viewed");
    assert("channel_viewed"@.len() == 14);
    reveal_strlit("config_changed");
    assert("config_changed"@.len() == 14);
    reveal_strlit("delete_team");
    assert("delete_team"@.len() == 11);
    reveal_strlit("direct_added");
    assert("direct_added"@.len() == 12);
    reveal_strlit("emoji_added");
    assert("emoji_added"@.len() == 11);
    reveal_strlit("ephemeral_message");
    assert("ephemeral_message"@.len() == 17);
    reveal_strlit("group_added");
    assert("group_added"@.len() == 11);
    reveal_strlit("hello");
    assert("hello"@.len() == 5);
    reveal_strlit("leave_team");
    assert("leave_team"@.len() == 10);
    reveal_strlit("license_changed");
    assert("license_changed"@.len() == 15);
    reveal_strlit("memberrole_updated");
    assert("memberrole_updated"@.len() == 18);
    reveal_strlit("new_user");
    assert("new_user"@.len() == 8);
    reveal_strlit("plugin_disabled");
    assert("plugin_disabled"@.len() == 15);
    reveal_strlit("plugin_enabled");
    assert("plugin_enabled"@.len() == 14);
    reveal_strlit("plugin_statuses_changed");
    assert("plugin_statuses_changed"@.len() == 23);
    reveal_strlit("post_deleted");
    assert("post_deleted"@.len() == 12);
    reveal_strlit("post_edited");
    assert("post_edited"@.len() == 11);
    reveal_strlit("post_unread");
    assert("post_unread"@.len() == 11);
    reveal_strlit("posted");
    assert("posted"@.len() == 6);
    reveal_strlit("preference_changed");
    assert("preference_changed"@.len() == 18);
    reveal_strlit("preferences_changed");
    assert("preferences_changed"@.len() == 19);
    reveal_strlit("preferences_deleted");
    assert("preferences_deleted"@.len() == 19);
    reveal_strlit("reaction_added");
    assert("reaction_added"@.len() == 14);
    reveal_strlit("reaction_removed");
    assert("reaction_removed"@.len() == 16);
    reveal_strlit("response");
    assert("response"@.len() == 8);
    reveal_strlit("role_updated");
    assert("role_updated"@.len() == 12);
    reveal_strlit("status_change");
    assert("status_change"@.len() == 13);
    reveal_strlit("typing");
    assert("typing"@.len() == 6);
    reveal_strlit("update_team");
    assert("update_team"@.len() == 11);
    reveal_strlit("user_added");
    assert("user_added"@.len() == 10);
    reveal_strlit("user_removed");
    assert("user_removed"@.len() == 12);
    reveal_strlit("user_role_updated");
    assert("user_role_updated"@.len() == 17);
    reveal_strlit("user_updated");
    assert("user_updated"@.len() == 12);
    reveal_strlit("dialog_opened");
    assert("dialog_opened"@.len() == 13);
    reveal_strlit("thread_updated");
    assert("thread_updated"@.len() == 14);
    reveal_strlit("thread_follow_changed");
    assert("thread_follow_changed"@.len() == 21);
    reveal_strlit("thread_read_changed");
    assert("thread_read_changed"@.len() == 19);
    // Names of equal length differ at the position given.
    match t {
        WebsocketEventType::ChannelDeleted => {
            assert("channel_deleted"@[8] != "channel_created"@[8]);
        },
        WebsocketEventType::ChannelUpdated => {
            assert("channel_updated"@[8] != "channel_created"@[8]);
            assert("channel_updated"@[8] != "channel_deleted"@[8]);
        },
        WebsocketEventType::ConfigChanged => {
            assert("config_changed"@[1] != "channel_viewed"@[1]);
        },
        WebsocketEventType::EmojiAdded => {
            assert("emoji_added"@[0] != "delete_team"@[0]);
        },
        WebsocketEventType::EphemeralMessage => {
            assert("ephemeral_message"@[0] != "channel_converted"@[0]);
        },
        WebsocketEventType::GroupAdded => {
            assert("group_added"@[0] != "delete_team"@[0]);
            assert("group_added"@[0] != "emoji_added"@[0]);
        },
        WebsocketEventType::LicenseChanged => {
            assert("license_changed"@[0] != "channel_created"@[0]);
            assert("license_changed"@[0] != "channel_deleted"@[0]);
            assert("license_changed"@[0] != "channel_updated"@[0]);
        },
        WebsocketEventType::PluginDisabled => {
            assert("plugin_disabled"@[0] != "channel_created"@[0]);
            assert("plugin_disabled"@[0] != "channel_deleted"@[0]);
            assert("plugin_disabled"@[0] != "channel_updated"@[0]);
            assert("plugin_disabled"@[0] != "license_changed"@[0]);
        },
        WebsocketEventType::PluginEnabled => {
            assert("plugin_enabled"@[0] != "channel_viewed"@[0]);
            assert("plugin_enabled"@[0] != "config_changed"@[0]);
        },
        WebsocketEventType::PostDeleted => {
            assert("post_deleted"@[0] != "direct_added"@[0]);
        },
        WebsocketEventType::PostEdited => {
            assert("post_edited"@[0] != "delete_team"@[0]);
            assert("post_edited"@[0] != "emoji_added"@[0]);
            assert("post_edited"@[0] != "group_added"@[0]);
        },
        WebsocketEventType::PostUnread => {
            assert("post_unread"@[0] != "delete_team"@[0]);
            assert("post_unread"@[0] != "emoji_added"@[0]);
            assert("post_unread"@[0] != "group_added"@[0]);
            assert("post_unread"@[5] != "post_edited"@[5]);
        },
        WebsocketEventType::PreferenceChanged => {
            assert("preference_changed"@[0] != "memberrole_updated"@[0]);
        },
        WebsocketEventType::PreferencesDeleted => {
            assert("preferences_deleted"@[12] != "preferences_changed"@[12]);
        },
        WebsocketEventType::ReactionAdded => {
            assert("reaction_added"@[0] != "channel_viewed"@[0]);
            assert("reaction_added"@[0] != "config_changed"@[0]);
            assert("reaction_added"@[0] != "plugin_enabled"@[0]);
        },
        WebsocketEventType::Response => {
            assert("response"@[0] != "new_user"@[0]);
        },
        WebsocketEventType::RoleUpdated => {
            assert("role_updated"@[0] != "direct_added"@[0]);
            assert("role_updated"@[0] != "post_deleted"@[0]);
        },
        WebsocketEventType::StatusChange => {
            assert("status_change"@[0] != "added_to_team"@[0]);
        },
        WebsocketEventType::Typing => {
            assert("typing"@[0] != "posted"@[0]);
        },
        WebsocketEventType::UpdateTeam => {
            assert("update_team"@[0] != "delete_team"@[0]);
            assert("update_team"@[0] != "emoji_added"@[0]);
            assert("update_team"@[0] != "group_added"@[0]);
            assert("update_team"@[0] != "post_edited"@[0]);
            assert("update_team"@[0] != "post_unread"@[0]);
        },
        WebsocketEventType::UserAdded => {
            assert("user_added"@[0] != "leave_team"@[0]);
        },
        WebsocketEventType::UserRemoved => {
            assert("user_removed"@[0] != "direct_added"@[0]);
            assert("user_removed"@[0] != "post_deleted"@[0]);
            assert("user_removed"@[0] != "role_updated"@[0]);
        },
        WebsocketEventType::UserRoleUpdated => {
            assert("user_role_updated"@[0] != "channel_converted"@[0]);
            assert("user_role_updated"@[0] != "ephemeral_message"@[0]);
        },
        WebsocketEventType::UserUpdated => {
            assert("user_updated"@[0] != "direct_added"@[0]);
            assert("user_updated"@[0] != "post_deleted"@[0]);
            assert("user_updated"@[0] != "role_updated"@[0]);
            assert("user_updated"@[5] != "user_removed"@[5]);
        },
        WebsocketEventType::DialogOpened => {
            assert("dialog_opened"@[0] != "added_to_team"@[0]);
            assert("dialog_opened"@[0] != "status_change"@[0]);
        },
        WebsocketEventType::ThreadUpdated => {
            assert("thread_updated"@[0] != "channel_viewed"@[0]);
            assert("thread_updated"@[0] != "config_changed"@[0]);
            assert("thread_updated"@[0] != "plugin_enabled"@[0]);
            assert("thread_updated"@[0] != "reaction_added"@[0]);
        },
        WebsocketEventType::ThreadReadChanged => {
            assert("thread_read_changed"@[0] != "preferences_changed"@[0]);
            assert("thread_read_changed"@[0] != "preferences_deleted"@[0]);
        },
        _ => {},
    }
}

impl WebsocketEventType {
    /// The event type named `name`; a name that is not known is kept as
    /// `Unrecognized`.
    pub fn from_name(name: &str) -> (r: Self)
        ensures
            known_event(name@) is Some ==> r == known_event(name@)->Some_0,
            known_event(name@) is None ==> r is Unrecognized && event_name(r) == name@,
    {
        if same_text(name, "added_to_team") {
            WebsocketEventType::AddedToTeam
        } else if same_text(name, "authentication_challenge") {
            WebsocketEventType::AuthenticationChallenge
        } else if same_text(name, "channel_converted") {
            WebsocketEventType::ChannelConverted
        } else if same_text(name, "channel_created") {
            WebsocketEventType::ChannelCreated
        } else if same_text(name, "channel_deleted") {
            WebsocketEventType::ChannelDeleted
        } else if same_text(name, "channel_member_updated") {
            WebsocketEventType::ChannelMemberUpdated
        } else if same_text(name, "channel_updated") {
            WebsocketEventType::ChannelUpdated
        } else if same_text(name, "channel_viewed") {
            WebsocketEventType::ChannelViewed
        } else if same_text(name, "config_changed") {
            WebsocketEventType::ConfigChanged
        } else if same_text(name, "delete_team") {
            WebsocketEventType::DeleteTeam
        } else if same_text(name, "direct_added") {
            WebsocketEventType::DirectAdded
        } else if same_text(name, "emoji_added") {
            WebsocketEventType::EmojiAdded
        } else if same_text(name, "ephemeral_message") {
            WebsocketEventType::EphemeralMessage
        } else if same_text(name, "group_added") {
            WebsocketEventType::GroupAdded
        } else if same_text(name, "hello") {
            WebsocketEventType::Hello
        } else if same_text(name, "leave_team") {
            WebsocketEventType::LeaveTeam
        } else if same_text(name, "license_changed") {
            WebsocketEventType::LicenseChanged
        } else if same_text(name, "memberrole_updated") {
            WebsocketEventType::MemberroleUpdated
        } else if same_text(name, "new_user") {
            WebsocketEventType::NewUser
        } else if same_text(name, "plugin_disabled") {
            WebsocketEventType::PluginDisabled
        } else if same_text(name, "plugin_enabled") {
            WebsocketEventType::PluginEnabled
        } else if same_text(name, "plugin_statuses_changed") {
            WebsocketEventType::PluginStatusesChanged
        } else if same_text(name, "post_deleted") {
            WebsocketEventType::PostDeleted
        } else if same_text(name, "post_edited") {
            WebsocketEventType::PostEdited
        } else if same_text(name, "post_unread") {
            WebsocketEventType::PostUnread
        } else if same_text(name, "posted") {
            WebsocketEventType::Posted
        } else if same_text(name, "preference_changed") {
            WebsocketEventType::PreferenceChanged
        } else if same_text(name, "preferences_changed") {
            WebsocketEventType::PreferencesChanged
        } else if same_text(name, "preferences_deleted") {
            WebsocketEventType::PreferencesDeleted
        } else if same_text(name, "reaction_added") {
            WebsocketEventType::ReactionAdded
        } else if same_text(name, "reaction_removed") {
            WebsocketEventType::ReactionRemoved
        } else if same_text(name, "response") {
            WebsocketEventType::Response
        } else if same_text(name, "role_updated") {
            WebsocketEventType::RoleUpdated
        } else if same_text(name, "status_change") {
            WebsocketEventType::StatusChange
        } else if same_text(name, "typing") {
            WebsocketEventType::Typing
        } else if same_text(name, "update_team") {
            WebsocketEventType::UpdateTeam
        } else if same_text(name, "user_added") {
            WebsocketEventType::UserAdded
        } else if same_text(name, "user_removed") {
            WebsocketEventType::UserRemoved
        } else if same_text(name, "user_role_updated") {
            WebsocketEventType::UserRoleUpdated
        } else if same_text(name, "user_updated") {
            WebsocketEventType::UserUpdated
        } else if same_text(name, "dialog_opened") {
            WebsocketEventType::DialogOpened
        } else if same_text(name, "thread_updated") {
            WebsocketEventType::ThreadUpdated
        } else if same_text(name, "thread_follow_changed") {
            WebsocketEventType::ThreadFollowChanged
        } else if same_text(name, "thread_read_changed") {
            WebsocketEventType::ThreadReadChanged
        } else {
            WebsocketEventType::Unrecognized(String::from_str(name))
        }
    }

    /// The name of the event type, as the API writes it.
    pub fn name(&self) -> (r: String)
        ensures
            r@ == event_name(*self),
    {
        match self {
            WebsocketEventType::AddedToTeam => String::from_str("added_to_team"),
            WebsocketEventType::AuthenticationChallenge => String::from_str("authentication_challenge"),
            WebsocketEventType::ChannelConverted => String::from_str("channel_converted"),
            WebsocketEventType::ChannelCreated => String::from_str("channel_created"),
            WebsocketEventType::ChannelDeleted => String::from_str("channel_deleted"),
            WebsocketEventType::ChannelMemberUpdated => String::from_str("channel_member_updated"),
            WebsocketEventType::ChannelUpdated => String::from_str("channel_updated"),
            WebsocketEventType::ChannelViewed => String::from_str("channel_viewed"),
            WebsocketEventType::ConfigChanged => String::from_str("config_changed"),
            WebsocketEventType::DeleteTeam => String::from_str("delete_team"),
            WebsocketEventType::DirectAdded => String::from_str("direct_added"),
            WebsocketEventType::EmojiAdded => String::from_str("emoji_added"),
            WebsocketEventType::EphemeralMessage => String::from_str("ephemeral_message"),
            WebsocketEventType::GroupAdded => String::from_str("group_added"),
            WebsocketEventType::Hello => String::from_str("hello"),
            WebsocketEventType::LeaveTeam => String::from_str("leave_team"),
            WebsocketEventType::LicenseChanged => String::from_str("license_changed"),
            WebsocketEventType::MemberroleUpdated => String::from_str("memberrole_updated"),
            WebsocketEventType::NewUser => String::from_str("new_user"),
            WebsocketEventType::PluginDisabled => String::from_str("plugin_disabled"),
            WebsocketEventType::PluginEnabled => String::from_str("plugin_enabled"),
            WebsocketEventType::PluginStatusesChanged => String::from_str("plugin_statuses_changed"),
            WebsocketEventType::PostDeleted => String::from_str("post_deleted"),
            WebsocketEventType::PostEdited => String::from_str("post_edited"),
            WebsocketEventType::PostUnread => String::from_str("post_unread"),
            WebsocketEventType::Posted => String::from_str("posted"),
            WebsocketEventType::PreferenceChanged => String::from_str("preference_changed"),
            WebsocketEventType::PreferencesChanged => String::from_str("preferences_changed"),
            WebsocketEventType::PreferencesDeleted => String::from_str("preferences_deleted"),
            WebsocketEventType::ReactionAdded => String::from_str("reaction_added"),
            WebsocketEventType::ReactionRemoved => String::from_str("reaction_removed"),
            WebsocketEventType::Response => String::from_str("response"),
            WebsocketEventType::RoleUpdated => String::from_str("role_updated"),
            WebsocketEventType::StatusChange => String::from_str("status_change"),
            WebsocketEventType::Typing => String::from_str("typing"),
            WebsocketEventType::UpdateTeam => String::from_str("update_team"),
            WebsocketEventType::UserAdded => String::from_str("user_added"),
            WebsocketEventType::UserRemoved => String::from_str("user_removed"),
            WebsocketEventType::UserRoleUpdated => String::from_str("user_role_updated"),
            WebsocketEventType::UserUpdated => String::from_str("user_updated"),
            WebsocketEventType::DialogOpened => String::from_str("dialog_opened"),
            WebsocketEventType::ThreadUpdated => String::from_str("thread_updated"),
            WebsocketEventType::ThreadFollowChanged => String::from_str("thread_follow_changed"),
            WebsocketEventType::ThreadReadChanged => String::from_str("thread_read_changed"),
            WebsocketEventType::Unrecognized(s) => s.clone(),
        }
    }
}

/// The text that marks a frame as the reply to a frame the client sent.
pub const REPLY_MARKER: &'static str = "seq_reply";

/// The path of the WebSocket endpoint, below the API path.
pub const WEBSOCKET_ENDPOINT: &'static str = "websocket";

/// A frame received on the WebSocket connection.
#[derive(Debug)]
pub enum Frame {
    Text(String),
    Binary(Vec<u8>),
    Ping(Vec<u8>),
    Pong(Vec<u8>),
    Close,
}

/// What a received frame asks of the event loop.
#[derive(Debug)]
pub enum FrameOutcome {
    /// Nothing: a reply, or a frame that carries no event.
    Ignore,
    /// Decode the text as an event and hand it to the handler.
    Deliver(String),
    /// The connection is closing.
    Close,
}

/// What a received frame asks of the event loop: a text frame is delivered
/// unless it is a reply; a close frame ends the loop; any other frame is
/// ignored.
pub open spec fn frame_outcome(frame: Frame) -> FrameOutcome {
    match frame {
        Frame::Text(t) => if contains_seq(t@, REPLY_MARKER@) {
            FrameOutcome::Ignore
        } else {
            FrameOutcome::Deliver(t)
        },
        Frame::Close => FrameOutcome::Close,
        _ => FrameOutcome::Ignore,
    }
}

/// Sorts a received frame.
pub fn handle_event(frame: Frame) -> (r: FrameOutcome)
    ensures
        r == frame_outcome(frame),
{
    match frame {
        Frame::Text(text) => {
            if contains_text(text.as_str(), REPLY_MARKER) {
                FrameOutcome::Ignore
            } else {
                FrameOutcome::Deliver(text)
            }
        },
        Frame::Close => FrameOutcome::Close,
        _ => FrameOutcome::Ignore,
    }
}

/// The states of an event channel.
#[derive(Debug, Clone, Copy, PartialEq, Eq, Structural)]
pub enum ChannelState {
    /// Not connected yet.
    Disconnected,
    /// The transport is performing the protocol upgrade.
    Handshaking,
    /// The authentication challenge is being sent.
    Authenticating,
    /// Events are being received.
    Streaming,
    /// The server closed the connection; the channel ended successfully.
    Closed,
    /// The transport failed; the channel ended with that error.
    Failed,
}

/// What happened, as the code that drives the channel reports it.
#[derive(Debug)]
pub enum ChannelInput {
    /// The caller asks for the connection.
    Start,
    /// The transport completed the protocol upgrade.
    Upgraded,
    /// The authentication challenge was sent.
    ChallengeSent,
    /// A frame arrived.
    Received(Frame),
    /// The keep-alive interval elapsed.
    Tick,
    /// Sending a keep-alive ping failed.
    PingFailed,
    /// The transport failed: connecting, sending or receiving.
    TransportFailed,
}

/// What the code that drives the channel is to do next.
#[derive(Debug)]
pub enum ChannelAction {
    /// Open the connection to the channel's URL.
    Connect,
    /// Send this text frame.
    Send(String),
    /// Wait for the next frame or keep-alive tick.
    Wait,
    /// Decode this text as an event, hand it to the handler (or report a
    /// text that does not decode), then wait.
    Deliver(String),
    /// Send a ping, then wait.
    SendPing,
    /// Stop: the channel ended successfully.
    Finish,
    /// Stop: the channel ended with the transport's error.
    Fail,
}

/// The channel's next state and action, from its state, the input, and the
/// authentication challenge it sends.
pub open spec fn transition(state: ChannelState, input: ChannelInput, challenge: String) -> (
    ChannelState,
    ChannelAction,
) {
    match state {
        ChannelState::Closed => (ChannelState::Closed, ChannelAction::Finish),
        ChannelState::Failed => (ChannelState::Failed, ChannelAction::Fail),
        _ => match input {
            ChannelInput::TransportFailed => (ChannelState::Failed, ChannelAction::Fail),
            ChannelInput::Start => if state == ChannelState::Disconnected {
                (ChannelState::Handshaking, ChannelAction::Connect)
            } else {
                (state, ChannelAction::Wait)
            },
            ChannelInput::Upgraded => if state == ChannelState::Handshaking {
                (ChannelState::Authenticating, ChannelAction::Send(challenge))
            } else {
                (state, ChannelAction::Wait)
            },
            ChannelInput::ChallengeSent => if state == ChannelState::Authenticating {
                (ChannelState::Streaming, ChannelAction::Wait)
            } else {
                (state, ChannelAction::Wait)
            },
            ChannelInput::Received(frame) => if state == ChannelState::Streaming {
                match frame_outcome(frame) {
                    FrameOutcome::Ignore => (ChannelState::Streaming, ChannelAction::Wait),
                    FrameOutcome::Deliver(t) => (ChannelState::Streaming, ChannelAction::Deliver(t)),
                    FrameOutcome::Close => (ChannelState::Closed, ChannelAction::Finish),
                }
            } else {
                (state, ChannelAction::Wait)
            },
            ChannelInput::Tick => if state == ChannelState::Streaming {
                (ChannelState::Streaming, ChannelAction::SendPing)
            } else {
                (state, ChannelAction::Wait)
            },
            ChannelInput::PingFailed => (state, ChannelAction::Wait),
        },
    }
}

/// While streaming, a text frame that holds the reply marker reaches no
/// handler; any other text frame is delivered, once and unchanged.
pub proof fn lemma_replies_are_not_delivered(text: String, challenge: String)
    ensures
        contains_seq(text@, REPLY_MARKER@) ==> transition(
            ChannelState::Streaming,
            ChannelInput::Received(Frame::Text(text)),
            challenge,
        ) == (ChannelState::Streaming, ChannelAction::Wait),
        !contains_seq(text@, REPLY_MARKER@) ==> transition(
            ChannelState::Streaming,
            ChannelInput::Received(Frame::Text(text)),
            challenge,
        ) == (ChannelState::Streaming, ChannelAction::Deliver(text)),
{
}

/// While streaming, a close frame ends the channel successfully and reaches
/// no handler; from then on the channel stays closed.
pub proof fn lemma_close_ends_stream(input: ChannelInput, challenge: String)
    ensures
        transition(ChannelState::Streaming, ChannelInput::Received(Frame::Close), challenge) == (
            ChannelState::Closed,
            ChannelAction::Finish,
        ),
        transition(ChannelState::Closed, input, challenge) == (
            ChannelState::Closed,
            ChannelAction::Finish,
        ),
{
}

/// A transport failure ends a channel that has not ended yet, with an error.
pub proof fn lemma_transport_failure_is_fatal(state: ChannelState, challenge: String)
    requires
        state != ChannelState::Closed,
    ensures
        transition(state, ChannelInput::TransportFailed, challenge) == (
            ChannelState::Failed,
            ChannelAction::Fail,
        ),
{
}

/// A failed ping leaves a streaming channel streaming.
pub proof fn lemma_ping_failure_is_not_fatal(challenge: String)
    ensures
        transition(ChannelState::Streaming, ChannelInput::PingFailed, challenge) == (
            ChannelState::Streaming,
            ChannelAction::Wait,
        ),
{
}

/// One WebSocket connection's event channel: its URL, the authentication
/// challenge it sends, and where it stands.
#[derive(Debug)]
pub struct EventChannel {
    state: ChannelState,
    url: WebUrl,
    challenge: String,
}

impl EventChannel {
    /// Where the channel stands.
    pub closed spec fn spec_state(&self) -> ChannelState {
        self.state
    }

    /// The authentication challenge the channel sends.
    pub closed spec fn spec_challenge(&self) -> String {
        self.challenge
    }

    /// The URL the channel connects to.
    pub closed spec fn spec_url(&self) -> UrlView {
        self.url@
    }

    /// Where the channel stands.
    pub fn state(&self) -> (r: ChannelState)
        ensures
            r == self.spec_state(),
    {
        self.state
    }

    /// The URL to connect to.
    pub fn socket_url(&self) -> (r: &WebUrl)
        ensures
            r@ == self.spec_url(),
    {
        &self.url
    }

    /// Moves the channel on by one input, and says what to do next.
    pub fn step(&mut self, input: ChannelInput) -> (r: ChannelAction)
        ensures
            (final(self).spec_state(), r) == transition(
                old(self).spec_state(),
                input,
                old(self).spec_challenge(),
            ),
            final(self).spec_challenge() == old(self).spec_challenge(),
            final(self).spec_url() == old(self).spec_url(),
    {
        let (next, action) = match self.state {
            ChannelState::Closed => (ChannelState::Closed, ChannelAction::Finish),
            ChannelState::Failed => (ChannelState::Failed, ChannelAction::Fail),
            state => match input {
                ChannelInput::TransportFailed => (ChannelState::Failed, ChannelAction::Fail),
                ChannelInput::Start => if state == ChannelState::Disconnected {
                    (ChannelState::Handshaking, ChannelAction::Connect)
                } else {
                    (state, ChannelAction::Wait)
                },
                ChannelInput::Upgraded => if state == ChannelState::Handshaking {
                    (ChannelState::Authenticating, ChannelAction::Send(self.challenge.clone()))
                } else {
                    (state, ChannelAction::Wait)
                },
                ChannelInput::ChallengeSent => if state == ChannelState::Authenticating {
                    (ChannelState::Streaming, ChannelAction::Wait)
                } else {
                    (state, ChannelAction::Wait)
                },
                ChannelInput::Received(frame) => if state == ChannelState::Streaming {
                    match handle_event(frame) {
                        FrameOutcome::Ignore => (ChannelState::Streaming, ChannelAction::Wait),
                        FrameOutcome::Deliver(t) => (
                            ChannelState::Streaming,
                            ChannelAction::Deliver(t),
                        ),
                        FrameOutcome::Close => (ChannelState::Closed, ChannelAction::Finish),
                    }
                } else {
                    (state, ChannelAction::Wait)
                },
                ChannelInput::Tick => if state == ChannelState::Streaming {
                    (ChannelState::Streaming, ChannelAction::SendPing)
                } else {
                    (state, ChannelAction::Wait)
                },
                ChannelInput::PingFailed => (state, ChannelAction::Wait),
            },
        };
        self.state = next;
        action
    }
}

impl Mattermost {
    /// The event channel of a WebSocket connection to the instance: its URL is
    /// the `websocket` endpoint below the WebSocket form of the instance URL,
    /// and it authenticates with the session's token.
    pub fn connect_to_websocket(&self) -> (r: Result<EventChannel, ApiError>)
        ensures
            ({
                let url = joined_url(ws_view(self.spec_instance_url()), WEBSOCKET_ENDPOINT@);
                &&& url is None ==> r is Err && r->Err_0 is UrlError
                &&& url is Some && self.spec_auth_token() is None ==> r is Err && r->Err_0
                    is MissingAuthToken
                &&& url is Some && self.spec_auth_token() is Some ==> r is Ok && {
                    let c = r->Ok_0;
                    &&& c.spec_state() == ChannelState::Disconnected
                    &&& c.spec_url() == url->Some_0
                    &&& c.spec_challenge()@ == challenge_text(self.spec_auth_token()->Some_0)
                }
            }),
    {
        let base = self.ws_instance_url()?;
        let url = match base.join(WEBSOCKET_ENDPOINT) {
            Ok(u) => u,
            Err(e) => {
                return Err(ApiError::UrlError(e));
            },
        };
        let token = match self.auth_token() {
            Some(t) => t,
            None => {
                return Err(ApiError::MissingAuthToken);
            },
        };
        let challenge = challenge(token)?;
        Ok(EventChannel { state: ChannelState::Disconnected, url, challenge })
    }
}

} // verus!
