//! Module for easy imports.

pub use crate::client::{AuthenticationData, Mattermost};
pub use crate::errors::ApiError;
pub use crate::models::MattermostError;
pub use crate::request::ApiRequest;
pub use crate::socket::{
    ChannelAction, ChannelInput, ChannelState, EventChannel, Frame, WebsocketEvent,
    WebsocketEventType,
};
pub use crate::web_url::WebUrl;
