use mattermost_api::client::{AuthenticationData, Mattermost};
use mattermost_api::errors::ApiError;
use mattermost_api::socket::{
    handle_event, ChannelAction, ChannelInput, ChannelState, Frame, FrameOutcome,
    WebsocketEventType,
};

fn streaming_channel() -> mattermost_api::socket::EventChannel {
    let client = Mattermost::new("http://host", AuthenticationData::from_access_token("abc")).unwrap();
    let mut channel = client.connect_to_websocket().unwrap();
    channel.step(ChannelInput::Start);
    channel.step(ChannelInput::Upgraded);
    channel.step(ChannelInput::ChallengeSent);
    assert_eq!(channel.state(), ChannelState::Streaming);
    channel
}

#[test]
fn channel_connects_and_authenticates() {
    let client = Mattermost::new("http://host", AuthenticationData::from_access_token("abc")).unwrap();
    let mut channel = client.connect_to_websocket().unwrap();
    assert_eq!(channel.socket_url().as_string(), "ws://host/api/v4/websocket");
    assert_eq!(channel.state(), ChannelState::Disconnected);
    assert!(matches!(channel.step(ChannelInput::Start), ChannelAction::Connect));
    assert_eq!(channel.state(), ChannelState::Handshaking);
    match channel.step(ChannelInput::Upgraded) {
        ChannelAction::Send(text) => assert_eq!(
            text,
            "{\"action\":\"authentication_challenge\",\"data\":{\"token\":\"abc\"},\"seq\":1}"
        ),
        other => panic!("unexpected {other:?}"),
    }
    assert_eq!(channel.state(), ChannelState::Authenticating);
    assert!(matches!(channel.step(ChannelInput::ChallengeSent), ChannelAction::Wait));
    assert_eq!(channel.state(), ChannelState::Streaming);
}

#[test]
fn challenge_escapes_the_token() {
    let client = Mattermost::new("https://host", AuthenticationData::from_access_token("a\"b")).unwrap();
    let mut channel = client.connect_to_websocket().unwrap();
    assert_eq!(channel.socket_url().as_string(), "wss://host/api/v4/websocket");
    channel.step(ChannelInput::Start);
    match channel.step(ChannelInput::Upgraded) {
        ChannelAction::Send(text) => assert_eq!(
            text,
            "{\"action\":\"authentication_challenge\",\"data\":{\"token\":\"a\\\"b\"},\"seq\":1}"
        ),
        other => panic!("unexpected {other:?}"),
    }
}

#[test]
fn connecting_needs_a_token() {
    let client = Mattermost::new("http://host", AuthenticationData::from_password("me", "pw")).unwrap();
    assert!(matches!(client.connect_to_websocket(), Err(ApiError::MissingAuthToken)));
}

#[test]
fn reply_frames_are_not_delivered() {
    let mut channel = streaming_channel();
    let action = channel.step(ChannelInput::Received(Frame::Text(
        "{\"status\":\"OK\",\"seq_reply\":1}".to_string(),
    )));
    assert!(matches!(action, ChannelAction::Wait));
    assert_eq!(channel.state(), ChannelState::Streaming);
    assert!(matches!(handle_event(Frame::Text("seq_reply".to_string())), FrameOutcome::Ignore));
}

#[test]
fn event_frames_are_delivered_once_unchanged() {
    let mut channel = streaming_channel();
    let event = "{\"event\":\"posted\",\"data\":{},\"broadcast\":{\"channel_id\":\"c\",\"team_id\":\"t\"},\"seq\":3}";
    match channel.step(ChannelInput::Received(Frame::Text(event.to_string()))) {
        ChannelAction::Deliver(text) => assert_eq!(text, event),
        other => panic!("unexpected {other:?}"),
    }
    assert_eq!(channel.state(), ChannelState::Streaming);
    assert!(matches!(channel.step(ChannelInput::Received(Frame::Text("not json".to_string()))), ChannelAction::Deliver(_)));
    assert_eq!(channel.state(), ChannelState::Streaming);
}

#[test]
fn close_frame_ends_the_stream() {
    let mut channel = streaming_channel();
    assert!(matches!(handle_event(Frame::Close), FrameOutcome::Close));
    assert!(matches!(channel.step(ChannelInput::Received(Frame::Close)), ChannelAction::Finish));
    assert_eq!(channel.state(), ChannelState::Closed);
    assert!(matches!(channel.step(ChannelInput::Received(Frame::Text("x".to_string()))), ChannelAction::Finish));
    assert_eq!(channel.state(), ChannelState::Closed);
}

#[test]
fn other_frames_and_ping_failures_keep_streaming() {
    let mut channel = streaming_channel();
    for frame in [Frame::Binary(vec![1, 2]), Frame::Ping(vec![]), Frame::Pong(vec![9])] {
        assert!(matches!(channel.step(ChannelInput::Received(frame)), ChannelAction::Wait));
        assert_eq!(channel.state(), ChannelState::Streaming);
    }
    assert!(matches!(channel.step(ChannelInput::Tick), ChannelAction::SendPing));
    assert!(matches!(channel.step(ChannelInput::PingFailed), ChannelAction::Wait));
    assert_eq!(channel.state(), ChannelState::Streaming);
}

#[test]
fn transport_failure_is_fatal() {
    let mut channel = streaming_channel();
    assert!(matches!(channel.step(ChannelInput::TransportFailed), ChannelAction::Fail));
    assert_eq!(channel.state(), ChannelState::Failed);
    assert!(matches!(channel.step(ChannelInput::Tick), ChannelAction::Fail));

    let client = Mattermost::new("http://host", AuthenticationData::from_access_token("abc")).unwrap();
    let mut early = client.connect_to_websocket().unwrap();
    early.step(ChannelInput::Start);
    assert!(matches!(early.step(ChannelInput::TransportFailed), ChannelAction::Fail));
    assert_eq!(early.state(), ChannelState::Failed);
}

#[test]
fn inputs_out_of_order_are_ignored() {
    let client = Mattermost::new("http://host", AuthenticationData::from_access_token("abc")).unwrap();
    let mut channel = client.connect_to_websocket().unwrap();
    assert!(matches!(channel.step(ChannelInput::Received(Frame::Close)), ChannelAction::Wait));
    assert!(matches!(channel.step(ChannelInput::Upgraded), ChannelAction::Wait));
    assert_eq!(channel.state(), ChannelState::Disconnected);
}

#[test]
fn event_type_names_round_trip() {
    assert_eq!(WebsocketEventType::from_name("posted"), WebsocketEventType::Posted);
    assert_eq!(WebsocketEventType::from_name("memberrole_updated"), WebsocketEventType::MemberroleUpdated);
    assert_eq!(WebsocketEventType::from_name("thread_read_changed"), WebsocketEventType::ThreadReadChanged);
    assert_eq!(WebsocketEventType::Hello.name(), "hello");
    assert_eq!(WebsocketEventType::PluginStatusesChanged.name(), "plugin_statuses_changed");
    assert_eq!(
        WebsocketEventType::from_name("custom_event"),
        WebsocketEventType::Unrecognized("custom_event".to_string())
    );
    assert_eq!(WebsocketEventType::Unrecognized("x".to_string()).name(), "x");
    for t in [WebsocketEventType::AddedToTeam, WebsocketEventType::DialogOpened, WebsocketEventType::UserRoleUpdated] {
        assert_eq!(WebsocketEventType::from_name(&t.name()), t);
    }
}
