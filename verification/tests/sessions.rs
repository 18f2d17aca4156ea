use onebot_forward::command::{Action, Cli, Commands};
use onebot_forward::config::{AppConfig, EmailNoticeConfig, Policy};
use onebot_forward::database_cache::DatabaseCache;
use onebot_forward::impl_side::{frame_step, FrameKind, FrameStep, HeartbeatStatus, ImplSide, ReplyTarget, ResponseRoute};
use onebot_forward::onebot::{ConnectMessage, Event, OutgoingMessage};
use onebot_forward::rule::{ChatType, ItemType, Model};
use onebot_forward::sdk_side::SdkSide;

fn config() -> AppConfig {
    AppConfig {
        websocket: None,
        logger: None,
        default_policy: Some(Policy::Allow),
        notice: None,
        super_users: vec![1000],
        config_db_url: None,
        convert_self: Some(true),
        online_notice: Some(555),
    }
}

fn event(post_type: &str) -> Event {
    Event {
        time: 1_700_000_000,
        self_id: 42,
        post_type: post_type.to_string(),
        meta_event_type: None,
        sub_type: None,
        user_id: None,
        group_id: None,
        raw_message: None,
    }
}

#[test]
fn connect_event_records_account() {
    let mut side = ImplSide::new(Some(true), 30);
    let cache = DatabaseCache::new();
    let mut e = event("meta_event");
    e.meta_event_type = Some("lifecycle".to_string());
    e.sub_type = Some("connect".to_string());
    let a = side.on_event(&e, &config(), &cache);
    assert_eq!(side.alive(), Some(42));
    assert_eq!(side.last_heartbeat, 1_700_000_000);
    assert!(a.start_monitors);
    assert!(a.forward);
    match a.online_notice {
        Some(OutgoingMessage::Private { user_id, text }) => {
            assert_eq!(user_id, 555);
            assert_eq!(text, "协议端已连接");
        }
        other => panic!("unexpected {:?}", other),
    }
}

#[test]
fn heartbeat_event_not_forwarded() {
    let mut side = ImplSide::new(None, 30);
    let cache = DatabaseCache::new();
    let mut e = event("meta_event");
    e.meta_event_type = Some("heartbeat".to_string());
    e.time = 123;
    let a = side.on_event(&e, &config(), &cache);
    assert_eq!(side.last_heartbeat, 123);
    assert!(!a.forward);
    assert!(a.command.is_none());
    assert_eq!(side.alive(), None);
}

#[test]
fn super_user_command_and_conversion() {
    let mut side = ImplSide::new(Some(true), 30);
    let cache = DatabaseCache::new();
    let mut e = event("message");
    e.user_id = Some(1000);
    e.group_id = Some(77);
    e.raw_message = Some("白名单 添加群 77".to_string());
    let a = side.on_event(&e, &config(), &cache);
    assert_eq!(
        a.command,
        Some((Cli { command: Commands::Whitelist { action: Action::CreateGroup { id: 77 } } }, ReplyTarget::Group(77)))
    );
    assert!(a.forward && !a.rename_to_message);
    e.user_id = Some(1);
    assert!(side.on_event(&e, &config(), &cache).command.is_none());
    let mut own = event("message_sent");
    own.user_id = Some(42);
    let a = side.on_event(&own, &config(), &cache);
    assert!(a.forward && a.rename_to_message);
    let mut plain = ImplSide::new(None, 30);
    assert!(!plain.on_event(&own, &config(), &cache).rename_to_message);
}

#[test]
fn black_listed_event_dropped() {
    let mut side = ImplSide::new(None, 30);
    let mut cache = DatabaseCache::new();
    cache.load(&vec![Model { id: 1, chat_id: 9, chat_type: ChatType::Private, item_type: ItemType::BlackList, group_chat_id: Some(3) }]);
    let mut e = event("message");
    e.user_id = Some(9);
    e.group_id = Some(4);
    assert!(side.on_event(&e, &config(), &cache).forward);
    cache.black_users = vec![9];
    assert!(!side.on_event(&e, &config(), &cache).forward);
}

#[test]
fn heartbeat_watch() {
    let mut side = ImplSide::new(None, 30);
    side.last_heartbeat = 100;
    assert_eq!(side.check_heartbeat(Some((130, 0))), HeartbeatStatus::Alive);
    assert_eq!(side.check_heartbeat(Some((130, 1))), HeartbeatStatus::TimedOut);
    assert_eq!(side.check_heartbeat(Some((99, 999_999_999))), HeartbeatStatus::ClockBehind);
    assert_eq!(side.check_heartbeat(None), HeartbeatStatus::ClockBehind);
    side.last_heartbeat = 0;
    assert_eq!(side.heartbeat_now(), HeartbeatStatus::TimedOut);
}

#[test]
fn status_and_offline_mail() {
    let mut side = ImplSide::new(None, 30);
    let notice = Some(EmailNoticeConfig {
        smtp: "s".to_string(),
        username: "u@x".to_string(),
        password: "p".to_string(),
        receiver: "r@x".to_string(),
        mail: None,
    });
    side.user_id = Some(31);
    assert!(side.on_connection_closed(&notice).is_none());
    assert!(!side.on_status(Some(true), None));
    assert!(!side.disconnect);
    side.user_id = Some(31);
    assert!(side.on_status(Some(true), Some(true)));
    let mail = side.on_connection_closed(&notice).unwrap();
    assert_eq!(mail.body, "OneBot 掉线通知：\n\n(31) 掉线了，请及时处理。");
    assert_eq!(side.alive(), None);
    side.on_connected();
    assert!(!side.disconnect);
    assert!(side.on_connection_closed(&None).is_none());
}

#[test]
fn response_routing() {
    let mut side = ImplSide::new(None, 30);
    side.register_internal_echo("abcd".to_string());
    assert_eq!(side.route_response(&Some("abcd".to_string())), ResponseRoute::Internal);
    assert_eq!(side.route_response(&Some("zz".to_string())), ResponseRoute::Sdk);
    assert_eq!(side.route_response(&None), ResponseRoute::Ignore);
    side.forget_internal_echo("abcd");
    assert_eq!(side.route_response(&Some("abcd".to_string())), ResponseRoute::Sdk);
}

#[test]
fn sdk_echo_routing() {
    let mut sdk = SdkSide::new();
    let mut cache = DatabaseCache::new();
    let policy = Some(Policy::Deny);
    assert!(sdk.on_client_call("c1".to_string(), &Some("e1".to_string()), None, &cache, policy));
    assert!(!sdk.on_client_call("c2".to_string(), &Some("e2".to_string()), Some(5), &cache, policy));
    cache.load(&vec![Model { id: 1, chat_id: 5, chat_type: ChatType::Group, item_type: ItemType::WhiteList, group_chat_id: None }]);
    assert!(sdk.on_client_call("c2".to_string(), &None, Some(5), &cache, policy));
    assert_eq!(sdk.on_response("e1"), Some("c1".to_string()));
    assert_eq!(sdk.on_response("e1"), None);
    assert_eq!(sdk.on_response("e2"), None);
    assert_eq!(sdk.on_response(""), Some("c2".to_string()));
}

#[test]
fn connect_message() {
    let m = ConnectMessage::at(9, 1234);
    assert_eq!((m.time, m.self_id), (1234, 9));
    assert_eq!(m.post_type, "meta_event");
    assert_eq!(m.meta_event_type, "lifecycle");
    assert_eq!(m.sub_type, "connect");
    let now = ConnectMessage::new(9).unwrap();
    assert_eq!(now.self_id, 9);
    assert!(now.time > 1_600_000_000_000);
}

#[test]
fn reply_message() {
    match ReplyTarget::Private(3).message("hi".to_string()) {
        OutgoingMessage::Private { user_id, text } => assert_eq!((user_id, text.as_str()), (3, "hi")),
        other => panic!("unexpected {:?}", other),
    }
    let g = ReplyTarget::Group(4).message("x".to_string());
    assert_eq!(g.action(), "send_group_msg");
    assert_eq!(OutgoingMessage::Private { user_id: 1, text: String::new() }.action(), "send_private_msg");
}

#[test]
fn connect_message_from_clock() {
    let m = ConnectMessage::from_clock(5, Some((2, 5_000_000))).unwrap();
    assert_eq!((m.time, m.self_id), (2005, 5));
    assert_eq!(m.sub_type, "connect");
    assert!(ConnectMessage::from_clock(5, None).is_none());
    let m = ConnectMessage::from_clock(1, Some((1_700_000_000, 999_999_999))).unwrap();
    assert_eq!(m.time, 1_700_000_000_999);
}

#[test]
fn frame_decisions() {
    assert_eq!(frame_step(FrameKind::Text), FrameStep::Handle);
    assert_eq!(frame_step(FrameKind::Ping), FrameStep::Ignore);
    assert_eq!(frame_step(FrameKind::Pong), FrameStep::Ignore);
    assert_eq!(frame_step(FrameKind::Close), FrameStep::Stop);
    assert_eq!(frame_step(FrameKind::Other), FrameStep::Stop);
    assert_eq!(frame_step(FrameKind::Error), FrameStep::Stop);
}
