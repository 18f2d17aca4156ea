use onebot_forward::config::{EmailNoticeConfig, EmailTemplate, LogLevel, LoggerConfig, Policy, Server, WebSocketConfig};

fn server(host: &str, port: u16) -> Server {
    Server { host: host.to_string(), port, secret: None }
}

#[test]
fn client_url_format() {
    let ws = WebSocketConfig { server: server("0.0.0.0", 6700), client: server("127.0.0.1", 6701), heartbeat: 30 };
    assert_eq!(ws.client_url(), "ws://127.0.0.1:6701");
    let ws = WebSocketConfig { server: server("a", 1), client: server("example.org", 0), heartbeat: 5 };
    assert_eq!(ws.client_url(), "ws://example.org:0");
}

#[test]
fn defaults() {
    let t = EmailTemplate::default();
    assert_eq!(t.subject, "你的Bot掉线了");
    assert_eq!(t.body, "OneBot 掉线通知：\n\n({bot_id}) 掉线了，请及时处理。");
    assert_eq!(LogLevel::default(), LogLevel::Info);
    assert_eq!(Policy::default(), Policy::Allow);
}

#[test]
fn offline_mail_content() {
    let mut notice = EmailNoticeConfig {
        smtp: "smtp.example.com".to_string(),
        username: "user@example.com".to_string(),
        password: "SECRET-REDACTED".to_string(),
        receiver: "receiver@example.com".to_string(),
        mail: None,
    };
    let m = notice.offline_mail("42");
    assert_eq!(m.from, "Bot <user@example.com>");
    assert_eq!(m.to, "Master <receiver@example.com>");
    assert_eq!(m.subject, "你的Bot掉线了");
    assert_eq!(m.body, "OneBot 掉线通知：\n\n(42) 掉线了，请及时处理。");
    notice.mail = Some(EmailTemplate { subject: "down".to_string(), body: "bot {bot_id} {other}".to_string() });
    let m = notice.offline_mail("7");
    assert_eq!(m.subject, "down");
    assert_eq!(m.body, "bot 7 {other}");
}

#[test]
fn logger_exclusions() {
    let l = LoggerConfig {
        level: LogLevel::Info,
        exclude: vec!["tungstenite::handshake".to_string(), "sqlx::query".to_string()],
        file: None,
    };
    assert!(l.is_excluded("sqlx::query"));
    assert!(l.is_excluded("tungstenite::handshake::client"));
    assert!(!l.is_excluded("sqlx"));
    assert!(!l.is_excluded("onebot"));
}

#[test]
fn authorization_header() {
    let mut ws = WebSocketConfig { server: server("0.0.0.0", 1), client: server("h", 2), heartbeat: 30 };
    assert_eq!(ws.client_authorization(), None);
    ws.client.secret = Some("client-secret".to_string());
    assert_eq!(ws.client_authorization(), Some("Bearer client-secret".to_string()));
}

#[test]
fn compose_mail() {
    let n = EmailNoticeConfig {
        smtp: "s".to_string(),
        username: "bot@x".to_string(),
        password: "p".to_string(),
        receiver: "r@x".to_string(),
        mail: None,
    };
    let m = n.compose("other@x", "邮件发送测试".to_string(), "body".to_string());
    assert_eq!((m.from.as_str(), m.to.as_str(), m.subject.as_str(), m.body.as_str()), ("Bot <bot@x>", "Master <other@x>", "邮件发送测试", "body"));
}
