//! The application's configuration, as read from `app.yml`/`app.yaml`/`app.json`/`app.toml`.

use vstd::prelude::*;
use crate::text::{int_decimal, push_i64};

verus! {

broadcast use vstd::string::group_string_axioms;

/// The whole configuration.
#[derive(Debug, Clone)]
pub struct AppConfig {
    pub websocket: Option<WebSocketConfig>,
    pub logger: Option<LoggerConfig>,
    pub default_policy: Option<Policy>,
    pub notice: Option<EmailNoticeConfig>,
    pub super_users: Vec<i64>,
    pub config_db_url: Option<String>,
    pub convert_self: Option<bool>,
    pub online_notice: Option<i64>,
}

/// The two websocket ends: the server that SDK clients connect to, and the
/// OneBot implementation that this program connects to as a client.
#[derive(Debug, Clone)]
pub struct WebSocketConfig {
    pub server: Server,
    pub client: Server,
    /// Heartbeat interval of the implementation, in seconds.
    pub heartbeat: i64,
}

/// A websocket endpoint.
#[derive(Debug, Clone)]
pub struct Server {
    pub host: String,
    pub port: u16,
    pub secret: Option<String>,
}

/// Logging settings.
#[derive(Debug, Clone)]
pub struct LoggerConfig {
    pub level: LogLevel,
    pub exclude: Vec<String>,
    pub file: Option<LogFileConfig>,
}

/// A log level.
#[derive(Debug, Clone, Copy, PartialEq, Eq, Structural)]
pub enum LogLevel {
    Trace,
    Debug,
    Info,
    Warn,
    Error,
    Off,
}

/// Logging to files.
#[derive(Debug, Clone)]
pub struct LogFileConfig {
    pub dir: String,
    pub level: LogLevel,
}

/// Mail notice sent when the bot goes offline.
#[derive(Debug, Clone)]
pub struct EmailNoticeConfig {
    pub smtp: String,
    pub username: String,
    pub password: String,
    pub receiver: String,
    pub mail: Option<EmailTemplate>,
}

/// Subject and body of the notice mail; `{bot_id}` in the body stands for the bot's account.
#[derive(Debug, Clone)]
pub struct EmailTemplate {
    pub subject: String,
    pub body: String,
}

/// What happens to a message that no list rule decides.
#[derive(Debug, Clone, Copy, PartialEq, Eq, Structural)]
pub enum Policy {
    Allow,
    Deny,
}

impl Default for LogLevel {
    fn default() -> (r: LogLevel)
        ensures
            r == LogLevel::Info,
    {
        LogLevel::Info
    }
}

impl Default for Policy {
    fn default() -> (r: Policy)
        ensures
            r == Policy::Allow,
    {
        Policy::Allow
    }
}

/// The subject of the notice mail when none is configured.
pub open spec fn default_subject() -> Seq<char> {
    "你的Bot掉线了"@
}

/// The body of the notice mail when none is configured.
pub open spec fn default_body() -> Seq<char> {
    "OneBot 掉线通知：\n\n({bot_id}) 掉线了，请及时处理。"@
}

impl Default for EmailTemplate {
    fn default() -> (r: EmailTemplate)
        ensures
            r.subject@ == default_subject(),
            r.body@ == default_body(),
    {
        EmailTemplate {
            subject: "你的Bot掉线了".to_string(),
            body: "OneBot 掉线通知：\n\n({bot_id}) 掉线了，请及时处理。".to_string(),
        }
    }
}

/// The url `ws://<host>:<port>` of an endpoint.
pub open spec fn spec_ws_url(host: Seq<char>, port: u16) -> Seq<char> {
    "ws://"@ + host + ":"@ + int_decimal(port as int)
}

impl WebSocketConfig {
    /// The url of the OneBot implementation: `ws://<host>:<port>`.
    pub fn client_url(&self) -> (r: String)
        ensures
            r@ == spec_ws_url(self.client.host@, self.client.port),
    {
        let mut s = String::new();
        s.append("ws://");
        s.append(self.client.host.as_str());
        s.append(":");
        push_i64(&mut s, self.client.port as i64);
        s
    }
}

} // verus!

verus! {

impl WebSocketConfig {
    /// The `Authorization` header value for the implementation, `Bearer <secret>`,
    /// when a secret is configured.
    pub fn client_authorization(&self) -> (r: Option<String>)
        ensures
            match self.client.secret {
                Some(s) => r matches Some(t) && t@ == "Bearer "@ + s@,
                None => r is None,
            },
    {
        match &self.client.secret {
            Some(secret) => {
                let mut s = String::new();
                s.append("Bearer ");
                s.append(secret.as_str());
                Some(s)
            },
            None => None,
        }
    }
}

} // verus!

verus! {

impl LoggerConfig {
    /// Whether log records of `target` are left out: some excluded target is a
    /// prefix of it.
    pub fn is_excluded(&self, target: &str) -> (r: bool)
        ensures
            r == exists|i: int| 0 <= i < self.exclude@.len() && (#[trigger] self.exclude@[i])@.is_prefix_of(target@),
    {
        let t = crate::text::str_chars(target);
        let mut i: usize = 0;
        while i < self.exclude.len()
            invariant
                t@ == target@,
                0 <= i <= self.exclude@.len(),
                forall|j: int| 0 <= j < i ==> !(#[trigger] self.exclude@[j])@.is_prefix_of(target@),
            decreases self.exclude@.len() - i,
        {
            let p = crate::text::str_chars(self.exclude[i].as_str());
            if p.len() <= t.len() && crate::text::range_eq_str(&t, 0, p.len(), self.exclude[i].as_str()) {
                assert(self.exclude@[i as int]@.is_prefix_of(target@)) by {
                    assert(target@.subrange(0, p@.len() as int) == self.exclude@[i as int]@);
                    assert forall|k: int| 0 <= k < p@.len() implies self.exclude@[i as int]@[k] == target@[k] by {
                        assert(target@.subrange(0, p@.len() as int)[k] == target@[k]);
                    }
                }
                return true;
            }
            proof {
                if self.exclude@[i as int]@.is_prefix_of(target@) {
                    assert(target@.subrange(0, p@.len() as int) =~= self.exclude@[i as int]@);
                }
            }
            i = i + 1;
        }
        false
    }
}

} // verus!
