//! The connection to the OneBot implementation: what to do with each event,
//! API response and heartbeat, and when to send the offline notice.

use vstd::prelude::*;
use vstd::hash_map::StringHashMap;
use crate::command::{spec_parse_command, Cli};
use crate::config::{AppConfig, EmailNoticeConfig};
use crate::database_cache::DatabaseCache;
use crate::mail::MailContent;
use crate::onebot::{system_time_since_epoch, Event, OutgoingMessage};
use crate::text::{i64_to_string, int_decimal, opt_str_eq, str_eq};

verus! {

broadcast use vstd::string::group_string_axioms;

/// Where the answer to a command goes: the group it came from, else the user.
#[derive(Debug, Clone, Copy, PartialEq, Eq, Structural)]
pub enum ReplyTarget {
    Group(i64),
    Private(i64),
}

impl ReplyTarget {
    /// The chat message carrying `text` to this target.
    pub fn message(self, text: String) -> (r: OutgoingMessage)
        ensures
            r == (match self {
                ReplyTarget::Group(g) => OutgoingMessage::Group { group_id: g, text },
                ReplyTarget::Private(u) => OutgoingMessage::Private { user_id: u, text },
            }),
    {
        match self {
            ReplyTarget::Group(g) => OutgoingMessage::Group { group_id: g, text },
            ReplyTarget::Private(u) => OutgoingMessage::Private { user_id: u, text },
        }
    }
}

/// What to do about one event from the implementation, in this order.
#[derive(Debug, Clone)]
pub struct EventActions {
    /// Tell this user that the implementation is connected.
    pub online_notice: Option<OutgoingMessage>,
    /// Start watching the heartbeat and the account's status.
    pub start_monitors: bool,
    /// Run this command from a super user and send the answer to the target.
    pub command: Option<(Cli, ReplyTarget)>,
    /// Pass the event on to the SDK clients.
    pub forward: bool,
    /// When passing it on, rewrite its `post_type` from `message_sent` to `message`.
    pub rename_to_message: bool,
}

/// Where an API response from the implementation goes.
#[derive(Debug, Clone, Copy, PartialEq, Eq, Structural)]
pub enum ResponseRoute {
    /// To the status check that this service sent itself.
    Internal,
    /// To the SDK client that made the call.
    Sdk,
    /// Nowhere: it carries no echo.
    Ignore,
}

/// The heartbeat watch's verdict.
#[derive(Debug, Clone, Copy, PartialEq, Eq, Structural)]
pub enum HeartbeatStatus {
    /// The last heartbeat is recent enough.
    Alive,
    /// More than the heartbeat interval has passed: reconnect.
    TimedOut,
    /// The clock reads earlier than the last heartbeat.
    ClockBehind,
}

/// The state of the connection to the implementation.
pub struct ImplSide {
    /// The logged-in account, while the implementation is connected.
    pub user_id: Option<i64>,
    /// Time of the last heartbeat (or connect event), in seconds.
    pub last_heartbeat: i64,
    /// Whether the account's own messages are passed on as ordinary messages.
    pub convert_self: bool,
    /// Heartbeat interval, in seconds.
    pub heartbeat_interval: i64,
    /// Whether the account was seen online since the connection opened, so that
    /// losing the connection deserves a notice mail.
    pub disconnect: bool,
    /// Echo marks of the status checks this service sent itself.
    pub internal_echoes: StringHashMap<()>,
}

/// Whether an event is the implementation's connect lifecycle event.
pub open spec fn is_connect_event(e: Event) -> bool {
    &&& e.post_type@ == "meta_event"@
    &&& e.meta_event_type matches Some(m) && m@ == "lifecycle"@
    &&& e.sub_type matches Some(s) && s@ == "connect"@
}

/// Whether an event is a heartbeat.
pub open spec fn is_heartbeat_event(e: Event) -> bool {
    &&& e.post_type@ == "meta_event"@
    &&& e.meta_event_type matches Some(m) && m@ == "heartbeat"@
}

/// The text of a chat message event (empty when it has none).
pub open spec fn raw_text(e: Event) -> Seq<char> {
    match e.raw_message {
        Some(s) => s@,
        None => Seq::empty(),
    }
}

/// The command that a chat message event carries: only a super user's messages count.
pub open spec fn spec_event_command(e: Event, super_users: Seq<i64>) -> Option<(Cli, ReplyTarget)> {
    if e.post_type@ == "message"@ && e.user_id is Some && super_users.contains(e.user_id->0)
        && spec_parse_command(raw_text(e)) is Some {
        let target = match e.group_id {
            Some(g) => ReplyTarget::Group(g),
            None => ReplyTarget::Private(e.user_id->0),
        };
        Some((spec_parse_command(raw_text(e))->0, target))
    } else {
        None
    }
}

impl ImplSide {
    /// A fresh, disconnected state.
    pub fn new(convert_self: Option<bool>, heartbeat_interval: i64) -> (r: Self)
        ensures
            r.user_id is None,
            r.last_heartbeat == 0,
            r.convert_self == (convert_self == Some(true)),
            r.heartbeat_interval == heartbeat_interval,
            !r.disconnect,
            r.internal_echoes@ == Map::<Seq<char>, ()>::empty(),
    {
        let convert = match convert_self {
            Some(b) => b,
            None => false,
        };
        ImplSide {
            user_id: None,
            last_heartbeat: 0,
            convert_self: convert,
            heartbeat_interval,
            disconnect: false,
            internal_echoes: StringHashMap::new(),
        }
    }

    /// The account of the connected implementation, if any.
    pub fn alive(&self) -> (r: Option<i64>)
        ensures
            r == self.user_id,
    {
        self.user_id
    }

    /// A new connection to the implementation is open.
    pub fn on_connected(&mut self)
        ensures
            !final(self).disconnect,
            final(self).user_id == old(self).user_id,
            final(self).last_heartbeat == old(self).last_heartbeat,
            final(self).convert_self == old(self).convert_self,
            final(self).heartbeat_interval == old(self).heartbeat_interval,
            final(self).internal_echoes@ == old(self).internal_echoes@,
    {
        self.disconnect = false;
    }

    /// The connection to the implementation ended. When a notice is configured
    /// and the account had been seen online, gives the offline mail naming the
    /// account (0 when unknown); the account is forgotten.
    pub fn on_connection_closed(&mut self, notice: &Option<EmailNoticeConfig>) -> (r: Option<MailContent>)
        ensures
            final(self).user_id is None,
            r is Some <==> (notice is Some && old(self).disconnect),
            r matches Some(m) ==> {
                let n = notice->0;
                &&& m.from@ == "Bot <"@ + n.username@ + ">"@
                &&& m.to@ == "Master <"@ + n.receiver@ + ">"@
                &&& m.subject@ == n.spec_subject()
                &&& m.body@ == crate::template::expand_placeholders(
                    n.spec_body(),
                    seq![("bot_id"@, int_decimal(old(self).user_id.unwrap_or(0) as int))],
                )
            },
            final(self).disconnect == old(self).disconnect,
            final(self).last_heartbeat == old(self).last_heartbeat,
            final(self).convert_self == old(self).convert_self,
            final(self).heartbeat_interval == old(self).heartbeat_interval,
            final(self).internal_echoes@ == old(self).internal_echoes@,
    {
        let mail = match notice {
            Some(n) => if self.disconnect {
                let id = match self.user_id {
                    Some(u) => u,
                    None => 0,
                };
                let bot_id = i64_to_string(id);
                Some(n.offline_mail(bot_id.as_str()))
            } else {
                None
            },
            None => None,
        };
        self.user_id = None;
        mail
    }
}

} // verus!

verus! {

/// The heartbeat verdict at `now` (seconds and nanoseconds since 1970, `None`
/// before 1970) for a last heartbeat at `last` seconds and an interval of
/// `interval` seconds (read as `u64`, as a cast does).
pub open spec fn spec_heartbeat_status(now: Option<(u64, u32)>, last: i64, interval: i64) -> HeartbeatStatus {
    let last_ns = (last as int) * 1_000_000_000;
    match now {
        None => HeartbeatStatus::ClockBehind,
        Some((secs, nanos)) => {
            let now_ns = (secs as int) * 1_000_000_000 + nanos as int;
            if now_ns < last_ns {
                HeartbeatStatus::ClockBehind
            } else if now_ns - last_ns > (interval as u64 as int) * 1_000_000_000 {
                HeartbeatStatus::TimedOut
            } else {
                HeartbeatStatus::Alive
            }
        },
    }
}

impl ImplSide {
    /// Decides what to do about an event from the implementation and records
    /// what it says of the connection.
    ///
    /// A connect event records the account and its time, asks for the online
    /// notice (when configured) and starts the monitors; a heartbeat records
    /// its time and goes no further. A super user's chat message that is a
    /// command is run. The event is passed on when the lists let it pass, its
    /// `message_sent` type rewritten to `message` when the account's own
    /// messages are converted.
    pub fn on_event(&mut self, event: &Event, config: &AppConfig, cache: &DatabaseCache) -> (r: EventActions)
        ensures
            final(self).user_id == (if is_connect_event(*event) { Some(event.self_id) } else { old(self).user_id }),
            final(self).last_heartbeat == (if is_connect_event(*event) || is_heartbeat_event(*event) {
                event.time
            } else {
                old(self).last_heartbeat
            }),
            final(self).convert_self == old(self).convert_self,
            final(self).heartbeat_interval == old(self).heartbeat_interval,
            final(self).disconnect == old(self).disconnect,
            final(self).internal_echoes@ == old(self).internal_echoes@,
            r.start_monitors == is_connect_event(*event),
            r.online_notice is Some <==> (is_connect_event(*event) && config.online_notice is Some),
            r.online_notice matches Some(m) ==> m matches OutgoingMessage::Private { user_id, text }
                && user_id == config.online_notice->0 && text@ == "协议端已连接"@,
            r.command == (if is_heartbeat_event(*event) { None } else { spec_event_command(*event, config.super_users@) }),
            (event.post_type@ == "message"@ && event.user_id is Some && config.super_users@.contains(event.user_id->0)
                && spec_parse_command(raw_text(*event)) is Some) ==> r.command == Some(
                (spec_parse_command(raw_text(*event))->0, match event.group_id {
                    Some(g) => ReplyTarget::Group(g),
                    None => ReplyTarget::Private(event.user_id->0),
                }),
            ),
            r.forward == (!is_heartbeat_event(*event) && cache.allows(config.default_policy, event.group_id, event.user_id)),
            r.rename_to_message == (r.forward && old(self).convert_self && event.post_type@ == "message_sent"@),
    {
        proof {
            if event.post_type@ == "message"@ && event.user_id is Some && config.super_users@.contains(event.user_id->0)
                && spec_parse_command(raw_text(*event)) is Some {
                law_super_user_command_runs(*event, config.super_users@, spec_parse_command(raw_text(*event))->0);
            }
        }
        let mut actions = EventActions {
            online_notice: None,
            start_monitors: false,
            command: None,
            forward: false,
            rename_to_message: false,
        };
        let is_meta = str_eq(event.post_type.as_str(), "meta_event");
        if is_meta && opt_str_eq(&event.meta_event_type, "lifecycle") && opt_str_eq(&event.sub_type, "connect") {
            if let Some(target) = config.online_notice {
                actions.online_notice = Some(OutgoingMessage::Private { user_id: target, text: "协议端已连接".to_string() });
            }
            self.user_id = Some(event.self_id);
            self.last_heartbeat = event.time;
            actions.start_monitors = true;
        }
        if is_meta && opt_str_eq(&event.meta_event_type, "heartbeat") {
            self.last_heartbeat = event.time;
            return actions;
        }
        if str_eq(event.post_type.as_str(), "message") {
            if let Some(user_id) = event.user_id {
                if crate::database_cache::contains_id(&config.super_users, user_id) {
                    let parsed = match &event.raw_message {
                        Some(s) => Cli::parse_command(s.as_str()),
                        None => Cli::parse_command(""),
                    };
                    proof {
                        if event.raw_message is None {
                            assert(""@ =~= Seq::<char>::empty()) by {
                                reveal_strlit("");
                            }
                        }
                    }
                    if let Ok(command) = parsed {
                        let target = match event.group_id {
                            Some(g) => ReplyTarget::Group(g),
                            None => ReplyTarget::Private(user_id),
                        };
                        actions.command = Some((command, target));
                    }
                }
            }
        }
        if !cache.send_by_auth(config.default_policy, event.group_id, event.user_id) {
            return actions;
        }
        actions.forward = true;
        if self.convert_self && str_eq(event.post_type.as_str(), "message_sent") {
            actions.rename_to_message = true;
        }
        actions
    }

    /// The heartbeat verdict at the clock reading `now` (see `spec_heartbeat_status`).
    pub fn check_heartbeat(&self, now: Option<(u64, u32)>) -> (r: HeartbeatStatus)
        requires
            self.last_heartbeat >= 0,
            now matches Some((_, nanos)) ==> nanos < 1_000_000_000,
        ensures
            r == spec_heartbeat_status(now, self.last_heartbeat, self.heartbeat_interval),
    {
        match now {
            None => HeartbeatStatus::ClockBehind,
            Some((secs, nanos)) => {
                let now_ns: u128 = (secs as u128) * 1_000_000_000 + (nanos as u128);
                let last_ns: u128 = (self.last_heartbeat as u128) * 1_000_000_000;
                if now_ns < last_ns {
                    HeartbeatStatus::ClockBehind
                } else {
                    let interval_ns: u128 = (self.heartbeat_interval as u64 as u128) * 1_000_000_000;
                    if now_ns - last_ns > interval_ns {
                        HeartbeatStatus::TimedOut
                    } else {
                        HeartbeatStatus::Alive
                    }
                }
            },
        }
    }

    /// The heartbeat verdict now, by the system clock.
    pub fn heartbeat_now(&self) -> (r: HeartbeatStatus)
        requires
            self.last_heartbeat >= 0,
        ensures
            exists|now: Option<(u64, u32)>| r == spec_heartbeat_status(now, self.last_heartbeat, self.heartbeat_interval),
    {
        let now = system_time_since_epoch();
        self.check_heartbeat(now)
    }

    /// The account status answer: unless it reports the account both `online`
    /// and `good` (a missing or non-boolean field counting as `false`), the
    /// connection is to be dropped (`false`); otherwise losing the connection
    /// from now on deserves a notice (`true`).
    pub fn on_status(&mut self, online: Option<bool>, good: Option<bool>) -> (r: bool)
        ensures
            r == (online == Some(true) && good == Some(true)),
            final(self).disconnect == (r || old(self).disconnect),
            final(self).user_id == old(self).user_id,
            final(self).last_heartbeat == old(self).last_heartbeat,
            final(self).convert_self == old(self).convert_self,
            final(self).heartbeat_interval == old(self).heartbeat_interval,
            final(self).internal_echoes@ == old(self).internal_echoes@,
    {
        let online = match online {
            Some(b) => b,
            None => false,
        };
        let good = match good {
            Some(b) => b,
            None => false,
        };
        if !online || !good {
            false
        } else {
            if !self.disconnect {
                self.disconnect = true;
            }
            true
        }
    }

    /// Remembers the echo mark of a status check this service sends.
    pub fn register_internal_echo(&mut self, echo: String)
        ensures
            final(self).internal_echoes@ == old(self).internal_echoes@.insert(echo@, ()),
            final(self).user_id == old(self).user_id,
            final(self).last_heartbeat == old(self).last_heartbeat,
            final(self).convert_self == old(self).convert_self,
            final(self).heartbeat_interval == old(self).heartbeat_interval,
            final(self).disconnect == old(self).disconnect,
    {
        self.internal_echoes.insert(echo, ());
    }

    /// Forgets the echo mark of a status check that could not be sent.
    pub fn forget_internal_echo(&mut self, echo: &str)
        ensures
            final(self).internal_echoes@ == old(self).internal_echoes@.remove(echo@),
            final(self).user_id == old(self).user_id,
            final(self).last_heartbeat == old(self).last_heartbeat,
            final(self).convert_self == old(self).convert_self,
            final(self).heartbeat_interval == old(self).heartbeat_interval,
            final(self).disconnect == old(self).disconnect,
    {
        self.internal_echoes.remove(echo);
    }

    /// Where an API response with the echo mark `echo` goes: to this service's
    /// own status check when it sent the mark, to the SDK clients otherwise;
    /// a response without a mark is ignored.
    pub fn route_response(&self, echo: &Option<String>) -> (r: ResponseRoute)
        ensures
            r == (match echo {
                None => ResponseRoute::Ignore,
                Some(e) => if self.internal_echoes@.contains_key(e@) {
                    ResponseRoute::Internal
                } else {
                    ResponseRoute::Sdk
                },
            }),
    {
        match echo {
            None => ResponseRoute::Ignore,
            Some(e) => if self.internal_echoes.contains_key(e.as_str()) {
                ResponseRoute::Internal
            } else {
                ResponseRoute::Sdk
            },
        }
    }
}

} // verus!

verus! {

/// A super user's chat message that is a command is run, whether it was
/// sent in a group or in a private chat, and the answer goes back where the
/// message came from: to its group when it has one, else to the user.
pub proof fn law_super_user_command_runs(e: Event, super_users: Seq<i64>, c: Cli)
    requires
        e.post_type@ == "message"@,
        e.user_id matches Some(u) && super_users.contains(u),
        spec_parse_command(raw_text(e)) == Some(c),
    ensures
        !is_heartbeat_event(e),
        spec_event_command(e, super_users) == Some(
            (c, match e.group_id {
                Some(g) => ReplyTarget::Group(g),
                None => ReplyTarget::Private(e.user_id->0),
            }),
        ),
{
    reveal_strlit("message");
    reveal_strlit("meta_event");
    assert("message"@.len() != "meta_event"@.len());
}

/// Only a super user's chat message carries a command, and the command is
/// what the message's text parses to.
pub proof fn law_only_super_users_command(e: Event, super_users: Seq<i64>)
    ensures
        spec_event_command(e, super_users) matches Some((c, _)) ==> {
            &&& e.post_type@ == "message"@
            &&& e.user_id matches Some(u) && super_users.contains(u)
            &&& spec_parse_command(raw_text(e)) == Some(c)
        },
{
}

/// An event from a black-listed user is never passed on to the SDK clients.
pub proof fn law_black_user_event_not_forwarded(cache: DatabaseCache, config: AppConfig, event: Event, forward: bool)
    requires
        event.user_id matches Some(u) && cache.black_users@.contains(u),
        forward == (!is_heartbeat_event(event) && cache.allows(config.default_policy, event.group_id, event.user_id)),
    ensures
        !forward,
{
    crate::database_cache::law_black_user_refused(cache, config.default_policy, event.group_id, event.user_id->0);
}

/// With an interval of at least a second, a heartbeat that arrived at the
/// current second is never timed out; and
/// once more than the interval has passed the connection times out.
pub proof fn law_heartbeat_timeout(secs: u64, nanos: u32, last: i64, interval: i64)
    requires
        last >= 0,
        interval >= 0,
        nanos < 1_000_000_000,
    ensures
        secs as int == last as int && interval > 0 ==> spec_heartbeat_status(Some((secs, nanos)), last, interval) == HeartbeatStatus::Alive,
        secs as int > last as int + interval as int ==> spec_heartbeat_status(Some((secs, nanos)), last, interval)
            == HeartbeatStatus::TimedOut,
{
    assert((interval as u64 as int) == interval as int);
    if secs as int == last as int && interval > 0 {
        assert((secs as int) * 1_000_000_000 + nanos as int - (last as int) * 1_000_000_000 == nanos as int);
    }
    if secs as int > last as int + interval as int {
        assert((secs as int) * 1_000_000_000 >= (last as int + interval as int + 1) * 1_000_000_000) by (nonlinear_arith)
            requires
                secs as int >= last as int + interval as int + 1,
        ;
    }
}

} // verus!

verus! {

/// The kind of a websocket frame received from the implementation.
#[derive(Debug, Clone, Copy, PartialEq, Eq, Structural)]
pub enum FrameKind {
    Text,
    Ping,
    Pong,
    Close,
    /// Any other frame (binary, raw).
    Other,
    /// The connection reported an error.
    Error,
}

/// What the receive loop does with a frame.
#[derive(Debug, Clone, Copy, PartialEq, Eq, Structural)]
pub enum FrameStep {
    /// Handle its text as a OneBot message.
    Handle,
    /// Go on reading.
    Ignore,
    /// End the connection (and reconnect).
    Stop,
}

/// The receive loop's decision for a frame: text is handled, pings and pongs
/// are skipped, anything else ends the connection.
pub fn frame_step(kind: FrameKind) -> (r: FrameStep)
    ensures
        r == (match kind {
            FrameKind::Text => FrameStep::Handle,
            FrameKind::Ping | FrameKind::Pong => FrameStep::Ignore,
            _ => FrameStep::Stop,
        }),
{
    match kind {
        FrameKind::Text => FrameStep::Handle,
        FrameKind::Ping | FrameKind::Pong => FrameStep::Ignore,
        _ => FrameStep::Stop,
    }
}

} // verus!
