//! OneBot messages: events from the implementation, the connect notice sent
//! to SDK clients, and chat messages this service sends itself.

use vstd::prelude::*;

verus! {

broadcast use vstd::string::group_string_axioms;

/// The fields of a OneBot event that this service reads.
#[derive(Debug, Clone)]
pub struct Event {
    pub time: i64,
    pub self_id: i64,
    pub post_type: String,
    pub meta_event_type: Option<String>,
    pub sub_type: Option<String>,
    pub user_id: Option<i64>,
    pub group_id: Option<i64>,
    pub raw_message: Option<String>,
}

/// The kind of a test message.
#[derive(Debug, Clone, Copy, PartialEq, Eq, Structural)]
pub enum MessageType {
    Test,
}

/// The lifecycle event that tells an SDK client the implementation is connected.
#[derive(Debug, Clone)]
pub struct ConnectMessage {
    pub time: i64,
    pub self_id: i64,
    pub post_type: String,
    pub meta_event_type: String,
    pub sub_type: String,
}

/// The time since 1970-01-01 UTC as whole seconds and the nanoseconds
/// beyond them, or `None` when the system clock is set before 1970.
///
/// Trusted: reads `std::time::SystemTime::now()` and measures it from
/// `UNIX_EPOCH` with `duration_since`, taking `as_secs()` and
/// `subsec_nanos()`. Of the value only what `Duration` guarantees is stated:
/// fewer than 10^9 nanoseconds. It is the clock's reading.
#[verifier::external_body]
pub(crate) fn system_time_since_epoch() -> (r: Option<(u64, u32)>)
    ensures
        r matches Some((_, nanos)) ==> nanos < 1_000_000_000,
{
    match std::time::SystemTime::now().duration_since(std::time::UNIX_EPOCH) {
        Ok(d) => Some((d.as_secs(), d.subsec_nanos())),
        Err(_) => None,
    }
}

/// A clock reading of `secs` seconds and `nanos` nanoseconds since 1970, in
/// whole milliseconds, cut to `i64` as `as` does.
pub open spec fn clock_millis(secs: u64, nanos: u32) -> i64 {
    ((secs as int) * 1000 + (nanos as int) / 1_000_000) as i64
}

impl ConnectMessage {
    /// The connect lifecycle event of the account `user_id` at `time` (milliseconds).
    pub fn at(user_id: i64, time: i64) -> (r: Self)
        ensures
            r.time == time,
            r.self_id == user_id,
            r.post_type@ == "meta_event"@,
            r.meta_event_type@ == "lifecycle"@,
            r.sub_type@ == "connect"@,
    {
        ConnectMessage {
            time,
            self_id: user_id,
            post_type: "meta_event".to_string(),
            meta_event_type: "lifecycle".to_string(),
            sub_type: "connect".to_string(),
        }
    }

    /// The connect lifecycle event of the account `user_id` stamped with the
    /// clock reading `now` (seconds and nanoseconds since 1970) in milliseconds,
    /// cut to `i64` as `as` does; `None` without a reading (a clock set before 1970).
    pub fn from_clock(user_id: i64, now: Option<(u64, u32)>) -> (r: Option<Self>)
        requires
            now matches Some((_, nanos)) ==> nanos < 1_000_000_000,
        ensures
            clock_message(r, user_id, now),
    {
        match now {
            Some((secs, nanos)) => {
                let ms: u128 = (secs as u128) * 1000 + (nanos as u128) / 1_000_000;
                assert(ms as int == (secs as int) * 1000 + (nanos as int) / 1_000_000);
                let m = Self::at(user_id, ms as i64);
                assert(m.time == clock_millis(secs, nanos));
                Some(m)
            },
            None => None,
        }
    }

    /// The connect lifecycle event of the account `user_id`, stamped with the
    /// current time in milliseconds: `from_clock` of the system clock's reading.
    pub fn new(user_id: i64) -> (r: Option<Self>)
        ensures
            exists|now: Option<(u64, u32)>|
                (now matches Some((_, nanos)) ==> nanos < 1_000_000_000) && #[trigger] clock_message(r, user_id, now),
    {
        let now = system_time_since_epoch();
        let r = Self::from_clock(user_id, now);
        assert(clock_message(r, user_id, now));
        r
    }
}

/// Whether `r` is the connect event of `user_id` for the clock reading `now`:
/// `None` without a reading, else the event stamped `clock_millis` of it.
pub open spec fn clock_message(r: Option<ConnectMessage>, user_id: i64, now: Option<(u64, u32)>) -> bool {
    match now {
        None => r is None,
        Some((secs, nanos)) => r matches Some(m) && {
            &&& m.time == clock_millis(secs, nanos)
            &&& m.self_id == user_id
            &&& m.post_type@ == "meta_event"@
            &&& m.meta_event_type@ == "lifecycle"@
            &&& m.sub_type@ == "connect"@
        },
    }
}

/// A chat message this service sends through the implementation.
#[derive(Debug, Clone)]
pub enum OutgoingMessage {
    /// A private message to a user.
    Private { user_id: i64, text: String },
    /// A message to a group.
    Group { group_id: i64, text: String },
}

impl OutgoingMessage {
    /// The OneBot action that sends it: `send_private_msg` or `send_group_msg`.
    pub fn action(&self) -> (r: &'static str)
        ensures
            r@ == (match self {
                OutgoingMessage::Private { .. } => "send_private_msg"@,
                OutgoingMessage::Group { .. } => "send_group_msg"@,
            }),
    {
        match self {
            OutgoingMessage::Private { .. } => "send_private_msg",
            OutgoingMessage::Group { .. } => "send_group_msg",
        }
    }
}

} // verus!
