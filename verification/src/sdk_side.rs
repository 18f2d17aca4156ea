//! The SDK clients' side: which API calls are passed to the implementation,
//! and which client gets each answer back.

use vstd::prelude::*;
use vstd::hash_map::StringHashMap;
use crate::config::Policy;
use crate::database_cache::DatabaseCache;

verus! {

/// The echo marks of the API calls passed on, each with the client (by its
/// address) that made the call.
pub struct SdkSide {
    pub echo_map: StringHashMap<String>,
}

/// The echo mark under which a call is remembered: its own, or the empty text.
pub open spec fn echo_key(echo: Option<Seq<char>>) -> Seq<char> {
    match echo {
        Some(e) => e,
        None => Seq::empty(),
    }
}

impl SdkSide {
    /// No call passed on yet.
    pub fn new() -> (r: Self)
        ensures
            r.echo_map@ == Map::<Seq<char>, String>::empty(),
    {
        SdkSide { echo_map: StringHashMap::new() }
    }

    /// The client `client` makes an API call with the echo mark `echo`, aimed at
    /// the group `group_id` when its parameters name one. A call aimed at a group
    /// that the lists refuse is dropped (`false`); any other is passed on (`true`)
    /// and its echo mark (empty when it has none) now leads back to `client`.
    pub fn on_client_call(
        &mut self,
        client: String,
        echo: &Option<String>,
        group_id: Option<i64>,
        cache: &DatabaseCache,
        policy: Option<Policy>,
    ) -> (r: bool)
        ensures
            r == (group_id matches Some(g) ==> cache.allows(policy, Some(g), None)),
            r ==> final(self).echo_map@ == old(self).echo_map@.insert(
                echo_key(match echo { Some(e) => Some(e@), None => None }),
                client,
            ),
            !r ==> final(self).echo_map@ == old(self).echo_map@,
    {
        if let Some(g) = group_id {
            if !cache.send_by_auth(policy, Some(g), None) {
                return false;
            }
        }
        let key = match echo {
            Some(e) => e.clone(),
            None => String::new(),
        };
        self.echo_map.insert(key, client);
        true
    }

    /// The answer with the echo mark `echo` arrives: gives the client that made
    /// the call, if one is remembered, and forgets the mark.
    pub fn on_response(&mut self, echo: &str) -> (r: Option<String>)
        ensures
            match r {
                Some(c) => old(self).echo_map@.contains_key(echo@) && c == old(self).echo_map@[echo@],
                None => !old(self).echo_map@.contains_key(echo@),
            },
            final(self).echo_map@ == old(self).echo_map@.remove(echo@),
    {
        let client = match self.echo_map.get(echo) {
            Some(c) => Some(c.clone()),
            None => None,
        };
        self.echo_map.remove(echo);
        client
    }
}

/// An answer goes back to the client that made the call with its echo mark,
/// and only once.
pub proof fn law_answer_goes_back_once(
    s0: SdkSide,
    s1: SdkSide,
    s2: SdkSide,
    client: String,
    echo: Seq<char>,
    first: Option<String>,
    second: Option<String>,
)
    requires
        s1.echo_map@ == s0.echo_map@.insert(echo, client),
        match first {
            Some(c) => s1.echo_map@.contains_key(echo) && c == s1.echo_map@[echo],
            None => !s1.echo_map@.contains_key(echo),
        },
        s2.echo_map@ == s1.echo_map@.remove(echo),
        match second {
            Some(c) => s2.echo_map@.contains_key(echo) && c == s2.echo_map@[echo],
            None => !s2.echo_map@.contains_key(echo),
        },
    ensures
        first == Some(client),
        second is None,
{
}

} // verus!
