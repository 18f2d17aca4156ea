//! A row of the `rule` table: one black or white list entry.

use vstd::prelude::*;

verus! {

/// A stored rule. `chat_id` is a group id when `chat_type` is `Group`, a
/// user id when it is `Private`; a user rule with a `group_chat_id` applies
/// to that group only.
#[derive(Debug, Clone, Copy, PartialEq, Eq, Structural)]
pub struct Model {
    pub id: i64,
    pub chat_id: i64,
    pub chat_type: ChatType,
    pub item_type: ItemType,
    pub group_chat_id: Option<i64>,
}

/// Whether a rule is about a group or a user (stored as `group` / `private`).
#[derive(Debug, Clone, Copy, PartialEq, Eq, Structural)]
pub enum ChatType {
    Group,
    Private,
}

/// Which list a rule belongs to (stored as `black_list` / `white_list`).
#[derive(Debug, Clone, Copy, PartialEq, Eq, Structural)]
pub enum ItemType {
    BlackList,
    WhiteList,
}

} // verus!
