//! The black/white list commands that super users send in chat messages.

use vstd::prelude::*;
use crate::text::{chars_eq_str, chars_from, int_decimal, parse_i64, push_i64, spec_parse_i64, split_words, words};
use crate::rule::{ChatType, ItemType, Model};
use crate::database_cache::{
    group_entry, group_rule_pred, groups_view, law_no_group_user_lists_empty, listed_groups, listed_users, other_list,
    user_rule_pred, DatabaseCache, ReloadType,
};

verus! {

broadcast use vstd::string::group_string_axioms;

/// A parsed command: which list it works on and what it does.
#[derive(Debug, PartialEq, Eq, Structural, Clone, Copy)]
pub struct Cli {
    pub command: Commands,
}

/// The list a command works on.
#[derive(Debug, PartialEq, Eq, Structural, Clone, Copy)]
pub enum Commands {
    /// `黑名单`
    Blacklist { action: Action },
    /// `白名单`
    Whitelist { action: Action },
}

/// What a command does to its list.
#[derive(Debug, PartialEq, Eq, Structural, Clone, Copy)]
pub enum Action {
    /// `添加群 <id>` or `新增群 <id>`
    CreateGroup { id: i64 },
    /// `删除群 <id>` or `移除群 <id>`
    DeleteGroup { id: i64 },
    /// `列表群` or `查询群`
    ListGroup,
    /// `添加人 <id> [-g <group_id>]` or `新增人 ...`
    CreateUser { id: i64, group_id: Option<i64> },
    /// `删除人 <id> [-g <group_id>]` or `移除人 ...`
    DeleteUser { id: i64, group_id: Option<i64> },
    /// `列表人 [-g <group_id>]` or `查询人 ...`
    ListUser { group_id: Option<i64> },
}

/// The command text is not a command.
#[derive(Debug, PartialEq, Eq, Structural, Clone, Copy)]
pub struct CommandParseError;

/// The six actions, before their arguments are read.
#[derive(Debug, PartialEq, Eq, Structural, Clone, Copy)]
pub enum ActionName {
    CreateGroup,
    DeleteGroup,
    ListGroup,
    CreateUser,
    DeleteUser,
    ListUser,
}

/// The action that a word names, with its alias.
pub open spec fn spec_action_name(w: Seq<char>) -> Option<ActionName> {
    if w == "添加群"@ || w == "新增群"@ {
        Some(ActionName::CreateGroup)
    } else if w == "删除群"@ || w == "移除群"@ {
        Some(ActionName::DeleteGroup)
    } else if w == "列表群"@ || w == "查询群"@ {
        Some(ActionName::ListGroup)
    } else if w == "添加人"@ || w == "新增人"@ {
        Some(ActionName::CreateUser)
    } else if w == "删除人"@ || w == "移除人"@ {
        Some(ActionName::DeleteUser)
    } else if w == "列表人"@ || w == "查询人"@ {
        Some(ActionName::ListUser)
    } else {
        None
    }
}

/// Whether a word is written as an option (it starts with `-`).
pub open spec fn is_option_word(w: Seq<char>) -> bool {
    w.len() > 0 && w[0] == '-'
}

/// Reads the arguments of a command: positional numbers and at most one
/// `-g` group option, written `-g <n>`, `-g<n>` or `-g=<n>`. Gives the
/// positional numbers in order and the group, or `None` when a word is
/// neither a number nor that option, the option is repeated, or its value
/// is missing or not a number. The first word `--` ends the options: every
/// word after it (`rest_positional`) is a positional number, even one that
/// starts with `-`.
pub open spec fn spec_read_args(
    args: Seq<Seq<char>>,
    pos: Seq<i64>,
    group: Option<i64>,
    rest_positional: bool,
) -> Option<(Seq<i64>, Option<i64>)>
    decreases args.len(),
{
    if args.len() == 0 {
        Some((pos, group))
    } else {
        let a = args[0];
        if !rest_positional && a == "--"@ {
            spec_read_args(args.drop_first(), pos, group, true)
        } else if !rest_positional && is_option_word(a) {
            if group is Some {
                None
            } else if a.len() == 2 && a[1] == 'g' {
                if args.len() < 2 || is_option_word(args[1]) {
                    None
                } else {
                    match spec_parse_i64(args[1]) {
                        Some(x) => spec_read_args(args.skip(2), pos, Some(x), false),
                        None => None,
                    }
                }
            } else if a.len() > 2 && a[1] == 'g' {
                let value = if a[2] == '=' {
                    a.skip(3)
                } else {
                    a.skip(2)
                };
                match spec_parse_i64(value) {
                    Some(x) => spec_read_args(args.drop_first(), pos, Some(x), false),
                    None => None,
                }
            } else {
                None
            }
        } else {
            match spec_parse_i64(a) {
                Some(x) => spec_read_args(args.drop_first(), pos.push(x), group, rest_positional),
                None => None,
            }
        }
    }
}

/// The action that a name and its argument words make, if they fit.
pub open spec fn spec_action(name: ActionName, args: Seq<Seq<char>>) -> Option<Action> {
    match spec_read_args(args, Seq::empty(), None, false) {
        None => None,
        Some((pos, group)) => match name {
            ActionName::CreateGroup => if pos.len() == 1 && group is None {
                Some(Action::CreateGroup { id: pos[0] })
            } else {
                None
            },
            ActionName::DeleteGroup => if pos.len() == 1 && group is None {
                Some(Action::DeleteGroup { id: pos[0] })
            } else {
                None
            },
            ActionName::ListGroup => if pos.len() == 0 && group is None {
                Some(Action::ListGroup)
            } else {
                None
            },
            ActionName::CreateUser => if pos.len() == 1 {
                Some(Action::CreateUser { id: pos[0], group_id: group })
            } else {
                None
            },
            ActionName::DeleteUser => if pos.len() == 1 {
                Some(Action::DeleteUser { id: pos[0], group_id: group })
            } else {
                None
            },
            ActionName::ListUser => if pos.len() == 0 {
                Some(Action::ListUser { group_id: group })
            } else {
                None
            },
        },
    }
}

/// The command that a sequence of words makes: a list name (`黑名单` or
/// `白名单`), an action name, then the action's arguments.
pub open spec fn spec_parse_words(ws: Seq<Seq<char>>) -> Option<Cli> {
    if ws.len() < 2 {
        None
    } else {
        match spec_action_name(ws[1]) {
            None => None,
            Some(name) => match spec_action(name, ws.skip(2)) {
                None => None,
                Some(action) => if ws[0] == "黑名单"@ {
                    Some(Cli { command: Commands::Blacklist { action } })
                } else if ws[0] == "白名单"@ {
                    Some(Cli { command: Commands::Whitelist { action } })
                } else {
                    None
                },
            },
        }
    }
}

/// The command that a chat message's text makes, its words being split at whitespace.
pub open spec fn spec_parse_command(text: Seq<char>) -> Option<Cli> {
    spec_parse_words(split_words(text))
}

} // verus!

verus! {

fn action_name(w: &Vec<char>) -> (r: Option<ActionName>)
    ensures
        r == spec_action_name(w@),
{
    if chars_eq_str(w, "添加群") || chars_eq_str(w, "新增群") {
        Some(ActionName::CreateGroup)
    } else if chars_eq_str(w, "删除群") || chars_eq_str(w, "移除群") {
        Some(ActionName::DeleteGroup)
    } else if chars_eq_str(w, "列表群") || chars_eq_str(w, "查询群") {
        Some(ActionName::ListGroup)
    } else if chars_eq_str(w, "添加人") || chars_eq_str(w, "新增人") {
        Some(ActionName::CreateUser)
    } else if chars_eq_str(w, "删除人") || chars_eq_str(w, "移除人") {
        Some(ActionName::DeleteUser)
    } else if chars_eq_str(w, "列表人") || chars_eq_str(w, "查询人") {
        Some(ActionName::ListUser)
    } else {
        None
    }
}

fn is_option(w: &Vec<char>) -> (r: bool)
    ensures
        r == is_option_word(w@),
{
    w.len() > 0 && w[0] == '-'
}

/// Reads the argument words `ws[from..]`.
fn read_args(ws: &Vec<Vec<char>>, from: usize) -> (r: Option<(Vec<i64>, Option<i64>)>)
    requires
        from <= ws@.len(),
    ensures
        match spec_read_args(ws@.map_values(|w: Vec<char>| w@).skip(from as int), Seq::empty(), None, false) {
            Some((pos, group)) => r matches Some((p, g)) && p@ == pos && g == group,
            None => r is None,
        },
{
    let ghost wv = ws@.map_values(|w: Vec<char>| w@);
    let ghost goal = spec_read_args(wv.skip(from as int), Seq::empty(), None, false);
    let mut pos: Vec<i64> = Vec::new();
    let mut group: Option<i64> = None;
    let mut rest_positional = false;
    let mut j = from;
    while j < ws.len()
        invariant
            wv == ws@.map_values(|w: Vec<char>| w@),
            from <= j <= ws@.len(),
            goal == spec_read_args(wv.skip(from as int), Seq::empty(), None, false),
            goal == spec_read_args(wv.skip(j as int), pos@, group, rest_positional),
        decreases ws@.len() - j,
    {
        let ghost rest = wv.skip(j as int);
        let a = &ws[j];
        assert(rest[0] == a@);
        if !rest_positional && chars_eq_str(a, "--") {
            assert(rest.drop_first() =~= wv.skip(j + 1));
            rest_positional = true;
            j = j + 1;
        } else if !rest_positional && is_option(a) {
            if group.is_some() {
                return None;
            }
            if a.len() == 2 && a[1] == 'g' {
                if j + 1 >= ws.len() || is_option(&ws[j + 1]) {
                    proof {
                        if j + 1 < ws@.len() {
                            assert(rest[1] == ws@[j + 1]@);
                        }
                    }
                    return None;
                }
                assert(rest[1] == ws@[j + 1]@);
                match parse_i64(&ws[j + 1]) {
                    Some(x) => {
                        assert(rest.skip(2) =~= wv.skip(j + 2));
                        group = Some(x);
                        j = j + 2;
                    },
                    None => {
                        return None;
                    },
                }
            } else if a.len() > 2 && a[1] == 'g' {
                let value = if a[2] == '=' {
                    chars_from(a, 3)
                } else {
                    chars_from(a, 2)
                };
                match parse_i64(&value) {
                    Some(x) => {
                        assert(rest.drop_first() =~= wv.skip(j + 1));
                        group = Some(x);
                        j = j + 1;
                    },
                    None => {
                        return None;
                    },
                }
            } else {
                return None;
            }
        } else {
            match parse_i64(a) {
                Some(x) => {
                    assert(rest.drop_first() =~= wv.skip(j + 1));
                    pos.push(x);
                    j = j + 1;
                },
                None => {
                    return None;
                },
            }
        }
    }
    assert(wv.skip(j as int) =~= Seq::<Seq<char>>::empty());
    Some((pos, group))
}

impl Cli {
    /// Parses the text of a chat message as a command: the words, split at
    /// whitespace, are a list name, an action name and the action's arguments.
    pub fn parse_command(command: &str) -> (r: Result<Cli, CommandParseError>)
        ensures
            match spec_parse_command(command@) {
                Some(cli) => r == Ok::<Cli, CommandParseError>(cli),
                None => r == Err::<Cli, CommandParseError>(CommandParseError),
            },
    {
        let ws = words(command);
        let ghost wv = ws@.map_values(|w: Vec<char>| w@);
        if ws.len() < 2 {
            return Err(CommandParseError);
        }
        assert(wv[0] == ws@[0]@ && wv[1] == ws@[1]@);
        let name = match action_name(&ws[1]) {
            Some(n) => n,
            None => {
                return Err(CommandParseError);
            },
        };
        let (pos, group) = match read_args(&ws, 2) {
            Some(pg) => pg,
            None => {
                return Err(CommandParseError);
            },
        };
        let action = match name {
            ActionName::CreateGroup => if pos.len() == 1 && group.is_none() {
                Action::CreateGroup { id: pos[0] }
            } else {
                return Err(CommandParseError);
            },
            ActionName::DeleteGroup => if pos.len() == 1 && group.is_none() {
                Action::DeleteGroup { id: pos[0] }
            } else {
                return Err(CommandParseError);
            },
            ActionName::ListGroup => if pos.len() == 0 && group.is_none() {
                Action::ListGroup
            } else {
                return Err(CommandParseError);
            },
            ActionName::CreateUser => if pos.len() == 1 {
                Action::CreateUser { id: pos[0], group_id: group }
            } else {
                return Err(CommandParseError);
            },
            ActionName::DeleteUser => if pos.len() == 1 {
                Action::DeleteUser { id: pos[0], group_id: group }
            } else {
                return Err(CommandParseError);
            },
            ActionName::ListUser => if pos.len() == 0 {
                Action::ListUser { group_id: group }
            } else {
                return Err(CommandParseError);
            },
        };
        if chars_eq_str(&ws[0], "黑名单") {
            Ok(Cli { command: Commands::Blacklist { action } })
        } else if chars_eq_str(&ws[0], "白名单") {
            Ok(Cli { command: Commands::Whitelist { action } })
        } else {
            Err(CommandParseError)
        }
    }
}

} // verus!

verus! {

/// How a rule's `group_chat_id` must look to match.
#[derive(Debug, PartialEq, Eq, Structural, Clone, Copy)]
pub enum GroupMatch {
    /// Any value.
    Any,
    /// Equal to this value, compared as SQL's `=` compares: `Some(g)` matches
    /// the rules of group `g`, and `None` (SQL `NULL`) matches no rule at all,
    /// not even the rules without a group.
    Equals(Option<i64>),
}

/// Which stored rules an operation looks at.
#[derive(Debug, PartialEq, Eq, Structural, Clone, Copy)]
pub struct RuleFilter {
    /// The listed id, when it is fixed.
    pub chat_id: Option<i64>,
    pub item_type: ItemType,
    pub group_chat_id: GroupMatch,
}

/// A rule to be stored (its row id is given by the database).
#[derive(Debug, PartialEq, Eq, Structural, Clone, Copy)]
pub struct NewRule {
    pub chat_id: i64,
    pub chat_type: ChatType,
    pub item_type: ItemType,
    pub group_chat_id: Option<i64>,
}

/// What a command asks of the rule table.
#[derive(Debug, PartialEq, Eq, Structural, Clone, Copy)]
pub enum RuleOp {
    /// Store `rule` unless a rule matching `exists` is stored already.
    InsertUnlessExists { exists: RuleFilter, rule: NewRule },
    /// Delete the rules that match.
    DeleteMatching { filter: RuleFilter },
    /// List the ids of the rules that match.
    ListMatching { filter: RuleFilter },
}

/// What the rule table answered.
#[derive(Debug, PartialEq, Eq, Clone)]
pub enum RuleOutcome {
    /// The rule was stored.
    Inserted,
    /// A matching rule was there already; nothing was stored.
    AlreadyExists,
    /// This many rules were deleted.
    Deleted { rows_affected: u64 },
    /// The ids of the matching rules, in table order.
    Listed { chat_ids: Vec<i64> },
}

/// The feedback sent back to the chat after a command.
#[derive(Debug, Clone)]
pub struct Response {
    pub action: String,
    pub success: bool,
    pub data: String,
}

impl RuleFilter {
    /// Whether a stored rule matches this filter.
    pub open spec fn matches(self, r: Model) -> bool {
        &&& (self.chat_id matches Some(id) ==> r.chat_id == id)
        &&& r.item_type == self.item_type
        &&& (self.group_chat_id matches GroupMatch::Equals(g) ==> g is Some && r.group_chat_id == g)
    }
}

impl Cli {
    /// The list this command works on.
    pub open spec fn spec_item_type(self) -> ItemType {
        match self.command {
            Commands::Blacklist { .. } => ItemType::BlackList,
            Commands::Whitelist { .. } => ItemType::WhiteList,
        }
    }

    /// The action of this command.
    pub open spec fn spec_action(self) -> Action {
        match self.command {
            Commands::Blacklist { action } => action,
            Commands::Whitelist { action } => action,
        }
    }

    /// The rule-table operation that this command performs.
    ///
    /// Adding looks for a rule with the same id on the same list (and, for a
    /// user, the same group) before storing; deleting removes such rules;
    /// listing a group list lists every rule on the list, listing a user list
    /// the rules of the given group. A user command without a group compares
    /// the group with `NULL` (see `GroupMatch::Equals`), so it finds no rule:
    /// adding always stores, deleting removes nothing and listing is empty.
    pub open spec fn spec_op(self) -> RuleOp {
        let item = self.spec_item_type();
        match self.spec_action() {
            Action::CreateGroup { id } => RuleOp::InsertUnlessExists {
                exists: RuleFilter { chat_id: Some(id), item_type: item, group_chat_id: GroupMatch::Any },
                rule: NewRule { chat_id: id, chat_type: ChatType::Group, item_type: item, group_chat_id: None },
            },
            Action::DeleteGroup { id } => RuleOp::DeleteMatching {
                filter: RuleFilter { chat_id: Some(id), item_type: item, group_chat_id: GroupMatch::Any },
            },
            Action::ListGroup => RuleOp::ListMatching {
                filter: RuleFilter { chat_id: None, item_type: item, group_chat_id: GroupMatch::Any },
            },
            Action::CreateUser { id, group_id } => RuleOp::InsertUnlessExists {
                exists: RuleFilter { chat_id: Some(id), item_type: item, group_chat_id: GroupMatch::Equals(group_id) },
                rule: NewRule { chat_id: id, chat_type: ChatType::Private, item_type: item, group_chat_id: group_id },
            },
            Action::DeleteUser { id, group_id } => RuleOp::DeleteMatching {
                filter: RuleFilter { chat_id: Some(id), item_type: item, group_chat_id: GroupMatch::Equals(group_id) },
            },
            Action::ListUser { group_id } => RuleOp::ListMatching {
                filter: RuleFilter { chat_id: None, item_type: item, group_chat_id: GroupMatch::Equals(group_id) },
            },
        }
    }

    /// The lists to rebuild after this command: a group command rebuilds its
    /// group list; a user command on the black list rebuilds the white groups
    /// (whose excluded users it may change) and the black users, one on the
    /// white list the black groups and the white users; listing rebuilds nothing.
    pub open spec fn spec_reload(self) -> Seq<ReloadType> {
        match (self.spec_action(), self.spec_item_type()) {
            (Action::CreateGroup { .. }, ItemType::BlackList) | (Action::DeleteGroup { .. }, ItemType::BlackList) => seq![ReloadType::BlackGroup],
            (Action::CreateGroup { .. }, ItemType::WhiteList) | (Action::DeleteGroup { .. }, ItemType::WhiteList) => seq![ReloadType::WhileGroup],
            (Action::CreateUser { .. }, ItemType::BlackList) | (Action::DeleteUser { .. }, ItemType::BlackList) => seq![ReloadType::WhileGroup, ReloadType::BlackUser],
            (Action::CreateUser { .. }, ItemType::WhiteList) | (Action::DeleteUser { .. }, ItemType::WhiteList) => seq![ReloadType::BlackGroup, ReloadType::WhileUser],
            _ => Seq::empty(),
        }
    }

    /// The list's name: `黑名单` or `白名单`.
    pub open spec fn spec_list_name(self) -> Seq<char> {
        match self.spec_item_type() {
            ItemType::BlackList => "黑名单"@,
            ItemType::WhiteList => "白名单"@,
        }
    }

    /// The id text of an added or removed entry: the id for a group,
    /// `<group or 0>:<id>` for a user.
    pub open spec fn spec_entry_text(self) -> Seq<char> {
        match self.spec_action() {
            Action::CreateUser { id, group_id } | Action::DeleteUser { id, group_id } => int_decimal(
                group_id.unwrap_or(0) as int,
            ) + ":"@ + int_decimal(id as int),
            Action::CreateGroup { id } | Action::DeleteGroup { id } => int_decimal(id as int),
            _ => Seq::empty(),
        }
    }

    /// The feedback for `outcome`: its action text, success and data text.
    pub open spec fn spec_response(self, outcome: RuleOutcome) -> (Seq<char>, bool, Seq<char>) {
        let name = self.spec_list_name();
        match outcome {
            RuleOutcome::AlreadyExists => ("添加"@ + name, false, "已存在"@),
            RuleOutcome::Inserted => ("添加"@ + name, true, self.spec_entry_text()),
            RuleOutcome::Deleted { rows_affected } => if rows_affected == 0 {
                ("删除"@ + name, false, "记录不存在"@)
            } else {
                ("删除"@ + name, true, self.spec_entry_text())
            },
            RuleOutcome::Listed { chat_ids } => ("获取"@ + name + "列表"@, true, id_list_text(chat_ids@)),
        }
    }
}

/// The ids separated by `, `.
pub open spec fn join_ids(ids: Seq<i64>) -> Seq<char>
    decreases ids.len(),
{
    if ids.len() == 0 {
        Seq::empty()
    } else if ids.len() == 1 {
        int_decimal(ids[0] as int)
    } else {
        join_ids(ids.drop_last()) + ", "@ + int_decimal(ids.last() as int)
    }
}

/// A list of ids as `{:?}` writes it: `[1, 2, 3]`.
pub open spec fn id_list_text(ids: Seq<i64>) -> Seq<char> {
    "["@ + join_ids(ids) + "]"@
}

/// The text `<action>操作<成功|失败>\n结果：<data>` sent back to the chat.
pub open spec fn spec_response_text(action: Seq<char>, success: bool, data: Seq<char>) -> Seq<char> {
    action + "操作"@ + (if success { "成功"@ } else { "失败"@ }) + "\n结果："@ + data
}

} // verus!

verus! {

/// Appends the ids, separated by `, `.
fn push_ids(s: &mut String, ids: &Vec<i64>)
    ensures
        final(s)@ == old(s)@ + join_ids(ids@),
{
    let ghost start = s@;
    let mut i: usize = 0;
    assert(ids@.take(0) =~= Seq::<i64>::empty());
    while i < ids.len()
        invariant
            0 <= i <= ids@.len(),
            s@ == start + join_ids(ids@.take(i as int)),
        decreases ids@.len() - i,
    {
        let ghost before = s@;
        assert(ids@.take(i + 1).drop_last() =~= ids@.take(i as int));
        assert(ids@.take(i + 1).last() == ids@[i as int]);
        if i > 0 {
            s.append(", ");
        } else {
            assert(ids@.take(i as int) =~= Seq::<i64>::empty());
        }
        push_i64(s, ids[i]);
        i = i + 1;
    }
    assert(ids@.take(ids@.len() as int) =~= ids@);
}

/// A list of ids as `{:?}` writes it: `[1, 2, 3]`.
pub fn id_list_to_string(ids: &Vec<i64>) -> (r: String)
    ensures
        r@ == id_list_text(ids@),
{
    let mut s = String::new();
    s.append("[");
    push_ids(&mut s, ids);
    s.append("]");
    s
}

impl Response {
    /// The text sent back to the chat: `<action>操作<成功|失败>\n结果：<data>`.
    pub fn text(&self) -> (r: String)
        ensures
            r@ == spec_response_text(self.action@, self.success, self.data@),
    {
        let mut s = String::new();
        s.append(self.action.as_str());
        s.append("操作");
        if self.success {
            s.append("成功");
        } else {
            s.append("失败");
        }
        s.append("\n结果：");
        s.append(self.data.as_str());
        s
    }
}

impl Cli {
    /// The list this command works on.
    pub fn item_type(&self) -> (r: ItemType)
        ensures
            r == self.spec_item_type(),
    {
        match self.command {
            Commands::Blacklist { .. } => ItemType::BlackList,
            Commands::Whitelist { .. } => ItemType::WhiteList,
        }
    }

    /// The action of this command.
    pub fn action(&self) -> (r: Action)
        ensures
            r == self.spec_action(),
    {
        match self.command {
            Commands::Blacklist { action } => action,
            Commands::Whitelist { action } => action,
        }
    }

    /// The rule-table operation that this command performs (see `spec_op`).
    pub fn op(&self) -> (r: RuleOp)
        ensures
            r == self.spec_op(),
    {
        let item = self.item_type();
        match self.action() {
            Action::CreateGroup { id } => RuleOp::InsertUnlessExists {
                exists: RuleFilter { chat_id: Some(id), item_type: item, group_chat_id: GroupMatch::Any },
                rule: NewRule { chat_id: id, chat_type: ChatType::Group, item_type: item, group_chat_id: None },
            },
            Action::DeleteGroup { id } => RuleOp::DeleteMatching {
                filter: RuleFilter { chat_id: Some(id), item_type: item, group_chat_id: GroupMatch::Any },
            },
            Action::ListGroup => RuleOp::ListMatching {
                filter: RuleFilter { chat_id: None, item_type: item, group_chat_id: GroupMatch::Any },
            },
            Action::CreateUser { id, group_id } => RuleOp::InsertUnlessExists {
                exists: RuleFilter { chat_id: Some(id), item_type: item, group_chat_id: GroupMatch::Equals(group_id) },
                rule: NewRule { chat_id: id, chat_type: ChatType::Private, item_type: item, group_chat_id: group_id },
            },
            Action::DeleteUser { id, group_id } => RuleOp::DeleteMatching {
                filter: RuleFilter { chat_id: Some(id), item_type: item, group_chat_id: GroupMatch::Equals(group_id) },
            },
            Action::ListUser { group_id } => RuleOp::ListMatching {
                filter: RuleFilter { chat_id: None, item_type: item, group_chat_id: GroupMatch::Equals(group_id) },
            },
        }
    }

    /// The lists to rebuild after this command (see `spec_reload`).
    pub fn reload_types(&self) -> (r: Vec<ReloadType>)
        ensures
            r@ == self.spec_reload(),
    {
        let item = self.item_type();
        let r = match self.action() {
            Action::CreateGroup { .. } | Action::DeleteGroup { .. } => match item {
                ItemType::BlackList => vec![ReloadType::BlackGroup],
                ItemType::WhiteList => vec![ReloadType::WhileGroup],
            },
            Action::CreateUser { .. } | Action::DeleteUser { .. } => match item {
                ItemType::BlackList => vec![ReloadType::WhileGroup, ReloadType::BlackUser],
                ItemType::WhiteList => vec![ReloadType::BlackGroup, ReloadType::WhileUser],
            },
            _ => Vec::new(),
        };
        assert(r@ =~= self.spec_reload());
        r
    }

    fn list_name(&self) -> (r: &'static str)
        ensures
            r@ == self.spec_list_name(),
    {
        match self.item_type() {
            ItemType::BlackList => "黑名单",
            ItemType::WhiteList => "白名单",
        }
    }

    fn entry_text(&self) -> (r: String)
        ensures
            r@ == self.spec_entry_text(),
    {
        let mut s = String::new();
        match self.action() {
            Action::CreateUser { id, group_id } | Action::DeleteUser { id, group_id } => {
                let g = match group_id {
                    Some(g) => g,
                    None => 0,
                };
                push_i64(&mut s, g);
                s.append(":");
                push_i64(&mut s, id);
            },
            Action::CreateGroup { id } | Action::DeleteGroup { id } => {
                push_i64(&mut s, id);
            },
            _ => {},
        }
        s
    }

    /// The feedback for the rule table's answer `outcome` (see `spec_response`).
    pub fn respond(&self, outcome: &RuleOutcome) -> (r: Response)
        ensures
            (r.action@, r.success, r.data@) == self.spec_response(*outcome),
    {
        let name = self.list_name();
        let mut action = String::new();
        match outcome {
            RuleOutcome::AlreadyExists => {
                action.append("添加");
                action.append(name);
                Response { action, success: false, data: "已存在".to_string() }
            },
            RuleOutcome::Inserted => {
                action.append("添加");
                action.append(name);
                Response { action, success: true, data: self.entry_text() }
            },
            RuleOutcome::Deleted { rows_affected } => {
                action.append("删除");
                action.append(name);
                if *rows_affected == 0 {
                    Response { action, success: false, data: "记录不存在".to_string() }
                } else {
                    Response { action, success: true, data: self.entry_text() }
                }
            },
            RuleOutcome::Listed { chat_ids } => {
                action.append("获取");
                action.append(name);
                action.append("列表");
                Response { action, success: true, data: id_list_to_string(chat_ids) }
            },
        }
    }
}

} // verus!

verus! {

/// Every action name and its alias mean the same: swapping one for the
/// other in a command's words does not change what the command is.
pub proof fn law_alias_same_command(ws: Seq<Seq<char>>, alias: Seq<char>)
    requires
        ws.len() >= 2,
        spec_action_name(alias) is Some,
        spec_action_name(alias) == spec_action_name(ws[1]),
    ensures
        spec_parse_words(ws.update(1, alias)) == spec_parse_words(ws),
{
    let ws2 = ws.update(1, alias);
    assert(ws2.skip(2) =~= ws.skip(2));
    assert(ws2[0] == ws[0]);
}

} // verus!

verus! {

/// Whitespace does not matter to a command: leading and trailing whitespace
/// and the length and kind of the runs between words leave it unchanged.
pub proof fn law_whitespace_normalisation(s: Seq<char>)
    ensures
        spec_parse_command(crate::text::normalize_whitespace(s)) == spec_parse_command(s),
{
    crate::text::law_normalize_keeps_words(s);
}

} // verus!

verus! {

/// A command touches only the rules of the entry it names.
///
/// Adding or removing a group looks at, and removes, exactly the rules with
/// the command's id on the command's list; adding or removing a user, exactly
/// those that also lie in the command's group (none at all when no group is
/// given). The rule that adding stores has the command's id, list, kind and
/// group. Listing shows the rules of the command's list (for users, those of
/// the given group).
pub proof fn law_op_scope(cli: Cli, r: Model)
    ensures
        cli.spec_action() matches Action::CreateGroup { id } ==> (cli.spec_op() matches RuleOp::InsertUnlessExists {
            exists,
            rule,
        } && (exists.matches(r) <==> (r.chat_id == id && r.item_type == cli.spec_item_type())) && rule.chat_id == id
            && rule.chat_type == ChatType::Group && rule.item_type == cli.spec_item_type() && rule.group_chat_id is None),
        cli.spec_action() matches Action::DeleteGroup { id } ==> (cli.spec_op() matches RuleOp::DeleteMatching { filter }
            && (filter.matches(r) <==> (r.chat_id == id && r.item_type == cli.spec_item_type()))),
        cli.spec_action() matches Action::ListGroup ==> (cli.spec_op() matches RuleOp::ListMatching { filter } && (
        filter.matches(r) <==> r.item_type == cli.spec_item_type())),
        cli.spec_action() matches Action::CreateUser { id, group_id } ==> (cli.spec_op() matches RuleOp::InsertUnlessExists {
            exists,
            rule,
        } && (exists.matches(r) <==> (group_id is Some && r.chat_id == id && r.item_type == cli.spec_item_type()
            && r.group_chat_id == group_id)) && rule.chat_id == id && rule.chat_type == ChatType::Private
            && rule.item_type == cli.spec_item_type() && rule.group_chat_id == group_id),
        cli.spec_action() matches Action::DeleteUser { id, group_id } ==> (cli.spec_op() matches RuleOp::DeleteMatching {
            filter,
        } && (filter.matches(r) <==> (group_id is Some && r.chat_id == id && r.item_type == cli.spec_item_type()
            && r.group_chat_id == group_id))),
        cli.spec_action() matches Action::ListUser { group_id } ==> (cli.spec_op() matches RuleOp::ListMatching { filter }
            && (filter.matches(r) <==> (group_id is Some && r.item_type == cli.spec_item_type() && r.group_chat_id
            == group_id))),
{
}

} // verus!

verus! {

/// The list name of the black list (`black`) or of the white list.
pub open spec fn list_word(black: bool) -> Seq<char> {
    if black {
        "黑名单"@
    } else {
        "白名单"@
    }
}

/// The command `action` on the black list (`black`) or on the white list.
pub open spec fn on_list(black: bool, action: Action) -> Cli {
    if black {
        Cli { command: Commands::Blacklist { action } }
    } else {
        Cli { command: Commands::Whitelist { action } }
    }
}

/// What the message `<list> <name> <args...>` parses to.
pub open spec fn typed_command(black: bool, name: Seq<char>, args: Seq<Seq<char>>) -> Option<Cli> {
    spec_parse_command(crate::text::join_words(seq![list_word(black), name] + args))
}

/// Whether `<list> <name> <n>` and `<list> <name> -- <n>` both give `action`
/// on the list, except that a negative `n` written without `--` looks like an
/// option and is refused.
pub open spec fn names_action_with_id(black: bool, name: Seq<char>, n: i64, action: Action) -> bool {
    &&& typed_command(black, name, seq![int_decimal(n as int)]) == (if n >= 0 {
        Some(on_list(black, action))
    } else {
        None
    })
    &&& typed_command(black, name, seq!["--"@, int_decimal(n as int)]) == Some(on_list(black, action))
}

proof fn lemma_three_char_word(w: Seq<char>)
    requires
        w.len() == 3,
        !crate::text::spec_is_whitespace(w[0]),
        !crate::text::spec_is_whitespace(w[1]),
        !crate::text::spec_is_whitespace(w[2]),
    ensures
        crate::text::is_word(w),
{
}

/// A message whose words are a list name, an action name and argument words
/// parses as its action name and arguments say.
proof fn lemma_typed_command(black: bool, name: Seq<char>, args: Seq<Seq<char>>, an: ActionName)
    requires
        crate::text::is_word(name),
        forall|i: int| 0 <= i < args.len() ==> crate::text::is_word(#[trigger] args[i]),
        spec_action_name(name) == Some(an),
    ensures
        typed_command(black, name, args) == (match spec_action(an, args) {
            Some(a) => Some(on_list(black, a)),
            None => None,
        }),
{
    reveal_strlit("黑名单");
    reveal_strlit("白名单");
    let ws = seq![list_word(black), name] + args;
    lemma_three_char_word(list_word(black));
    assert forall|i: int| 0 <= i < ws.len() implies crate::text::is_word(#[trigger] ws[i]) by {
        if i >= 2 {
            assert(ws[i] == args[i - 2]);
        }
    }
    crate::text::lemma_split_join(ws);
    assert(ws[0] == list_word(black));
    assert(ws[1] == name);
    assert(ws.skip(2) =~= args);
    assert("黑名单"@ != "白名单"@) by {
        assert("黑名单"@[0] != "白名单"@[0]);
    }
}

/// The argument words `<n>` and `-- <n>`.
proof fn lemma_id_args(n: i64)
    ensures
        spec_read_args(seq![int_decimal(n as int)], Seq::empty(), None, false) == (if n >= 0 {
            Some((seq![n], None::<i64>))
        } else {
            None
        }),
        spec_read_args(seq!["--"@, int_decimal(n as int)], Seq::empty(), None, false) == Some((seq![n], None::<i64>)),
{
    reveal_strlit("--");
    let d = int_decimal(n as int);
    crate::text::lemma_decimal_word(n as int);
    crate::text::law_decimal_round_trip(n);
    assert(d != "--"@) by {
        if n >= 0 {
            assert(d[0] != "--"@[0]);
        } else {
            assert(d.len() >= 2);
            if d.len() == 2 {
                assert(d[1] != "--"@[1]);
            }
        }
    }
    assert(seq![d].drop_first() =~= Seq::<Seq<char>>::empty());
    assert(seq!["--"@, d].drop_first() =~= seq![d]);
    assert(Seq::<i64>::empty().push(n) =~= seq![n]);
    assert(spec_read_args(Seq::<Seq<char>>::empty(), seq![n], None, false) == Some((seq![n], None::<i64>)));
    assert(spec_read_args(Seq::<Seq<char>>::empty(), seq![n], None, true) == Some((seq![n], None::<i64>)));
    assert(spec_read_args(seq![d], Seq::empty(), None, true) == Some((seq![n], None::<i64>)));
}

/// Only the documented action names and their aliases are recognised: a
/// message whose second word is none of them is not a command.
pub proof fn law_unknown_action_refused(ws: Seq<Seq<char>>)
    requires
        ws.len() >= 2,
        ws[1] != "添加群"@ && ws[1] != "新增群"@ && ws[1] != "删除群"@ && ws[1] != "移除群"@,
        ws[1] != "列表群"@ && ws[1] != "查询群"@ && ws[1] != "添加人"@ && ws[1] != "新增人"@,
        ws[1] != "删除人"@ && ws[1] != "移除人"@ && ws[1] != "列表人"@ && ws[1] != "查询人"@,
    ensures
        spec_parse_words(ws) is None,
{
}

/// Every documented action name and its alias are recognised, on either
/// list: `<list> <name> <n>` adds or removes the group or user `n` (a negative
/// `n` has to follow `--`, a word that starts with `-` being an option), and
/// `<list> <name>` lists the groups or the users.
pub proof fn law_action_names(black: bool, n: i64)
    ensures
        names_action_with_id(black, "添加群"@, n, Action::CreateGroup { id: n }),
        names_action_with_id(black, "新增群"@, n, Action::CreateGroup { id: n }),
        names_action_with_id(black, "删除群"@, n, Action::DeleteGroup { id: n }),
        names_action_with_id(black, "移除群"@, n, Action::DeleteGroup { id: n }),
        names_action_with_id(black, "添加人"@, n, Action::CreateUser { id: n, group_id: None }),
        names_action_with_id(black, "新增人"@, n, Action::CreateUser { id: n, group_id: None }),
        names_action_with_id(black, "删除人"@, n, Action::DeleteUser { id: n, group_id: None }),
        names_action_with_id(black, "移除人"@, n, Action::DeleteUser { id: n, group_id: None }),
        typed_command(black, "列表群"@, Seq::empty()) == Some(on_list(black, Action::ListGroup)),
        typed_command(black, "查询群"@, Seq::empty()) == Some(on_list(black, Action::ListGroup)),
        typed_command(black, "列表人"@, Seq::empty()) == Some(on_list(black, Action::ListUser { group_id: None })),
        typed_command(black, "查询人"@, Seq::empty()) == Some(on_list(black, Action::ListUser { group_id: None })),
{
    reveal_strlit("添加群");
    reveal_strlit("新增群");
    reveal_strlit("删除群");
    reveal_strlit("移除群");
    reveal_strlit("列表群");
    reveal_strlit("查询群");
    reveal_strlit("添加人");
    reveal_strlit("新增人");
    reveal_strlit("删除人");
    reveal_strlit("移除人");
    reveal_strlit("列表人");
    reveal_strlit("查询人");
    reveal_strlit("--");
    let d = int_decimal(n as int);
    crate::text::lemma_decimal_word(n as int);
    lemma_id_args(n);
    let one = seq![d];
    let two = seq!["--"@, d];
    lemma_three_char_word("--"@.push('-'));
    assert(crate::text::is_word("--"@));
    assert forall|i: int| 0 <= i < one.len() implies crate::text::is_word(#[trigger] one[i]) by {}
    assert forall|i: int| 0 <= i < two.len() implies crate::text::is_word(#[trigger] two[i]) by {}
    assert(spec_read_args(Seq::<Seq<char>>::empty(), Seq::empty(), None, false) == Some((Seq::<i64>::empty(), None::<i64>)));
    assert("添加群"@[0] == '添' && "添加群"@[2] == '群');
    assert("新增群"@[0] == '新' && "新增群"@[2] == '群');
    assert("删除群"@[0] == '删' && "删除群"@[2] == '群');
    assert("移除群"@[0] == '移' && "移除群"@[2] == '群');
    assert("列表群"@[0] == '列' && "列表群"@[2] == '群');
    assert("查询群"@[0] == '查' && "查询群"@[2] == '群');
    assert("添加人"@[0] == '添' && "添加人"@[2] == '人');
    assert("新增人"@[0] == '新' && "新增人"@[2] == '人');
    assert("删除人"@[0] == '删' && "删除人"@[2] == '人');
    assert("移除人"@[0] == '移' && "移除人"@[2] == '人');
    assert("列表人"@[0] == '列' && "列表人"@[2] == '人');
    assert("查询人"@[0] == '查' && "查询人"@[2] == '人');
    assert(spec_action_name("添加群"@) == Some(ActionName::CreateGroup));
    assert(spec_action_name("新增群"@) == Some(ActionName::CreateGroup));
    assert(spec_action_name("删除群"@) == Some(ActionName::DeleteGroup));
    assert(spec_action_name("移除群"@) == Some(ActionName::DeleteGroup));
    assert(spec_action_name("列表群"@) == Some(ActionName::ListGroup));
    assert(spec_action_name("查询群"@) == Some(ActionName::ListGroup));
    assert(spec_action_name("添加人"@) == Some(ActionName::CreateUser));
    assert(spec_action_name("新增人"@) == Some(ActionName::CreateUser));
    assert(spec_action_name("删除人"@) == Some(ActionName::DeleteUser));
    assert(spec_action_name("移除人"@) == Some(ActionName::DeleteUser));
    assert(spec_action_name("列表人"@) == Some(ActionName::ListUser));
    assert(spec_action_name("查询人"@) == Some(ActionName::ListUser));
    lemma_three_char_word("添加群"@);
    lemma_three_char_word("新增群"@);
    lemma_three_char_word("删除群"@);
    lemma_three_char_word("移除群"@);
    lemma_three_char_word("列表群"@);
    lemma_three_char_word("查询群"@);
    lemma_three_char_word("添加人"@);
    lemma_three_char_word("新增人"@);
    lemma_three_char_word("删除人"@);
    lemma_three_char_word("移除人"@);
    lemma_three_char_word("列表人"@);
    lemma_three_char_word("查询人"@);
    lemma_typed_command(black, "添加群"@, one, ActionName::CreateGroup);
    lemma_typed_command(black, "添加群"@, two, ActionName::CreateGroup);
    lemma_typed_command(black, "新增群"@, one, ActionName::CreateGroup);
    lemma_typed_command(black, "新增群"@, two, ActionName::CreateGroup);
    lemma_typed_command(black, "删除群"@, one, ActionName::DeleteGroup);
    lemma_typed_command(black, "删除群"@, two, ActionName::DeleteGroup);
    lemma_typed_command(black, "移除群"@, one, ActionName::DeleteGroup);
    lemma_typed_command(black, "移除群"@, two, ActionName::DeleteGroup);
    lemma_typed_command(black, "添加人"@, one, ActionName::CreateUser);
    lemma_typed_command(black, "添加人"@, two, ActionName::CreateUser);
    lemma_typed_command(black, "新增人"@, one, ActionName::CreateUser);
    lemma_typed_command(black, "新增人"@, two, ActionName::CreateUser);
    lemma_typed_command(black, "删除人"@, one, ActionName::DeleteUser);
    lemma_typed_command(black, "删除人"@, two, ActionName::DeleteUser);
    lemma_typed_command(black, "移除人"@, one, ActionName::DeleteUser);
    lemma_typed_command(black, "移除人"@, two, ActionName::DeleteUser);
    lemma_typed_command(black, "列表群"@, Seq::empty(), ActionName::ListGroup);
    lemma_typed_command(black, "查询群"@, Seq::empty(), ActionName::ListGroup);
    lemma_typed_command(black, "列表人"@, Seq::empty(), ActionName::ListUser);
    lemma_typed_command(black, "查询人"@, Seq::empty(), ActionName::ListUser);
}

} // verus!

verus! {

/// The stored rules after the rule table carried out `op` on `rules`, a new
/// rule being given the row id `row_id`: adding appends the rule unless a rule
/// matches `exists`, deleting keeps the rules that do not match, listing
/// changes nothing.
pub open spec fn apply_op(op: RuleOp, rules: Seq<Model>, row_id: i64) -> Seq<Model> {
    match op {
        RuleOp::InsertUnlessExists { exists, rule } => if exists|i: int|
            0 <= i < rules.len() && exists.matches(#[trigger] rules[i]) {
            rules
        } else {
            rules.push(
                Model {
                    id: row_id,
                    chat_id: rule.chat_id,
                    chat_type: rule.chat_type,
                    item_type: rule.item_type,
                    group_chat_id: rule.group_chat_id,
                },
            )
        },
        RuleOp::DeleteMatching { filter } => rules.filter(|r: Model| !filter.matches(r)),
        RuleOp::ListMatching { .. } => rules,
    }
}

/// Whether a deleting command removes only rules of the kind it names: no
/// stored rule about a user shares the id of a group being removed, and no
/// stored rule about a group shares the id and group of a user being removed.
pub open spec fn deletes_own_kind(cli: Cli, rules: Seq<Model>) -> bool {
    cli.spec_op() matches RuleOp::DeleteMatching { filter } ==> forall|i: int|
        0 <= i < rules.len() && filter.matches(#[trigger] rules[i]) ==> rules[i].chat_type == (
        if cli.spec_action() is DeleteGroup {
            ChatType::Group
        } else {
            ChatType::Private
        })
}

/// Filtering away rules that `p` does not select leaves what `p` selects.
proof fn lemma_filter_kept(rules: Seq<Model>, keep: spec_fn(Model) -> bool, p: spec_fn(Model) -> bool)
    requires
        forall|i: int| 0 <= i < rules.len() && p(#[trigger] rules[i]) ==> keep(rules[i]),
    ensures
        rules.filter(keep).filter(p) == rules.filter(p),
    decreases rules.len(),
{
    reveal(Seq::filter);
    if rules.len() > 0 {
        let init = rules.drop_last();
        let x = rules.last();
        assert forall|i: int| 0 <= i < init.len() && p(#[trigger] init[i]) implies keep(init[i]) by {
            assert(init[i] == rules[i]);
        }
        lemma_filter_kept(init, keep, p);
        assert(rules[rules.len() - 1] == x);
        init.filter(keep).lemma_filter_push(x, p);
        assert(rules.filter(keep) == if keep(x) {
            init.filter(keep).push(x)
        } else {
            init.filter(keep)
        });
        assert(rules.filter(p) == if p(x) {
            init.filter(p).push(x)
        } else {
            init.filter(p)
        });
    }
}

/// The groups a list holds depend only on the group rules of the list and
/// the user rules, inside groups, of the opposite list.
proof fn lemma_groups_unchanged(rules: Seq<Model>, new: Seq<Model>, item: ItemType)
    requires
        new.filter(group_rule_pred(item)) == rules.filter(group_rule_pred(item)),
        forall|g: i64|
            #[trigger] new.filter(user_rule_pred(other_list(item), Some(g))) == rules.filter(
                user_rule_pred(other_list(item), Some(g)),
            ),
    ensures
        listed_groups(new, item) == listed_groups(rules, item),
{
    assert forall|r: Model| #[trigger] group_entry(new, item)(r) == group_entry(rules, item)(r) by {
        assert(new.filter(user_rule_pred(other_list(item), Some(r.chat_id))) == rules.filter(
            user_rule_pred(other_list(item), Some(r.chat_id)),
        ));
    }
    assert(group_entry(new, item) =~= group_entry(rules, item));
}

/// A command leaves unchanged what the rules select for `p` when no rule it
/// may add is selected and no rule it may delete is.
proof fn lemma_op_keeps(cli: Cli, rules: Seq<Model>, row_id: i64, p: spec_fn(Model) -> bool)
    requires
        cli.spec_op() matches RuleOp::InsertUnlessExists { rule, .. } ==> !p(
            Model {
                id: row_id,
                chat_id: rule.chat_id,
                chat_type: rule.chat_type,
                item_type: rule.item_type,
                group_chat_id: rule.group_chat_id,
            },
        ),
        cli.spec_op() matches RuleOp::DeleteMatching { filter } ==> forall|i: int|
            0 <= i < rules.len() && p(#[trigger] rules[i]) ==> !filter.matches(rules[i]),
    ensures
        apply_op(cli.spec_op(), rules, row_id).filter(p) == rules.filter(p),
{
    match cli.spec_op() {
        RuleOp::InsertUnlessExists { exists, rule } => {
            let x = Model {
                id: row_id,
                chat_id: rule.chat_id,
                chat_type: rule.chat_type,
                item_type: rule.item_type,
                group_chat_id: rule.group_chat_id,
            };
            rules.lemma_filter_push(x, p);
        },
        RuleOp::DeleteMatching { filter } => {
            lemma_filter_kept(rules, |r: Model| !filter.matches(r), p);
        },
        RuleOp::ListMatching { .. } => {},
    }
}

/// The in-memory list of the groups on `item`.
pub open spec fn groups_list(item: ItemType) -> ReloadType {
    match item {
        ItemType::WhiteList => ReloadType::WhileGroup,
        ItemType::BlackList => ReloadType::BlackGroup,
    }
}

/// The in-memory list of the users on `item`.
pub open spec fn users_list(item: ItemType) -> ReloadType {
    match item {
        ItemType::WhiteList => ReloadType::WhileUser,
        ItemType::BlackList => ReloadType::BlackUser,
    }
}

/// The lists a command rebuilds: a group command on a list rebuilds that
/// list's groups; a user command rebuilds the groups of the opposite list
/// (whose excluded users it changes) and then the users of its own list;
/// listing rebuilds nothing.
pub proof fn law_reload_lists(cli: Cli)
    ensures
        (cli.spec_action() is CreateGroup || cli.spec_action() is DeleteGroup) ==> cli.spec_reload() == seq![
            groups_list(cli.spec_item_type()),
        ],
        (cli.spec_action() is CreateUser || cli.spec_action() is DeleteUser) ==> cli.spec_reload() == seq![
            groups_list(other_list(cli.spec_item_type())),
            users_list(cli.spec_item_type()),
        ],
        (cli.spec_action() is ListGroup || cli.spec_action() is ListUser) ==> cli.spec_reload().len() == 0,
{
}

/// Rebuilding the lists that a command names, from the rules as the command
/// left them, leaves the lists as loading all the rules afresh would: every
/// list that reads a rule the command may change is rebuilt. A group command
/// on the white list rebuilds the white groups, one on the black list the
/// black groups; a user command rebuilds the groups of the opposite list,
/// whose excluded users it may change.
///
/// Left out: a delete that also removes rules of the other kind, sharing the
/// id it names (see `deletes_own_kind`); the rule table removes those too.
pub proof fn law_reload_after_command(
    cli: Cli,
    rules: Seq<Model>,
    row_id: i64,
    before: DatabaseCache,
    after: DatabaseCache,
)
    requires
        deletes_own_kind(cli, rules),
        groups_view(before.white_groups@) == listed_groups(rules, ItemType::WhiteList),
        groups_view(before.black_groups@) == listed_groups(rules, ItemType::BlackList),
        before.white_users@ == listed_users(rules, ItemType::WhiteList, None),
        before.black_users@ == listed_users(rules, ItemType::BlackList, None),
        groups_view(after.white_groups@) == if cli.spec_reload().contains(ReloadType::WhileGroup) {
            listed_groups(apply_op(cli.spec_op(), rules, row_id), ItemType::WhiteList)
        } else {
            groups_view(before.white_groups@)
        },
        groups_view(after.black_groups@) == if cli.spec_reload().contains(ReloadType::BlackGroup) {
            listed_groups(apply_op(cli.spec_op(), rules, row_id), ItemType::BlackList)
        } else {
            groups_view(before.black_groups@)
        },
        after.white_users@ == if cli.spec_reload().contains(ReloadType::WhileUser) {
            listed_users(apply_op(cli.spec_op(), rules, row_id), ItemType::WhiteList, None)
        } else {
            before.white_users@
        },
        after.black_users@ == if cli.spec_reload().contains(ReloadType::BlackUser) {
            listed_users(apply_op(cli.spec_op(), rules, row_id), ItemType::BlackList, None)
        } else {
            before.black_users@
        },
    ensures
        groups_view(after.white_groups@) == listed_groups(apply_op(cli.spec_op(), rules, row_id), ItemType::WhiteList),
        groups_view(after.black_groups@) == listed_groups(apply_op(cli.spec_op(), rules, row_id), ItemType::BlackList),
        after.white_users@ == listed_users(apply_op(cli.spec_op(), rules, row_id), ItemType::WhiteList, None),
        after.black_users@ == listed_users(apply_op(cli.spec_op(), rules, row_id), ItemType::BlackList, None),
{
    let new = apply_op(cli.spec_op(), rules, row_id);
    let item = cli.spec_item_type();
    let other = other_list(item);
    law_no_group_user_lists_empty(rules, ItemType::WhiteList);
    law_no_group_user_lists_empty(rules, ItemType::BlackList);
    law_no_group_user_lists_empty(new, ItemType::WhiteList);
    law_no_group_user_lists_empty(new, ItemType::BlackList);
    let reload = cli.spec_reload();
    match cli.spec_action() {
        Action::CreateGroup { .. } | Action::DeleteGroup { .. } => {
            // the groups of the opposite list are kept
            lemma_op_keeps(cli, rules, row_id, group_rule_pred(other));
            assert forall|g: i64|
                #[trigger] new.filter(user_rule_pred(other_list(other), Some(g))) == rules.filter(
                    user_rule_pred(other_list(other), Some(g)),
                ) by {
                assert(other_list(other) == item);
                lemma_op_keeps(cli, rules, row_id, user_rule_pred(item, Some(g)));
            }
            lemma_groups_unchanged(rules, new, other);
            assert(reload == seq![if item == ItemType::BlackList {
                ReloadType::BlackGroup
            } else {
                ReloadType::WhileGroup
            }]);
            assert(reload[0] != ReloadType::WhileUser && reload[0] != ReloadType::BlackUser);
            if item == ItemType::BlackList {
                assert(!reload.contains(ReloadType::WhileGroup)) by {
                    assert(reload[0] != ReloadType::WhileGroup);
                }
            } else {
                assert(!reload.contains(ReloadType::BlackGroup)) by {
                    assert(reload[0] != ReloadType::BlackGroup);
                }
            }
            assert(!reload.contains(ReloadType::WhileUser));
            assert(!reload.contains(ReloadType::BlackUser));
        },
        Action::CreateUser { .. } | Action::DeleteUser { .. } => {
            // the groups of the command's own list are kept
            lemma_op_keeps(cli, rules, row_id, group_rule_pred(item));
            assert forall|g: i64|
                #[trigger] new.filter(user_rule_pred(other_list(item), Some(g))) == rules.filter(
                    user_rule_pred(other_list(item), Some(g)),
                ) by {
                lemma_op_keeps(cli, rules, row_id, user_rule_pred(other, Some(g)));
            }
            lemma_groups_unchanged(rules, new, item);
            if item == ItemType::BlackList {
                assert(reload == seq![ReloadType::WhileGroup, ReloadType::BlackUser]);
                assert(!reload.contains(ReloadType::BlackGroup)) by {
                    assert(reload[0] != ReloadType::BlackGroup && reload[1] != ReloadType::BlackGroup);
                }
            } else {
                assert(reload == seq![ReloadType::BlackGroup, ReloadType::WhileUser]);
                assert(!reload.contains(ReloadType::WhileGroup)) by {
                    assert(reload[0] != ReloadType::WhileGroup && reload[1] != ReloadType::WhileGroup);
                }
            }
        },
        Action::ListGroup | Action::ListUser { .. } => {
            assert(new == rules);
        },
    }
}

} // verus!
