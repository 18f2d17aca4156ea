//! The black and white lists held in memory, and the decision whether a
//! message may pass.

use vstd::prelude::*;
use crate::config::Policy;
use crate::rule::{ChatType, ItemType, Model};

verus! {

/// A listed group and the users for whom the group's rule is reversed.
#[derive(Debug, Clone, PartialEq, Eq)]
pub struct GroupInfo {
    /// The group's id.
    pub id: i64,
    /// Users excluded from the group's rule.
    pub exclude_user: Vec<i64>,
}

/// Which of the four lists to rebuild from the stored rules.
#[derive(Debug, Clone, Copy, PartialEq, Eq, Structural)]
pub enum ReloadType {
    WhileGroup,
    BlackGroup,
    WhileUser,
    BlackUser,
}

/// The lists that decide which messages pass.
pub struct DatabaseCache {
    pub white_groups: Vec<GroupInfo>,
    pub black_groups: Vec<GroupInfo>,
    pub white_users: Vec<i64>,
    pub black_users: Vec<i64>,
}

/// The groups of a list, as plain values: each group's id and excluded users.
pub open spec fn groups_view(gs: Seq<GroupInfo>) -> Seq<(i64, Seq<i64>)> {
    gs.map_values(|g: GroupInfo| (g.id, g.exclude_user@))
}

/// The opposite list.
pub open spec fn other_list(item: ItemType) -> ItemType {
    match item {
        ItemType::BlackList => ItemType::WhiteList,
        ItemType::WhiteList => ItemType::BlackList,
    }
}

/// Whether a rule lists a group on `item`.
pub open spec fn is_group_rule(r: Model, item: ItemType) -> bool {
    r.chat_type == ChatType::Group && r.item_type == item
}

/// Whether a rule lists a user on `item` inside the group `group`, the group
/// column compared as SQL's `=` compares: a `None` group (SQL `NULL`) matches
/// no rule, not even the rules without a group.
pub open spec fn is_user_rule(r: Model, item: ItemType, group: Option<i64>) -> bool {
    r.chat_type == ChatType::Private && r.item_type == item && group is Some && r.group_chat_id == group
}

/// The users that `rules` list on `item` inside `group`, in rule order.
pub open spec fn listed_users(rules: Seq<Model>, item: ItemType, group: Option<i64>) -> Seq<i64> {
    rules.filter(user_rule_pred(item, group)).map_values(rule_chat_id())
}

/// `is_user_rule` as a predicate.
pub open spec fn user_rule_pred(item: ItemType, group: Option<i64>) -> spec_fn(Model) -> bool {
    |r: Model| is_user_rule(r, item, group)
}

/// `is_group_rule` as a predicate.
pub open spec fn group_rule_pred(item: ItemType) -> spec_fn(Model) -> bool {
    |r: Model| is_group_rule(r, item)
}

/// The listed id of a rule.
pub open spec fn rule_chat_id() -> spec_fn(Model) -> i64 {
    |r: Model| r.chat_id
}

/// A listed group as built from its rule: its id and the users excluded inside it.
pub open spec fn group_entry(rules: Seq<Model>, item: ItemType) -> spec_fn(Model) -> (i64, Seq<i64>) {
    |r: Model| (r.chat_id, listed_users(rules, other_list(item), Some(r.chat_id)))
}

proof fn lemma_map_push<A, B>(s: Seq<A>, x: A, f: spec_fn(A) -> B)
    ensures
        s.push(x).map_values(f) == s.map_values(f).push(f(x)),
{
    assert(s.push(x).map_values(f) =~= s.map_values(f).push(f(x)));
}

/// The groups that `rules` list on `item`, in rule order; each one's
/// excluded users are those listed on the opposite list inside it.
pub open spec fn listed_groups(rules: Seq<Model>, item: ItemType) -> Seq<(i64, Seq<i64>)> {
    rules.filter(group_rule_pred(item)).map_values(group_entry(rules, item))
}

} // verus!

verus! {

fn user_rule_matches(r: &Model, item: ItemType, group: Option<i64>) -> (b: bool)
    ensures
        b == is_user_rule(*r, item, group),
{
    let chat_ok = match r.chat_type {
        ChatType::Private => true,
        ChatType::Group => false,
    };
    let item_ok = match (r.item_type, item) {
        (ItemType::BlackList, ItemType::BlackList) => true,
        (ItemType::WhiteList, ItemType::WhiteList) => true,
        _ => false,
    };
    let group_ok = match (r.group_chat_id, group) {
        (Some(a), Some(b)) => a == b,
        _ => false,
    };
    chat_ok && item_ok && group_ok
}

fn group_rule_matches(r: &Model, item: ItemType) -> (b: bool)
    ensures
        b == is_group_rule(*r, item),
{
    let chat_ok = match r.chat_type {
        ChatType::Group => true,
        ChatType::Private => false,
    };
    let item_ok = match (r.item_type, item) {
        (ItemType::BlackList, ItemType::BlackList) => true,
        (ItemType::WhiteList, ItemType::WhiteList) => true,
        _ => false,
    };
    chat_ok && item_ok
}

/// The users that `rules` list on `item` inside `group`.
pub fn users_on(rules: &Vec<Model>, item: ItemType, group: Option<i64>) -> (r: Vec<i64>)
    ensures
        r@ == listed_users(rules@, item, group),
{
    let ghost pred = user_rule_pred(item, group);
    let ghost f = rule_chat_id();
    let mut out: Vec<i64> = Vec::new();
    let mut i: usize = 0;
    while i < rules.len()
        invariant
            0 <= i <= rules@.len(),
            pred == user_rule_pred(item, group),
            f == rule_chat_id(),
            out@ == rules@.take(i as int).filter(pred).map_values(f),
        decreases rules@.len() - i,
    {
        let ghost before = rules@.take(i as int).filter(pred);
        proof {
            reveal(Seq::filter);
            assert(rules@.take(i + 1).drop_last() =~= rules@.take(i as int));
            assert(rules@.take(i + 1).last() == rules@[i as int]);
            assert(rules@.take(i + 1).filter(pred) == if pred(rules@[i as int]) {
                before.push(rules@[i as int])
            } else {
                before
            });
        }
        if user_rule_matches(&rules[i], item, group) {
            out.push(rules[i].chat_id);
            proof {
                lemma_map_push(before, rules@[i as int], f);
            }
        }
        i = i + 1;
    }
    assert(rules@.take(rules@.len() as int) =~= rules@);
    out
}

/// The groups that `rules` list on `item`, each with its excluded users.
pub fn groups_on(rules: &Vec<Model>, item: ItemType) -> (r: Vec<GroupInfo>)
    ensures
        groups_view(r@) == listed_groups(rules@, item),
{
    let ghost pred = group_rule_pred(item);
    let ghost f = group_entry(rules@, item);
    let other = match item {
        ItemType::BlackList => ItemType::WhiteList,
        ItemType::WhiteList => ItemType::BlackList,
    };
    let mut out: Vec<GroupInfo> = Vec::new();
    let mut i: usize = 0;
    while i < rules.len()
        invariant
            0 <= i <= rules@.len(),
            other == other_list(item),
            pred == group_rule_pred(item),
            f == group_entry(rules@, item),
            groups_view(out@) == rules@.take(i as int).filter(pred).map_values(f),
        decreases rules@.len() - i,
    {
        let ghost before = rules@.take(i as int).filter(pred);
        let ghost before_out = out@;
        proof {
            reveal(Seq::filter);
            assert(rules@.take(i + 1).drop_last() =~= rules@.take(i as int));
            assert(rules@.take(i + 1).last() == rules@[i as int]);
            assert(rules@.take(i + 1).filter(pred) == if pred(rules@[i as int]) {
                before.push(rules@[i as int])
            } else {
                before
            });
        }
        if group_rule_matches(&rules[i], item) {
            let id = rules[i].chat_id;
            let exclude_user = users_on(rules, other, Some(id));
            out.push(GroupInfo { id, exclude_user });
            proof {
                lemma_map_push(before_out, GroupInfo { id, exclude_user }, |g: GroupInfo| (g.id, g.exclude_user@));
                lemma_map_push(before, rules@[i as int], f);
            }
        }
        i = i + 1;
    }
    assert(rules@.take(rules@.len() as int) =~= rules@);
    out
}

} // verus!

verus! {

/// The excluded users of the first group of `gs` whose id is `g`.
pub open spec fn first_group(gs: Seq<(i64, Seq<i64>)>, g: i64) -> Option<Seq<i64>>
    decreases gs.len(),
{
    if gs.len() == 0 {
        None
    } else if gs[0].0 == g {
        Some(gs[0].1)
    } else {
        first_group(gs.drop_first(), g)
    }
}

/// Whether a policy lets a message pass; an unset policy is the default one.
pub open spec fn policy_allows(p: Option<Policy>) -> bool {
    match p {
        Some(Policy::Deny) => false,
        _ => true,
    }
}

/// Whether a message from `user` in `group` may pass.
///
/// A user on the black list is refused and a user on the white list passes.
/// Otherwise, in a white-listed group the message passes unless its user is
/// excluded there (or black-listed); in a black-listed group it is refused
/// unless its user is excluded there (or white-listed). Anything else follows
/// the default policy.
pub open spec fn spec_send_by_auth(
    white_groups: Seq<(i64, Seq<i64>)>,
    black_groups: Seq<(i64, Seq<i64>)>,
    white_users: Seq<i64>,
    black_users: Seq<i64>,
    policy: Option<Policy>,
    group: Option<i64>,
    user: Option<i64>,
) -> bool {
    if user matches Some(u) && black_users.contains(u) {
        false
    } else if user matches Some(u) && white_users.contains(u) {
        true
    } else if group matches Some(g) && first_group(white_groups, g) is Some {
        let ex = first_group(white_groups, group->0)->0;
        !(user matches Some(u) && (ex.contains(u) || black_users.contains(u)))
    } else if group matches Some(g) && first_group(black_groups, g) is Some {
        let ex = first_group(black_groups, group->0)->0;
        user matches Some(u) && (ex.contains(u) || white_users.contains(u))
    } else {
        policy_allows(policy)
    }
}

/// Whether `x` occurs in `v`.
pub fn contains_id(v: &Vec<i64>, x: i64) -> (r: bool)
    ensures
        r == v@.contains(x),
{
    let mut i: usize = 0;
    while i < v.len()
        invariant
            0 <= i <= v@.len(),
            forall|j: int| 0 <= j < i ==> v@[j] != x,
        decreases v@.len() - i,
    {
        if v[i] == x {
            assert(v@[i as int] == x);
            return true;
        }
        i = i + 1;
    }
    false
}

proof fn lemma_first_group_skip(gs: Seq<(i64, Seq<i64>)>, g: i64, i: int)
    requires
        0 <= i <= gs.len(),
        forall|j: int| 0 <= j < i ==> (#[trigger] gs[j]).0 != g,
    ensures
        first_group(gs, g) == first_group(gs.skip(i), g),
    decreases i,
{
    if i > 0 {
        let d = gs.drop_first();
        assert forall|j: int| 0 <= j < i - 1 implies (#[trigger] d[j]).0 != g by {
            assert(d[j] == gs[j + 1]);
        }
        lemma_first_group_skip(d, g, i - 1);
        assert(d.skip(i - 1) =~= gs.skip(i));
    } else {
        assert(gs.skip(0) =~= gs);
    }
}

/// The position of the first group of `gs` whose id is `g`.
fn find_group(gs: &Vec<GroupInfo>, g: i64) -> (r: Option<usize>)
    ensures
        match first_group(groups_view(gs@), g) {
            Some(ex) => r matches Some(k) && k < gs@.len() && gs@[k as int].exclude_user@ == ex,
            None => r is None,
        },
{
    let ghost gv = groups_view(gs@);
    let mut i: usize = 0;
    while i < gs.len()
        invariant
            gv == groups_view(gs@),
            0 <= i <= gs@.len(),
            forall|j: int| 0 <= j < i ==> (#[trigger] gv[j]).0 != g,
        decreases gs@.len() - i,
    {
        assert(gv[i as int] == (gs@[i as int].id, gs@[i as int].exclude_user@));
        if gs[i].id == g {
            proof {
                lemma_first_group_skip(gv, g, i as int);
                assert(gv.skip(i as int)[0] == gv[i as int]);
            }
            return Some(i);
        }
        i = i + 1;
    }
    proof {
        lemma_first_group_skip(gv, g, gv.len() as int);
    }
    None
}

impl DatabaseCache {
    /// Empty lists.
    pub fn new() -> (r: DatabaseCache)
        ensures
            r.white_groups@.len() == 0,
            r.black_groups@.len() == 0,
            r.white_users@.len() == 0,
            r.black_users@.len() == 0,
    {
        DatabaseCache { white_groups: Vec::new(), black_groups: Vec::new(), white_users: Vec::new(), black_users: Vec::new() }
    }

    /// The decision of `send_by_auth` on these lists.
    pub open spec fn allows(&self, policy: Option<Policy>, group: Option<i64>, user: Option<i64>) -> bool {
        spec_send_by_auth(
            groups_view(self.white_groups@),
            groups_view(self.black_groups@),
            self.white_users@,
            self.black_users@,
            policy,
            group,
            user,
        )
    }

    /// Whether a message from `user_id` in `group_id` may pass (see `spec_send_by_auth`).
    pub fn send_by_auth(&self, default_policy: Option<Policy>, group_id: Option<i64>, user_id: Option<i64>) -> (r: bool)
        ensures
            r == self.allows(default_policy, group_id, user_id),
    {
        if let Some(u) = user_id {
            if contains_id(&self.black_users, u) {
                return false;
            }
            if contains_id(&self.white_users, u) {
                return true;
            }
        }
        if let Some(g) = group_id {
            if let Some(k) = find_group(&self.white_groups, g) {
                if let Some(u) = user_id {
                    if contains_id(&self.white_groups[k].exclude_user, u) || contains_id(&self.black_users, u) {
                        return false;
                    } else {
                        return true;
                    }
                } else {
                    return true;
                }
            }
            if let Some(k) = find_group(&self.black_groups, g) {
                if let Some(u) = user_id {
                    if contains_id(&self.black_groups[k].exclude_user, u) || contains_id(&self.white_users, u) {
                        return true;
                    } else {
                        return false;
                    }
                } else {
                    return false;
                }
            }
        }
        match default_policy {
            Some(Policy::Deny) => false,
            _ => true,
        }
    }

    /// Rebuilds the lists that `types` names from the stored `rules`; the others stay.
    pub fn reload_database_data(&mut self, types: &Vec<ReloadType>, rules: &Vec<Model>)
        ensures
            groups_view(final(self).white_groups@) == if types@.contains(ReloadType::WhileGroup) {
                listed_groups(rules@, ItemType::WhiteList)
            } else {
                groups_view(old(self).white_groups@)
            },
            groups_view(final(self).black_groups@) == if types@.contains(ReloadType::BlackGroup) {
                listed_groups(rules@, ItemType::BlackList)
            } else {
                groups_view(old(self).black_groups@)
            },
            final(self).white_users@ == if types@.contains(ReloadType::WhileUser) {
                listed_users(rules@, ItemType::WhiteList, None)
            } else {
                old(self).white_users@
            },
            final(self).black_users@ == if types@.contains(ReloadType::BlackUser) {
                listed_users(rules@, ItemType::BlackList, None)
            } else {
                old(self).black_users@
            },
    {
        let ghost old_self = *self;
        let mut i: usize = 0;
        while i < types.len()
            invariant
                0 <= i <= types@.len(),
                groups_view(self.white_groups@) == if types@.take(i as int).contains(ReloadType::WhileGroup) {
                    listed_groups(rules@, ItemType::WhiteList)
                } else {
                    groups_view(old_self.white_groups@)
                },
                groups_view(self.black_groups@) == if types@.take(i as int).contains(ReloadType::BlackGroup) {
                    listed_groups(rules@, ItemType::BlackList)
                } else {
                    groups_view(old_self.black_groups@)
                },
                self.white_users@ == if types@.take(i as int).contains(ReloadType::WhileUser) {
                    listed_users(rules@, ItemType::WhiteList, None)
                } else {
                    old_self.white_users@
                },
                self.black_users@ == if types@.take(i as int).contains(ReloadType::BlackUser) {
                    listed_users(rules@, ItemType::BlackList, None)
                } else {
                    old_self.black_users@
                },
            decreases types@.len() - i,
        {
            let t = types[i];
            proof {
                assert forall|x: ReloadType| types@.take(i + 1).contains(x) <==> (types@.take(i as int).contains(x) || x == t) by {
                    if types@.take(i + 1).contains(x) {
                        let j = choose|j: int| 0 <= j < i + 1 && #[trigger] types@.take(i + 1)[j] == x;
                        if j < i {
                            assert(types@.take(i as int)[j] == x);
                        }
                    }
                    if types@.take(i as int).contains(x) {
                        let j = choose|j: int| 0 <= j < i && #[trigger] types@.take(i as int)[j] == x;
                        assert(types@.take(i + 1)[j] == x);
                    }
                    if x == t {
                        assert(types@.take(i + 1)[i as int] == x);
                    }
                }
            }
            match t {
                ReloadType::WhileGroup => {
                    self.white_groups = groups_on(rules, ItemType::WhiteList);
                },
                ReloadType::BlackGroup => {
                    self.black_groups = groups_on(rules, ItemType::BlackList);
                },
                ReloadType::WhileUser => {
                    self.white_users = users_on(rules, ItemType::WhiteList, None);
                },
                ReloadType::BlackUser => {
                    self.black_users = users_on(rules, ItemType::BlackList, None);
                },
            }
            i = i + 1;
        }
        assert(types@.take(types@.len() as int) =~= types@);
    }
}

} // verus!

verus! {

impl DatabaseCache {
    /// Rebuilds all four lists from the stored `rules`.
    pub fn load(&mut self, rules: &Vec<Model>)
        ensures
            groups_view(final(self).white_groups@) == listed_groups(rules@, ItemType::WhiteList),
            groups_view(final(self).black_groups@) == listed_groups(rules@, ItemType::BlackList),
            final(self).white_users@ == listed_users(rules@, ItemType::WhiteList, None),
            final(self).black_users@ == listed_users(rules@, ItemType::BlackList, None),
    {
        let types = vec![ReloadType::WhileGroup, ReloadType::BlackGroup, ReloadType::WhileUser, ReloadType::BlackUser];
        assert(types@[0] == ReloadType::WhileGroup && types@[1] == ReloadType::BlackGroup);
        assert(types@[2] == ReloadType::WhileUser && types@[3] == ReloadType::BlackUser);
        self.reload_database_data(&types, rules);
    }
}

/// A black-listed user is refused, wherever the message comes from.
pub proof fn law_black_user_refused(cache: DatabaseCache, policy: Option<Policy>, group: Option<i64>, u: i64)
    requires
        cache.black_users@.contains(u),
    ensures
        !cache.allows(policy, group, Some(u)),
{
}

/// A white-listed user who is not black-listed passes, wherever the message comes from.
pub proof fn law_white_user_passes(cache: DatabaseCache, policy: Option<Policy>, group: Option<i64>, u: i64)
    requires
        cache.white_users@.contains(u),
        !cache.black_users@.contains(u),
    ensures
        cache.allows(policy, group, Some(u)),
{
}

/// With empty lists every message follows the default policy.
pub proof fn law_empty_lists_follow_policy(cache: DatabaseCache, policy: Option<Policy>, group: Option<i64>, user: Option<i64>)
    requires
        cache.white_groups@.len() == 0,
        cache.black_groups@.len() == 0,
        cache.white_users@.len() == 0,
        cache.black_users@.len() == 0,
    ensures
        cache.allows(policy, group, user) == policy_allows(policy),
{
    if let Some(g) = group {
        assert(groups_view(cache.white_groups@).len() == 0);
        assert(groups_view(cache.black_groups@).len() == 0);
    }
}

/// In a white-listed group, a user who is excluded there (and on neither user
/// list) is refused.
pub proof fn law_excluded_from_white_group(cache: DatabaseCache, policy: Option<Policy>, g: i64, u: i64)
    requires
        !cache.black_users@.contains(u),
        !cache.white_users@.contains(u),
        first_group(groups_view(cache.white_groups@), g) matches Some(ex) && ex.contains(u),
    ensures
        !cache.allows(policy, Some(g), Some(u)),
{
}

/// In a black-listed group that is not white-listed, a user who is excluded
/// there passes, and any other user on neither user list is refused.
pub proof fn law_black_group(cache: DatabaseCache, policy: Option<Policy>, g: i64, u: i64)
    requires
        !cache.black_users@.contains(u),
        !cache.white_users@.contains(u),
        first_group(groups_view(cache.white_groups@), g) is None,
        first_group(groups_view(cache.black_groups@), g) is Some,
    ensures
        cache.allows(policy, Some(g), Some(u)) == first_group(groups_view(cache.black_groups@), g)->0.contains(u),
{
}

/// The lists of users that apply everywhere, as rebuilt from the stored
/// rules, are always empty: they look for rules whose group equals `NULL`,
/// which no rule does.
pub proof fn law_no_group_user_lists_empty(rules: Seq<Model>, item: ItemType)
    ensures
        listed_users(rules, item, None) == Seq::<i64>::empty(),
    decreases rules.len(),
{
    reveal(Seq::filter);
    if rules.len() > 0 {
        law_no_group_user_lists_empty(rules.drop_last(), item);
        assert(rules.drop_last().filter(user_rule_pred(item, None)).map_values(rule_chat_id()).len() == 0);
        assert(rules.filter(user_rule_pred(item, None)) == rules.drop_last().filter(user_rule_pred(item, None)));
    }
    assert(listed_users(rules, item, None) =~= Seq::<i64>::empty());
}

} // verus!
