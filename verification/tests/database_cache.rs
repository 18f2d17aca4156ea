use onebot_forward::config::Policy;
use onebot_forward::database_cache::{groups_on, users_on, DatabaseCache, GroupInfo, ReloadType};
use onebot_forward::rule::{ChatType, ItemType, Model};

fn rule(id: i64, chat_id: i64, chat_type: ChatType, item_type: ItemType, group_chat_id: Option<i64>) -> Model {
    Model { id, chat_id, chat_type, item_type, group_chat_id }
}

fn sample_rules() -> Vec<Model> {
    vec![
        rule(1, 100, ChatType::Group, ItemType::WhiteList, None),
        rule(2, 200, ChatType::Group, ItemType::BlackList, None),
        rule(3, 7, ChatType::Private, ItemType::BlackList, Some(100)),
        rule(4, 8, ChatType::Private, ItemType::WhiteList, Some(200)),
        rule(5, 9, ChatType::Private, ItemType::BlackList, None),
        rule(6, 10, ChatType::Private, ItemType::WhiteList, None),
        rule(7, 11, ChatType::Private, ItemType::BlackList, Some(200)),
    ]
}

#[test]
fn lists_from_rules() {
    let rules = sample_rules();
    // a `None` group is compared as SQL `= NULL`: no rule matches it
    assert_eq!(users_on(&rules, ItemType::BlackList, None), Vec::<i64>::new());
    assert_eq!(users_on(&rules, ItemType::WhiteList, None), Vec::<i64>::new());
    assert_eq!(users_on(&rules, ItemType::BlackList, Some(200)), vec![11]);
    assert_eq!(groups_on(&rules, ItemType::WhiteList), vec![GroupInfo { id: 100, exclude_user: vec![7] }]);
    assert_eq!(groups_on(&rules, ItemType::BlackList), vec![GroupInfo { id: 200, exclude_user: vec![8] }]);
}

#[test]
fn reload_only_named_lists() {
    let rules = sample_rules();
    let mut cache = DatabaseCache::new();
    cache.black_users = vec![1];
    cache.reload_database_data(&vec![ReloadType::WhileGroup], &rules);
    assert_eq!(cache.black_users, vec![1]);
    assert_eq!(cache.white_groups.len(), 1);
    assert!(cache.black_groups.is_empty());
    cache.reload_database_data(&vec![ReloadType::BlackUser], &rules);
    assert!(cache.black_users.is_empty());
    cache.load(&rules);
    assert!(cache.white_users.is_empty());
    assert_eq!(cache.white_groups.len(), 1);
    assert_eq!(cache.black_groups.len(), 1);
}

#[test]
fn send_by_auth_decisions() {
    let mut cache = DatabaseCache::new();
    cache.load(&sample_rules());
    cache.black_users = vec![9];
    cache.white_users = vec![10];
    let deny = Some(Policy::Deny);
    // black user refused everywhere, white user passes everywhere
    assert!(!cache.send_by_auth(None, Some(100), Some(9)));
    assert!(cache.send_by_auth(deny, Some(200), Some(10)));
    // white group: passes unless excluded
    assert!(cache.send_by_auth(deny, Some(100), Some(1)));
    assert!(!cache.send_by_auth(None, Some(100), Some(7)));
    assert!(cache.send_by_auth(deny, Some(100), None));
    // black group: refused unless excluded
    assert!(!cache.send_by_auth(None, Some(200), Some(1)));
    assert!(cache.send_by_auth(deny, Some(200), Some(8)));
    assert!(!cache.send_by_auth(None, Some(200), None));
    // nothing decides: default policy
    assert!(cache.send_by_auth(None, Some(300), Some(1)));
    assert!(cache.send_by_auth(Some(Policy::Allow), None, None));
    assert!(!cache.send_by_auth(deny, Some(300), Some(1)));
}

#[test]
fn empty_lists_follow_policy() {
    let cache = DatabaseCache::new();
    assert!(cache.send_by_auth(None, Some(1), Some(2)));
    assert!(!cache.send_by_auth(Some(Policy::Deny), Some(1), Some(2)));
}

#[test]
fn no_group_user_lists_stay_empty() {
    let rules = vec![
        rule(1, 5, ChatType::Private, ItemType::BlackList, None),
        rule(2, 6, ChatType::Private, ItemType::WhiteList, None),
    ];
    let mut cache = DatabaseCache::new();
    cache.load(&rules);
    assert!(cache.black_users.is_empty() && cache.white_users.is_empty());
    assert!(cache.send_by_auth(None, None, Some(5)));
}
