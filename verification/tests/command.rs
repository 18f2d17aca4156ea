use onebot_forward::command::{
    id_list_to_string, Action, Cli, CommandParseError, Commands, GroupMatch, RuleFilter, RuleOp, RuleOutcome,
};
use onebot_forward::database_cache::ReloadType;
use onebot_forward::rule::{ChatType, ItemType};

#[test]
fn test_parse_command_create_group() {
    let command = "黑名单 添加群 123";
    let cli = Cli::parse_command(command);
    println!("{:?}", cli);
}

#[test]
fn test_parse_command_create_user() {
    let command = "黑名单 添加人 123";
    let cli = Cli::parse_command(command);
    println!("{:?}", cli);
}

fn black(action: Action) -> Cli {
    Cli { command: Commands::Blacklist { action } }
}

fn white(action: Action) -> Cli {
    Cli { command: Commands::Whitelist { action } }
}

#[test]
fn parse_create_group_value() {
    assert_eq!(Cli::parse_command("黑名单 添加群 123"), Ok(black(Action::CreateGroup { id: 123 })));
}

#[test]
fn parse_create_user_without_group() {
    assert_eq!(
        Cli::parse_command("黑名单 添加人 123"),
        Ok(black(Action::CreateUser { id: 123, group_id: None }))
    );
}

#[test]
fn parse_aliases() {
    assert_eq!(Cli::parse_command("白名单 新增群 5"), Cli::parse_command("白名单 添加群 5"));
    assert_eq!(Cli::parse_command("白名单 移除群 5"), Ok(white(Action::DeleteGroup { id: 5 })));
    assert_eq!(Cli::parse_command("白名单 查询群"), Ok(white(Action::ListGroup)));
    assert_eq!(Cli::parse_command("黑名单 查询人"), Ok(black(Action::ListUser { group_id: None })));
    assert_eq!(
        Cli::parse_command("黑名单 移除人 7 -g 9"),
        Ok(black(Action::DeleteUser { id: 7, group_id: Some(9) }))
    );
}

#[test]
fn parse_group_option_forms() {
    let expected = Ok(black(Action::CreateUser { id: 1, group_id: Some(42) }));
    assert_eq!(Cli::parse_command("黑名单 添加人 1 -g 42"), expected);
    assert_eq!(Cli::parse_command("黑名单 添加人 -g 42 1"), expected);
    assert_eq!(Cli::parse_command("黑名单 添加人 1 -g42"), expected);
    assert_eq!(Cli::parse_command("黑名单 添加人 1 -g=42"), expected);
    assert_eq!(Cli::parse_command("  黑名单\t添加人   1  -g 42 \n"), expected);
    assert_eq!(
        Cli::parse_command("白名单 列表人 -g 8"),
        Ok(white(Action::ListUser { group_id: Some(8) }))
    );
}

#[test]
fn parse_rejects() {
    for text in [
        "",
        "黑名单",
        "灰名单 添加群 1",
        "黑名单 添加 1",
        "黑名单 添加群",
        "黑名单 添加群 1 2",
        "黑名单 添加群 x",
        "黑名单 添加群 1 -g 2",
        "黑名单 列表群 3",
        "黑名单 添加人 1 -g",
        "黑名单 添加人 1 -g 2 -g 3",
        "黑名单 添加人 1 -x 2",
        "黑名单 添加人 -5",
        "黑名单 添加群 99999999999999999999",
        "黑名单 --help",
    ] {
        assert_eq!(Cli::parse_command(text), Err(CommandParseError), "{}", text);
    }
}

#[test]
fn parse_signed_ids() {
    assert_eq!(Cli::parse_command("黑名单 添加群 +7"), Ok(black(Action::CreateGroup { id: 7 })));
    assert_eq!(
        Cli::parse_command("黑名单 添加群 9223372036854775807"),
        Ok(black(Action::CreateGroup { id: i64::MAX }))
    );
    assert_eq!(
        Cli::parse_command("黑名单 添加人 1 -g-5"),
        Ok(black(Action::CreateUser { id: 1, group_id: Some(-5) }))
    );
}

#[test]
fn plan_of_commands() {
    let c = black(Action::CreateGroup { id: 3 });
    match c.op() {
        RuleOp::InsertUnlessExists { exists, rule } => {
            assert_eq!(
                exists,
                RuleFilter { chat_id: Some(3), item_type: ItemType::BlackList, group_chat_id: GroupMatch::Any }
            );
            assert_eq!(rule.chat_type, ChatType::Group);
            assert_eq!(rule.group_chat_id, None);
        }
        other => panic!("unexpected {:?}", other),
    }
    assert_eq!(c.reload_types(), vec![ReloadType::BlackGroup]);
    let u = white(Action::DeleteUser { id: 4, group_id: Some(2) });
    assert_eq!(
        u.op(),
        RuleOp::DeleteMatching {
            filter: RuleFilter {
                chat_id: Some(4),
                item_type: ItemType::WhiteList,
                group_chat_id: GroupMatch::Equals(Some(2))
            }
        }
    );
    assert_eq!(u.reload_types(), vec![ReloadType::BlackGroup, ReloadType::WhileUser]);
    assert_eq!(
        black(Action::CreateUser { id: 1, group_id: None }).reload_types(),
        vec![ReloadType::WhileGroup, ReloadType::BlackUser]
    );
    assert_eq!(white(Action::ListGroup).reload_types(), vec![]);
}

#[test]
fn responses() {
    let c = black(Action::CreateGroup { id: 123 });
    let r = c.respond(&RuleOutcome::Inserted);
    assert_eq!((r.action.as_str(), r.success, r.data.as_str()), ("添加黑名单", true, "123"));
    assert_eq!(r.text(), "添加黑名单操作成功\n结果：123");
    let r = c.respond(&RuleOutcome::AlreadyExists);
    assert_eq!((r.action.as_str(), r.success, r.data.as_str()), ("添加黑名单", false, "已存在"));
    assert_eq!(r.text(), "添加黑名单操作失败\n结果：已存在");
    let d = white(Action::DeleteUser { id: 5, group_id: None });
    let r = d.respond(&RuleOutcome::Deleted { rows_affected: 0 });
    assert_eq!((r.action.as_str(), r.success, r.data.as_str()), ("删除白名单", false, "记录不存在"));
    let r = d.respond(&RuleOutcome::Deleted { rows_affected: 2 });
    assert_eq!((r.action.as_str(), r.success, r.data.as_str()), ("删除白名单", true, "0:5"));
    let e = white(Action::CreateUser { id: -5, group_id: Some(77) });
    assert_eq!(e.respond(&RuleOutcome::Inserted).data, "77:-5");
    let l = white(Action::ListUser { group_id: None });
    let r = l.respond(&RuleOutcome::Listed { chat_ids: vec![1, -2, 30] });
    assert_eq!((r.action.as_str(), r.success, r.data.as_str()), ("获取白名单列表", true, "[1, -2, 30]"));
}

#[test]
fn id_list_text_matches_debug() {
    for ids in [vec![], vec![0], vec![i64::MIN, i64::MAX, 7]] {
        assert_eq!(id_list_to_string(&ids), format!("{:?}", ids));
    }
}

#[test]
fn parse_double_dash_ends_options() {
    assert_eq!(Cli::parse_command("黑名单 添加群 -- 5"), Ok(black(Action::CreateGroup { id: 5 })));
    assert_eq!(
        Cli::parse_command("黑名单 添加人 -g 3 -- -5"),
        Ok(black(Action::CreateUser { id: -5, group_id: Some(3) }))
    );
    assert_eq!(Cli::parse_command("黑名单 添加人 -- 5 -g 3"), Err(CommandParseError));
    assert_eq!(Cli::parse_command("黑名单 添加群 -- -- 5"), Err(CommandParseError));
}

#[test]
fn parse_ignores_whitespace_layout() {
    let a = Cli::parse_command(" \t白名单\u{3000}\u{3000}删除人 8\n-g   9 ");
    let b = Cli::parse_command("白名单 删除人 8 -g 9");
    assert_eq!(a, b);
    assert_eq!(b, Ok(white(Action::DeleteUser { id: 8, group_id: Some(9) })));
}

#[test]
fn no_group_filter_is_sql_null() {
    let c = black(Action::CreateUser { id: 1, group_id: None });
    match c.op() {
        RuleOp::InsertUnlessExists { exists, .. } => assert_eq!(exists.group_chat_id, GroupMatch::Equals(None)),
        other => panic!("unexpected {:?}", other),
    }
}
