use quicktick::decimal::decimal_i32;
use quicktick::https::patch::task::{parse_task_request, task_update_sql, Action as TaskAction};
use quicktick::https::patch::user::{parse_user_request, user_update_sql, Action as UserAction};
use quicktick::literal::append_literal;
use quicktick::https::delete::task::delete_task_sql;
use quicktick::https::post::task::parse_new_task;
use quicktick::https::post::user::parse_new_account;
use quicktick::request::{JsonField, RequestBody};
use quicktick::session::{session_user_of, COOKIE_NAME};

fn text(k: &str, v: &str) -> (String, JsonField) {
    (k.to_string(), JsonField::Text(v.to_string()))
}

fn integer(k: &str, v: i64) -> (String, JsonField) {
    (k.to_string(), JsonField::Integer(v))
}

fn body(fields: Vec<(String, JsonField)>) -> RequestBody {
    RequestBody { fields }
}

#[test]
fn cookie_value_is_the_session_user() {
    assert_eq!(session_user_of(&Some("abc-123".to_string())), "abc-123");
    assert_eq!(session_user_of(&None), "FAILED");
    assert_eq!(COOKIE_NAME, "user_uuid");
}

#[test]
fn lookup_reads_strings_and_integers() {
    let b = body(vec![text("a", "x"), integer("n", 7), ("o".to_string(), JsonField::Other), text("a", "y")]);
    assert_eq!(b.get_str("a"), Some("x".to_string()));
    assert_eq!(b.get_str("n"), None);
    assert_eq!(b.get_i64("n"), Some(7));
    assert_eq!(b.get_i64("a"), None);
    assert_eq!(b.get_str("o"), None);
    assert_eq!(b.get_str("missing"), None);
}

#[test]
fn decimal_text_of_i32() {
    assert_eq!(decimal_i32(0), "0");
    assert_eq!(decimal_i32(7), "7");
    assert_eq!(decimal_i32(42), "42");
    assert_eq!(decimal_i32(-5), "-5");
    assert_eq!(decimal_i32(1000), "1000");
    assert_eq!(decimal_i32(i32::MAX), "2147483647");
    assert_eq!(decimal_i32(i32::MIN), "-2147483648");
}

#[test]
fn task_actions_are_read_by_name() {
    let b = body(vec![text("action", "RenameTask"), text("task_uuid", "t1"), text("NewName", "n")]);
    match parse_task_request(&b) {
        Some((t, TaskAction::RenameTask(n))) => {
            assert_eq!(t, "t1");
            assert_eq!(n, "n");
        }
        other => panic!("unexpected {:?}", other),
    }
    let b = body(vec![text("action", "ChangeDesc"), text("task_uuid", "t1")]);
    assert!(matches!(parse_task_request(&b), Some((_, TaskAction::ChangeDesc(d))) if d.is_empty()));
    let b = body(vec![text("task_uuid", "t1"), text("action", "ToggleTask")]);
    assert!(matches!(parse_task_request(&b), Some((_, TaskAction::ToggleTask))));
    let b = body(vec![text("action", "ChangeOrder"), text("task_uuid", "t1"), integer("NewOrder", 5)]);
    assert!(matches!(parse_task_request(&b), Some((_, TaskAction::ChangeOrder(5)))));
    let b = body(vec![text("action", "ChangeOrder"), text("task_uuid", "t1")]);
    assert!(matches!(parse_task_request(&b), Some((_, TaskAction::ChangeOrder(0)))));
    let b = body(vec![text("action", "ChangeOrder"), text("task_uuid", "t1"), integer("NewOrder", 4294967297)]);
    assert!(matches!(parse_task_request(&b), Some((_, TaskAction::ChangeOrder(1)))));
    let b = body(vec![text("action", "MoveBoard"), text("task_uuid", "t1"), text("NewBoard", "b2")]);
    assert!(matches!(parse_task_request(&b), Some((_, TaskAction::MoveBoard(m))) if m == "b2"));
    let b = body(vec![text("action", "ToggleCompleted"), text("task_uuid", "t1")]);
    assert!(parse_task_request(&b).is_none());
    let b = body(vec![text("action", "ToggleTask")]);
    assert!(parse_task_request(&b).is_none());
}

#[test]
fn task_update_queries() {
    assert_eq!(
        task_update_sql("t", "u", &TaskAction::RenameTask("n".to_string())),
        "UPDATE task SET name = \"n\" WHERE uuid = \"t\" AND user_uuid = \"u\""
    );
    assert_eq!(
        task_update_sql("t", "u", &TaskAction::ChangeDesc("d".to_string())),
        "UPDATE task SET description = \"d\" WHERE uuid = \"t\" AND user_uuid = \"u\""
    );
    assert_eq!(
        task_update_sql("t", "u", &TaskAction::ToggleTask),
        "UPDATE task SET completed = NOT completed WHERE uuid = \"t\" AND user_uuid = \"u\""
    );
    assert_eq!(
        task_update_sql("t", "u", &TaskAction::ChangeOrder(-12)),
        "UPDATE task SET `order` = \"-12\" WHERE uuid = \"t\" AND user_uuid = \"u\""
    );
    assert_eq!(
        task_update_sql("t", "u", &TaskAction::MoveBoard("b".to_string())),
        "UPDATE task SET board_uuid = 'b' WHERE uuid = 't' AND user_uuid = 'u'"
    );
}

#[test]
fn user_actions_are_read_by_name() {
    let b = body(vec![text("action", "NewName"), text("new_name", "Ann")]);
    assert!(matches!(parse_user_request(&b), Some(UserAction::ChangeName(n)) if n == "Ann"));
    let b = body(vec![text("action", "NewName")]);
    assert!(parse_user_request(&b).is_none());
    let b = body(vec![text("action", "ChangeName"), text("new_name", "Ann")]);
    assert!(parse_user_request(&b).is_none());
    let b = body(vec![text("board_uuid", "b1"), text("action", "RenameBoard"), text("NewName", "Work")]);
    match parse_user_request(&b) {
        Some(UserAction::RenameBoard { board_uuid, name }) => {
            assert_eq!((board_uuid.as_str(), name.as_str()), ("b1", "Work"));
        }
        other => panic!("unexpected {:?}", other),
    }
    let b = body(vec![text("action", "RenameBoard"), text("NewName", "Work")]);
    assert!(parse_user_request(&b).is_none());
    let b = body(vec![text("action", "RenameBoard"), text("board_uuid", "b1"), text("new_name", "Work")]);
    assert!(parse_user_request(&b).is_none());
}

#[test]
fn user_update_queries() {
    assert_eq!(
        user_update_sql("u", &UserAction::ChangeName("Ann".to_string())),
        "UPDATE user SET name = \"Ann\" WHERE uuid = \"u\""
    );
    assert_eq!(
        user_update_sql("u", &UserAction::RenameBoard { board_uuid: "b".to_string(), name: "W".to_string() }),
        "UPDATE board SET name = \"W\" WHERE uuid = \"b\" AND user_uuid = \"u\""
    );
}

#[test]
fn values_are_escaped_in_queries() {
    let mut q = String::from("x");
    append_literal(&mut q, "a\"b'c\\d");
    assert_eq!(q, "xa\\\"b\\'c\\\\d");
    let mut q = String::new();
    append_literal(&mut q, "plain ünïcode");
    assert_eq!(q, "plain ünïcode");
    assert_eq!(
        task_update_sql("t\" OR \"1\"=\"1", "u", &TaskAction::RenameTask("n\"".to_string())),
        "UPDATE task SET name = \"n\\\"\" WHERE uuid = \"t\\\" OR \\\"1\\\"=\\\"1\" AND user_uuid = \"u\""
    );
    assert_eq!(delete_task_sql("it's", "u"), "DELETE FROM task WHERE uuid = \"it\\'s\" AND user_uuid = \"u\"");
}

#[test]
fn new_task_and_account_bodies() {
    let b = body(vec![text("name", "n"), text("description", "d"), text("uuid", "u"), text("board_uuid", "b")]);
    let t = parse_new_task(&b).unwrap();
    assert_eq!((t.name.as_str(), t.description.as_str(), t.uuid.as_str()), ("n", "d", "u"));
    assert_eq!(t.board_uuid, Some("b".to_string()));
    let b = body(vec![text("name", "n"), text("description", "d"), text("uuid", "u")]);
    assert_eq!(parse_new_task(&b).unwrap().board_uuid, None);
    let b = body(vec![text("name", "n"), text("uuid", "u"), text("board_uuid", "b")]);
    assert!(parse_new_task(&b).is_none());
    let b = body(vec![text("email", "e"), text("password", "p"), text("name", "n")]);
    let a = parse_new_account(&b).unwrap();
    assert_eq!((a.email.as_str(), a.password.as_str(), a.name.as_str()), ("e", "p", "n"));
    let b = body(vec![text("email", "e"), integer("password", 1), text("name", "n")]);
    assert!(parse_new_account(&b).is_none());
}
