use quicktick::db::{DbEvent, Fetch, Next};
use quicktick::helper::{login_begin, login_resume, logout, LoginPhase};
use quicktick::https::delete::board::{delete_board_cauth_begin, delete_board_cauth_resume, DeleteBoardPhase};
use quicktick::https::delete::task::{delete_task_auth_begin, delete_task_auth_resume, DeleteTaskPhase};
use quicktick::https::delete::user::{delete_user_begin, delete_user_resume, DeleteUserPhase};
use quicktick::https::get::board::{all_user_boards_cauth_begin, all_user_boards_cauth_resume};
use quicktick::https::get::task::{all_board_tasks_cauth_begin, all_user_tasks_cauth_begin, task_list_resume};
use quicktick::https::patch::task::{handle_task_action_begin, handle_task_action_resume};
use quicktick::https::patch::user::{handle_user_action_begin, handle_user_action_resume};
use quicktick::https::post::task::{create_task_cauth_begin, create_task_cauth_resume, CreateTaskPhase};
use quicktick::https::post::user::{create_user_begin, create_user_resume, CreateUserPhase};
use quicktick::models::{Board, Task, User};
use quicktick::password::{check_password, hash_password, new_salt};
use quicktick::reply::{Body, Reply, SessionCookie};
use quicktick::request::{JsonField, RequestBody};

fn text(k: &str, v: &str) -> (String, JsonField) {
    (k.to_string(), JsonField::Text(v.to_string()))
}

fn body(fields: Vec<(String, JsonField)>) -> RequestBody {
    RequestBody { fields }
}

fn cookie(v: &str) -> Option<String> {
    Some(v.to_string())
}

fn user(uuid: &str, password: &str, salt: &str) -> User {
    User {
        uuid: uuid.to_string(),
        name: "jon".to_string(),
        email: "jon@example.com".to_string(),
        password: password.to_string(),
        salt: salt.to_string(),
    }
}

fn task(uuid: &str) -> Task {
    Task {
        uuid: uuid.to_string(),
        name: "n".to_string(),
        description: "d".to_string(),
        completed: false,
        user_uuid: "u1".to_string(),
        board_uuid: "b1".to_string(),
    }
}

fn asked<P>(next: Next<P>) -> (P, String, Fetch) {
    match next {
        Next::Ask(p, q) => (p, q.sql, q.fetch),
        Next::Reply(r) => panic!("expected a query, got a reply with status {}", r.status),
        Next::Abort => panic!("expected a query, got abort"),
    }
}

fn replied<P>(next: Next<P>) -> Reply {
    match next {
        Next::Reply(r) => r,
        _ => panic!("expected a reply"),
    }
}

fn message(r: &Reply) -> &str {
    match &r.body {
        Body::Message(m) => m.as_str(),
        _ => panic!("expected a message body"),
    }
}

// A hash of "correctbatteryhorsestapler" (from the bcrypt crate's tests).
const KNOWN_HASH: &str = "$2b$04$EGdrhbKUv8Oc9vGiXX0HQOxSg445d458Muh7DAHskb6QbtCvdxcie";

#[test]
fn bcrypt_check_accepts_only_matching_passwords() {
    assert!(check_password("correctbatteryhorsestapler", KNOWN_HASH));
    assert!(!check_password("wrong", KNOWN_HASH));
    assert!(!check_password("correctbatteryhorsestapler", "$2a$04$tjARW6ZON3PhrAIRW2LG/u9a."));
    assert!(!check_password("x", "not a hash"));
}

#[test]
fn login_by_email_and_password() {
    let (phase, sql, fetch) = asked(login_begin(&None, &"jon@example.com".to_string(), "correctbattery".to_string()));
    assert_eq!(sql, "SELECT * FROM user WHERE email =\"jon@example.com\" ");
    assert_eq!(fetch, Fetch::OptionalUser);
    let r = replied(login_resume(phase, DbEvent::User(Some(user("u1", KNOWN_HASH, "horsestapler")))));
    assert_eq!(r.status, 200);
    assert_eq!(message(&r), "Logged in");
    assert!(matches!(&r.cookie, SessionCookie::Start(u) if u == "u1"));
}

#[test]
fn login_with_wrong_password_is_refused() {
    let (phase, _, _) = asked(login_begin(&None, &"jon@example.com".to_string(), "wrong".to_string()));
    let r = replied(login_resume(phase, DbEvent::User(Some(user("u1", KNOWN_HASH, "")))));
    assert_eq!((r.status, message(&r)), (401, "There isn't a matching password, email was found"));
    assert!(matches!(r.cookie, SessionCookie::Keep));
}

#[test]
fn login_with_unparsable_hash_is_refused() {
    let (phase, _, _) = asked(login_begin(&None, &"a@b".to_string(), "pw".to_string()));
    let r = replied(login_resume(phase, DbEvent::User(Some(user("u1", "garbage", "s")))));
    assert_eq!(r.status, 401);
    assert_eq!(message(&r), "There isn't a matching password, email was found");
    assert!(matches!(r.cookie, SessionCookie::Keep));
}

#[test]
fn login_unknown_email_and_failure() {
    let (phase, _, _) = asked(login_begin(&None, &"a@b".to_string(), "pw".to_string()));
    let r = replied(login_resume(phase, DbEvent::User(None)));
    assert_eq!((r.status, message(&r)), (401, "There isn't any matching email"));
    let (phase, _, _) = asked(login_begin(&None, &"a@b".to_string(), "pw".to_string()));
    let r = replied(login_resume(phase, DbEvent::Failed));
    assert_eq!((r.status, message(&r)), (500, "Failed while looking for email"));
}

#[test]
fn login_by_cookie() {
    let (phase, sql, fetch) = asked(login_begin(&cookie("u7"), &"cookie".to_string(), "cookie".to_string()));
    assert!(matches!(phase, LoginPhase::ByCookie));
    assert_eq!(sql, "SELECT * FROM user WHERE uuid = \"u7\"");
    assert_eq!(fetch, Fetch::OneUser);
    let r = replied(login_resume(phase, DbEvent::User(Some(user("u7", "h", "s")))));
    assert_eq!(r.status, 200);
    assert!(matches!(&r.body, Body::Account(u) if u.uuid == "u7"));
    let (phase, _, _) = asked(login_begin(&cookie("u7"), &"cookie".to_string(), "cookie".to_string()));
    let r = replied(login_resume(phase, DbEvent::Failed));
    assert_eq!((r.status, message(&r)), (500, "Failed while using cookie as login. Relogin please."));
    // Without a cookie the words are an ordinary address and password.
    let (phase, sql, _) = asked(login_begin(&None, &"cookie".to_string(), "cookie".to_string()));
    assert!(matches!(phase, LoginPhase::ByEmail { .. }));
    assert_eq!(sql, "SELECT * FROM user WHERE email =\"cookie\" ");
}

#[test]
fn logout_clears_cookie() {
    let r = logout();
    assert_eq!(r.status, 200);
    assert!(matches!(r.body, Body::Null));
    assert!(matches!(r.cookie, SessionCookie::Clear));
}

#[test]
fn create_user_full_flow() {
    let b = body(vec![text("email", "jonhyS@gmail.com"), text("password", "123469"), text("name", "jon")]);
    let (phase, sql, fetch) = asked(create_user_begin(&b));
    assert_eq!(sql, "SELECT * FROM user WHERE email =\"jonhyS@gmail.com\"");
    assert_eq!(fetch, Fetch::OptionalUser);
    let (phase, sql, fetch) = asked(create_user_resume(phase, DbEvent::User(None)));
    assert_eq!(fetch, Fetch::Execute);
    let hashed = match &phase {
        CreateUserPhase::Inserting { email, hashed } => {
            assert_eq!(email, "jonhyS@gmail.com");
            hashed.clone()
        }
        _ => panic!("expected the insert phase"),
    };
    assert_ne!(hashed, "123469");
    let prefix = format!("INSERT INTO user (email, password, name, salt) VALUES ('jonhyS@gmail.com', '{}', 'jon', '", hashed);
    assert!(sql.starts_with(&prefix));
    let salt = &sql[prefix.len()..sql.len() - 2];
    assert_eq!(salt.len(), 7);
    assert!(salt.chars().all(|c| c.is_ascii_alphanumeric()));
    assert!(sql.ends_with("')"));
    assert!(check_password(&format!("123469{}", salt), &hashed));
    let (phase, sql, fetch) = asked(create_user_resume(phase, DbEvent::Affected(1)));
    assert_eq!(sql, format!("SELECT uuid FROM user WHERE email = 'jonhyS@gmail.com' AND password = '{}'", hashed));
    assert_eq!(fetch, Fetch::UuidColumn);
    let (phase, sql, fetch) = asked(create_user_resume(phase, DbEvent::Uuid("u9".to_string())));
    assert_eq!(sql, "INSERT INTO board (name, user_uuid, special ) VALUES ( 'Home' , 'u9', '1' ), ( 'Archive' , 'u9', '2' )");
    assert_eq!(fetch, Fetch::Execute);
    let r = replied(create_user_resume(phase, DbEvent::Affected(2)));
    assert_eq!(r.status, 200);
    assert!(matches!(r.body, Body::Null));
    assert!(matches!(&r.cookie, SessionCookie::Start(u) if u == "u9"));

    // The stored account now signs in with the password given at sign-up.
    let (phase, _, _) = asked(login_begin(&None, &"jonhyS@gmail.com".to_string(), "123469".to_string()));
    let stored = User {
        uuid: "u9".to_string(),
        name: "jon".to_string(),
        email: "jonhyS@gmail.com".to_string(),
        password: hashed.clone(),
        salt: salt.to_string(),
    };
    let r = replied(login_resume(phase, DbEvent::User(Some(stored))));
    assert_eq!((r.status, message(&r)), (200, "Logged in"));
    assert!(matches!(&r.cookie, SessionCookie::Start(u) if u == "u9"));

    // The session cookie then signs in by itself.
    let (phase, sql, _) = asked(login_begin(&cookie("u9"), &"cookie".to_string(), "cookie".to_string()));
    assert!(matches!(phase, LoginPhase::ByCookie));
    assert_eq!(sql, "SELECT * FROM user WHERE uuid = \"u9\"");
}

#[test]
fn password_hash_and_salt() {
    let h = hash_password("abc123").unwrap();
    assert_ne!(h, "abc123");
    assert!(h.starts_with("$2b$10$"));
    assert_eq!(h.len(), 60);
    assert!(check_password("abc123", &h));
    let s = new_salt();
    assert_eq!(s.chars().count(), 7);
    assert!(s.chars().all(|c| c.is_ascii_alphanumeric()));
}

#[test]
fn no_cookie_is_not_a_cookie_sign_in() {
    // A cookie whose value is the stand-in for "no session" counts as none.
    let (phase, _, _) = asked(login_begin(&cookie("FAILED"), &"cookie".to_string(), "cookie".to_string()));
    assert!(matches!(phase, LoginPhase::ByEmail { .. }));
}

#[test]
fn create_user_refusals() {
    let r = replied(create_user_begin(&body(vec![text("email", "e"), text("name", "n")])));
    assert_eq!((r.status, message(&r)), (400, "Incorrect json body. Check the docs for correct version."));
    let b = body(vec![text("email", "e"), text("password", "p"), text("name", "n")]);
    let (phase, _, _) = asked(create_user_begin(&b));
    let r = replied(create_user_resume(phase, DbEvent::User(Some(user("u", "h", "s")))));
    assert_eq!((r.status, message(&r)), (400, "Email already exists"));
    let (phase, _, _) = asked(create_user_begin(&b));
    let r = replied(create_user_resume(phase, DbEvent::Failed));
    assert_eq!((r.status, message(&r)), (500, "Account with that email already exists"));
    let phase = CreateUserPhase::Inserting { email: "e".to_string(), hashed: "h".to_string() };
    let r = replied(create_user_resume(phase, DbEvent::Failed));
    assert_eq!((r.status, message(&r)), (500, "Account creation failed"));
    let r = replied(create_user_resume(CreateUserPhase::FindingUuid, DbEvent::Failed));
    assert_eq!((r.status, message(&r)), (500, "Account doesn't exist, but creation failed"));
    let phase = CreateUserPhase::AddingBoards { user_uuid: "u".to_string() };
    let r = replied(create_user_resume(phase, DbEvent::Failed));
    assert_eq!((r.status, message(&r)), (500, "Failed while creating task"));
    assert!(matches!(r.cookie, SessionCookie::Keep));
}

#[test]
fn create_task_flow() {
    let b = body(vec![text("name", "n"), text("description", "d"), text("uuid", "t1"), text("board_uuid", "b1")]);
    let (phase, sql, fetch) = asked(create_task_cauth_begin(&cookie("u1"), &b));
    assert_eq!(sql, "SELECT * FROM user WHERE uuid = \"u1\" ");
    assert_eq!(fetch, Fetch::OptionalUser);
    let (phase, sql, fetch) = asked(create_task_cauth_resume(&cookie("u1"), phase, DbEvent::User(Some(user("u1", "h", "s")))));
    assert_eq!(sql, "SELECT * FROM board WHERE uuid = \"b1\" ");
    assert_eq!(fetch, Fetch::OptionalBoard);
    let board = Board { uuid: "b1".to_string(), name: "Home".to_string(), user_uuid: "u1".to_string(), special: Some(1) };
    let (phase, sql, fetch) = asked(create_task_cauth_resume(&cookie("u1"), phase, DbEvent::Board(Some(board))));
    assert!(matches!(phase, CreateTaskPhase::Inserting));
    assert_eq!(sql, "INSERT INTO task (name, description, completed, user_uuid, uuid, board_uuid) VALUES ( \"n\" , \"d\" , false, \"u1\", \"t1\", 'b1' )");
    assert_eq!(fetch, Fetch::Execute);
    let r = replied(create_task_cauth_resume(&cookie("u1"), phase, DbEvent::Affected(1)));
    assert_eq!(r.status, 200);
    assert!(matches!(r.body, Body::Null));
}

#[test]
fn create_task_refusals() {
    let missing = body(vec![text("name", "n"), text("uuid", "t1"), text("board_uuid", "b1")]);
    let r = replied(create_task_cauth_begin(&cookie("u1"), &missing));
    assert_eq!((r.status, message(&r)), (400, "Incorrect json body. Check the docs for correct version."));
    let b = body(vec![text("name", "n"), text("description", "d"), text("uuid", "t1"), text("board_uuid", "b1")]);
    let (phase, sql, _) = asked(create_task_cauth_begin(&None, &b));
    assert_eq!(sql, "SELECT * FROM user WHERE uuid = \"FAILED\" ");
    let r = replied(create_task_cauth_resume(&None, phase, DbEvent::User(None)));
    assert_eq!((r.status, message(&r)), (401, "There isn't any matching account, please login again."));
    let (phase, _, _) = asked(create_task_cauth_begin(&cookie("u1"), &b));
    let r = replied(create_task_cauth_resume(&cookie("u1"), phase, DbEvent::Failed));
    assert_eq!((r.status, message(&r)), (500, "Failed while looking for credentials"));
    let (phase, _, _) = asked(create_task_cauth_begin(&cookie("u1"), &b));
    let (phase, _, _) = asked(create_task_cauth_resume(&cookie("u1"), phase, DbEvent::User(Some(user("u1", "h", "s")))));
    let r = replied(create_task_cauth_resume(&cookie("u1"), phase, DbEvent::Board(None)));
    assert_eq!((r.status, message(&r)), (401, "There isn't any matching board."));
    let r = replied(create_task_cauth_resume(&cookie("u1"), CreateTaskPhase::Inserting, DbEvent::Failed));
    assert_eq!((r.status, message(&r)), (500, "Failed while creating task"));
}

#[test]
fn delete_task_flow() {
    let (phase, sql, fetch) = asked(delete_task_auth_begin(&cookie("u1")));
    assert_eq!(sql, "SELECT * FROM user WHERE uuid =\"u1\"");
    assert_eq!(fetch, Fetch::OptionalUser);
    let id = "t1".to_string();
    let (phase, sql, fetch) = asked(delete_task_auth_resume(&cookie("u1"), &id, phase, DbEvent::User(Some(user("u1", "h", "s")))));
    assert_eq!(phase, DeleteTaskPhase::Deleting);
    assert_eq!(sql, "DELETE FROM task WHERE uuid = \"t1\" AND user_uuid = \"u1\"");
    assert_eq!(fetch, Fetch::Execute);
    let r = replied(delete_task_auth_resume(&cookie("u1"), &id, phase, DbEvent::Affected(1)));
    assert_eq!(r.status, 200);
    let r = replied(delete_task_auth_resume(&cookie("u1"), &id, DeleteTaskPhase::Deleting, DbEvent::Affected(0)));
    assert_eq!((r.status, message(&r)), (404, "Task not found"));
    let r = replied(delete_task_auth_resume(&cookie("u1"), &id, DeleteTaskPhase::Deleting, DbEvent::Failed));
    assert_eq!((r.status, message(&r)), (500, "Credentials were found, but the deleting of the task errored"));
    let r = replied(delete_task_auth_resume(&None, &id, DeleteTaskPhase::CheckingUser, DbEvent::User(None)));
    assert_eq!((r.status, message(&r)), (401, "There aren't any matching credentials. Try loggin in again."));
}

#[test]
fn delete_board_flow() {
    let id = "b1".to_string();
    let (phase, sql, _) = asked(delete_board_cauth_begin(&cookie("u1")));
    assert_eq!(sql, "SELECT * FROM user WHERE uuid =\"u1\"");
    let (phase, sql, fetch) = asked(delete_board_cauth_resume(&cookie("u1"), &id, phase, DbEvent::User(Some(user("u1", "h", "s")))));
    assert_eq!(sql, "DELETE board, task FROM board\n         LEFT JOIN task ON board.uuid = task.board_uuid\n         WHERE (board.uuid = 'b1' OR task.board_uuid = 'b1') AND board.user_uuid = 'u1'");
    assert_eq!(fetch, Fetch::Execute);
    let r = replied(delete_board_cauth_resume(&cookie("u1"), &id, phase, DbEvent::Affected(3)));
    assert_eq!(r.status, 200);
    let r = replied(delete_board_cauth_resume(&cookie("u1"), &id, DeleteBoardPhase::Deleting, DbEvent::Affected(0)));
    assert_eq!((r.status, message(&r)), (404, "Board not found"));
    let r = replied(delete_board_cauth_resume(&cookie("u1"), &id, DeleteBoardPhase::Deleting, DbEvent::Failed));
    assert_eq!((r.status, message(&r)), (500, "Authorized , but the deleting of the board failed"));
    let r = replied(delete_board_cauth_resume(&cookie("u1"), &id, DeleteBoardPhase::CheckingUser, DbEvent::Failed));
    assert_eq!((r.status, message(&r)), (500, "Failed while looking for credentials"));
}

#[test]
fn delete_user_outcomes() {
    let (phase, sql, _) = asked(delete_user_begin(&cookie("u1")));
    assert_eq!(sql, "DELETE FROM `task` WHERE user_uuid = \"u1\"");
    let (phase, sql, _) = asked(delete_user_resume(&cookie("u1"), phase, DbEvent::Affected(0)));
    assert_eq!(sql, "DELETE FROM `user` WHERE uuid = \"u1\" ");
    assert_eq!(phase, DeleteUserPhase::DeletingUser { tasks_deleted: true });
    let r = replied(delete_user_resume(&cookie("u1"), phase, DbEvent::Affected(1)));
    assert_eq!(r.status, 200);
    assert!(matches!(r.cookie, SessionCookie::Clear));
    let (phase, _, _) = asked(delete_user_resume(&cookie("u1"), DeleteUserPhase::DeletingTasks, DbEvent::Failed));
    assert_eq!(phase, DeleteUserPhase::DeletingUser { tasks_deleted: false });
    let r = replied(delete_user_resume(&cookie("u1"), phase, DbEvent::Affected(1)));
    assert_eq!((r.status, message(&r)), (500, "Error deleting user from task table"));
    assert!(matches!(r.cookie, SessionCookie::ClearBare));
    let r = replied(delete_user_resume(&cookie("u1"), DeleteUserPhase::DeletingUser { tasks_deleted: true }, DbEvent::Failed));
    assert_eq!((r.status, message(&r)), (500, "Error deleting user from user table"));
    assert!(matches!(r.cookie, SessionCookie::Keep));
    let r = replied(delete_user_resume(&cookie("u1"), DeleteUserPhase::DeletingUser { tasks_deleted: false }, DbEvent::Failed));
    assert_eq!((r.status, message(&r)), (500, "Error deleting user from both tables"));
}

#[test]
fn listings() {
    let (phase, sql, fetch) = asked(all_user_tasks_cauth_begin(&cookie("u1")));
    assert_eq!(sql, "SELECT * FROM task WHERE user_uuid=\"u1\"");
    assert_eq!(fetch, Fetch::AllTasks);
    let r = replied(task_list_resume(phase, DbEvent::Tasks(vec![task("t1"), task("t2")])));
    assert_eq!(r.status, 200);
    assert!(matches!(&r.body, Body::Tasks(v) if v.len() == 2 && v[1].uuid == "t2"));
    let (phase, sql, _) = asked(all_board_tasks_cauth_begin(&None, &"b1".to_string()));
    assert_eq!(sql, "SELECT * FROM task WHERE user_uuid='FAILED' AND board_uuid = 'b1'");
    let r = replied(task_list_resume(phase, DbEvent::Failed));
    assert_eq!((r.status, message(&r)), (500, "Failed while fetching tasks"));
    let r = replied(all_board_tasks_cauth_begin(&cookie("u1"), &String::new()));
    assert_eq!((r.status, message(&r)), (400, "No board in the request."));
    let (phase, sql, fetch) = asked(all_user_boards_cauth_begin(&cookie("u1")));
    assert_eq!(sql, "SELECT * FROM board WHERE user_uuid=\"u1\"");
    assert_eq!(fetch, Fetch::AllBoards);
    let r = replied(all_user_boards_cauth_resume(phase, DbEvent::Boards(vec![])));
    assert!(matches!(&r.body, Body::Boards(v) if v.is_empty()));
    let (phase, _, _) = asked(all_user_boards_cauth_begin(&cookie("u1")));
    let r = replied(all_user_boards_cauth_resume(phase, DbEvent::Failed));
    assert_eq!((r.status, message(&r)), (500, "Failed while fetching tasks"));
}

#[test]
fn patch_flows() {
    let b = body(vec![text("action", "ToggleTask"), text("task_uuid", "t1")]);
    let (phase, sql, fetch) = asked(handle_task_action_begin(&cookie("u1"), &b));
    assert_eq!(sql, "UPDATE task SET completed = NOT completed WHERE uuid = \"t1\" AND user_uuid = \"u1\"");
    assert_eq!(fetch, Fetch::Execute);
    let r = replied(handle_task_action_resume(phase, DbEvent::Affected(0)));
    assert_eq!(r.status, 200);
    let (phase, _, _) = asked(handle_task_action_begin(&cookie("u1"), &b));
    let r = replied(handle_task_action_resume(phase, DbEvent::Failed));
    assert_eq!((r.status, message(&r)), (500, "Failed while processing task action"));
    let r = replied(handle_task_action_begin(&cookie("u1"), &body(vec![])));
    assert_eq!((r.status, message(&r)), (400, "Invalid JSON body"));
    let b = body(vec![text("action", "NewName"), text("new_name", "Ann")]);
    let (phase, sql, _) = asked(handle_user_action_begin(&cookie("u1"), &b));
    assert_eq!(sql, "UPDATE user SET name = \"Ann\" WHERE uuid = \"u1\"");
    let r = replied(handle_user_action_resume(phase, DbEvent::Affected(1)));
    assert_eq!(r.status, 200);
    let r = replied(handle_user_action_begin(&cookie("u1"), &body(vec![text("action", "NewName")])));
    assert_eq!((r.status, message(&r)), (400, "Invalid JSON body"));
}

#[test]
fn events_fit_their_queries() {
    assert!(DbEvent::Failed.answers(Fetch::UuidColumn));
    assert!(DbEvent::User(None).answers(Fetch::OptionalUser));
    assert!(!DbEvent::User(None).answers(Fetch::OneUser));
    assert!(DbEvent::User(Some(user("u", "h", "s"))).answers(Fetch::OneUser));
    assert!(!DbEvent::Affected(1).answers(Fetch::AllTasks));
}

#[test]
fn quick_dev() {
    // Create a new user.
    let b = body(vec![text("email", "jonhyS@gmail.com"), text("password", "123469"), text("name", "jon")]);
    let (phase, _, _) = asked(create_user_begin(&b));
    let (phase, _, _) = asked(create_user_resume(phase, DbEvent::User(None)));
    let (phase, _, _) = asked(create_user_resume(phase, DbEvent::Affected(1)));
    let (phase, _, _) = asked(create_user_resume(phase, DbEvent::Uuid("u1".to_string())));
    let r = replied(create_user_resume(phase, DbEvent::Affected(2)));
    assert_eq!(r.status, 200);

    // Log in by address and password.
    let (_, sql, _) = asked(login_begin(&None, &"jonhyS@gmail.com".to_string(), "123469".to_string()));
    assert_eq!(sql, "SELECT * FROM user WHERE email =\"jonhyS@gmail.com\" ");

    // Create a task with a body that names no board: it goes on the Home board.
    let task_body = body(vec![text("name", "taskname"), text("description", "taskdescription"), text("uuid", "0f6c")]);
    let (phase, _, _) = asked(create_task_cauth_begin(&cookie("u1"), &task_body));
    let (phase, sql, fetch) = asked(create_task_cauth_resume(&cookie("u1"), phase, DbEvent::User(Some(user("u1", "h", "s")))));
    assert_eq!(sql, "SELECT * FROM board WHERE user_uuid = \"u1\" AND special = 1");
    assert_eq!(fetch, Fetch::OptionalBoard);
    let home = Board { uuid: "b-home".to_string(), name: "Home".to_string(), user_uuid: "u1".to_string(), special: Some(1) };
    let (phase, sql, _) = asked(create_task_cauth_resume(&cookie("u1"), phase, DbEvent::Board(Some(home))));
    assert_eq!(sql, "INSERT INTO task (name, description, completed, user_uuid, uuid, board_uuid) VALUES ( \"taskname\" , \"taskdescription\" , false, \"u1\", \"0f6c\", 'b-home' )");
    let r = replied(create_task_cauth_resume(&cookie("u1"), phase, DbEvent::Affected(1)));
    assert_eq!(r.status, 200);
    assert!(matches!(r.body, Body::Null));

    // List the user's tasks.
    let (phase, _, _) = asked(all_user_tasks_cauth_begin(&cookie("u1")));
    let r = replied(task_list_resume(phase, DbEvent::Tasks(vec![])));
    assert!(matches!(&r.body, Body::Tasks(v) if v.is_empty()));

    // Delete the user.
    let (phase, _, _) = asked(delete_user_begin(&cookie("u1")));
    let (phase, _, _) = asked(delete_user_resume(&cookie("u1"), phase, DbEvent::Affected(0)));
    let r = replied(delete_user_resume(&cookie("u1"), phase, DbEvent::Affected(1)));
    assert_eq!(r.status, 200);
    assert!(matches!(r.cookie, SessionCookie::Clear));
}

#[test]
fn toggling_asks_the_same_update_each_time() {
    let b = body(vec![text("action", "ToggleTask"), text("task_uuid", "t1")]);
    let (_, first, _) = asked(handle_task_action_begin(&cookie("u1"), &b));
    let (_, second, _) = asked(handle_task_action_begin(&cookie("u1"), &b));
    assert_eq!(first, second);
    assert!(first.ends_with("WHERE uuid = \"t1\" AND user_uuid = \"u1\""));
}

#[test]
fn change_order_quotes_the_column() {
    let b = body(vec![text("action", "ChangeOrder"), text("task_uuid", "t1"), ("NewOrder".to_string(), JsonField::Integer(3))]);
    let (_, sql, _) = asked(handle_task_action_begin(&cookie("u1"), &b));
    assert_eq!(sql, "UPDATE task SET `order` = \"3\" WHERE uuid = \"t1\" AND user_uuid = \"u1\"");
}

#[test]
fn patch_user_renames_a_board() {
    let b = body(vec![text("board_uuid", "b1"), text("action", "RenameBoard"), text("NewName", "Work")]);
    let (phase, sql, fetch) = asked(handle_user_action_begin(&cookie("u1"), &b));
    assert_eq!(sql, "UPDATE board SET name = \"Work\" WHERE uuid = \"b1\" AND user_uuid = \"u1\"");
    assert_eq!(fetch, Fetch::Execute);
    let r = replied(handle_user_action_resume(phase, DbEvent::Affected(1)));
    assert_eq!(r.status, 200);
    assert!(matches!(r.body, Body::Null));
}
