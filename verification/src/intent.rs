//! What the handlers are for, stated over all inputs: which account a
//! sign-in reads, which body member each task change takes its argument
//! from, when a deletion counts as done, what a listing carries, and how an
//! account deletion that fully succeeds ends.

use vstd::prelude::*;
use crate::db::{DbEvent, Fetch, Outcome};
use crate::helper::{LoginStage, login_entry, login_transition, email_account_text, cookie_account_text};
use crate::https::delete::board::{DeleteBoardPhase, delete_board_transition, BOARD_NOT_FOUND};
use crate::https::delete::task::{DeleteTaskPhase, delete_task_transition, TASK_NOT_FOUND};
use crate::https::delete::user::{DeleteUserPhase, delete_user_transition};
use crate::https::get::board::all_user_boards_transition;
use crate::https::get::task::task_list_transition;
use crate::https::patch::task::{ActionModel, task_request};
use crate::models::{Board, Task, User};
use crate::password::bcrypt_verdict;
use crate::https::patch::user::{ActionModel as AccountChange, user_request};
use crate::https::post::task::{NewTaskModel, new_task_request};
use crate::reply::{ReplyModel, BodyModel, CookieModel, OK, NOT_FOUND, UNAUTHORIZED, INTERNAL_SERVER_ERROR, message_reply};
use crate::request::RequestBody;
use crate::session::session_user;

verus! {

/// Signing in with an address and a password reads the account of that
/// address and checks the offered password, whether or not the request
/// still carries a session cookie. Only the words `cookie`/`cookie`, with a
/// session, read the cookie's account instead.
pub proof fn sign_in_reads_the_account_asked_for(
    cookie: Option<Seq<char>>,
    email: Seq<char>,
    password: Seq<char>,
)
    ensures
        (email != "cookie"@ || password != "cookie"@) ==> login_entry(cookie, email, password) == Outcome::Ask(
            LoginStage::ByEmail { password },
            "SELECT * FROM user WHERE email =\""@ + crate::literal::escaped(email) + "\" "@,
            Fetch::OptionalUser,
        ),
        (email == "cookie"@ && password == "cookie"@ && cookie is Some && cookie->0 != "FAILED"@) ==> login_entry(
            cookie,
            email,
            password,
        ) == Outcome::Ask(
            LoginStage::ByCookie,
            "SELECT * FROM user WHERE uuid = \""@ + crate::literal::escaped(cookie->0) + "\""@,
            Fetch::OneUser,
        ),
        cookie is None ==> login_entry(cookie, email, password) == Outcome::Ask(
            LoginStage::ByEmail { password },
            email_account_text(email),
            Fetch::OptionalUser,
        ),
{
    reveal_strlit("cookie");
    reveal_strlit("FAILED");
    assert(email_account_text(email) == "SELECT * FROM user WHERE email =\""@ + crate::literal::escaped(email)
        + "\" "@);
    if cookie is Some {
        assert(cookie_account_text(session_user(cookie)) == "SELECT * FROM user WHERE uuid = \""@
            + crate::literal::escaped(cookie->0) + "\""@);
    }
}

/// Each task change takes its argument from its own member of the body:
/// `RenameTask` the string `NewName`, `ChangeDesc` the string `NewDesc`,
/// `MoveBoard` the string `NewBoard`, `ChangeOrder` the integer `NewOrder`
/// (cut to 32 bits); the task is the string `task_uuid`. No other member
/// counts.
pub proof fn task_changes_take_their_own_member(body: RequestBody, task: Seq<char>, value: Seq<char>, order: i64)
    requires
        body.text("task_uuid"@) == Some(task),
    ensures
        body.text("action"@) == Some("RenameTask"@) && body.text("NewName"@) == Some(value) ==> task_request(body)
            == Some((task, ActionModel::RenameTask(value))),
        body.text("action"@) == Some("ChangeDesc"@) && body.text("NewDesc"@) == Some(value) ==> task_request(body)
            == Some((task, ActionModel::ChangeDesc(value))),
        body.text("action"@) == Some("MoveBoard"@) && body.text("NewBoard"@) == Some(value) ==> task_request(body)
            == Some((task, ActionModel::MoveBoard(value))),
        body.text("action"@) == Some("ChangeOrder"@) && body.integer("NewOrder"@) == Some(order) ==> task_request(
            body,
        ) == Some((task, ActionModel::ChangeOrder(#[verifier::truncate] (order as i32)))),
        body.text("action"@) == Some("ToggleTask"@) ==> task_request(body) == Some((task, ActionModel::ToggleTask)),
{
    reveal_strlit("RenameTask");
    reveal_strlit("ChangeDesc");
    reveal_strlit("ToggleTask");
    reveal_strlit("ChangeOrder");
    reveal_strlit("MoveBoard");
    assert("ChangeDesc"@[0] != "RenameTask"@[0]);
    assert("MoveBoard"@[0] != "RenameTask"@[0]);
    assert("MoveBoard"@[0] != "ChangeDesc"@[0]);
    assert("MoveBoard"@[0] != "ToggleTask"@[0]);
    assert("MoveBoard"@[0] != "ChangeOrder"@[0]);
    assert("ChangeDesc"@[0] != "ToggleTask"@[0]);
    assert("ChangeOrder"@[6] != "ChangeDesc"@[6]);
    assert("ChangeOrder"@[0] != "RenameTask"@[0]);
    assert("ChangeOrder"@[0] != "ToggleTask"@[0]);
    assert("ToggleTask"@[0] != "RenameTask"@[0]);
}

/// A deletion counts as done as soon as it touched a row: the board or task
/// deletion answered with any positive row count replies 200 with a `null`
/// body; only a count of zero replies 404.
pub proof fn deletion_done_iff_a_row_went(cookie: Option<Seq<char>>, id: Seq<char>, n: u64)
    ensures
        n >= 1 ==> delete_board_transition(cookie, id, DeleteBoardPhase::Deleting, DbEvent::Affected(n))
            == Outcome::<DeleteBoardPhase>::Reply(
            ReplyModel { status: OK, body: BodyModel::Null, cookie: CookieModel::Keep },
        ),
        n == 0 ==> delete_board_transition(cookie, id, DeleteBoardPhase::Deleting, DbEvent::Affected(n))
            == Outcome::<DeleteBoardPhase>::Reply(message_reply(NOT_FOUND, "Board not found"@)),
        n >= 1 ==> delete_task_transition(cookie, id, DeleteTaskPhase::Deleting, DbEvent::Affected(n))
            == Outcome::<DeleteTaskPhase>::Reply(
            ReplyModel { status: OK, body: BodyModel::Null, cookie: CookieModel::Keep },
        ),
        n == 0 ==> delete_task_transition(cookie, id, DeleteTaskPhase::Deleting, DbEvent::Affected(n))
            == Outcome::<DeleteTaskPhase>::Reply(message_reply(NOT_FOUND, "Task not found"@)),
{
    assert(BOARD_NOT_FOUND@ == "Board not found"@);
    assert(TASK_NOT_FOUND@ == "Task not found"@);
}

/// A listing replies 200 with exactly the rows the database gave, in the
/// same order, and leaves the session as it is.
pub proof fn listings_carry_the_rows(boards: Vec<Board>, tasks: Vec<Task>)
    ensures
        all_user_boards_transition(DbEvent::Boards(boards)) is Reply,
        ({
            let r = all_user_boards_transition(DbEvent::Boards(boards))->Reply_0;
            &&& r.status == OK
            &&& r.cookie == CookieModel::Keep
            &&& r.body is Boards
            &&& r.body->Boards_0.len() == boards@.len()
            &&& forall|i: int| 0 <= i < boards@.len() ==> #[trigger] r.body->Boards_0[i] == boards@[i]
        }),
        task_list_transition(DbEvent::Tasks(tasks)) is Reply,
        ({
            let r = task_list_transition(DbEvent::Tasks(tasks))->Reply_0;
            &&& r.status == OK
            &&& r.cookie == CookieModel::Keep
            &&& r.body is Tasks
            &&& r.body->Tasks_0.len() == tasks@.len()
            &&& forall|i: int| 0 <= i < tasks@.len() ==> #[trigger] r.body->Tasks_0[i] == tasks@[i]
        }),
{
}

/// Deleting an account whose two deletions both succeed, however many tasks
/// the first one removed and however many rows the second touched, replies
/// 200 with a `null` body and fully removes the session cookie.
pub proof fn account_deletion_that_succeeds_ends_the_session(cookie: Option<Seq<char>>, tasks_removed: u64, users_removed: u64)
    ensures
        delete_user_transition(cookie, DeleteUserPhase::DeletingTasks, DbEvent::Affected(tasks_removed)) is Ask,
        delete_user_transition(
            cookie,
            delete_user_transition(cookie, DeleteUserPhase::DeletingTasks, DbEvent::Affected(tasks_removed))->Ask_0,
            DbEvent::Affected(users_removed),
        ) == Outcome::<DeleteUserPhase>::Reply(
            ReplyModel { status: OK, body: BodyModel::Null, cookie: CookieModel::Clear },
        ),
{
}

/// The four ways an account deletion ends, by whether each of its two
/// deletions succeeded (a row count, whatever it is, is success): both, 200
/// and the session cookie fully removed; only the tasks, 500 and the cookie
/// kept; only the account, 500 and the cookie removed by name; neither, 500
/// and the cookie kept.
pub proof fn account_deletion_outcomes(cookie: Option<Seq<char>>, first: DbEvent, second: DbEvent)
    requires
        first is Affected || first is Failed,
        second is Affected || second is Failed,
    ensures
        delete_user_transition(cookie, DeleteUserPhase::DeletingTasks, first) is Ask,
        ({
            let r = delete_user_transition(
                cookie,
                delete_user_transition(cookie, DeleteUserPhase::DeletingTasks, first)->Ask_0,
                second,
            );
            &&& r is Reply
            &&& (first is Affected && second is Affected) ==> r->Reply_0 == (ReplyModel {
                status: OK,
                body: BodyModel::Null,
                cookie: CookieModel::Clear,
            })
            &&& (first is Affected && second is Failed) ==> r->Reply_0 == message_reply(
                INTERNAL_SERVER_ERROR,
                "Error deleting user from user table"@,
            )
            &&& (first is Failed && second is Affected) ==> r->Reply_0 == (ReplyModel {
                status: INTERNAL_SERVER_ERROR,
                body: BodyModel::Message("Error deleting user from task table"@),
                cookie: CookieModel::ClearBare,
            })
            &&& (first is Failed && second is Failed) ==> r->Reply_0 == message_reply(
                INTERNAL_SERVER_ERROR,
                "Error deleting user from both tables"@,
            )
        }),
{
}

/// Signing in by address decides on the stored account alone: when the
/// offered password followed by the account's salt matches its stored hash,
/// 200 "Logged in" and a session for that account's uuid; otherwise 401 and
/// no session. An unknown address is 401 as well.
pub proof fn sign_in_by_address_checks_the_password(password: Seq<char>, stored: User)
    ensures
        bcrypt_verdict(password + stored.salt@, stored.password@) == Some(true) ==> login_transition(
            LoginStage::ByEmail { password },
            DbEvent::User(Some(stored)),
        ) == Outcome::<LoginStage>::Reply(
            ReplyModel {
                status: OK,
                body: BodyModel::Message("Logged in"@),
                cookie: CookieModel::Start(stored.uuid@),
            },
        ),
        bcrypt_verdict(password + stored.salt@, stored.password@) != Some(true) ==> (login_transition(
            LoginStage::ByEmail { password },
            DbEvent::User(Some(stored)),
        ) matches Outcome::Reply(r) && r.status == UNAUTHORIZED && r.cookie == CookieModel::Keep),
        login_transition(LoginStage::ByEmail { password }, DbEvent::User(None)) matches Outcome::Reply(r)
            && r.status == UNAUTHORIZED && r.cookie == CookieModel::Keep,
{
}

/// An account change takes its arguments from its own members: a new
/// account name from `new_name`; a board rename from `board_uuid` and `NewName`.
pub proof fn account_changes_take_their_own_members(body: RequestBody, name: Seq<char>, board: Seq<char>)
    ensures
        body.text("action"@) == Some("NewName"@) && body.text("new_name"@) == Some(name) ==> user_request(body)
            == Some(AccountChange::ChangeName(name)),
        body.text("action"@) == Some("RenameBoard"@) && body.text("board_uuid"@) == Some(board) && body.text(
            "NewName"@,
        ) == Some(name) ==> user_request(body) == Some(AccountChange::RenameBoard { board_uuid: board, name }),
{
    reveal_strlit("NewName");
    reveal_strlit("RenameBoard");
    assert("NewName"@[0] != "RenameBoard"@[0]);
}

/// A new task is the one the body describes: its name, description and
/// uuid are the members of those names, and its board the `board_uuid`
/// member when there is one.
pub proof fn new_task_is_the_one_described(
    body: RequestBody,
    name: Seq<char>,
    description: Seq<char>,
    uuid: Seq<char>,
)
    requires
        body.text("name"@) == Some(name),
        body.text("description"@) == Some(description),
        body.text("uuid"@) == Some(uuid),
    ensures
        new_task_request(body) == Some(
            NewTaskModel { name, description, uuid, board_uuid: body.text("board_uuid"@) },
        ),
{
}

} // verus!
