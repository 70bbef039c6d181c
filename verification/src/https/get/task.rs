use vstd::prelude::*;
use crate::literal::{append_literal, escaped};
use crate::db::{DbEvent, Fetch, Next, Outcome, DbRequest};
use crate::reply::{
    Reply, ReplyModel, Body, BodyModel, SessionCookie, CookieModel, message_reply, OK, BAD_REQUEST,
    INTERNAL_SERVER_ERROR,
};
use crate::session::{session_user, session_user_of};

verus! {

pub const TASKS_FAILED: &'static str = "Failed while fetching tasks";
pub const NO_BOARD: &'static str = "No board in the request.";

/// A task listing waits for one query: the task rows.
#[derive(Debug, Clone, Copy, PartialEq, Eq, Structural)]
pub enum TaskListPhase {
    Fetching,
}

impl View for TaskListPhase {
    type V = TaskListPhase;

    open spec fn view(&self) -> TaskListPhase {
        *self
    }
}

impl TaskListPhase {
    /// How the query awaited in this phase is run.
    pub open spec fn awaits(self) -> Fetch {
        Fetch::AllTasks
    }

    /// Number of queries this phase may still wait for, itself included.
    pub open spec fn rank(self) -> nat {
        1
    }
}

/// Query text that lists the tasks of `user`.
pub open spec fn user_tasks_text(user: Seq<char>) -> Seq<char> {
    "SELECT * FROM task WHERE user_uuid=\""@ + escaped(user) + "\""@
}

pub fn user_tasks_sql(user: &str) -> (q: String)
    ensures
        q@ == user_tasks_text(user@),
{
    let mut q = String::from_str("SELECT * FROM task WHERE user_uuid=\"");
    append_literal(&mut q, user);
    q.append("\"");
    q
}

/// Query text that lists the tasks of `user` on board `board`.
pub open spec fn board_tasks_text(user: Seq<char>, board: Seq<char>) -> Seq<char> {
    "SELECT * FROM task WHERE user_uuid='"@ + escaped(user) + "' AND board_uuid = '"@ + escaped(board) + "'"@
}

pub fn board_tasks_sql(user: &str, board: &str) -> (q: String)
    ensures
        q@ == board_tasks_text(user@, board@),
{
    let mut q = String::from_str("SELECT * FROM task WHERE user_uuid='");
    append_literal(&mut q, user);
    q.append("' AND board_uuid = '");
    append_literal(&mut q, board);
    q.append("'");
    q
}

/// The reply to a task listing: the rows found (an empty list when there
/// are none), or an error when the query failed.
pub open spec fn task_list_transition(event: DbEvent) -> Outcome<TaskListPhase> {
    match event {
        DbEvent::Tasks(tasks) => Outcome::Reply(
            ReplyModel { status: OK, body: BodyModel::Tasks(tasks@), cookie: CookieModel::Keep },
        ),
        _ => Outcome::Reply(message_reply(INTERNAL_SERVER_ERROR, TASKS_FAILED@)),
    }
}

/// Replies to a task listing with the database's answer.
pub fn task_list_resume(phase: TaskListPhase, event: DbEvent) -> (r: Next<TaskListPhase>)
    requires
        event.fits(phase.awaits()),
    ensures
        r@ == task_list_transition(event),
{
    match event {
        DbEvent::Tasks(tasks) => Next::Reply(
            Reply { status: OK, body: Body::Tasks(tasks), cookie: SessionCookie::Keep },
        ),
        _ => Next::Reply(Reply::message(INTERNAL_SERVER_ERROR, TASKS_FAILED)),
    }
}

/// First step of `GET /get/all_user_tasks`: list the signed-in user's tasks.
pub open spec fn all_user_tasks_entry(cookie: Option<Seq<char>>) -> Outcome<TaskListPhase> {
    Outcome::Ask(TaskListPhase::Fetching, user_tasks_text(session_user(cookie)), Fetch::AllTasks)
}

/// Starts `GET /get/all_user_tasks` for a request carrying `cookie`.
pub fn all_user_tasks_cauth_begin(cookie: &Option<String>) -> (r: Next<TaskListPhase>)
    ensures
        r@ == all_user_tasks_entry(cookie.deep_view()),
{
    let user = session_user_of(cookie);
    Next::Ask(TaskListPhase::Fetching, DbRequest { sql: user_tasks_sql(user.as_str()), fetch: Fetch::AllTasks })
}

/// First step of `GET /get/all_board_tasks/:uuid`: refuse an empty board
/// uuid, else list the signed-in user's tasks on that board.
pub open spec fn all_board_tasks_entry(cookie: Option<Seq<char>>, board: Seq<char>) -> Outcome<TaskListPhase> {
    if board.len() == 0 {
        Outcome::Reply(message_reply(BAD_REQUEST, NO_BOARD@))
    } else {
        Outcome::Ask(TaskListPhase::Fetching, board_tasks_text(session_user(cookie), board), Fetch::AllTasks)
    }
}

/// Starts `GET /get/all_board_tasks/:uuid` for a request carrying `cookie`.
pub fn all_board_tasks_cauth_begin(cookie: &Option<String>, board: &String) -> (r: Next<TaskListPhase>)
    ensures
        r@ == all_board_tasks_entry(cookie.deep_view(), board@),
{
    if board.as_str().is_empty() {
        return Next::Reply(Reply::message(BAD_REQUEST, NO_BOARD));
    }
    let user = session_user_of(cookie);
    Next::Ask(
        TaskListPhase::Fetching,
        DbRequest { sql: board_tasks_sql(user.as_str(), board.as_str()), fetch: Fetch::AllTasks },
    )
}

} // verus!
