use vstd::prelude::*;
use crate::literal::{append_literal, escaped};
use crate::db::{DbEvent, Fetch, Next, Outcome, DbRequest};
use crate::reply::{Reply, message_reply, null_reply, OK, UNAUTHORIZED, NOT_FOUND, INTERNAL_SERVER_ERROR};
use crate::session::{
    session_user, session_user_of, credentials_text, credentials_sql, NO_CREDENTIALS, CREDENTIALS_FAILED,
};

verus! {

pub const TASK_NOT_FOUND: &'static str = "Task not found";
pub const TASK_DELETE_FAILED: &'static str = "Credentials were found, but the deleting of the task errored";

/// Where a task deletion waits for the database.
#[derive(Debug, Clone, Copy, PartialEq, Eq, Structural)]
pub enum DeleteTaskPhase {
    /// The signed-in user is being looked up.
    CheckingUser,
    /// The task is being deleted.
    Deleting,
}

impl View for DeleteTaskPhase {
    type V = DeleteTaskPhase;

    open spec fn view(&self) -> DeleteTaskPhase {
        *self
    }
}

impl DeleteTaskPhase {
    /// How the query awaited in this phase is run.
    pub open spec fn awaits(self) -> Fetch {
        match self {
            DeleteTaskPhase::CheckingUser => Fetch::OptionalUser,
            DeleteTaskPhase::Deleting => Fetch::Execute,
        }
    }

    /// Number of queries this phase may still wait for, itself included.
    pub open spec fn rank(self) -> nat {
        match self {
            DeleteTaskPhase::CheckingUser => 2,
            DeleteTaskPhase::Deleting => 1,
        }
    }
}

/// Query text that deletes the task `task` if `user` owns it.
pub open spec fn delete_task_text(task: Seq<char>, user: Seq<char>) -> Seq<char> {
    "DELETE FROM task WHERE uuid = \""@ + escaped(task) + "\" AND user_uuid = \""@ + escaped(user) + "\""@
}

pub fn delete_task_sql(task: &str, user: &str) -> (q: String)
    ensures
        q@ == delete_task_text(task@, user@),
{
    let mut q = String::from_str("DELETE FROM task WHERE uuid = \"");
    append_literal(&mut q, task);
    q.append("\" AND user_uuid = \"");
    append_literal(&mut q, user);
    q.append("\"");
    q
}

/// First step of `DELETE /delete/task/:id`: look up the signed-in user.
pub open spec fn delete_task_entry(cookie: Option<Seq<char>>) -> Outcome<DeleteTaskPhase> {
    Outcome::Ask(DeleteTaskPhase::CheckingUser, credentials_text(session_user(cookie)), Fetch::OptionalUser)
}

/// Step of `DELETE /delete/task/:id` on the database's answer `event` in `phase`.
pub open spec fn delete_task_transition(
    cookie: Option<Seq<char>>,
    id: Seq<char>,
    phase: DeleteTaskPhase,
    event: DbEvent,
) -> Outcome<DeleteTaskPhase> {
    match phase {
        DeleteTaskPhase::CheckingUser => match event {
            DbEvent::User(Some(_)) => Outcome::Ask(
                DeleteTaskPhase::Deleting,
                delete_task_text(id, session_user(cookie)),
                Fetch::Execute,
            ),
            DbEvent::User(None) => Outcome::Reply(message_reply(UNAUTHORIZED, NO_CREDENTIALS@)),
            _ => Outcome::Reply(message_reply(INTERNAL_SERVER_ERROR, CREDENTIALS_FAILED@)),
        },
        DeleteTaskPhase::Deleting => match event {
            DbEvent::Affected(n) => if n > 0 {
                Outcome::Reply(null_reply(OK))
            } else {
                Outcome::Reply(message_reply(NOT_FOUND, TASK_NOT_FOUND@))
            },
            _ => Outcome::Reply(message_reply(INTERNAL_SERVER_ERROR, TASK_DELETE_FAILED@)),
        },
    }
}

/// Starts `DELETE /delete/task/:id` for a request carrying `cookie`.
pub fn delete_task_auth_begin(cookie: &Option<String>) -> (r: Next<DeleteTaskPhase>)
    ensures
        r@ == delete_task_entry(cookie.deep_view()),
{
    let user = session_user_of(cookie);
    Next::Ask(
        DeleteTaskPhase::CheckingUser,
        DbRequest { sql: credentials_sql(user.as_str()), fetch: Fetch::OptionalUser },
    )
}

/// Continues `DELETE /delete/task/:id` with the answer to the query awaited in `phase`.
pub fn delete_task_auth_resume(
    cookie: &Option<String>,
    id: &String,
    phase: DeleteTaskPhase,
    event: DbEvent,
) -> (r: Next<DeleteTaskPhase>)
    requires
        event.fits(phase.awaits()),
    ensures
        r@ == delete_task_transition(cookie.deep_view(), id@, phase, event),
{
    match phase {
        DeleteTaskPhase::CheckingUser => match event {
            DbEvent::User(Some(_)) => {
                let user = session_user_of(cookie);
                Next::Ask(
                    DeleteTaskPhase::Deleting,
                    DbRequest { sql: delete_task_sql(id.as_str(), user.as_str()), fetch: Fetch::Execute },
                )
            },
            DbEvent::User(None) => Next::Reply(Reply::message(UNAUTHORIZED, NO_CREDENTIALS)),
            _ => Next::Reply(Reply::message(INTERNAL_SERVER_ERROR, CREDENTIALS_FAILED)),
        },
        DeleteTaskPhase::Deleting => match event {
            DbEvent::Affected(n) => if n > 0 {
                Next::Reply(Reply::null(OK))
            } else {
                Next::Reply(Reply::message(NOT_FOUND, TASK_NOT_FOUND))
            },
            _ => Next::Reply(Reply::message(INTERNAL_SERVER_ERROR, TASK_DELETE_FAILED)),
        },
    }
}

} // verus!
