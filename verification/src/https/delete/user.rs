use vstd::prelude::*;
use crate::literal::{append_literal, escaped};
use crate::db::{DbEvent, Fetch, Next, Outcome, DbRequest};
use crate::reply::{
    Reply, ReplyModel, Body, BodyModel, SessionCookie, CookieModel, message_reply, OK,
    INTERNAL_SERVER_ERROR,
};
use crate::session::{session_user, session_user_of};

verus! {

pub const USER_TABLE_FAILED: &'static str = "Error deleting user from user table";
pub const TASK_TABLE_FAILED: &'static str = "Error deleting user from task table";
pub const BOTH_TABLES_FAILED: &'static str = "Error deleting user from both tables";

/// Where an account deletion waits for the database.
#[derive(Debug, Clone, Copy, PartialEq, Eq, Structural)]
pub enum DeleteUserPhase {
    /// The user's tasks are being deleted.
    DeletingTasks,
    /// The user row is being deleted; records whether deleting the tasks succeeded.
    DeletingUser { tasks_deleted: bool },
}

impl View for DeleteUserPhase {
    type V = DeleteUserPhase;

    open spec fn view(&self) -> DeleteUserPhase {
        *self
    }
}

impl DeleteUserPhase {
    /// How the query awaited in this phase is run.
    pub open spec fn awaits(self) -> Fetch {
        Fetch::Execute
    }

    /// Number of queries this phase may still wait for, itself included.
    pub open spec fn rank(self) -> nat {
        match self {
            DeleteUserPhase::DeletingTasks => 2,
            DeleteUserPhase::DeletingUser { .. } => 1,
        }
    }
}

/// Query text that deletes every task of `user`.
pub open spec fn delete_user_tasks_text(user: Seq<char>) -> Seq<char> {
    "DELETE FROM `task` WHERE user_uuid = \""@ + escaped(user) + "\""@
}

pub fn delete_user_tasks_sql(user: &str) -> (q: String)
    ensures
        q@ == delete_user_tasks_text(user@),
{
    let mut q = String::from_str("DELETE FROM `task` WHERE user_uuid = \"");
    append_literal(&mut q, user);
    q.append("\"");
    q
}

/// Query text that deletes the user row of `user`.
pub open spec fn delete_user_text(user: Seq<char>) -> Seq<char> {
    "DELETE FROM `user` WHERE uuid = \""@ + escaped(user) + "\" "@
}

pub fn delete_user_sql(user: &str) -> (q: String)
    ensures
        q@ == delete_user_text(user@),
{
    let mut q = String::from_str("DELETE FROM `user` WHERE uuid = \"");
    append_literal(&mut q, user);
    q.append("\" ");
    q
}

/// The reply to an account deletion, from whether each of its two deletions succeeded.
pub open spec fn delete_user_reply(tasks_deleted: bool, user_deleted: bool) -> ReplyModel {
    if tasks_deleted && user_deleted {
        ReplyModel { status: OK, body: BodyModel::Null, cookie: CookieModel::Clear }
    } else if tasks_deleted {
        message_reply(INTERNAL_SERVER_ERROR, USER_TABLE_FAILED@)
    } else if user_deleted {
        ReplyModel {
            status: INTERNAL_SERVER_ERROR,
            body: BodyModel::Message(TASK_TABLE_FAILED@),
            cookie: CookieModel::ClearBare,
        }
    } else {
        message_reply(INTERNAL_SERVER_ERROR, BOTH_TABLES_FAILED@)
    }
}

/// First step of `DELETE /delete/user`: delete the signed-in user's tasks.
pub open spec fn delete_user_entry(cookie: Option<Seq<char>>) -> Outcome<DeleteUserPhase> {
    Outcome::Ask(DeleteUserPhase::DeletingTasks, delete_user_tasks_text(session_user(cookie)), Fetch::Execute)
}

/// Step of `DELETE /delete/user` on the database's answer `event` in `phase`:
/// the user row is deleted whatever became of the tasks.
pub open spec fn delete_user_transition(
    cookie: Option<Seq<char>>,
    phase: DeleteUserPhase,
    event: DbEvent,
) -> Outcome<DeleteUserPhase> {
    match phase {
        DeleteUserPhase::DeletingTasks => Outcome::Ask(
            DeleteUserPhase::DeletingUser { tasks_deleted: !(event is Failed) },
            delete_user_text(session_user(cookie)),
            Fetch::Execute,
        ),
        DeleteUserPhase::DeletingUser { tasks_deleted } => Outcome::Reply(
            delete_user_reply(tasks_deleted, !(event is Failed)),
        ),
    }
}

/// Starts `DELETE /delete/user` for a request carrying `cookie`.
pub fn delete_user_begin(cookie: &Option<String>) -> (r: Next<DeleteUserPhase>)
    ensures
        r@ == delete_user_entry(cookie.deep_view()),
{
    let user = session_user_of(cookie);
    Next::Ask(
        DeleteUserPhase::DeletingTasks,
        DbRequest { sql: delete_user_tasks_sql(user.as_str()), fetch: Fetch::Execute },
    )
}

/// Continues `DELETE /delete/user` with the answer to the query awaited in `phase`.
pub fn delete_user_resume(cookie: &Option<String>, phase: DeleteUserPhase, event: DbEvent) -> (r: Next<
    DeleteUserPhase,
>)
    requires
        event.fits(phase.awaits()),
    ensures
        r@ == delete_user_transition(cookie.deep_view(), phase, event),
{
    let succeeded = match event {
        DbEvent::Failed => false,
        _ => true,
    };
    match phase {
        DeleteUserPhase::DeletingTasks => {
            let user = session_user_of(cookie);
            Next::Ask(
                DeleteUserPhase::DeletingUser { tasks_deleted: succeeded },
                DbRequest { sql: delete_user_sql(user.as_str()), fetch: Fetch::Execute },
            )
        },
        DeleteUserPhase::DeletingUser { tasks_deleted } => {
            if tasks_deleted && succeeded {
                Next::Reply(Reply { status: OK, body: Body::Null, cookie: SessionCookie::Clear })
            } else if tasks_deleted {
                Next::Reply(Reply::message(INTERNAL_SERVER_ERROR, USER_TABLE_FAILED))
            } else if succeeded {
                Next::Reply(
                    Reply {
                        status: INTERNAL_SERVER_ERROR,
                        body: Body::Message(String::from_str(TASK_TABLE_FAILED)),
                        cookie: SessionCookie::ClearBare,
                    },
                )
            } else {
                Next::Reply(Reply::message(INTERNAL_SERVER_ERROR, BOTH_TABLES_FAILED))
            }
        },
    }
}

} // verus!
