use vstd::prelude::*;
use crate::literal::{append_literal, escaped};
use crate::db::{DbEvent, Fetch, Next, Outcome, DbRequest};
use crate::reply::{Reply, message_reply, null_reply, OK, UNAUTHORIZED, NOT_FOUND, INTERNAL_SERVER_ERROR};
use crate::session::{
    session_user, session_user_of, credentials_text, credentials_sql, NO_CREDENTIALS, CREDENTIALS_FAILED,
};

verus! {

pub const BOARD_NOT_FOUND: &'static str = "Board not found";
pub const BOARD_DELETE_FAILED: &'static str = "Authorized , but the deleting of the board failed";

/// Where a board deletion waits for the database.
#[derive(Debug, Clone, Copy, PartialEq, Eq, Structural)]
pub enum DeleteBoardPhase {
    /// The signed-in user is being looked up.
    CheckingUser,
    /// The board and its tasks are being deleted.
    Deleting,
}

impl View for DeleteBoardPhase {
    type V = DeleteBoardPhase;

    open spec fn view(&self) -> DeleteBoardPhase {
        *self
    }
}

impl DeleteBoardPhase {
    /// How the query awaited in this phase is run.
    pub open spec fn awaits(self) -> Fetch {
        match self {
            DeleteBoardPhase::CheckingUser => Fetch::OptionalUser,
            DeleteBoardPhase::Deleting => Fetch::Execute,
        }
    }

    /// Number of queries this phase may still wait for, itself included.
    pub open spec fn rank(self) -> nat {
        match self {
            DeleteBoardPhase::CheckingUser => 2,
            DeleteBoardPhase::Deleting => 1,
        }
    }
}

/// Query text that deletes the board `board`, with the tasks on it, if `user` owns it.
pub open spec fn delete_board_text(board: Seq<char>, user: Seq<char>) -> Seq<char> {
    "DELETE board, task FROM board\n         LEFT JOIN task ON board.uuid = task.board_uuid\n         WHERE (board.uuid = '"@
        + escaped(board) + "' OR task.board_uuid = '"@ + escaped(board) + "') AND board.user_uuid = '"@ + escaped(user) + "'"@
}

pub fn delete_board_sql(board: &str, user: &str) -> (q: String)
    ensures
        q@ == delete_board_text(board@, user@),
{
    let mut q = String::from_str(
        "DELETE board, task FROM board\n         LEFT JOIN task ON board.uuid = task.board_uuid\n         WHERE (board.uuid = '",
    );
    append_literal(&mut q, board);
    q.append("' OR task.board_uuid = '");
    append_literal(&mut q, board);
    q.append("') AND board.user_uuid = '");
    append_literal(&mut q, user);
    q.append("'");
    q
}

/// First step of `DELETE /delete/board/:id`: look up the signed-in user.
pub open spec fn delete_board_entry(cookie: Option<Seq<char>>) -> Outcome<DeleteBoardPhase> {
    Outcome::Ask(DeleteBoardPhase::CheckingUser, credentials_text(session_user(cookie)), Fetch::OptionalUser)
}

/// Step of `DELETE /delete/board/:id` on the database's answer `event` in `phase`.
pub open spec fn delete_board_transition(
    cookie: Option<Seq<char>>,
    id: Seq<char>,
    phase: DeleteBoardPhase,
    event: DbEvent,
) -> Outcome<DeleteBoardPhase> {
    match phase {
        DeleteBoardPhase::CheckingUser => match event {
            DbEvent::User(Some(_)) => Outcome::Ask(
                DeleteBoardPhase::Deleting,
                delete_board_text(id, session_user(cookie)),
                Fetch::Execute,
            ),
            DbEvent::User(None) => Outcome::Reply(message_reply(UNAUTHORIZED, NO_CREDENTIALS@)),
            _ => Outcome::Reply(message_reply(INTERNAL_SERVER_ERROR, CREDENTIALS_FAILED@)),
        },
        DeleteBoardPhase::Deleting => match event {
            DbEvent::Affected(n) => if n > 0 {
                Outcome::Reply(null_reply(OK))
            } else {
                Outcome::Reply(message_reply(NOT_FOUND, BOARD_NOT_FOUND@))
            },
            _ => Outcome::Reply(message_reply(INTERNAL_SERVER_ERROR, BOARD_DELETE_FAILED@)),
        },
    }
}

/// Starts `DELETE /delete/board/:id` for a request carrying `cookie`.
pub fn delete_board_cauth_begin(cookie: &Option<String>) -> (r: Next<DeleteBoardPhase>)
    ensures
        r@ == delete_board_entry(cookie.deep_view()),
{
    let user = session_user_of(cookie);
    Next::Ask(
        DeleteBoardPhase::CheckingUser,
        DbRequest { sql: credentials_sql(user.as_str()), fetch: Fetch::OptionalUser },
    )
}

/// Continues `DELETE /delete/board/:id` with the answer to the query awaited in `phase`.
pub fn delete_board_cauth_resume(
    cookie: &Option<String>,
    id: &String,
    phase: DeleteBoardPhase,
    event: DbEvent,
) -> (r: Next<DeleteBoardPhase>)
    requires
        event.fits(phase.awaits()),
    ensures
        r@ == delete_board_transition(cookie.deep_view(), id@, phase, event),
{
    match phase {
        DeleteBoardPhase::CheckingUser => match event {
            DbEvent::User(Some(_)) => {
                let user = session_user_of(cookie);
                Next::Ask(
                    DeleteBoardPhase::Deleting,
                    DbRequest { sql: delete_board_sql(id.as_str(), user.as_str()), fetch: Fetch::Execute },
                )
            },
            DbEvent::User(None) => Next::Reply(Reply::message(UNAUTHORIZED, NO_CREDENTIALS)),
            _ => Next::Reply(Reply::message(INTERNAL_SERVER_ERROR, CREDENTIALS_FAILED)),
        },
        DeleteBoardPhase::Deleting => match event {
            DbEvent::Affected(n) => if n > 0 {
                Next::Reply(Reply::null(OK))
            } else {
                Next::Reply(Reply::message(NOT_FOUND, BOARD_NOT_FOUND))
            },
            _ => Next::Reply(Reply::message(INTERNAL_SERVER_ERROR, BOARD_DELETE_FAILED)),
        },
    }
}

} // verus!
