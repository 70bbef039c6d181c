use vstd::prelude::*;
use crate::literal::{append_literal, escaped};
use crate::db::{DbEvent, Fetch, Next, Outcome, DbRequest};
use crate::reply::{
    Reply, ReplyModel, Body, BodyModel, SessionCookie, CookieModel, message_reply, OK, INTERNAL_SERVER_ERROR,
};
use crate::session::{session_user, session_user_of};
use crate::https::get::task::TASKS_FAILED;

verus! {

/// A board listing waits for one query: the board rows.
#[derive(Debug, Clone, Copy, PartialEq, Eq, Structural)]
pub enum BoardListPhase {
    Fetching,
}

impl View for BoardListPhase {
    type V = BoardListPhase;

    open spec fn view(&self) -> BoardListPhase {
        *self
    }
}

impl BoardListPhase {
    /// How the query awaited in this phase is run.
    pub open spec fn awaits(self) -> Fetch {
        Fetch::AllBoards
    }

    /// Number of queries this phase may still wait for, itself included.
    pub open spec fn rank(self) -> nat {
        1
    }
}

/// Query text that lists the boards of `user`.
pub open spec fn user_boards_text(user: Seq<char>) -> Seq<char> {
    "SELECT * FROM board WHERE user_uuid=\""@ + escaped(user) + "\""@
}

pub fn user_boards_sql(user: &str) -> (q: String)
    ensures
        q@ == user_boards_text(user@),
{
    let mut q = String::from_str("SELECT * FROM board WHERE user_uuid=\"");
    append_literal(&mut q, user);
    q.append("\"");
    q
}

/// First step of `GET /get/all_user_board`: list the signed-in user's boards.
pub open spec fn all_user_boards_entry(cookie: Option<Seq<char>>) -> Outcome<BoardListPhase> {
    Outcome::Ask(BoardListPhase::Fetching, user_boards_text(session_user(cookie)), Fetch::AllBoards)
}

/// The reply to a board listing: the rows found (an empty list when there
/// are none), or an error when the query failed. The error text is the
/// same as a task listing's.
pub open spec fn all_user_boards_transition(event: DbEvent) -> Outcome<BoardListPhase> {
    match event {
        DbEvent::Boards(boards) => Outcome::Reply(
            ReplyModel { status: OK, body: BodyModel::Boards(boards@), cookie: CookieModel::Keep },
        ),
        _ => Outcome::Reply(message_reply(INTERNAL_SERVER_ERROR, TASKS_FAILED@)),
    }
}

/// Starts `GET /get/all_user_board` for a request carrying `cookie`.
pub fn all_user_boards_cauth_begin(cookie: &Option<String>) -> (r: Next<BoardListPhase>)
    ensures
        r@ == all_user_boards_entry(cookie.deep_view()),
{
    let user = session_user_of(cookie);
    Next::Ask(BoardListPhase::Fetching, DbRequest { sql: user_boards_sql(user.as_str()), fetch: Fetch::AllBoards })
}

/// Replies to `GET /get/all_user_board` with the database's answer.
pub fn all_user_boards_cauth_resume(phase: BoardListPhase, event: DbEvent) -> (r: Next<BoardListPhase>)
    requires
        event.fits(phase.awaits()),
    ensures
        r@ == all_user_boards_transition(event),
{
    match event {
        DbEvent::Boards(boards) => Next::Reply(
            Reply { status: OK, body: Body::Boards(boards), cookie: SessionCookie::Keep },
        ),
        _ => Next::Reply(Reply::message(INTERNAL_SERVER_ERROR, TASKS_FAILED)),
    }
}

} // verus!
