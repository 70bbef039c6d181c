use vstd::prelude::*;
use crate::models::{Board, Task, User};
use crate::reply::{Reply, ReplyModel};

verus! {

/// How a query is run and what its answer is read as.
#[derive(Debug, Clone, Copy, PartialEq, Eq, Structural)]
pub enum Fetch {
    /// At most one user row.
    OptionalUser,
    /// Exactly one user row; no row is a failure.
    OneUser,
    /// At most one board row.
    OptionalBoard,
    /// All matching board rows.
    AllBoards,
    /// All matching task rows.
    AllTasks,
    /// A statement; its answer is the number of rows it touched.
    Execute,
    /// One row, read for its `uuid` column.
    UuidColumn,
}

/// A query for the database: its text and how to run it.
pub struct DbRequest {
    pub sql: String,
    pub fetch: Fetch,
}

/// The database's answer to a query.
pub enum DbEvent {
    User(Option<User>),
    Board(Option<Board>),
    Boards(Vec<Board>),
    Tasks(Vec<Task>),
    Affected(u64),
    Uuid(String),
    /// The query failed.
    Failed,
}

impl DbEvent {
    /// Whether this answer is one that a query run as `fetch` can give.
    pub open spec fn fits(&self, fetch: Fetch) -> bool {
        match self {
            DbEvent::Failed => true,
            DbEvent::User(Some(_)) => fetch == Fetch::OptionalUser || fetch == Fetch::OneUser,
            DbEvent::User(None) => fetch == Fetch::OptionalUser,
            DbEvent::Board(_) => fetch == Fetch::OptionalBoard,
            DbEvent::Boards(_) => fetch == Fetch::AllBoards,
            DbEvent::Tasks(_) => fetch == Fetch::AllTasks,
            DbEvent::Affected(_) => fetch == Fetch::Execute,
            DbEvent::Uuid(_) => fetch == Fetch::UuidColumn,
        }
    }

    /// Tells whether this answer is one that a query run as `fetch` can give.
    pub fn answers(&self, fetch: Fetch) -> (r: bool)
        ensures
            r == self.fits(fetch),
    {
        match self {
            DbEvent::Failed => true,
            DbEvent::User(Some(_)) => fetch == Fetch::OptionalUser || fetch == Fetch::OneUser,
            DbEvent::User(None) => fetch == Fetch::OptionalUser,
            DbEvent::Board(_) => fetch == Fetch::OptionalBoard,
            DbEvent::Boards(_) => fetch == Fetch::AllBoards,
            DbEvent::Tasks(_) => fetch == Fetch::AllTasks,
            DbEvent::Affected(_) => fetch == Fetch::Execute,
            DbEvent::Uuid(_) => fetch == Fetch::UuidColumn,
        }
    }
}

/// What a handler does next: ask the database a query and wait in phase `P`,
/// send a reply, or give up on the request without a reply.
pub enum Next<P> {
    Ask(P, DbRequest),
    Reply(Reply),
    Abort,
}

pub enum Outcome<P> {
    Ask(P, Seq<char>, Fetch),
    Reply(ReplyModel),
    Abort,
}

impl<P: View> View for Next<P> {
    type V = Outcome<P::V>;

    open spec fn view(&self) -> Outcome<P::V> {
        match self {
            Next::Ask(p, q) => Outcome::Ask(p@, q.sql@, q.fetch),
            Next::Reply(r) => Outcome::Reply(r@),
            Next::Abort => Outcome::Abort,
        }
    }
}

} // verus!
