use vstd::prelude::*;
use crate::literal::{append_literal, escaped};
use crate::db::{DbEvent, Fetch, Next, Outcome, DbRequest};
use crate::https::patch::task::{INVALID_BODY, ACTION_FAILED};
use crate::reply::{Reply, message_reply, null_reply, OK, BAD_REQUEST, INTERNAL_SERVER_ERROR};
use crate::request::{RequestBody, text_is};
use crate::session::{session_user, session_user_of};

verus! {

/// A change that `PATCH /patch/user` makes for the signed-in user: the
/// account's name, or the name of one of the user's boards.
#[derive(Debug)]
pub enum Action {
    ChangeName(String),
    RenameBoard { board_uuid: String, name: String },
}

pub enum ActionModel {
    ChangeName(Seq<char>),
    RenameBoard { board_uuid: Seq<char>, name: Seq<char> },
}

impl View for Action {
    type V = ActionModel;

    open spec fn view(&self) -> ActionModel {
        match self {
            Action::ChangeName(s) => ActionModel::ChangeName(s@),
            Action::RenameBoard { board_uuid, name } => ActionModel::RenameBoard {
                board_uuid: board_uuid@,
                name: name@,
            },
        }
    }
}

/// The change that a `PATCH /patch/user` body asks for: a new account name
/// when `action` is `"NewName"` and `new_name` is a string; a new board name
/// when `action` is `"RenameBoard"` and `board_uuid` and `NewName` are
/// strings; else `None`.
pub open spec fn user_request(body: RequestBody) -> Option<ActionModel> {
    match body.text("action"@) {
        Some(action) => if action == "NewName"@ {
            match body.text("new_name"@) {
                Some(name) => Some(ActionModel::ChangeName(name)),
                None => None,
            }
        } else if action == "RenameBoard"@ {
            match (body.text("board_uuid"@), body.text("NewName"@)) {
                (Some(board_uuid), Some(name)) => Some(ActionModel::RenameBoard { board_uuid, name }),
                _ => None,
            }
        } else {
            None
        },
        None => None,
    }
}

/// Reads the requested change from a `PATCH /patch/user` body.
pub fn parse_user_request(body: &RequestBody) -> (r: Option<Action>)
    ensures
        match (r, user_request(*body)) {
            (Some(a), Some(ma)) => a@ == ma,
            (None, None) => true,
            _ => false,
        },
{
    match body.get_str("action") {
        Some(action) => if text_is(&action, "NewName") {
            match body.get_str("new_name") {
                Some(name) => Some(Action::ChangeName(name)),
                None => None,
            }
        } else if text_is(&action, "RenameBoard") {
            match (body.get_str("board_uuid"), body.get_str("NewName")) {
                (Some(board_uuid), Some(name)) => Some(Action::RenameBoard { board_uuid, name }),
                _ => None,
            }
        } else {
            None
        },
        None => None,
    }
}

/// Query text that applies `action` for `user`: to the account, or to the
/// named board if `user` owns it.
pub open spec fn user_update_text(user: Seq<char>, action: ActionModel) -> Seq<char> {
    match action {
        ActionModel::ChangeName(name) => "UPDATE user SET name = \""@ + escaped(name) + "\" WHERE uuid = \""@
            + escaped(user) + "\""@,
        ActionModel::RenameBoard { board_uuid, name } => "UPDATE board SET name = \""@ + escaped(name)
            + "\" WHERE uuid = \""@ + escaped(board_uuid) + "\" AND user_uuid = \""@ + escaped(user) + "\""@,
    }
}

pub fn user_update_sql(user: &str, action: &Action) -> (q: String)
    ensures
        q@ == user_update_text(user@, action@),
{
    match action {
        Action::ChangeName(name) => {
            let mut q = String::from_str("UPDATE user SET name = \"");
            append_literal(&mut q, name.as_str());
            q.append("\" WHERE uuid = \"");
            append_literal(&mut q, user);
            q.append("\"");
            q
        },
        Action::RenameBoard { board_uuid, name } => {
            let mut q = String::from_str("UPDATE board SET name = \"");
            append_literal(&mut q, name.as_str());
            q.append("\" WHERE uuid = \"");
            append_literal(&mut q, board_uuid.as_str());
            q.append("\" AND user_uuid = \"");
            append_literal(&mut q, user);
            q.append("\"");
            q
        },
    }
}

/// An account change waits for one query: the update.
#[derive(Debug, Clone, Copy, PartialEq, Eq, Structural)]
pub enum UserActionPhase {
    Updating,
}

impl View for UserActionPhase {
    type V = UserActionPhase;

    open spec fn view(&self) -> UserActionPhase {
        *self
    }
}

impl UserActionPhase {
    /// How the query awaited in this phase is run.
    pub open spec fn awaits(self) -> Fetch {
        Fetch::Execute
    }

    /// Number of queries this phase may still wait for, itself included.
    pub open spec fn rank(self) -> nat {
        1
    }
}

/// First step of `PATCH /patch/user`: refuse a body that names no known
/// change, else run the update for the signed-in user.
pub open spec fn user_action_entry(cookie: Option<Seq<char>>, body: RequestBody) -> Outcome<UserActionPhase> {
    match user_request(body) {
        Some(action) => Outcome::Ask(
            UserActionPhase::Updating,
            user_update_text(session_user(cookie), action),
            Fetch::Execute,
        ),
        None => Outcome::Reply(message_reply(BAD_REQUEST, INVALID_BODY@)),
    }
}

/// The reply to an account change once the update has run.
pub open spec fn user_action_transition(event: DbEvent) -> Outcome<UserActionPhase> {
    match event {
        DbEvent::Failed => Outcome::Reply(message_reply(INTERNAL_SERVER_ERROR, ACTION_FAILED@)),
        _ => Outcome::Reply(null_reply(OK)),
    }
}

/// Starts `PATCH /patch/user` for a request carrying `cookie` and `body`.
pub fn handle_user_action_begin(cookie: &Option<String>, body: &RequestBody) -> (r: Next<UserActionPhase>)
    ensures
        r@ == user_action_entry(cookie.deep_view(), *body),
{
    let user = session_user_of(cookie);
    match parse_user_request(body) {
        Some(action) => Next::Ask(
            UserActionPhase::Updating,
            DbRequest { sql: user_update_sql(user.as_str(), &action), fetch: Fetch::Execute },
        ),
        None => Next::Reply(Reply::message(BAD_REQUEST, INVALID_BODY)),
    }
}

/// Replies to `PATCH /patch/user` once the update has run.
pub fn handle_user_action_resume(phase: UserActionPhase, event: DbEvent) -> (r: Next<UserActionPhase>)
    requires
        event.fits(phase.awaits()),
    ensures
        r@ == user_action_transition(event),
{
    match event {
        DbEvent::Failed => Next::Reply(Reply::message(INTERNAL_SERVER_ERROR, ACTION_FAILED)),
        _ => Next::Reply(Reply::null(OK)),
    }
}

} // verus!
