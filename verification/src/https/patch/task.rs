use vstd::prelude::*;
use crate::literal::{append_literal, escaped};
use crate::db::{DbEvent, Fetch, Next, Outcome, DbRequest};
use crate::decimal::{decimal, decimal_i32};
use crate::reply::{Reply, message_reply, null_reply, OK, BAD_REQUEST, INTERNAL_SERVER_ERROR};
use crate::request::{RequestBody, text_is};
use crate::session::{session_user, session_user_of};

verus! {

pub const INVALID_BODY: &'static str = "Invalid JSON body";
pub const ACTION_FAILED: &'static str = "Failed while processing task action";

/// A change to one task, as `PATCH /patch/task` names it in its `action` member.
#[derive(Debug)]
pub enum Action {
    RenameTask(String),
    ChangeDesc(String),
    ToggleTask,
    ChangeOrder(i32),
    MoveBoard(String),
}

pub enum ActionModel {
    RenameTask(Seq<char>),
    ChangeDesc(Seq<char>),
    ToggleTask,
    ChangeOrder(i32),
    MoveBoard(Seq<char>),
}

impl View for Action {
    type V = ActionModel;

    open spec fn view(&self) -> ActionModel {
        match self {
            Action::RenameTask(s) => ActionModel::RenameTask(s@),
            Action::ChangeDesc(s) => ActionModel::ChangeDesc(s@),
            Action::ToggleTask => ActionModel::ToggleTask,
            Action::ChangeOrder(n) => ActionModel::ChangeOrder(*n),
            Action::MoveBoard(s) => ActionModel::MoveBoard(s@),
        }
    }
}

/// A string member, or the empty text when it is missing or not a string.
pub open spec fn text_or_empty(t: Option<Seq<char>>) -> Seq<char> {
    match t {
        Some(s) => s,
        None => Seq::empty(),
    }
}

/// The task uuid and the change that a `PATCH /patch/task` body asks for,
/// or `None` when its `action` is not one of the five names or it has no
/// string `task_uuid`. A missing argument reads as the empty text, or 0 for
/// `NewOrder`, whose value is cut to its low 32 bits.
pub open spec fn task_request(body: RequestBody) -> Option<(Seq<char>, ActionModel)> {
    match (body.text("action"@), body.text("task_uuid"@)) {
        (Some(action), Some(task)) => if action == "RenameTask"@ {
            Some((task, ActionModel::RenameTask(text_or_empty(body.text("NewName"@)))))
        } else if action == "ChangeDesc"@ {
            Some((task, ActionModel::ChangeDesc(text_or_empty(body.text("NewDesc"@)))))
        } else if action == "ToggleTask"@ {
            Some((task, ActionModel::ToggleTask))
        } else if action == "ChangeOrder"@ {
            Some(
                (
                    task,
                    ActionModel::ChangeOrder(
                        (match body.integer("NewOrder"@) {
                            Some(n) => n,
                            None => 0,
                        }) as i32,
                    ),
                ),
            )
        } else if action == "MoveBoard"@ {
            Some((task, ActionModel::MoveBoard(text_or_empty(body.text("NewBoard"@)))))
        } else {
            None
        },
        _ => None,
    }
}

fn string_or_empty(s: Option<String>) -> (r: String)
    ensures
        r@ == text_or_empty(s.deep_view()),
{
    match s {
        Some(v) => v,
        None => String::new(),
    }
}

/// Reads the task uuid and the requested change from a `PATCH /patch/task` body.
pub fn parse_task_request(body: &RequestBody) -> (r: Option<(String, Action)>)
    ensures
        match (r, task_request(*body)) {
            (Some((t, a)), Some((mt, ma))) => t@ == mt && a@ == ma,
            (None, None) => true,
            _ => false,
        },
{
    let action = body.get_str("action");
    let task = body.get_str("task_uuid");
    match (action, task) {
        (Some(action), Some(task)) => if text_is(&action, "RenameTask") {
            Some((task, Action::RenameTask(string_or_empty(body.get_str("NewName")))))
        } else if text_is(&action, "ChangeDesc") {
            Some((task, Action::ChangeDesc(string_or_empty(body.get_str("NewDesc")))))
        } else if text_is(&action, "ToggleTask") {
            Some((task, Action::ToggleTask))
        } else if text_is(&action, "ChangeOrder") {
            let n: i64 = match body.get_i64("NewOrder") {
                Some(n) => n,
                None => 0,
            };
            Some((task, Action::ChangeOrder(n as i32)))
        } else if text_is(&action, "MoveBoard") {
            Some((task, Action::MoveBoard(string_or_empty(body.get_str("NewBoard")))))
        } else {
            None
        },
        _ => None,
    }
}

/// Query text that applies `action` to the task `task` if `user` owns it.
pub open spec fn task_update_text(task: Seq<char>, user: Seq<char>, action: ActionModel) -> Seq<char> {
    match action {
        ActionModel::RenameTask(name) => "UPDATE task SET name = \""@ + escaped(name) + "\" WHERE uuid = \""@ + escaped(task)
            + "\" AND user_uuid = \""@ + escaped(user) + "\""@,
        ActionModel::ChangeDesc(desc) => "UPDATE task SET description = \""@ + escaped(desc) + "\" WHERE uuid = \""@
            + escaped(task) + "\" AND user_uuid = \""@ + escaped(user) + "\""@,
        ActionModel::ToggleTask => "UPDATE task SET completed = NOT completed WHERE uuid = \""@ + escaped(task)
            + "\" AND user_uuid = \""@ + escaped(user) + "\""@,
        ActionModel::ChangeOrder(n) => "UPDATE task SET `order` = \""@ + decimal(n as int)
            + "\" WHERE uuid = \""@ + escaped(task) + "\" AND user_uuid = \""@ + escaped(user) + "\""@,
        ActionModel::MoveBoard(board) => "UPDATE task SET board_uuid = '"@ + escaped(board) + "' WHERE uuid = '"@
            + escaped(task) + "' AND user_uuid = '"@ + escaped(user) + "'"@,
    }
}

pub fn task_update_sql(task: &str, user: &str, action: &Action) -> (q: String)
    ensures
        q@ == task_update_text(task@, user@, action@),
{
    let mut q;
    match action {
        Action::RenameTask(name) => {
            q = String::from_str("UPDATE task SET name = \"");
            append_literal(&mut q, name.as_str());
        },
        Action::ChangeDesc(desc) => {
            q = String::from_str("UPDATE task SET description = \"");
            append_literal(&mut q, desc.as_str());
        },
        Action::ToggleTask => {
            q = String::from_str("UPDATE task SET completed = NOT completed WHERE uuid = \"");
            append_literal(&mut q, task);
            q.append("\" AND user_uuid = \"");
            append_literal(&mut q, user);
            q.append("\"");
            return q;
        },
        Action::ChangeOrder(n) => {
            q = String::from_str("UPDATE task SET `order` = \"");
            let digits = decimal_i32(*n);
            q.append(digits.as_str());
        },
        Action::MoveBoard(board) => {
            q = String::from_str("UPDATE task SET board_uuid = '");
            append_literal(&mut q, board.as_str());
            q.append("' WHERE uuid = '");
            append_literal(&mut q, task);
            q.append("' AND user_uuid = '");
            append_literal(&mut q, user);
            q.append("'");
            return q;
        },
    }
    q.append("\" WHERE uuid = \"");
    append_literal(&mut q, task);
    q.append("\" AND user_uuid = \"");
    append_literal(&mut q, user);
    q.append("\"");
    q
}

/// A task change waits for one query: the update.
#[derive(Debug, Clone, Copy, PartialEq, Eq, Structural)]
pub enum TaskActionPhase {
    Updating,
}

impl View for TaskActionPhase {
    type V = TaskActionPhase;

    open spec fn view(&self) -> TaskActionPhase {
        *self
    }
}

impl TaskActionPhase {
    /// How the query awaited in this phase is run.
    pub open spec fn awaits(self) -> Fetch {
        Fetch::Execute
    }

    /// Number of queries this phase may still wait for, itself included.
    pub open spec fn rank(self) -> nat {
        1
    }
}

/// First step of `PATCH /patch/task`: refuse a body that names no known
/// change, else run the update for the signed-in user.
pub open spec fn task_action_entry(cookie: Option<Seq<char>>, body: RequestBody) -> Outcome<TaskActionPhase> {
    match task_request(body) {
        Some((task, action)) => Outcome::Ask(
            TaskActionPhase::Updating,
            task_update_text(task, session_user(cookie), action),
            Fetch::Execute,
        ),
        None => Outcome::Reply(message_reply(BAD_REQUEST, INVALID_BODY@)),
    }
}

/// The reply to a task change once the update has run. Whether any row
/// was touched does not matter.
pub open spec fn task_action_transition(event: DbEvent) -> Outcome<TaskActionPhase> {
    match event {
        DbEvent::Failed => Outcome::Reply(message_reply(INTERNAL_SERVER_ERROR, ACTION_FAILED@)),
        _ => Outcome::Reply(null_reply(OK)),
    }
}

/// Starts `PATCH /patch/task` for a request carrying `cookie` and `body`.
pub fn handle_task_action_begin(cookie: &Option<String>, body: &RequestBody) -> (r: Next<TaskActionPhase>)
    ensures
        r@ == task_action_entry(cookie.deep_view(), *body),
{
    let user = session_user_of(cookie);
    match parse_task_request(body) {
        Some((task, action)) => Next::Ask(
            TaskActionPhase::Updating,
            DbRequest { sql: task_update_sql(task.as_str(), user.as_str(), &action), fetch: Fetch::Execute },
        ),
        None => Next::Reply(Reply::message(BAD_REQUEST, INVALID_BODY)),
    }
}

/// Replies to `PATCH /patch/task` once the update has run.
pub fn handle_task_action_resume(phase: TaskActionPhase, event: DbEvent) -> (r: Next<TaskActionPhase>)
    requires
        event.fits(phase.awaits()),
    ensures
        r@ == task_action_transition(event),
{
    match event {
        DbEvent::Failed => Next::Reply(Reply::message(INTERNAL_SERVER_ERROR, ACTION_FAILED)),
        _ => Next::Reply(Reply::null(OK)),
    }
}

} // verus!
