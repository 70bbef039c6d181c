use vstd::prelude::*;
use crate::literal::{append_literal, escaped};
use crate::db::{DbEvent, Fetch, Next, Outcome, DbRequest};
use crate::reply::{
    Reply, message_reply, null_reply, OK, BAD_REQUEST, UNAUTHORIZED, INTERNAL_SERVER_ERROR,
};
use crate::request::RequestBody;
use crate::session::{session_user, session_user_of, CREDENTIALS_FAILED};

verus! {

pub const INCORRECT_BODY: &'static str = "Incorrect json body. Check the docs for correct version.";
pub const NO_ACCOUNT: &'static str = "There isn't any matching account, please login again.";
pub const NO_BOARD_FOUND: &'static str = "There isn't any matching board.";
pub const BOARD_LOOKUP_FAILED: &'static str = "Failed while looking for board";
pub const TASK_CREATION_FAILED: &'static str = "Failed while creating task";

/// The task that a `POST /post/create_task` body describes. Without a
/// board it goes on the signed-in user's Home board.
pub struct NewTask {
    pub name: String,
    pub description: String,
    pub uuid: String,
    pub board_uuid: Option<String>,
}

pub struct NewTaskModel {
    pub name: Seq<char>,
    pub description: Seq<char>,
    pub uuid: Seq<char>,
    pub board_uuid: Option<Seq<char>>,
}

impl View for NewTask {
    type V = NewTaskModel;

    open spec fn view(&self) -> NewTaskModel {
        NewTaskModel {
            name: self.name@,
            description: self.description@,
            uuid: self.uuid@,
            board_uuid: self.board_uuid.deep_view(),
        }
    }
}

/// The task described by a body: its string members `name`, `description`
/// and `uuid`, with the string member `board_uuid` when there is one; `None`
/// when one of the first three is missing or not a string.
pub open spec fn new_task_request(body: RequestBody) -> Option<NewTaskModel> {
    match (body.text("name"@), body.text("description"@), body.text("uuid"@)) {
        (Some(name), Some(description), Some(uuid)) => Some(
            NewTaskModel { name, description, uuid, board_uuid: body.text("board_uuid"@) },
        ),
        _ => None,
    }
}

/// Reads the described task from a `POST /post/create_task` body.
pub fn parse_new_task(body: &RequestBody) -> (r: Option<NewTask>)
    ensures
        match (r, new_task_request(*body)) {
            (Some(t), Some(mt)) => t@ == mt,
            (None, None) => true,
            _ => false,
        },
{
    match (body.get_str("name"), body.get_str("description"), body.get_str("uuid")) {
        (Some(name), Some(description), Some(uuid)) => Some(
            NewTask { name, description, uuid, board_uuid: body.get_str("board_uuid") },
        ),
        _ => None,
    }
}

/// Query text that looks up the signed-in user before a task is created.
pub open spec fn task_owner_text(user: Seq<char>) -> Seq<char> {
    "SELECT * FROM user WHERE uuid = \""@ + escaped(user) + "\" "@
}

pub fn task_owner_sql(user: &str) -> (q: String)
    ensures
        q@ == task_owner_text(user@),
{
    let mut q = String::from_str("SELECT * FROM user WHERE uuid = \"");
    append_literal(&mut q, user);
    q.append("\" ");
    q
}

/// Query text that looks up the board a new task goes on.
pub open spec fn task_board_text(board: Seq<char>) -> Seq<char> {
    "SELECT * FROM board WHERE uuid = \""@ + escaped(board) + "\" "@
}

pub fn task_board_sql(board: &str) -> (q: String)
    ensures
        q@ == task_board_text(board@),
{
    let mut q = String::from_str("SELECT * FROM board WHERE uuid = \"");
    append_literal(&mut q, board);
    q.append("\" ");
    q
}

/// Query text that looks up the Home board of `user`, where a task that
/// names no board goes.
pub open spec fn home_board_text(user: Seq<char>) -> Seq<char> {
    "SELECT * FROM board WHERE user_uuid = \""@ + escaped(user) + "\" AND special = 1"@
}

pub fn home_board_sql(user: &str) -> (q: String)
    ensures
        q@ == home_board_text(user@),
{
    let mut q = String::from_str("SELECT * FROM board WHERE user_uuid = \"");
    append_literal(&mut q, user);
    q.append("\" AND special = 1");
    q
}

/// The board lookup for `task`: the board it names, else the Home board of `user`.
pub open spec fn board_lookup_text(task: NewTaskModel, user: Seq<char>) -> Seq<char> {
    match task.board_uuid {
        Some(board) => task_board_text(board),
        None => home_board_text(user),
    }
}

/// The board `task` goes on, once the board lookup found `found`: the one it
/// names, else the one found.
pub open spec fn chosen_board(task: NewTaskModel, found: Seq<char>) -> Seq<char> {
    match task.board_uuid {
        Some(board) => board,
        None => found,
    }
}

/// Query text that inserts `task`, not completed, owned by `user`, on `board`.
pub open spec fn insert_task_text(task: NewTaskModel, user: Seq<char>, board: Seq<char>) -> Seq<char> {
    "INSERT INTO task (name, description, completed, user_uuid, uuid, board_uuid) VALUES ( \""@ + escaped(task.name)
        + "\" , \""@ + escaped(task.description) + "\" , false, \""@ + escaped(user) + "\", \""@ + escaped(task.uuid) + "\", '"@
        + escaped(board) + "' )"@
}

pub fn insert_task_sql(task: &NewTask, user: &str, board: &str) -> (q: String)
    ensures
        q@ == insert_task_text(task@, user@, board@),
{
    let mut q = String::from_str(
        "INSERT INTO task (name, description, completed, user_uuid, uuid, board_uuid) VALUES ( \"",
    );
    append_literal(&mut q, task.name.as_str());
    q.append("\" , \"");
    append_literal(&mut q, task.description.as_str());
    q.append("\" , false, \"");
    append_literal(&mut q, user);
    q.append("\", \"");
    append_literal(&mut q, task.uuid.as_str());
    q.append("\", '");
    append_literal(&mut q, board);
    q.append("' )");
    q
}

/// Where a task creation waits for the database.
pub enum CreateTaskPhase {
    /// The signed-in user is being looked up.
    CheckingUser(NewTask),
    /// The task's board is being looked up.
    CheckingBoard(NewTask),
    /// The task is being inserted.
    Inserting,
}

pub enum CreateTaskStage {
    CheckingUser(NewTaskModel),
    CheckingBoard(NewTaskModel),
    Inserting,
}

impl View for CreateTaskPhase {
    type V = CreateTaskStage;

    open spec fn view(&self) -> CreateTaskStage {
        match self {
            CreateTaskPhase::CheckingUser(t) => CreateTaskStage::CheckingUser(t@),
            CreateTaskPhase::CheckingBoard(t) => CreateTaskStage::CheckingBoard(t@),
            CreateTaskPhase::Inserting => CreateTaskStage::Inserting,
        }
    }
}

impl CreateTaskStage {
    /// How the query awaited in this phase is run.
    pub open spec fn awaits(self) -> Fetch {
        match self {
            CreateTaskStage::CheckingUser(_) => Fetch::OptionalUser,
            CreateTaskStage::CheckingBoard(_) => Fetch::OptionalBoard,
            CreateTaskStage::Inserting => Fetch::Execute,
        }
    }

    /// Number of queries this phase may still wait for, itself included.
    pub open spec fn rank(self) -> nat {
        match self {
            CreateTaskStage::CheckingUser(_) => 3,
            CreateTaskStage::CheckingBoard(_) => 2,
            CreateTaskStage::Inserting => 1,
        }
    }
}

/// First step of `POST /post/create_task`: refuse a body that does not
/// describe a task, else look up the signed-in user.
pub open spec fn create_task_entry(cookie: Option<Seq<char>>, body: RequestBody) -> Outcome<CreateTaskStage> {
    match new_task_request(body) {
        Some(task) => Outcome::Ask(
            CreateTaskStage::CheckingUser(task),
            task_owner_text(session_user(cookie)),
            Fetch::OptionalUser,
        ),
        None => Outcome::Reply(message_reply(BAD_REQUEST, INCORRECT_BODY@)),
    }
}

/// Step of `POST /post/create_task` on the database's answer `event` in
/// `stage`: the user, then the board, must be found before the task is inserted.
pub open spec fn create_task_transition(
    cookie: Option<Seq<char>>,
    stage: CreateTaskStage,
    event: DbEvent,
) -> Outcome<CreateTaskStage> {
    match stage {
        CreateTaskStage::CheckingUser(task) => match event {
            DbEvent::User(Some(_)) => Outcome::Ask(
                CreateTaskStage::CheckingBoard(task),
                board_lookup_text(task, session_user(cookie)),
                Fetch::OptionalBoard,
            ),
            DbEvent::User(None) => Outcome::Reply(message_reply(UNAUTHORIZED, NO_ACCOUNT@)),
            _ => Outcome::Reply(message_reply(INTERNAL_SERVER_ERROR, CREDENTIALS_FAILED@)),
        },
        CreateTaskStage::CheckingBoard(task) => match event {
            DbEvent::Board(Some(found)) => Outcome::Ask(
                CreateTaskStage::Inserting,
                insert_task_text(task, session_user(cookie), chosen_board(task, found.uuid@)),
                Fetch::Execute,
            ),
            DbEvent::Board(None) => Outcome::Reply(message_reply(UNAUTHORIZED, NO_BOARD_FOUND@)),
            _ => Outcome::Reply(message_reply(INTERNAL_SERVER_ERROR, BOARD_LOOKUP_FAILED@)),
        },
        CreateTaskStage::Inserting => match event {
            DbEvent::Failed => Outcome::Reply(message_reply(INTERNAL_SERVER_ERROR, TASK_CREATION_FAILED@)),
            _ => Outcome::Reply(null_reply(OK)),
        },
    }
}

/// Starts `POST /post/create_task` for a request carrying `cookie` and `body`.
pub fn create_task_cauth_begin(cookie: &Option<String>, body: &RequestBody) -> (r: Next<CreateTaskPhase>)
    ensures
        r@ == create_task_entry(cookie.deep_view(), *body),
{
    match parse_new_task(body) {
        Some(task) => {
            let user = session_user_of(cookie);
            Next::Ask(
                CreateTaskPhase::CheckingUser(task),
                DbRequest { sql: task_owner_sql(user.as_str()), fetch: Fetch::OptionalUser },
            )
        },
        None => Next::Reply(Reply::message(BAD_REQUEST, INCORRECT_BODY)),
    }
}

/// Continues `POST /post/create_task` with the answer to the query awaited in `phase`.
pub fn create_task_cauth_resume(cookie: &Option<String>, phase: CreateTaskPhase, event: DbEvent) -> (r: Next<
    CreateTaskPhase,
>)
    requires
        event.fits(phase@.awaits()),
    ensures
        r@ == create_task_transition(cookie.deep_view(), phase@, event),
{
    match phase {
        CreateTaskPhase::CheckingUser(task) => match event {
            DbEvent::User(Some(_)) => {
                let sql = match &task.board_uuid {
                    Some(board) => task_board_sql(board.as_str()),
                    None => {
                        let user = session_user_of(cookie);
                        home_board_sql(user.as_str())
                    },
                };
                Next::Ask(CreateTaskPhase::CheckingBoard(task), DbRequest { sql, fetch: Fetch::OptionalBoard })
            },
            DbEvent::User(None) => Next::Reply(Reply::message(UNAUTHORIZED, NO_ACCOUNT)),
            _ => Next::Reply(Reply::message(INTERNAL_SERVER_ERROR, CREDENTIALS_FAILED)),
        },
        CreateTaskPhase::CheckingBoard(task) => match event {
            DbEvent::Board(Some(found)) => {
                let user = session_user_of(cookie);
                let sql = match &task.board_uuid {
                    Some(board) => insert_task_sql(&task, user.as_str(), board.as_str()),
                    None => insert_task_sql(&task, user.as_str(), found.uuid.as_str()),
                };
                Next::Ask(CreateTaskPhase::Inserting, DbRequest { sql, fetch: Fetch::Execute })
            },
            DbEvent::Board(None) => Next::Reply(Reply::message(UNAUTHORIZED, NO_BOARD_FOUND)),
            _ => Next::Reply(Reply::message(INTERNAL_SERVER_ERROR, BOARD_LOOKUP_FAILED)),
        },
        CreateTaskPhase::Inserting => match event {
            DbEvent::Failed => Next::Reply(Reply::message(INTERNAL_SERVER_ERROR, TASK_CREATION_FAILED)),
            _ => Next::Reply(Reply::null(OK)),
        },
    }
}

} // verus!
