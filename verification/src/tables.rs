//! What the handlers' statements are meant to do to the task and board
//! tables, as functions from table contents to table contents. Each function
//! is named after the query text it gives a meaning to. Every value is
//! spliced into its text escaped (see `literal`), so it reads back as the
//! value itself whatever characters it holds (`escaped_literal_reads_back`).

use vstd::prelude::*;
use crate::https::patch::task::ActionModel;
use crate::https::post::task::NewTaskModel;
use crate::models::{BoardRecord, TaskRecord, UserRecord};

verus! {

broadcast use vstd::seq_lib::group_seq_properties;

/// Whether `row` is the task `task` of `user`: the rows that a task
/// statement scoped to the signed-in user touches.
pub open spec fn owned(row: TaskRecord, task: Seq<char>, user: Seq<char>) -> bool {
    row.uuid == task && row.user_uuid == user
}

/// One task row after `action`. The `order` column is not among the
/// modelled columns, so a new order leaves them as they are.
pub open spec fn updated_row(row: TaskRecord, action: ActionModel) -> TaskRecord {
    match action {
        ActionModel::RenameTask(name) => TaskRecord { name, ..row },
        ActionModel::ChangeDesc(description) => TaskRecord { description, ..row },
        ActionModel::ToggleTask => TaskRecord { completed: !row.completed, ..row },
        ActionModel::ChangeOrder(_) => row,
        ActionModel::MoveBoard(board_uuid) => TaskRecord { board_uuid, ..row },
    }
}

/// The task table after `task_update_text(task, user, action)` runs.
pub open spec fn after_update(tasks: Seq<TaskRecord>, task: Seq<char>, user: Seq<char>, action: ActionModel) -> Seq<
    TaskRecord,
> {
    tasks.map_values(|row: TaskRecord| if owned(row, task, user) { updated_row(row, action) } else { row })
}

/// Test for the rows a statement on task `task` of `user` touches.
pub open spec fn owns(task: Seq<char>, user: Seq<char>) -> spec_fn(TaskRecord) -> bool {
    |row: TaskRecord| owned(row, task, user)
}

/// Test for the rows a statement on task `task` of `user` leaves alone.
pub open spec fn spares(task: Seq<char>, user: Seq<char>) -> spec_fn(TaskRecord) -> bool {
    |row: TaskRecord| !owned(row, task, user)
}

/// The rows that `delete_task_text(task, user)` deletes.
pub open spec fn deleted_rows(tasks: Seq<TaskRecord>, task: Seq<char>, user: Seq<char>) -> Seq<TaskRecord> {
    tasks.filter(owns(task, user))
}

/// The task table after `delete_task_text(task, user)` runs.
pub open spec fn after_delete(tasks: Seq<TaskRecord>, task: Seq<char>, user: Seq<char>) -> Seq<TaskRecord> {
    tasks.filter(spares(task, user))
}

/// The row that `insert_task_text(task, user, board)` adds.
pub open spec fn inserted_row(task: NewTaskModel, user: Seq<char>, board: Seq<char>) -> TaskRecord {
    TaskRecord {
        uuid: task.uuid,
        name: task.name,
        description: task.description,
        completed: false,
        user_uuid: user,
        board_uuid: board,
    }
}

/// Test for the task rows of `user`.
pub open spec fn task_of(user: Seq<char>) -> spec_fn(TaskRecord) -> bool {
    |row: TaskRecord| row.user_uuid == user
}

/// Test for the board rows of `user`.
pub open spec fn board_of(user: Seq<char>) -> spec_fn(BoardRecord) -> bool {
    |row: BoardRecord| row.user_uuid == user
}

/// The rows that `user_tasks_text(user)` lists.
pub open spec fn listed_tasks(tasks: Seq<TaskRecord>, user: Seq<char>) -> Seq<TaskRecord> {
    tasks.filter(task_of(user))
}

/// The rows that `user_boards_text(user)` lists.
pub open spec fn listed_boards(boards: Seq<BoardRecord>, user: Seq<char>) -> Seq<BoardRecord> {
    boards.filter(board_of(user))
}

/// The two boards that `default_boards_text(user)` adds, given the uuids the
/// database gives them.
pub open spec fn default_boards(user: Seq<char>, home: Seq<char>, archive: Seq<char>) -> Seq<BoardRecord> {
    seq![
        BoardRecord { uuid: home, name: "Home"@, user_uuid: user, special: Some(1) },
        BoardRecord { uuid: archive, name: "Archive"@, user_uuid: user, special: Some(2) },
    ]
}

/// Test for the task rows that are not `user`'s.
pub open spec fn task_not_of(user: Seq<char>) -> spec_fn(TaskRecord) -> bool {
    |row: TaskRecord| row.user_uuid != user
}

/// Test for the user rows other than the account `user`.
pub open spec fn other_account(user: Seq<char>) -> spec_fn(UserRecord) -> bool {
    |row: UserRecord| row.uuid != user
}

/// The task table after `delete_user_tasks_text(user)` runs.
pub open spec fn after_tasks_of_deleted(tasks: Seq<TaskRecord>, user: Seq<char>) -> Seq<TaskRecord> {
    tasks.filter(task_not_of(user))
}

/// The user table after `delete_user_text(user)` runs.
pub open spec fn after_account_delete(users: Seq<UserRecord>, user: Seq<char>) -> Seq<UserRecord> {
    users.filter(other_account(user))
}

/// The user table after the account rename in `user_update_text(user, ChangeName(name))` runs.
pub open spec fn after_account_rename(users: Seq<UserRecord>, user: Seq<char>, name: Seq<char>) -> Seq<UserRecord> {
    users.map_values(|row: UserRecord| if row.uuid == user { UserRecord { name, ..row } } else { row })
}

/// The board table after the board rename in `user_update_text(user,
/// RenameBoard { board_uuid: board, name })` runs.
pub open spec fn after_board_rename(boards: Seq<BoardRecord>, board: Seq<char>, user: Seq<char>, name: Seq<char>) -> Seq<
    BoardRecord,
> {
    boards.map_values(
        |row: BoardRecord| if row.uuid == board && row.user_uuid == user { BoardRecord { name, ..row } } else { row },
    )
}

/// The row that `insert_user_text(email, hashed, name, salt)` adds, given the
/// uuid the database gives it.
pub open spec fn stored_account(
    uuid: Seq<char>,
    email: Seq<char>,
    hashed: Seq<char>,
    name: Seq<char>,
    salt: Seq<char>,
) -> UserRecord {
    UserRecord { uuid, name, email, password: hashed, salt }
}

/// Filtering keeps a sequence whole when every element passes.
pub proof fn lemma_filter_all<A>(s: Seq<A>, pred: spec_fn(A) -> bool)
    requires
        forall|i: int| 0 <= i < s.len() ==> pred(#[trigger] s[i]),
    ensures
        s.filter(pred) == s,
    decreases s.len(),
{
    reveal(Seq::filter);
    if s.len() > 0 {
        lemma_filter_all(s.drop_last(), pred);
        assert(s.drop_last().push(s.last()) =~= s);
    }
}

/// Filtering leaves nothing when no element passes.
pub proof fn lemma_filter_none<A>(s: Seq<A>, pred: spec_fn(A) -> bool)
    requires
        forall|i: int| 0 <= i < s.len() ==> !pred(#[trigger] s[i]),
    ensures
        s.filter(pred).len() == 0,
{
    s.lemma_all_neg_filter_empty(pred);
}

} // verus!
