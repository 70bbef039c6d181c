use vstd::prelude::*;
use crate::db::{DbEvent, Fetch, Outcome};
use crate::helper::{
    LoginStage, login_entry, login_transition, login_answer, cookie_account_text, logout_reply, LOGGED_IN,
    WRONG_PASSWORD,
};
use crate::https::delete::board::{DeleteBoardPhase, delete_board_entry, delete_board_transition};
use crate::https::delete::task::{DeleteTaskPhase, delete_task_entry, delete_task_transition};
use crate::https::delete::user::{DeleteUserPhase, delete_user_entry, delete_user_transition, delete_user_reply};
use crate::https::get::board::{BoardListPhase, all_user_boards_entry, all_user_boards_transition};
use crate::https::get::task::{TaskListPhase, all_user_tasks_entry, all_board_tasks_entry, task_list_transition};
use crate::https::patch::task::{TaskActionPhase, task_action_entry, task_action_transition};
use crate::https::patch::user::{UserActionPhase, user_action_entry, user_action_transition};
use crate::https::post::task::{CreateTaskStage, create_task_entry, create_task_transition};
use crate::https::post::user::{
    CreateUserStage, NewAccountModel, create_user_entry, create_user_transition, account_insert, secured_insert,
};
use crate::models::User;
use crate::password::bcrypt_verdict;
use crate::reply::{ReplyModel, BodyModel, CookieModel, OK, UNAUTHORIZED, message_reply};
use crate::request::RequestBody;
use crate::session::session_user;
use crate::models::{Board, TaskRecord, BoardRecord, UserRecord};
use crate::tables::{
    owned, owns, spares, after_update, deleted_rows, after_delete, inserted_row, listed_tasks, listed_boards,
    default_boards, task_of, board_of, lemma_filter_all, lemma_filter_none, task_not_of, other_account,
    after_tasks_of_deleted, after_account_delete, after_account_rename, after_board_rename, stored_account,
};
use crate::https::patch::user::{ActionModel as AccountChange, user_request, user_update_text};
use crate::https::delete::user::{delete_user_tasks_text, delete_user_text};
use crate::https::post::user::{insert_user_text};
use crate::password::bcrypt_prefix;
use crate::https::patch::task::{ActionModel, task_request, task_update_text};
use crate::https::delete::task::{delete_task_text, TASK_NOT_FOUND};
use crate::https::post::task::{NewTaskModel, CreateTaskPhase, insert_task_text, chosen_board};
use crate::https::post::user::default_boards_text;
use crate::reply::{NOT_FOUND, null_reply};

verus! {

/// Deleting a task: the deletion is asked for only once the signed-in user
/// has been found; every query asked is awaited in a phase whose expected
/// answer matches how the query is run, and each step goes to a phase of
/// lower rank, so the handler ends after at most two queries.
pub proof fn delete_task_is_guarded(cookie: Option<Seq<char>>, id: Seq<char>, phase: DeleteTaskPhase, event: DbEvent)
    requires
        event.fits(phase.awaits()),
    ensures
        delete_task_entry(cookie) matches Outcome::Ask(p, _, f) && f == p.awaits() && p.rank() == 2,
        delete_task_transition(cookie, id, phase, event) matches Outcome::Ask(p, _, f) ==> {
            &&& f == p.awaits()
            &&& p.rank() < phase.rank()
            &&& p == DeleteTaskPhase::Deleting ==> (phase == DeleteTaskPhase::CheckingUser && event is User
                && event->User_0 is Some)
        },
{
}

/// Deleting a board: as for a task, the deletion is asked for only once the
/// signed-in user has been found, and the handler ends after at most two queries.
pub proof fn delete_board_is_guarded(
    cookie: Option<Seq<char>>,
    id: Seq<char>,
    phase: DeleteBoardPhase,
    event: DbEvent,
)
    requires
        event.fits(phase.awaits()),
    ensures
        delete_board_entry(cookie) matches Outcome::Ask(p, _, f) && f == p.awaits() && p.rank() == 2,
        delete_board_transition(cookie, id, phase, event) matches Outcome::Ask(p, _, f) ==> {
            &&& f == p.awaits()
            &&& p.rank() < phase.rank()
            &&& p == DeleteBoardPhase::Deleting ==> (phase == DeleteBoardPhase::CheckingUser && event is User
                && event->User_0 is Some)
        },
{
}

/// Creating a task: the insertion is asked for only after the signed-in user
/// and then the board were both found; the handler ends after at most three queries.
pub proof fn create_task_is_guarded(
    cookie: Option<Seq<char>>,
    body: RequestBody,
    stage: CreateTaskStage,
    event: DbEvent,
)
    requires
        event.fits(stage.awaits()),
    ensures
        create_task_entry(cookie, body) matches Outcome::Ask(p, _, f) ==> f == p.awaits() && p.rank() == 3,
        create_task_transition(cookie, stage, event) matches Outcome::Ask(p, _, f) ==> {
            &&& f == p.awaits()
            &&& p.rank() < stage.rank()
            &&& p is CheckingBoard ==> (stage is CheckingUser && event is User && event->User_0 is Some)
            &&& p is Inserting ==> (stage is CheckingBoard && event is Board && event->Board_0 is Some)
        },
{
}

/// Deleting an account: the user row is deleted whatever became of the
/// tasks, and the handler ends after exactly two queries. It succeeds, and
/// fully removes the session cookie, exactly when both deletions succeeded.
pub proof fn delete_user_runs_both(cookie: Option<Seq<char>>, phase: DeleteUserPhase, event: DbEvent)
    requires
        event.fits(phase.awaits()),
    ensures
        delete_user_entry(cookie) matches Outcome::Ask(p, _, f) && f == p.awaits() && p.rank() == 2,
        phase == DeleteUserPhase::DeletingTasks ==> delete_user_transition(cookie, phase, event) is Ask,
        delete_user_transition(cookie, phase, event) matches Outcome::Ask(p, _, f) ==> f == p.awaits()
            && p.rank() < phase.rank(),
        forall|t: bool, u: bool| #[trigger] delete_user_reply(t, u).status == OK <==> (t && u),
        forall|t: bool, u: bool| (#[trigger] delete_user_reply(t, u)).cookie is Clear <==> (t && u),
{
}

/// The listings and the two account and task changes ask one query each
/// and reply on its answer.
pub proof fn single_query_handlers_finish(
    cookie: Option<Seq<char>>,
    board: Seq<char>,
    body: RequestBody,
    event: DbEvent,
)
    ensures
        all_user_tasks_entry(cookie) matches Outcome::Ask(p, _, f) && f == p.awaits(),
        all_board_tasks_entry(cookie, board) matches Outcome::Ask(p, _, f) ==> f == p.awaits(),
        all_user_boards_entry(cookie) matches Outcome::Ask(p, _, f) && f == p.awaits(),
        task_action_entry(cookie, body) matches Outcome::Ask(p, _, f) ==> f == p.awaits(),
        user_action_entry(cookie, body) matches Outcome::Ask(p, _, f) ==> f == p.awaits(),
        task_list_transition(event) is Reply,
        all_user_boards_transition(event) is Reply,
        task_action_transition(event) is Reply,
        user_action_transition(event) is Reply,
{
}

/// Creating an account: every query asked is awaited in a matching phase
/// and each step lowers the rank, so the handler ends after at most four
/// queries; the session starts only once the account's boards are made.
pub proof fn create_user_progresses(body: RequestBody, stage: CreateUserStage, event: DbEvent, account: NewAccountModel, salt: Seq<char>, hashed: Option<Seq<char>>)
    requires
        event.fits(stage.awaits()),
    ensures
        create_user_entry(body) matches Outcome::Ask(p, _, f) ==> f == p.awaits() && p.rank() == 4,
        account_insert(account, salt, hashed) matches Outcome::Ask(p, _, f) ==> f == p.awaits() && p.rank() == 3,
        create_user_transition(stage, event) matches Outcome::Ask(p, _, f) ==> f == p.awaits() && p.rank()
            < stage.rank(),
        create_user_transition(stage, event) matches Outcome::Reply(r) ==> (r.cookie is Start <==> (
            stage is AddingBoards && !(event is Failed))),
{
}

/// Signing in: every query asked is awaited in a matching phase, and the
/// handler replies on the first answer.
pub proof fn login_finishes(
    cookie: Option<Seq<char>>,
    email: Seq<char>,
    password: Seq<char>,
    stage: LoginStage,
    event: DbEvent,
)
    ensures
        login_entry(cookie, email, password) matches Outcome::Ask(p, _, f) && f == p.awaits(),
        login_transition(stage, event) is Reply,
{
}

/// A password given at sign-up signs in: when an account was stored with
/// the salt and hash that sign-up made for its password, signing in by
/// address with that password replies "Logged in" and starts a session for
/// the account's uuid.
pub proof fn signed_up_password_signs_in(
    account: NewAccountModel,
    salt: Seq<char>,
    hashed: Seq<char>,
    outcome: Outcome<CreateUserStage>,
    stored: User,
)
    requires
        secured_insert(account, salt, Some(hashed), outcome),
        stored.password@ == hashed,
        stored.salt@ == salt,
    ensures
        login_transition(LoginStage::ByEmail { password: account.password }, DbEvent::User(Some(stored)))
            == Outcome::<LoginStage>::Reply(
            ReplyModel {
                status: OK,
                body: BodyModel::Message(LOGGED_IN@),
                cookie: CookieModel::Start(stored.uuid@),
            },
        ),
{
}

/// A wrong password is refused: when the offered password followed by the
/// account's salt does not match the stored hash, signing in by address
/// answers 401 and starts no session.
pub proof fn wrong_password_is_refused(password: Seq<char>, stored: User)
    requires
        bcrypt_verdict(password + stored.salt@, stored.password@) != Some(true),
    ensures
        login_transition(LoginStage::ByEmail { password }, DbEvent::User(Some(stored))) == Outcome::<
            LoginStage,
        >::Reply(message_reply(UNAUTHORIZED, WRONG_PASSWORD@)),
{
}

/// A session started by signing in names the account it was started for:
/// the next request acts for that uuid, and, when that uuid is not the
/// stand-in for "no session", signing in with the path words
/// `cookie`/`cookie` reads that very account back. Signing out removes the cookie.
pub proof fn session_round_trip(user: User)
    ensures
        login_answer(user, true).cookie == CookieModel::Start(user.uuid@),
        session_user(Some(user.uuid@)) == user.uuid@,
        user.uuid@ != "FAILED"@ ==> login_entry(Some(user.uuid@), "cookie"@, "cookie"@) == Outcome::Ask(
            LoginStage::ByCookie,
            cookie_account_text(user.uuid@),
            Fetch::OneUser,
        ),
        logout_reply().cookie is Clear,
{
}

/// Adding a connection and then removing it at the position that adding
/// returned leaves the registry as it was.
pub proof fn add_then_remove_restores<S>(connections: Seq<(String, S)>, entry: (String, S))
    ensures
        connections.push(entry).remove(connections.len() as int) == connections,
{
    assert(connections.push(entry).remove(connections.len() as int) =~= connections);
}

/// Toggling a task twice restores the task table: a `ToggleTask` body asks
/// for the toggle of that task of the signed-in user, and running that
/// statement twice gives back the rows it started from.
pub proof fn toggling_twice_restores(cookie: Option<Seq<char>>, body: RequestBody, task: Seq<char>, tasks: Seq<TaskRecord>)
    requires
        task_request(body) == Some((task, ActionModel::ToggleTask)),
    ensures
        task_action_entry(cookie, body) == Outcome::Ask(
            TaskActionPhase::Updating,
            task_update_text(task, session_user(cookie), ActionModel::ToggleTask),
            Fetch::Execute,
        ),
        after_update(
            after_update(tasks, task, session_user(cookie), ActionModel::ToggleTask),
            task,
            session_user(cookie),
            ActionModel::ToggleTask,
        ) == tasks,
{
    let user = session_user(cookie);
    let once = after_update(tasks, task, user, ActionModel::ToggleTask);
    let twice = after_update(once, task, user, ActionModel::ToggleTask);
    assert(twice =~= tasks);
}

/// A task change touches only the named task of the signed-in user: whatever
/// it asks, the update it runs keeps every other row, every row of another
/// user among them, and the number of rows.
pub proof fn task_updates_touch_only_own_task(
    cookie: Option<Seq<char>>,
    body: RequestBody,
    task: Seq<char>,
    action: ActionModel,
    tasks: Seq<TaskRecord>,
)
    requires
        task_request(body) == Some((task, action)),
    ensures
        task_action_entry(cookie, body) == Outcome::Ask(
            TaskActionPhase::Updating,
            task_update_text(task, session_user(cookie), action),
            Fetch::Execute,
        ),
        after_update(tasks, task, session_user(cookie), action).len() == tasks.len(),
        forall|i: int|
            0 <= i < tasks.len() && !owned(tasks[i], task, session_user(cookie)) ==> #[trigger] after_update(
                tasks,
                task,
                session_user(cookie),
                action,
            )[i] == tasks[i],
        forall|i: int|
            0 <= i < tasks.len() && tasks[i].user_uuid != session_user(cookie) ==> #[trigger] after_update(
                tasks,
                task,
                session_user(cookie),
                action,
            )[i] == tasks[i],
{
}

/// Deleting a task a second time finds nothing: the deletion leaves no row
/// that it would delete again, and a deletion that touches no row answers
/// 404 "Task not found".
pub proof fn second_delete_finds_nothing(cookie: Option<Seq<char>>, id: Seq<char>, tasks: Seq<TaskRecord>, found: User)
    ensures
        delete_task_transition(cookie, id, DeleteTaskPhase::CheckingUser, DbEvent::User(Some(found)))
            == Outcome::Ask(DeleteTaskPhase::Deleting, delete_task_text(id, session_user(cookie)), Fetch::Execute),
        deleted_rows(after_delete(tasks, id, session_user(cookie)), id, session_user(cookie)).len() == 0,
        delete_task_transition(cookie, id, DeleteTaskPhase::Deleting, DbEvent::Affected(0)) == Outcome::<
            DeleteTaskPhase,
        >::Reply(message_reply(NOT_FOUND, TASK_NOT_FOUND@)),
{
    let user = session_user(cookie);
    let rest = after_delete(tasks, id, user);
    assert forall|i: int| 0 <= i < rest.len() implies !owns(id, user)(#[trigger] rest[i]) by {
        tasks.lemma_filter_pred(spares(id, user), i);
    }
    lemma_filter_none(rest, owns(id, user));
}

/// Creating a task and then deleting it restores the task table: when no
/// row has the new task's uuid, the insertion that task creation asks adds
/// one row, which the deletion of that uuid, and only it, then removes, and
/// that deletion answers 200.
pub proof fn create_then_delete_restores(
    cookie: Option<Seq<char>>,
    task: NewTaskModel,
    found: Board,
    tasks: Seq<TaskRecord>,
)
    requires
        forall|i: int| 0 <= i < tasks.len() ==> (#[trigger] tasks[i]).uuid != task.uuid,
    ensures
        create_task_transition(cookie, CreateTaskStage::CheckingBoard(task), DbEvent::Board(Some(found)))
            == Outcome::Ask(
            CreateTaskStage::Inserting,
            insert_task_text(task, session_user(cookie), chosen_board(task, found.uuid@)),
            Fetch::Execute,
        ),
        deleted_rows(
            tasks.push(inserted_row(task, session_user(cookie), chosen_board(task, found.uuid@))),
            task.uuid,
            session_user(cookie),
        ).len() == 1,
        after_delete(
            tasks.push(inserted_row(task, session_user(cookie), chosen_board(task, found.uuid@))),
            task.uuid,
            session_user(cookie),
        ) == tasks,
        delete_task_transition(cookie, task.uuid, DeleteTaskPhase::Deleting, DbEvent::Affected(1))
            == Outcome::<DeleteTaskPhase>::Reply(null_reply(OK)),
{
    let user = session_user(cookie);
    let row = inserted_row(task, user, chosen_board(task, found.uuid@));
    tasks.lemma_filter_push(row, owns(task.uuid, user));
    tasks.lemma_filter_push(row, spares(task.uuid, user));
    assert forall|i: int| 0 <= i < tasks.len() implies !owns(task.uuid, user)(#[trigger] tasks[i]) by {}
    lemma_filter_none(tasks, owns(task.uuid, user));
    assert forall|i: int| 0 <= i < tasks.len() implies spares(task.uuid, user)(#[trigger] tasks[i]) by {}
    lemma_filter_all(tasks, spares(task.uuid, user));
}

/// A created task is listed: the row that task creation inserts for the
/// signed-in user is the last of that user's listed tasks, after those
/// listed before, and the listing replies with the rows it gets.
pub proof fn created_task_is_listed(user: Seq<char>, task: NewTaskModel, board: Seq<char>, tasks: Seq<TaskRecord>)
    ensures
        listed_tasks(tasks.push(inserted_row(task, user, board)), user) == listed_tasks(tasks, user).push(
            inserted_row(task, user, board),
        ),
        listed_tasks(tasks.push(inserted_row(task, user, board)), user).contains(inserted_row(task, user, board)),
{
    let row = inserted_row(task, user, board);
    tasks.lemma_filter_push(row, task_of(user));
    let listed = listed_tasks(tasks, user).push(row);
    assert(listed[listed.len() - 1] == row);
}

/// Sign-up makes the Home and Archive boards: for a new account, whose uuid
/// owns no board yet, the boards listed after the sign-up's board insertion
/// are exactly those two.
pub proof fn signup_boards_are_listed(uuid: String, home: Seq<char>, archive: Seq<char>, boards: Seq<BoardRecord>)
    requires
        forall|i: int| 0 <= i < boards.len() ==> (#[trigger] boards[i]).user_uuid != uuid@,
    ensures
        create_user_transition(CreateUserStage::FindingUuid, DbEvent::Uuid(uuid)) == Outcome::Ask(
            CreateUserStage::AddingBoards { user_uuid: uuid@ },
            default_boards_text(uuid@),
            Fetch::Execute,
        ),
        listed_boards(boards + default_boards(uuid@, home, archive), uuid@) == default_boards(uuid@, home, archive),
{
    assert(create_user_transition(CreateUserStage::FindingUuid, DbEvent::Uuid(uuid)) == Outcome::Ask(
        CreateUserStage::AddingBoards { user_uuid: uuid@ },
        default_boards_text(uuid@),
        Fetch::Execute,
    ));
    lemma_boards_of_new_user(uuid@, home, archive, boards);
}

/// The board listing of a user who owned no board, after the two sign-up
/// boards are added, is those two boards.
proof fn lemma_boards_of_new_user(uuid: Seq<char>, home: Seq<char>, archive: Seq<char>, boards: Seq<BoardRecord>)
    requires
        forall|i: int| 0 <= i < boards.len() ==> (#[trigger] boards[i]).user_uuid != uuid,
    ensures
        listed_boards(boards + default_boards(uuid, home, archive), uuid) == default_boards(uuid, home, archive),
{
    let added = default_boards(uuid, home, archive);
    Seq::filter_distributes_over_add(boards, added, board_of(uuid));
    assert forall|i: int| 0 <= i < boards.len() implies !board_of(uuid)(#[trigger] boards[i]) by {}
    lemma_filter_none(boards, board_of(uuid));
    assert forall|i: int| 0 <= i < added.len() implies board_of(uuid)(#[trigger] added[i]) by {}
    lemma_filter_all(added, board_of(uuid));
    assert(boards.filter(board_of(uuid)) =~= Seq::<BoardRecord>::empty());
}

/// An account change touches only the signed-in user's rows: a new account
/// name changes the name of that account alone, and a board rename changes
/// the name of the named board only if that user owns it; every other row
/// and the number of rows stay.
pub proof fn account_changes_touch_only_own_rows(
    cookie: Option<Seq<char>>,
    body: RequestBody,
    users: Seq<UserRecord>,
    boards: Seq<BoardRecord>,
)
    requires
        user_request(body) is Some,
    ensures
        user_action_entry(cookie, body) == Outcome::Ask(
            UserActionPhase::Updating,
            user_update_text(session_user(cookie), user_request(body).unwrap()),
            Fetch::Execute,
        ),
        user_request(body).unwrap() matches AccountChange::ChangeName(name) ==> {
            let after = after_account_rename(users, session_user(cookie), name);
            &&& after.len() == users.len()
            &&& forall|i: int| 0 <= i < users.len() && users[i].uuid != session_user(cookie) ==> #[trigger] after[i]
                == users[i]
            &&& forall|i: int| 0 <= i < users.len() && users[i].uuid == session_user(cookie) ==> #[trigger] after[i]
                == (UserRecord { name, ..users[i] })
        },
        user_request(body).unwrap() matches AccountChange::RenameBoard { board_uuid, name } ==> {
            let after = after_board_rename(boards, board_uuid, session_user(cookie), name);
            &&& after.len() == boards.len()
            &&& forall|i: int| 0 <= i < boards.len() && boards[i].user_uuid != session_user(cookie) ==> #[trigger] after[i]
                == boards[i]
            &&& forall|i: int| 0 <= i < boards.len() && boards[i].uuid != board_uuid ==> #[trigger] after[i] == boards[i]
        },
{
}

/// Deleting an account removes the signed-in user's tasks and account and
/// nothing else: the two deletions it asks leave no task and no account row
/// of that user, and keep every row of everyone else.
pub proof fn account_deletion_removes_own_rows(
    cookie: Option<Seq<char>>,
    tasks: Seq<TaskRecord>,
    users: Seq<UserRecord>,
)
    ensures
        delete_user_entry(cookie) == Outcome::Ask(
            DeleteUserPhase::DeletingTasks,
            delete_user_tasks_text(session_user(cookie)),
            Fetch::Execute,
        ),
        delete_user_transition(cookie, DeleteUserPhase::DeletingTasks, DbEvent::Affected(0)) matches Outcome::Ask(
            _,
            sql,
            _,
        ) && sql == delete_user_text(session_user(cookie)),
        listed_tasks(after_tasks_of_deleted(tasks, session_user(cookie)), session_user(cookie)).len() == 0,
        forall|i: int|
            0 <= i < tasks.len() && tasks[i].user_uuid != session_user(cookie) ==> after_tasks_of_deleted(
                tasks,
                session_user(cookie),
            ).contains(#[trigger] tasks[i]),
        forall|j: int|
            0 <= j < after_account_delete(users, session_user(cookie)).len() ==> (#[trigger] after_account_delete(
                users,
                session_user(cookie),
            )[j]).uuid != session_user(cookie),
        forall|i: int|
            0 <= i < users.len() && users[i].uuid != session_user(cookie) ==> after_account_delete(
                users,
                session_user(cookie),
            ).contains(#[trigger] users[i]),
{
    let user = session_user(cookie);
    let rest = after_tasks_of_deleted(tasks, user);
    assert forall|i: int| 0 <= i < rest.len() implies !task_of(user)(#[trigger] rest[i]) by {
        tasks.lemma_filter_pred(task_not_of(user), i);
    }
    lemma_filter_none(rest, task_of(user));
    assert forall|i: int| 0 <= i < tasks.len() && tasks[i].user_uuid != user implies rest.contains(
        #[trigger] tasks[i],
    ) by {
        tasks.lemma_filter_contains(task_not_of(user), i);
    }
    let left = after_account_delete(users, user);
    assert forall|j: int| 0 <= j < left.len() implies (#[trigger] left[j]).uuid != user by {
        users.lemma_filter_pred(other_account(user), j);
    }
    assert forall|i: int| 0 <= i < users.len() && users[i].uuid != user implies left.contains(#[trigger] users[i]) by {
        users.lemma_filter_contains(other_account(user), i);
    }
}

/// Sign-up stores the account it was given: the insertion it asks adds a
/// row with the given address and name, the fresh salt, and a stored
/// password that is the 60-character `$2b$10$` bcrypt hash of the password
/// followed by that salt.
pub proof fn signup_stores_account(
    account: NewAccountModel,
    salt: Seq<char>,
    hashed: Seq<char>,
    outcome: Outcome<CreateUserStage>,
    uuid: Seq<char>,
)
    requires
        secured_insert(account, salt, Some(hashed), outcome),
    ensures
        outcome == Outcome::Ask(
            CreateUserStage::Inserting { email: account.email, hashed },
            insert_user_text(account.email, hashed, account.name, salt),
            Fetch::Execute,
        ),
        stored_account(uuid, account.email, hashed, account.name, salt).email == account.email,
        stored_account(uuid, account.email, hashed, account.name, salt).name == account.name,
        stored_account(uuid, account.email, hashed, account.name, salt).salt.len() == 7,
        bcrypt_verdict(account.password + salt, stored_account(uuid, account.email, hashed, account.name, salt).password)
            == Some(true),
        stored_account(uuid, account.email, hashed, account.name, salt).password.len() == 60,
        stored_account(uuid, account.email, hashed, account.name, salt).password.take(7) == bcrypt_prefix(10),
{
}

} // verus!
