use vstd::prelude::*;

verus! {

/// A task row: one item on a board, owned by a user.
#[derive(Debug)]
pub struct Task {
    pub uuid: String,
    pub name: String,
    pub description: String,
    pub completed: bool,
    pub user_uuid: String,
    pub board_uuid: String,
}

/// A user row. `password` holds the bcrypt hash of the password followed by `salt`.
#[derive(Debug)]
pub struct User {
    pub uuid: String,
    pub name: String,
    pub email: String,
    pub password: String,
    pub salt: String,
}

/// A board row. `special` marks the boards made at sign-up (1: Home, 2: Archive).
#[derive(Debug)]
pub struct Board {
    pub uuid: String,
    pub name: String,
    pub user_uuid: String,
    pub special: Option<i32>,
}

/// A task row as the queries see it.
pub struct TaskRecord {
    pub uuid: Seq<char>,
    pub name: Seq<char>,
    pub description: Seq<char>,
    pub completed: bool,
    pub user_uuid: Seq<char>,
    pub board_uuid: Seq<char>,
}

/// A user row as the queries see it.
pub struct UserRecord {
    pub uuid: Seq<char>,
    pub name: Seq<char>,
    pub email: Seq<char>,
    pub password: Seq<char>,
    pub salt: Seq<char>,
}

/// A board row as the queries see it.
pub struct BoardRecord {
    pub uuid: Seq<char>,
    pub name: Seq<char>,
    pub user_uuid: Seq<char>,
    pub special: Option<i32>,
}

impl View for Task {
    type V = TaskRecord;

    open spec fn view(&self) -> TaskRecord {
        TaskRecord {
            uuid: self.uuid@,
            name: self.name@,
            description: self.description@,
            completed: self.completed,
            user_uuid: self.user_uuid@,
            board_uuid: self.board_uuid@,
        }
    }
}

impl View for User {
    type V = UserRecord;

    open spec fn view(&self) -> UserRecord {
        UserRecord {
            uuid: self.uuid@,
            name: self.name@,
            email: self.email@,
            password: self.password@,
            salt: self.salt@,
        }
    }
}

impl View for Board {
    type V = BoardRecord;

    open spec fn view(&self) -> BoardRecord {
        BoardRecord { uuid: self.uuid@, name: self.name@, user_uuid: self.user_uuid@, special: self.special }
    }
}

} // verus!
