use vstd::prelude::*;
use crate::literal::{append_literal, escaped};
use crate::db::{DbEvent, Fetch, Next, Outcome, DbRequest};
use crate::https::post::task::{INCORRECT_BODY, TASK_CREATION_FAILED};
use crate::password::{bcrypt_verdict, bcrypt_prefix, hash_password, is_salt, new_salt};
use crate::reply::{
    Reply, ReplyModel, Body, BodyModel, SessionCookie, CookieModel, message_reply, OK, BAD_REQUEST,
    INTERNAL_SERVER_ERROR,
};
use crate::request::RequestBody;

verus! {

pub const EMAIL_TAKEN: &'static str = "Email already exists";
pub const EMAIL_CHECK_FAILED: &'static str = "Account with that email already exists";
pub const ACCOUNT_CREATION_FAILED: &'static str = "Account creation failed";
pub const UUID_LOOKUP_FAILED: &'static str = "Account doesn't exist, but creation failed";

/// The account that a `POST /post/create_user` body describes.
pub struct NewAccount {
    pub email: String,
    pub password: String,
    pub name: String,
}

pub struct NewAccountModel {
    pub email: Seq<char>,
    pub password: Seq<char>,
    pub name: Seq<char>,
}

impl View for NewAccount {
    type V = NewAccountModel;

    open spec fn view(&self) -> NewAccountModel {
        NewAccountModel { email: self.email@, password: self.password@, name: self.name@ }
    }
}

/// The account described by a body: its string members `email`,
/// `password` and `name`, or `None` when one of them is missing or not a string.
pub open spec fn new_account_request(body: RequestBody) -> Option<NewAccountModel> {
    match (body.text("email"@), body.text("password"@), body.text("name"@)) {
        (Some(email), Some(password), Some(name)) => Some(NewAccountModel { email, password, name }),
        _ => None,
    }
}

/// Reads the described account from a `POST /post/create_user` body.
pub fn parse_new_account(body: &RequestBody) -> (r: Option<NewAccount>)
    ensures
        match (r, new_account_request(*body)) {
            (Some(a), Some(ma)) => a@ == ma,
            (None, None) => true,
            _ => false,
        },
{
    match (body.get_str("email"), body.get_str("password"), body.get_str("name")) {
        (Some(email), Some(password), Some(name)) => Some(NewAccount { email, password, name }),
        _ => None,
    }
}

/// Query text that looks for an account with the address `email`.
pub open spec fn email_taken_text(email: Seq<char>) -> Seq<char> {
    "SELECT * FROM user WHERE email =\""@ + escaped(email) + "\""@
}

pub fn email_taken_sql(email: &str) -> (q: String)
    ensures
        q@ == email_taken_text(email@),
{
    let mut q = String::from_str("SELECT * FROM user WHERE email =\"");
    append_literal(&mut q, email);
    q.append("\"");
    q
}

/// Query text that stores an account with a hashed password and its salt.
pub open spec fn insert_user_text(email: Seq<char>, hashed: Seq<char>, name: Seq<char>, salt: Seq<char>) -> Seq<
    char,
> {
    "INSERT INTO user (email, password, name, salt) VALUES ('"@ + escaped(email) + "', '"@ + escaped(hashed) + "', '"@ + escaped(name)
        + "', '"@ + escaped(salt) + "')"@
}

pub fn insert_user_sql(email: &str, hashed: &str, name: &str, salt: &str) -> (q: String)
    ensures
        q@ == insert_user_text(email@, hashed@, name@, salt@),
{
    let mut q = String::from_str("INSERT INTO user (email, password, name, salt) VALUES ('");
    append_literal(&mut q, email);
    q.append("', '");
    append_literal(&mut q, hashed);
    q.append("', '");
    append_literal(&mut q, name);
    q.append("', '");
    append_literal(&mut q, salt);
    q.append("')");
    q
}

/// Query text that reads back the uuid of the account just stored.
pub open spec fn new_uuid_text(email: Seq<char>, hashed: Seq<char>) -> Seq<char> {
    "SELECT uuid FROM user WHERE email = '"@ + escaped(email) + "' AND password = '"@ + escaped(hashed) + "'"@
}

pub fn new_uuid_sql(email: &str, hashed: &str) -> (q: String)
    ensures
        q@ == new_uuid_text(email@, hashed@),
{
    let mut q = String::from_str("SELECT uuid FROM user WHERE email = '");
    append_literal(&mut q, email);
    q.append("' AND password = '");
    append_literal(&mut q, hashed);
    q.append("'");
    q
}

/// Query text that makes the two boards every account starts with:
/// `Home` (special 1) and `Archive` (special 2).
pub open spec fn default_boards_text(user: Seq<char>) -> Seq<char> {
    "INSERT INTO board (name, user_uuid, special ) VALUES ( 'Home' , '"@ + escaped(user)
        + "', '1' ), ( 'Archive' , '"@ + escaped(user) + "', '2' )"@
}

pub fn default_boards_sql(user: &str) -> (q: String)
    ensures
        q@ == default_boards_text(user@),
{
    let mut q = String::from_str("INSERT INTO board (name, user_uuid, special ) VALUES ( 'Home' , '");
    append_literal(&mut q, user);
    q.append("', '1' ), ( 'Archive' , '");
    append_literal(&mut q, user);
    q.append("', '2' )");
    q
}

/// Where an account creation waits for the database.
pub enum CreateUserPhase {
    /// Accounts with the same address are being looked for.
    CheckingEmail(NewAccount),
    /// The account is being stored with the hashed password.
    Inserting { email: String, hashed: String },
    /// The new account's uuid is being read back.
    FindingUuid,
    /// The account's first boards are being made.
    AddingBoards { user_uuid: String },
}

pub enum CreateUserStage {
    CheckingEmail(NewAccountModel),
    Inserting { email: Seq<char>, hashed: Seq<char> },
    FindingUuid,
    AddingBoards { user_uuid: Seq<char> },
}

impl View for CreateUserPhase {
    type V = CreateUserStage;

    open spec fn view(&self) -> CreateUserStage {
        match self {
            CreateUserPhase::CheckingEmail(a) => CreateUserStage::CheckingEmail(a@),
            CreateUserPhase::Inserting { email, hashed } => CreateUserStage::Inserting {
                email: email@,
                hashed: hashed@,
            },
            CreateUserPhase::FindingUuid => CreateUserStage::FindingUuid,
            CreateUserPhase::AddingBoards { user_uuid } => CreateUserStage::AddingBoards {
                user_uuid: user_uuid@,
            },
        }
    }
}

impl CreateUserStage {
    /// How the query awaited in this phase is run.
    pub open spec fn awaits(self) -> Fetch {
        match self {
            CreateUserStage::CheckingEmail(_) => Fetch::OptionalUser,
            CreateUserStage::Inserting { .. } => Fetch::Execute,
            CreateUserStage::FindingUuid => Fetch::UuidColumn,
            CreateUserStage::AddingBoards { .. } => Fetch::Execute,
        }
    }

    /// Number of queries this phase may still wait for, itself included.
    pub open spec fn rank(self) -> nat {
        match self {
            CreateUserStage::CheckingEmail(_) => 4,
            CreateUserStage::Inserting { .. } => 3,
            CreateUserStage::FindingUuid => 2,
            CreateUserStage::AddingBoards { .. } => 1,
        }
    }
}

/// First step of `POST /post/create_user`: refuse a body that does not
/// describe an account, else look for an account with the same address.
pub open spec fn create_user_entry(body: RequestBody) -> Outcome<CreateUserStage> {
    match new_account_request(body) {
        Some(account) => Outcome::Ask(
            CreateUserStage::CheckingEmail(account),
            email_taken_text(account.email),
            Fetch::OptionalUser,
        ),
        None => Outcome::Reply(message_reply(BAD_REQUEST, INCORRECT_BODY@)),
    }
}

/// Once the address is known to be free: store `account` with `salt` and
/// the hash of its password followed by `salt`, or give up on the request
/// when no hash could be made.
pub open spec fn account_insert(account: NewAccountModel, salt: Seq<char>, hashed: Option<Seq<char>>) -> Outcome<
    CreateUserStage,
> {
    match hashed {
        Some(h) => Outcome::Ask(
            CreateUserStage::Inserting { email: account.email, hashed: h },
            insert_user_text(account.email, h, account.name, salt),
            Fetch::Execute,
        ),
        None => Outcome::Abort,
    }
}

/// `outcome` stores `account` with the seven-character salt `salt` and a
/// hash that verifies against the password followed by `salt` (60
/// characters, beginning `$2b$10$`), or gives up when no hash was made.
pub open spec fn secured_insert(
    account: NewAccountModel,
    salt: Seq<char>,
    hashed: Option<Seq<char>>,
    outcome: Outcome<CreateUserStage>,
) -> bool {
    &&& is_salt(salt, 7)
    &&& (hashed matches Some(h) ==> {
        &&& bcrypt_verdict(account.password + salt, h) == Some(true)
        &&& h.len() == 60
        &&& h.take(7) == bcrypt_prefix(10)
    })
    &&& outcome == account_insert(account, salt, hashed)
}

/// Step of `POST /post/create_user` on the database's answer `event` in
/// `stage`, for every case but a free address (see `account_insert`).
pub open spec fn create_user_transition(stage: CreateUserStage, event: DbEvent) -> Outcome<CreateUserStage> {
    match stage {
        CreateUserStage::CheckingEmail(_) => match event {
            DbEvent::User(Some(_)) => Outcome::Reply(message_reply(BAD_REQUEST, EMAIL_TAKEN@)),
            _ => Outcome::Reply(message_reply(INTERNAL_SERVER_ERROR, EMAIL_CHECK_FAILED@)),
        },
        CreateUserStage::Inserting { email, hashed } => match event {
            DbEvent::Failed => Outcome::Reply(message_reply(INTERNAL_SERVER_ERROR, ACCOUNT_CREATION_FAILED@)),
            _ => Outcome::Ask(CreateUserStage::FindingUuid, new_uuid_text(email, hashed), Fetch::UuidColumn),
        },
        CreateUserStage::FindingUuid => match event {
            DbEvent::Uuid(u) => Outcome::Ask(
                CreateUserStage::AddingBoards { user_uuid: u@ },
                default_boards_text(u@),
                Fetch::Execute,
            ),
            _ => Outcome::Reply(message_reply(INTERNAL_SERVER_ERROR, UUID_LOOKUP_FAILED@)),
        },
        CreateUserStage::AddingBoards { user_uuid } => match event {
            DbEvent::Failed => Outcome::Reply(message_reply(INTERNAL_SERVER_ERROR, TASK_CREATION_FAILED@)),
            _ => Outcome::Reply(
                ReplyModel {
                    status: OK,
                    body: BodyModel::Null,
                    cookie: CookieModel::Start(user_uuid),
                },
            ),
        },
    }
}

/// Starts `POST /post/create_user` for a request carrying `body`.
pub fn create_user_begin(body: &RequestBody) -> (r: Next<CreateUserPhase>)
    ensures
        r@ == create_user_entry(*body),
{
    match parse_new_account(body) {
        Some(account) => {
            let sql = email_taken_sql(account.email.as_str());
            Next::Ask(CreateUserPhase::CheckingEmail(account), DbRequest { sql, fetch: Fetch::OptionalUser })
        },
        None => Next::Reply(Reply::message(BAD_REQUEST, INCORRECT_BODY)),
    }
}

/// Stores `account` with `salt` and the hashed salted password `hashed`;
/// gives up on the request when `hashed` is `None`.
pub fn store_account(account: NewAccount, salt: String, hashed: Option<String>) -> (r: Next<CreateUserPhase>)
    ensures
        r@ == account_insert(account@, salt@, hashed.deep_view()),
{
    match hashed {
        Some(h) => {
            let sql = insert_user_sql(account.email.as_str(), h.as_str(), account.name.as_str(), salt.as_str());
            Next::Ask(
                CreateUserPhase::Inserting { email: account.email, hashed: h },
                DbRequest { sql, fetch: Fetch::Execute },
            )
        },
        None => Next::Abort,
    }
}

/// Continues `POST /post/create_user` with the answer to the query awaited
/// in `phase`. When the address is free, a fresh salt of seven letters and
/// digits is drawn and the password followed by it is hashed; whatever
/// they are, the hash verifies against that salted password.
pub fn create_user_resume(phase: CreateUserPhase, event: DbEvent) -> (r: Next<CreateUserPhase>)
    requires
        event.fits(phase@.awaits()),
    ensures
        (phase@ is CheckingEmail && event is User && event->User_0 is None) ==> exists|
            salt: Seq<char>,
            hashed: Option<Seq<char>>,
        | #[trigger] secured_insert(phase@->CheckingEmail_0, salt, hashed, r@),
        !(phase@ is CheckingEmail && event is User && event->User_0 is None) ==> r@ == create_user_transition(
            phase@,
            event,
        ),
{
    let ghost start = phase@;
    match phase {
        CreateUserPhase::CheckingEmail(account) => match event {
            DbEvent::User(None) => {
                let ghost model = account@;
                let salt = new_salt();
                let mut salted = account.password.clone();
                salted.append(salt.as_str());
                let hashed = hash_password(salted.as_str());
                let ghost (s, h) = (salt@, hashed.deep_view());
                let r = store_account(account, salt, hashed);
                assert(model == start->CheckingEmail_0);
                assert(secured_insert(start->CheckingEmail_0, s, h, r@));
                r
            },
            DbEvent::User(Some(_)) => Next::Reply(Reply::message(BAD_REQUEST, EMAIL_TAKEN)),
            _ => Next::Reply(Reply::message(INTERNAL_SERVER_ERROR, EMAIL_CHECK_FAILED)),
        },
        CreateUserPhase::Inserting { email, hashed } => match event {
            DbEvent::Failed => Next::Reply(Reply::message(INTERNAL_SERVER_ERROR, ACCOUNT_CREATION_FAILED)),
            _ => Next::Ask(
                CreateUserPhase::FindingUuid,
                DbRequest { sql: new_uuid_sql(email.as_str(), hashed.as_str()), fetch: Fetch::UuidColumn },
            ),
        },
        CreateUserPhase::FindingUuid => match event {
            DbEvent::Uuid(u) => {
                let sql = default_boards_sql(u.as_str());
                Next::Ask(CreateUserPhase::AddingBoards { user_uuid: u }, DbRequest { sql, fetch: Fetch::Execute })
            },
            _ => Next::Reply(Reply::message(INTERNAL_SERVER_ERROR, UUID_LOOKUP_FAILED)),
        },
        CreateUserPhase::AddingBoards { user_uuid } => match event {
            DbEvent::Failed => Next::Reply(Reply::message(INTERNAL_SERVER_ERROR, TASK_CREATION_FAILED)),
            _ => Next::Reply(Reply { status: OK, body: Body::Null, cookie: SessionCookie::Start(user_uuid) }),
        },
    }
}

} // verus!
