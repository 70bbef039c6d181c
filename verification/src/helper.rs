use vstd::prelude::*;
use crate::literal::{append_literal, escaped};
use crate::db::{DbEvent, Fetch, Next, Outcome, DbRequest};
use crate::models::User;
use crate::password::{bcrypt_verdict, check_password};
use crate::reply::{
    Reply, ReplyModel, Body, BodyModel, SessionCookie, CookieModel, message_reply, OK, UNAUTHORIZED,
    INTERNAL_SERVER_ERROR,
};
use crate::request::text_is;
use crate::session::{session_user, session_user_of, NO_SESSION};

verus! {

pub const COOKIE_LOGIN_FAILED: &'static str = "Failed while using cookie as login. Relogin please.";
pub const WRONG_PASSWORD: &'static str = "There isn't a matching password, email was found";
pub const NO_EMAIL: &'static str = "There isn't any matching email";
pub const EMAIL_LOOKUP_FAILED: &'static str = "Failed while looking for email";
pub const LOGGED_IN: &'static str = "Logged in";

/// The path word that, as both email and password, asks to sign in with the session cookie.
pub const COOKIE_WORD: &'static str = "cookie";

/// Where a sign-in waits for the database.
pub enum LoginPhase {
    /// The account named by the session cookie is being read.
    ByCookie,
    /// The account with the given address is being read; `password` is the one offered.
    ByEmail { password: String },
}

pub enum LoginStage {
    ByCookie,
    ByEmail { password: Seq<char> },
}

impl View for LoginPhase {
    type V = LoginStage;

    open spec fn view(&self) -> LoginStage {
        match self {
            LoginPhase::ByCookie => LoginStage::ByCookie,
            LoginPhase::ByEmail { password } => LoginStage::ByEmail { password: password@ },
        }
    }
}

impl LoginStage {
    /// How the query awaited in this phase is run.
    pub open spec fn awaits(self) -> Fetch {
        match self {
            LoginStage::ByCookie => Fetch::OneUser,
            LoginStage::ByEmail { .. } => Fetch::OptionalUser,
        }
    }

    /// Number of queries this phase may still wait for, itself included.
    pub open spec fn rank(self) -> nat {
        1
    }
}

/// Query text that reads the account named by the session cookie.
pub open spec fn cookie_account_text(user: Seq<char>) -> Seq<char> {
    "SELECT * FROM user WHERE uuid = \""@ + escaped(user) + "\""@
}

pub fn cookie_account_sql(user: &str) -> (q: String)
    ensures
        q@ == cookie_account_text(user@),
{
    let mut q = String::from_str("SELECT * FROM user WHERE uuid = \"");
    append_literal(&mut q, user);
    q.append("\"");
    q
}

/// Query text that reads the account with the address `email`.
pub open spec fn email_account_text(email: Seq<char>) -> Seq<char> {
    "SELECT * FROM user WHERE email =\""@ + escaped(email) + "\" "@
}

pub fn email_account_sql(email: &str) -> (q: String)
    ensures
        q@ == email_account_text(email@),
{
    let mut q = String::from_str("SELECT * FROM user WHERE email =\"");
    append_literal(&mut q, email);
    q.append("\" ");
    q
}

/// Whether a sign-in request asks to use its session cookie: it carries one
/// and gives `cookie` as both email and password.
pub open spec fn signs_in_by_cookie(cookie: Option<Seq<char>>, email: Seq<char>, password: Seq<char>) -> bool {
    &&& session_user(cookie) != NO_SESSION@
    &&& email == COOKIE_WORD@
    &&& password == COOKIE_WORD@
}

/// First step of `GET /login/:email/:password`.
pub open spec fn login_entry(cookie: Option<Seq<char>>, email: Seq<char>, password: Seq<char>) -> Outcome<
    LoginStage,
> {
    if signs_in_by_cookie(cookie, email, password) {
        Outcome::Ask(LoginStage::ByCookie, cookie_account_text(session_user(cookie)), Fetch::OneUser)
    } else {
        Outcome::Ask(LoginStage::ByEmail { password }, email_account_text(email), Fetch::OptionalUser)
    }
}

/// The reply to a sign-in by address once the offered password has been
/// checked against `user`'s stored hash: on success, a session for `user`.
pub open spec fn login_answer(user: User, accepted: bool) -> ReplyModel {
    if accepted {
        ReplyModel {
            status: OK,
            body: BodyModel::Message(LOGGED_IN@),
            cookie: CookieModel::Start(user.uuid@),
        }
    } else {
        message_reply(UNAUTHORIZED, WRONG_PASSWORD@)
    }
}

/// Whether `password` is accepted for `user`: the password followed by the
/// user's salt matches the stored hash.
pub open spec fn password_accepted(user: User, password: Seq<char>) -> bool {
    bcrypt_verdict(password + user.salt@, user.password@) == Some(true)
}

/// Step of `GET /login/:email/:password` on the database's answer `event` in `stage`.
pub open spec fn login_transition(stage: LoginStage, event: DbEvent) -> Outcome<LoginStage> {
    match stage {
        LoginStage::ByCookie => match event {
            DbEvent::User(Some(user)) => Outcome::Reply(
                ReplyModel { status: OK, body: BodyModel::Account(user), cookie: CookieModel::Keep },
            ),
            _ => Outcome::Reply(message_reply(INTERNAL_SERVER_ERROR, COOKIE_LOGIN_FAILED@)),
        },
        LoginStage::ByEmail { password } => match event {
            DbEvent::User(Some(user)) => Outcome::Reply(login_answer(user, password_accepted(user, password))),
            DbEvent::User(None) => Outcome::Reply(message_reply(UNAUTHORIZED, NO_EMAIL@)),
            _ => Outcome::Reply(message_reply(INTERNAL_SERVER_ERROR, EMAIL_LOOKUP_FAILED@)),
        },
    }
}

/// Starts `GET /login/:email/:password` for a request carrying `cookie`.
pub fn login_begin(cookie: &Option<String>, email: &String, password: String) -> (r: Next<LoginPhase>)
    ensures
        r@ == login_entry(cookie.deep_view(), email@, password@),
{
    let user = session_user_of(cookie);
    if !text_is(&user, NO_SESSION) && text_is(email, COOKIE_WORD) && text_is(&password, COOKIE_WORD) {
        Next::Ask(LoginPhase::ByCookie, DbRequest { sql: cookie_account_sql(user.as_str()), fetch: Fetch::OneUser })
    } else {
        Next::Ask(
            LoginPhase::ByEmail { password },
            DbRequest { sql: email_account_sql(email.as_str()), fetch: Fetch::OptionalUser },
        )
    }
}

/// The reply to a sign-in by address, given whether the password was accepted.
pub fn answer_login(user: User, accepted: bool) -> (r: Reply)
    ensures
        r@ == login_answer(user, accepted),
{
    if accepted {
        Reply {
            status: OK,
            body: Body::Message(String::from_str(LOGGED_IN)),
            cookie: SessionCookie::Start(user.uuid),
        }
    } else {
        Reply::message(UNAUTHORIZED, WRONG_PASSWORD)
    }
}

/// Continues `GET /login/:email/:password` with the answer to the query awaited in `phase`.
pub fn login_resume(phase: LoginPhase, event: DbEvent) -> (r: Next<LoginPhase>)
    requires
        event.fits(phase@.awaits()),
    ensures
        r@ == login_transition(phase@, event),
{
    match phase {
        LoginPhase::ByCookie => match event {
            DbEvent::User(Some(user)) => Next::Reply(
                Reply { status: OK, body: Body::Account(user), cookie: SessionCookie::Keep },
            ),
            _ => Next::Reply(Reply::message(INTERNAL_SERVER_ERROR, COOKIE_LOGIN_FAILED)),
        },
        LoginPhase::ByEmail { password } => match event {
            DbEvent::User(Some(user)) => {
                let mut salted = password;
                salted.append(user.salt.as_str());
                let accepted = check_password(salted.as_str(), user.password.as_str());
                Next::Reply(answer_login(user, accepted))
            },
            DbEvent::User(None) => Next::Reply(Reply::message(UNAUTHORIZED, NO_EMAIL)),
            _ => Next::Reply(Reply::message(INTERNAL_SERVER_ERROR, EMAIL_LOOKUP_FAILED)),
        },
    }
}

/// `GET /logout`: ends the session.
pub open spec fn logout_reply() -> ReplyModel {
    ReplyModel { status: OK, body: BodyModel::Null, cookie: CookieModel::Clear }
}

/// `GET /logout`: ends the session.
pub fn logout() -> (r: Reply)
    ensures
        r@ == logout_reply(),
{
    Reply { status: OK, body: Body::Null, cookie: SessionCookie::Clear }
}

} // verus!
