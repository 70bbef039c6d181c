use vstd::prelude::*;
use crate::models::{Board, Task, User};

verus! {

pub const OK: u16 = 200;
pub const BAD_REQUEST: u16 = 400;
pub const UNAUTHORIZED: u16 = 401;
pub const NOT_FOUND: u16 = 404;
pub const INTERNAL_SERVER_ERROR: u16 = 500;

/// The JSON body of a reply.
pub enum Body {
    /// A JSON string.
    Message(String),
    /// JSON `null`.
    Null,
    /// A JSON array of task objects.
    Tasks(Vec<Task>),
    /// A JSON array of board objects.
    Boards(Vec<Board>),
    /// A user object.
    Account(User),
}

/// What a reply does to the session cookie.
pub enum SessionCookie {
    /// Leaves it as it is.
    Keep,
    /// Starts a session: sets it to the given user uuid, with the session cookie's path and domain.
    Start(String),
    /// Removes it, named with the session cookie's path and domain.
    Clear,
    /// Removes it, named by its name alone.
    ClearBare,
}

/// A finished reply: status code, JSON body and session cookie change.
pub struct Reply {
    pub status: u16,
    pub body: Body,
    pub cookie: SessionCookie,
}

pub enum BodyModel {
    Message(Seq<char>),
    Null,
    Tasks(Seq<Task>),
    Boards(Seq<Board>),
    Account(User),
}

pub enum CookieModel {
    Keep,
    Start(Seq<char>),
    Clear,
    ClearBare,
}

pub struct ReplyModel {
    pub status: u16,
    pub body: BodyModel,
    pub cookie: CookieModel,
}

impl View for Body {
    type V = BodyModel;

    open spec fn view(&self) -> BodyModel {
        match self {
            Body::Message(s) => BodyModel::Message(s@),
            Body::Null => BodyModel::Null,
            Body::Tasks(v) => BodyModel::Tasks(v@),
            Body::Boards(v) => BodyModel::Boards(v@),
            Body::Account(u) => BodyModel::Account(*u),
        }
    }
}

impl View for SessionCookie {
    type V = CookieModel;

    open spec fn view(&self) -> CookieModel {
        match self {
            SessionCookie::Keep => CookieModel::Keep,
            SessionCookie::Start(s) => CookieModel::Start(s@),
            SessionCookie::Clear => CookieModel::Clear,
            SessionCookie::ClearBare => CookieModel::ClearBare,
        }
    }
}

impl View for Reply {
    type V = ReplyModel;

    open spec fn view(&self) -> ReplyModel {
        ReplyModel { status: self.status, body: self.body@, cookie: self.cookie@ }
    }
}

/// A reply with a JSON string body and no cookie change.
pub open spec fn message_reply(status: u16, text: Seq<char>) -> ReplyModel {
    ReplyModel { status, body: BodyModel::Message(text), cookie: CookieModel::Keep }
}

/// A reply with a `null` body and no cookie change.
pub open spec fn null_reply(status: u16) -> ReplyModel {
    ReplyModel { status, body: BodyModel::Null, cookie: CookieModel::Keep }
}

impl Reply {
    /// A reply whose body is the JSON string `text`.
    pub fn message(status: u16, text: &str) -> (r: Reply)
        ensures
            r@ == message_reply(status, text@),
    {
        Reply { status, body: Body::Message(String::from_str(text)), cookie: SessionCookie::Keep }
    }

    /// A reply whose body is `null`.
    pub fn null(status: u16) -> (r: Reply)
        ensures
            r@ == null_reply(status),
    {
        Reply { status, body: Body::Null, cookie: SessionCookie::Keep }
    }
}

} // verus!
