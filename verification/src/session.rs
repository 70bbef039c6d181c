use vstd::prelude::*;
use crate::literal::{append_literal, escaped};

verus! {

/// Name of the cookie that carries the signed-in user's uuid.
pub const COOKIE_NAME: &'static str = "user_uuid";

/// Stand-in user uuid when a request carries no session cookie.
pub const NO_SESSION: &'static str = "FAILED";

/// The user uuid that a request acts for: the cookie's value, or `"FAILED"`.
pub open spec fn session_user(cookie: Option<Seq<char>>) -> Seq<char> {
    match cookie {
        Some(v) => v,
        None => "FAILED"@,
    }
}

/// Path attribute of the session cookie.
pub const COOKIE_PATH: &'static str = "/";

/// Domain attribute of the session cookie.
pub const COOKIE_DOMAIN: &'static str = "quicktick-api.fly.dev";

/// The user uuid that a request carrying `cookie` acts for.
pub fn session_user_of(cookie: &Option<String>) -> (r: String)
    ensures
        r@ == session_user(cookie.deep_view()),
{
    match cookie {
        Some(v) => v.clone(),
        None => String::from_str(NO_SESSION),
    }
}

/// Reply text when the signed-in user is not found.
pub const NO_CREDENTIALS: &'static str = "There aren't any matching credentials. Try loggin in again.";

/// Reply text when looking up the signed-in user fails.
pub const CREDENTIALS_FAILED: &'static str = "Failed while looking for credentials";

/// Query text that looks up the signed-in user by uuid.
pub open spec fn credentials_text(user: Seq<char>) -> Seq<char> {
    "SELECT * FROM user WHERE uuid =\""@ + escaped(user) + "\""@
}

pub fn credentials_sql(user: &str) -> (q: String)
    ensures
        q@ == credentials_text(user@),
{
    let mut q = String::from_str("SELECT * FROM user WHERE uuid =\"");
    append_literal(&mut q, user);
    q.append("\"");
    q
}

} // verus!
