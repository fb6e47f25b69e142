//! Logging in and registering.

use vstd::prelude::*;
use crate::blizzard::error::{DbError, SqlErr};
use crate::blizzard::hash::{phc_parses, pwd_matches};
use crate::blizzard::token::is_public_token;
use crate::blizzard::user::{names_user, ActiveModel, Model};

verus! {

/// Answers to a login.
#[derive(Debug, Clone, Copy, PartialEq, Eq, Structural)]
pub enum LoginResp {
    /// Logged in (status 200); the token is set as a cookie.
    LoggedIn,
    /// Invalid credentials.
    Bad,
    /// Internal error (e.g., a database error).
    InternalError,
}

/// What a login comes to.
#[derive(Debug)]
pub enum LoginOutcome {
    /// The credentials are valid; the "token" cookie is set to this token.
    Granted(String),
    /// No such user, or the wrong password.
    Bad,
    /// The lookup failed.
    InternalError,
    /// The stored hash of the user's password is not a PHC string; the
    /// server fails on it.
    CorruptHash,
    /// No token could be issued; the server fails on it.
    TokenFailed(pasetors::errors::Error),
}

impl LoginOutcome {
    /// The answer sent; none where the server fails.
    pub fn response(&self) -> (r: Option<LoginResp>)
        ensures
            r == match self {
                LoginOutcome::Granted(_) => Some(LoginResp::LoggedIn),
                LoginOutcome::Bad => Some(LoginResp::Bad),
                LoginOutcome::InternalError => Some(LoginResp::InternalError),
                LoginOutcome::CorruptHash => None::<LoginResp>,
                LoginOutcome::TokenFailed(_) => None::<LoginResp>,
            },
    {
        match self {
            LoginOutcome::Granted(_) => Some(LoginResp::LoggedIn),
            LoginOutcome::Bad => Some(LoginResp::Bad),
            LoginOutcome::InternalError => Some(LoginResp::InternalError),
            LoginOutcome::CorruptHash => None,
            LoginOutcome::TokenFailed(_) => None,
        }
    }
}

/// The login decision, given the result of looking up the user by the
/// handle or email of the credentials.
pub open spec fn login_ok(found: Result<Option<Model>, DbError>, password: Seq<char>, r: LoginOutcome) -> bool {
    match found {
        Err(_) => r is InternalError,
        Ok(None) => r is Bad,
        Ok(Some(u)) => if !phc_parses(u.password@) {
            r is CorruptHash
        } else if !pwd_matches(u.password@, password) {
            r is Bad
        } else {
            (r matches LoginOutcome::Granted(t) && is_public_token(t@) && names_user(t@, u)) || r is TokenFailed
        },
    }
}

/// A login grants a session only to a user that was found and whose
/// stored hash the given password matches, and the token names that user;
/// a missing user and a wrong password are answered alike, as bad
/// credentials; a failed lookup is never answered as bad credentials.
pub proof fn login_grants_only_matching(found: Result<Option<Model>, DbError>, password: Seq<char>, r: LoginOutcome)
    requires
        login_ok(found, password, r),
    ensures
        r matches LoginOutcome::Granted(t) ==> (found matches Ok(Some(u))
            && phc_parses(u.password@) && pwd_matches(u.password@, password) && names_user(t@, u)),
        found matches Ok(None) ==> r is Bad,
        (found matches Ok(Some(u)) && phc_parses(u.password@) && !pwd_matches(u.password@, password))
            ==> r is Bad,
        found is Err ==> r is InternalError,
{
}

/// Logs in: a found user whose password matches gets a token; a missing
/// user or a wrong password is refused alike; a failed lookup is an
/// internal error.
pub fn login(found: Result<Option<Model>, DbError>, password: &str) -> (r: LoginOutcome)
    ensures
        login_ok(found, password@, r),
{
    match found {
        Err(_) => LoginOutcome::InternalError,
        Ok(None) => LoginOutcome::Bad,
        Ok(Some(user)) => match user.verify_pwd_checked(password) {
            None => LoginOutcome::CorruptHash,
            Some(false) => LoginOutcome::Bad,
            Some(true) => match user.create_token() {
                Ok(t) => LoginOutcome::Granted(t),
                Err(e) => LoginOutcome::TokenFailed(e),
            },
        },
    }
}

/// A registration request.
#[derive(Debug)]
pub struct RegisterReq {
    pub display_name: Option<String>,
    pub handle: String,
    pub email: String,
    pub password: String,
}

/// Whether a character may appear in a handle: an ASCII letter or digit,
/// or '_'.
pub open spec fn handle_char(c: char) -> bool {
    ('a' <= c && c <= 'z') || ('A' <= c && c <= 'Z') || ('0' <= c && c <= '9') || c == '_'
}

/// A valid handle: 6 to 24 characters, each a letter, a digit or '_'.
pub open spec fn spec_valid_handle(h: Seq<char>) -> bool {
    6 <= h.len() <= 24 && forall|i: int| 0 <= i < h.len() ==> handle_char(#[trigger] h[i])
}

/// A handle is valid exactly when it is 6 to 24 characters long and each
/// of them is an ASCII letter, an ASCII digit or '_' (the pattern
/// `^[a-zA-Z0-9_]+$`): any other character, such as '.', '-' or a letter
/// outside ASCII, makes it invalid.
pub proof fn handle_rule(h: Seq<char>)
    ensures
        spec_valid_handle(h) <==> {
            &&& 6 <= h.len() <= 24
            &&& forall|i: int| 0 <= i < h.len() ==> {
                let c = #[trigger] h[i];
                ||| ('a' <= c && c <= 'z')
                ||| ('A' <= c && c <= 'Z')
                ||| ('0' <= c && c <= '9')
                ||| c == '_'
            }
        },
{
}

/// Whether a handle is valid.
pub fn valid_handle(h: &str) -> (r: bool)
    ensures
        r == spec_valid_handle(h@),
        r ==> 6 <= h@.len() <= 24,
        r ==> forall|i: int| 0 <= i < h@.len() ==> {
            let c = #[trigger] h@[i];
            ('a' <= c && c <= 'z') || ('A' <= c && c <= 'Z') || ('0' <= c && c <= '9') || c == '_'
        },
        (6 <= h@.len() <= 24 && forall|i: int| 0 <= i < h@.len() ==> {
            let c = #[trigger] h@[i];
            ('a' <= c && c <= 'z') || ('A' <= c && c <= 'Z') || ('0' <= c && c <= '9') || c == '_'
        }) ==> r,
{
    proof {
        handle_rule(h@);
    }
    let n = h.unicode_len();
    if n < 6 || n > 24 {
        return false;
    }
    let mut i: usize = 0;
    while i < n
        invariant
            n == h@.len(),
            i <= n,
            forall|j: int| 0 <= j < i ==> handle_char(#[trigger] h@[j]),
        decreases n - i,
    {
        let c = h.get_char(i);
        if !(('a' <= c && c <= 'z') || ('A' <= c && c <= 'Z') || ('0' <= c && c <= '9') || c == '_') {
            assert(!handle_char(h@[i as int]));
            return false;
        }
        i += 1;
    }
    true
}

/// The user to insert for a registration: its display name, handle, email
/// and password set, its uid left for `before_save`.
pub fn new_user(req: &RegisterReq) -> (m: ActiveModel)
    ensures
        m.display_name matches Some(d) && d == req.display_name,
        m.handle matches Some(h) && h@ == req.handle@,
        m.email matches Some(e) && e@ == req.email@,
        m.password matches Some(p) && p@ == req.password@,
        m.uid is None,
{
    let display_name = match &req.display_name {
        Some(d) => Some(d.clone()),
        None => None,
    };
    ActiveModel {
        uid: None,
        handle: Some(req.handle.clone()),
        display_name: Some(display_name),
        email: Some(req.email.clone()),
        password: Some(req.password.clone()),
    }
}

/// Accepts a registration request: one whose handle is not valid is
/// refused (`None`, answered as a bad request) before anything is
/// inserted; otherwise the user to insert, as `new_user` makes it.
pub fn accept_register(req: &RegisterReq) -> (r: Option<ActiveModel>)
    ensures
        r is Some <==> spec_valid_handle(req.handle@),
        r matches Some(m) ==> {
            &&& m.display_name matches Some(d) && d == req.display_name
            &&& m.handle matches Some(h) && h@ == req.handle@
            &&& m.email matches Some(e) && e@ == req.email@
            &&& m.password matches Some(p) && p@ == req.password@
            &&& m.uid is None
        },
{
    if valid_handle(req.handle.as_str()) {
        Some(new_user(req))
    } else {
        None
    }
}

/// Answers to a registration.
#[derive(Debug)]
pub enum RegisterResp {
    /// Created (status 201); the id of the new user.
    Created(i32),
    /// Handle or email already in use; the database's message.
    Conflict(String),
    /// Internal error (e.g., a database error).
    InternalError,
}

/// What a registration comes to.
#[derive(Debug)]
pub enum RegisterOutcome {
    /// The user was created; the "token" cookie is set to this token.
    Created { id: i32, token: String },
    /// Handle or email already in use.
    Conflict(String),
    /// The insert failed otherwise.
    InternalError,
    /// No token could be issued; the server fails on it.
    TokenFailed(pasetors::errors::Error),
}

/// The registration decision, given the result of the insert.
pub open spec fn register_ok(inserted: Result<Model, DbError>, r: RegisterOutcome) -> bool {
    match inserted {
        Ok(u) => (r matches RegisterOutcome::Created { id, token } && id == u.id && is_public_token(token@) && names_user(token@, u))
            || r is TokenFailed,
        Err(e) => match e.sql {
            Some(SqlErr::UniqueConstraintViolation(f)) => r matches RegisterOutcome::Conflict(m) && m@ == f@,
            _ => r is InternalError,
        },
    }
}

/// A registration answers Created only for an inserted user, with that
/// user's id and a token naming them; a unique constraint violation is a
/// conflict carrying the database's own message.
pub proof fn register_creates_only_inserted(inserted: Result<Model, DbError>, r: RegisterOutcome)
    requires
        register_ok(inserted, r),
    ensures
        r matches RegisterOutcome::Created { id, token } ==> (inserted matches Ok(u) && id == u.id && names_user(token@, u)),
        match inserted {
            Err(e) => match e.sql {
                Some(SqlErr::UniqueConstraintViolation(f)) => r matches RegisterOutcome::Conflict(m) && m@ == f@,
                _ => r is InternalError,
            },
            Ok(_) => !(r is Conflict) && !(r is InternalError),
        },
{
}

/// Registers: an inserted user gets a token; a unique constraint violation
/// is a conflict carrying the database's message; any other failure is an
/// internal error.
pub fn register(inserted: Result<Model, DbError>) -> (r: RegisterOutcome)
    ensures
        register_ok(inserted, r),
{
    match inserted {
        Ok(u) => match u.create_token() {
            Ok(token) => RegisterOutcome::Created { id: u.id, token },
            Err(e) => RegisterOutcome::TokenFailed(e),
        },
        Err(e) => match e.sql {
            Some(SqlErr::UniqueConstraintViolation(f)) => RegisterOutcome::Conflict(f),
            _ => RegisterOutcome::InternalError,
        },
    }
}

impl RegisterOutcome {
    /// The answer sent; none where the server fails.
    pub fn response(self) -> (r: Option<RegisterResp>)
        ensures
            match self {
                RegisterOutcome::Created { id, token } => r matches Some(RegisterResp::Created(i)) && i == id,
                RegisterOutcome::Conflict(m) => r matches Some(RegisterResp::Conflict(c)) && c@ == m@,
                RegisterOutcome::InternalError => r matches Some(RegisterResp::InternalError),
                RegisterOutcome::TokenFailed(_) => r is None,
            },
    {
        match self {
            RegisterOutcome::Created { id, token } => Some(RegisterResp::Created(id)),
            RegisterOutcome::Conflict(m) => Some(RegisterResp::Conflict(m)),
            RegisterOutcome::InternalError => Some(RegisterResp::InternalError),
            RegisterOutcome::TokenFailed(_) => None,
        }
    }
}

} // verus!
