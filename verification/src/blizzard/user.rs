//! Users: the stored record, lookup by handle or email, password checks,
//! tokens, and what happens to a new user before it is saved.

use vstd::prelude::*;
use vstd::utf8::encode_utf8;
use crate::blizzard::hash::{hash_pwd, phc_parses, phc_valid, pwd_matches, verify_pwd};
use crate::blizzard::token::{is_public_token, issue_token, token_claims, UID_CLAIM};
use crate::text::opt_view;

verus! {

/// A stored user.
#[derive(Debug)]
pub struct Model {
    pub id: i32,
    pub uid: String,
    pub handle: String,
    pub display_name: Option<String>,
    pub email: String,
    /// PHC string of the password's hash.
    pub password: String,
    pub api_key: Option<String>,
    pub rating: i16,
    pub bio: Option<String>,
}

/// Columns that users are looked up by.
#[derive(Debug, Clone, Copy, PartialEq, Eq, Structural)]
pub enum Column {
    Handle,
    Email,
}

/// The condition "`column` equals `value`".
#[derive(Debug)]
pub struct ColumnEq {
    pub column: Column,
    pub value: String,
}

/// A query that selects the users satisfying any of its conditions.
#[derive(Debug)]
pub struct AnyOf {
    pub conditions: Vec<ColumnEq>,
}

/// Whether a user satisfies a condition.
pub open spec fn holds(c: ColumnEq, u: Model) -> bool {
    match c.column {
        Column::Handle => u.handle@ == c.value@,
        Column::Email => u.email@ == c.value@,
    }
}

impl AnyOf {
    /// Whether the query selects the user.
    pub open spec fn selects(&self, u: Model) -> bool {
        exists|i: int| 0 <= i < self.conditions@.len() && holds(#[trigger] self.conditions@[i], u)
    }
}

/// The query for the users whose handle or whose email is `z`.
pub fn find_by_email_or_handle(z: &str) -> (q: AnyOf)
    ensures
        q.conditions@.len() == 2,
        q.conditions@[0].column == Column::Handle && q.conditions@[0].value@ == z@,
        q.conditions@[1].column == Column::Email && q.conditions@[1].value@ == z@,
        forall|u: Model| q.selects(u) <==> (u.handle@ == z@ || u.email@ == z@),
{
    let mut conditions: Vec<ColumnEq> = Vec::new();
    conditions.push(ColumnEq { column: Column::Handle, value: z.to_owned() });
    conditions.push(ColumnEq { column: Column::Email, value: z.to_owned() });
    let q = AnyOf { conditions };
    assert forall|u: Model| q.selects(u) <==> (u.handle@ == z@ || u.email@ == z@) by {
        if u.handle@ == z@ {
            assert(holds(q.conditions@[0], u));
        }
        if u.email@ == z@ {
            assert(holds(q.conditions@[1], u));
        }
    }
    q
}

/// Whether the token `t` names the user `u`: its "uid" claim is the
/// user's uid.
pub open spec fn names_user(t: Seq<char>, u: Model) -> bool {
    token_claims(t).contains_pair(UID_CLAIM@, u.uid@)
}

impl Model {
    /// Whether `pwd` is the user's password.
    pub fn verify_pwd(&self, pwd: &str) -> (r: bool)
        requires
            phc_parses(self.password@),
        ensures
            r == pwd_matches(self.password@, pwd@),
    {
        verify_pwd(self.password.as_str(), pwd)
    }

    /// Whether `pwd` is the user's password; `None` when the stored hash
    /// is not a PHC string.
    pub fn verify_pwd_checked(&self, pwd: &str) -> (r: Option<bool>)
        ensures
            r is None <==> !phc_parses(self.password@),
            r matches Some(b) ==> b == pwd_matches(self.password@, pwd@),
    {
        if phc_valid(self.password.as_str()) {
            Some(self.verify_pwd(pwd))
        } else {
            None
        }
    }

    /// A session token naming the user by uid.
    pub fn create_token(&self) -> (r: Result<String, pasetors::errors::Error>)
        ensures
            r matches Ok(t) ==> is_public_token(t@) && names_user(t@, *self),
    {
        issue_token(self.uid.as_str())
    }
}

/// A user being saved: each field is set (`Some`) or left unset (`None`).
#[derive(Debug)]
pub struct ActiveModel {
    pub uid: Option<String>,
    pub handle: Option<String>,
    pub display_name: Option<Option<String>>,
    pub email: Option<String>,
    pub password: Option<String>,
}

/// Length of a user's uid.
pub const UID_LEN: u16 = 32;

/// Whether `c` is a lowercase ASCII letter.
pub open spec fn is_lower_letter(c: char) -> bool {
    'a' <= c && c <= 'z'
}

/// Whether `c` is a base-36 digit as CUIDs write them: '0'-'9' or 'a'-'z'.
pub open spec fn is_base36_digit(c: char) -> bool {
    ('0' <= c && c <= '9') || is_lower_letter(c)
}

/// The form of a CUID of at most `len` characters: a lowercase letter,
/// then one or more base-36 digits.
pub open spec fn cuid_form(id: Seq<char>, len: nat) -> bool {
    &&& 2 <= id.len() <= len
    &&& is_lower_letter(id[0])
    &&& forall|i: int| 1 <= i < id.len() ==> is_base36_digit(#[trigger] id[i])
}

/// A random CUID of at most `len` characters (`cuid2::CuidConstructor::new()
/// .with_length(len).create_id()`): a random lowercase letter, then the
/// base-36 form of a SHA3-512 digest cut to `len - 1` digits. Claimed: that
/// form. The id is `len` long unless the digest has fewer than `len - 1`
/// base-36 digits (below 36^(len-2)), which is left unsaid. It is random;
/// nothing more is said of it.
#[verifier::external_body]
fn cuid(len: u16) -> (r: String)
    requires
        len >= 2,
    ensures
        cuid_form(r@, len as nat),
{
    cuid2::CuidConstructor::new().with_length(len).create_id()
}

impl ActiveModel {
    /// What happens to a user before it is saved: a new user (`insert`)
    /// gets its password replaced by the password's hash and a fresh uid;
    /// an update is left as it is.
    pub fn before_save(self, insert: bool) -> (r: ActiveModel)
        requires
            insert ==> (self.password matches Some(p) && encode_utf8(p@).len() <= 0xFFFF_FFFF),
        ensures
            opt_view(r.handle) == opt_view(self.handle),
            r.display_name == self.display_name,
            opt_view(r.email) == opt_view(self.email),
            !insert ==> opt_view(r.password) == opt_view(self.password) && opt_view(r.uid) == opt_view(self.uid),
            insert ==> (r.password matches Some(h) && phc_parses(h@) && pwd_matches(h@, self.password->0@)),
            insert ==> (r.uid matches Some(u) && cuid_form(u@, UID_LEN as nat)),
    {
        let mut m = self;
        if insert {
            let pwd = match m.password {
                Some(p) => p,
                None => String::new(),
            };
            let h = hash_pwd(pwd.as_str());
            m.password = Some(h);
            m.uid = Some(cuid(UID_LEN));
        }
        m
    }
}

} // verus!
