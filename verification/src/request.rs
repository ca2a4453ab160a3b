use vstd::prelude::*;

use crate::errors::Error;

verus! {

/// Pagination query parameters; absent values fall back to handler
/// defaults.
#[derive(Debug)]
pub struct PageParams {
    pub page: Option<u64>,
    pub size: Option<u64>,
}

impl PageParams {
    /// The requested page, defaulting to the first.
    pub open spec fn spec_page(&self) -> u64 {
        match self.page {
            Some(p) => p,
            None => 1,
        }
    }

    /// The requested page size, with the endpoint's default.
    pub open spec fn spec_size(&self, default: u64) -> u64 {
        match self.size {
            Some(s) => s,
            None => default,
        }
    }

    /// The requested page, defaulting to the first.
    pub fn page_or_default(&self) -> (r: u64)
        ensures
            r == self.spec_page(),
    {
        match self.page {
            Some(p) => p,
            None => 1,
        }
    }

    /// The requested page size, with the endpoint's default.
    pub fn size_or_default(&self, default: u64) -> (r: u64)
        ensures
            r == self.spec_size(default),
    {
        match self.size {
            Some(s) => s,
            None => default,
        }
    }
}

/// An authenticated account as the session layer sees it.  `password`
/// holds the bcrypt hash, which doubles as the session auth hash: when
/// the user changes their password the session becomes invalid.
#[derive(Debug)]
pub struct User {
    id: i64,
    pub username: String,
    password: String,
}

impl User {
    /// The account id.
    pub closed spec fn spec_id(&self) -> i64 {
        self.id
    }

    /// The stored password hash, as characters.
    pub closed spec fn spec_password(&self) -> Seq<char> {
        self.password@
    }

    pub fn id(&self) -> (r: i64)
        ensures
            r == self.spec_id(),
    {
        self.id
    }

    /// The bytes that authenticate this session: the password hash.
    pub fn session_auth_hash(&self) -> &[u8] {
        self.password.as_str().as_bytes()
    }
}

impl Clone for User {
    fn clone(&self) -> (res: Self)
        ensures
            res == *self,
    {
        User { id: self.id, username: self.username.clone(), password: self.password.clone() }
    }
}

/// Login form contents.
#[derive(Debug)]
pub struct Credentials {
    pub username: String,
    pub password: String,
    pub next: Option<String>,
}

impl Clone for Credentials {
    fn clone(&self) -> (res: Self)
        ensures
            res == *self,
    {
        Credentials {
            username: self.username.clone(),
            password: self.password.clone(),
            next: match &self.next {
                Some(n) => Some(n.clone()),
                None => None,
            },
        }
    }
}

/// The authentication backend.  Lookup is a stub: no user store is
/// wired in, so every lookup reports no user.
#[derive(Clone, Copy, Debug)]
pub struct Backend {
    db: i32,
}

impl Backend {
    /// The connection handle this backend was built over.
    pub closed spec fn spec_db(&self) -> i32 {
        self.db
    }

    pub fn new(db: i32) -> (r: Self)
        ensures
            r.spec_db() == db,
    {
        Self { db }
    }

    /// Stubbed session lookup: always reports that no user is known.
    pub fn get_user(&self, _user_id: i64) -> (r: Result<Option<User>, Error>)
        ensures
            r matches Ok(u) && u is None,
    {
        Ok(None)
    }
}

/// A named permission.
#[derive(Debug, PartialEq, Eq, Hash)]
pub struct Permission {
    pub name: String,
}

impl Clone for Permission {
    fn clone(&self) -> (res: Self)
        ensures
            res == *self,
    {
        Permission { name: self.name.clone() }
    }
}

impl<'a> From<&'a str> for Permission {
    fn from(name: &'a str) -> (r: Permission) {
        Permission { name: name.to_owned() }
    }
}

impl<'a> vstd::std_specs::convert::FromSpecImpl<&'a str> for Permission {
    open spec fn obeys_from_spec() -> bool {
        false
    }

    open spec fn from_spec(v: &'a str) -> Permission {
        arbitrary()
    }
}

} // verus!
