//! Authentication rules: who a set of credentials names, and which driver a
//! configuration selects. Reading user files, HTTP calls and database access
//! live in the binary; the decisions live here.

use crate::config::Config;
use vstd::prelude::*;

verus! {

/// The user an authentication yielded.
#[derive(Clone, Debug, PartialEq, Eq)]
pub struct UserData {
    pub username: String,
    pub role: String,
}

/// Why an authentication was refused.
#[derive(Clone, Debug, PartialEq, Eq)]
pub enum AuthError {
    InvalidCredentials,
    InternalError(String),
}

/// One entry of the users file: credentials and the role they grant.
#[derive(Clone, Debug, PartialEq, Eq)]
pub struct UserRecord {
    pub username: String,
    pub password: String,
    pub role: String,
}

/// True when a record is named by exactly these credentials.
pub open spec fn spec_user_matches(rec: UserRecord, username: Seq<char>, password: Seq<char>) -> bool {
    rec.username@ == username && rec.password@ == password
}

/// The mode that admits everyone as a guest.
pub struct NoAuthDriver;

impl NoAuthDriver {
    /// Always succeeds and grants the guest role.
    pub fn authenticate(&self, username: &str, _password: &str) -> (r: Result<UserData, AuthError>)
        ensures
            r is Ok,
            r->Ok_0.username@ == username@,
            r->Ok_0.role@ == "guest"@,
    {
        Ok(UserData { username: username.to_owned(), role: "guest".to_owned() })
    }

    pub fn is_auth_required(&self) -> (r: bool)
        ensures
            !r,
    {
        false
    }
}

/// Authentication against a list of user records (the parsed users file).
pub struct FileAuthDriver {
    users: Vec<UserRecord>,
}

impl FileAuthDriver {
    /// The records this driver checks against.
    pub closed spec fn spec_users(self) -> Seq<UserRecord> {
        self.users@
    }

    /// A driver over already-parsed records; the binary reads and parses the
    /// users file.
    pub fn new(users: Vec<UserRecord>) -> (r: Self)
        ensures
            r.spec_users() == users@,
    {
        FileAuthDriver { users }
    }

    /// Succeeds exactly when some record carries these credentials, and then
    /// answers with the first such record's name and role.
    pub fn authenticate(&self, username: &str, password: &str) -> (r: Result<UserData, AuthError>)
        ensures
            r is Ok <==> exists|i: int|
                0 <= i < self.spec_users().len() && #[trigger] spec_user_matches(
                    self.spec_users()[i],
                    username@,
                    password@,
                ),
            r is Ok ==> exists|i: int|
                {
                    &&& 0 <= i < self.spec_users().len()
                    &&& #[trigger] spec_user_matches(self.spec_users()[i], username@, password@)
                    &&& (forall|j: int|
                        0 <= j < i ==> !spec_user_matches(
                            self.spec_users()[j],
                            username@,
                            password@,
                        ))
                    &&& r->Ok_0.username@ == self.spec_users()[i].username@
                    &&& r->Ok_0.role@ == self.spec_users()[i].role@
                },
            r is Err ==> r->Err_0 == AuthError::InvalidCredentials,
    {
        let u = username.to_owned();
        let p = password.to_owned();
        let n = self.users.len();
        let mut i: usize = 0;
        while i < n
            invariant
                i <= n,
                n == self.spec_users().len(),
                u@ == username@,
                p@ == password@,
                forall|j: int|
                    0 <= j < i ==> !spec_user_matches(self.spec_users()[j], username@, password@),
            decreases n - i,
        {
            let rec = &self.users[i];
            if rec.username == u && rec.password == p {
                proof {
                    assert(spec_user_matches(self.spec_users()[i as int], username@, password@));
                }
                return Ok(UserData { username: rec.username.clone(), role: rec.role.clone() });
            }
            i = i + 1;
        }
        Err(AuthError::InvalidCredentials)
    }

    pub fn is_auth_required(&self) -> (r: bool)
        ensures
            r,
    {
        true
    }
}

/// Authentication through a database of users. The queries live in the
/// binary; this end keeps the driver's identity and its policy.
pub struct DatabaseAuthDriver;

impl DatabaseAuthDriver {
    pub fn new(_url: &str) -> Self {
        DatabaseAuthDriver
    }

    pub fn is_auth_required(&self) -> (r: bool)
        ensures
            r,
    {
        true
    }
}

/// One administrative API key, as the key store hands it out.
#[derive(Clone, Debug, PartialEq, Eq)]
pub struct ApiKey {
    pub id: String,
    pub key: String,
    pub description: Option<String>,
    pub is_active: bool,
    pub created_at: String,
}

/// The authentication back-ends a configuration can select.
#[derive(Clone, Copy, Debug, PartialEq, Eq, Structural)]
pub enum AuthDriverChoice {
    NoAuth,
    File,
    Api,
    Database,
}

/// Which back-end a driver name selects: "file", "api", and the three
/// database names; anything else means no authentication.
pub open spec fn spec_driver_choice(s: Seq<char>) -> AuthDriverChoice {
    if s == "file"@ {
        AuthDriverChoice::File
    } else if s == "api"@ {
        AuthDriverChoice::Api
    } else if s == "postgres"@ || s == "mysql"@ || s == "sqlite"@ {
        AuthDriverChoice::Database
    } else {
        AuthDriverChoice::NoAuth
    }
}

/// Names the driver the configuration selects; the binary constructs it (the
/// trait objects and their I/O live there).
pub fn create_auth_provider(config: &Config) -> (r: AuthDriverChoice)
    ensures
        r == spec_driver_choice(config.auth_driver@),
{
    let file_name = "file".to_owned();
    let api_name = "api".to_owned();
    let postgres_name = "postgres".to_owned();
    let mysql_name = "mysql".to_owned();
    let sqlite_name = "sqlite".to_owned();
    if config.auth_driver == file_name {
        AuthDriverChoice::File
    } else if config.auth_driver == api_name {
        AuthDriverChoice::Api
    } else if config.auth_driver == postgres_name || config.auth_driver == mysql_name
        || config.auth_driver == sqlite_name {
        AuthDriverChoice::Database
    } else {
        AuthDriverChoice::NoAuth
    }
}

} // verus!
