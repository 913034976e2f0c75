//! Server configuration. The library owns the shape and the documented
//! defaults; reading the environment to override them is the binary's job.

use vstd::prelude::*;

verus! {

/// Everything the server needs to start.
#[derive(Clone, Debug, PartialEq, Eq)]
pub struct Config {
    pub host: String,
    pub port: u16,
    /// Which authentication back-end to use: "none", "file", "api",
    /// "postgres", "mysql" or "sqlite".
    pub auth_driver: String,
    pub auth_file_path: String,
    pub auth_api_url: String,
    pub database_url: String,
}

impl Default for Config {
    /// The documented defaults: localhost on port 8443, no authentication, a
    /// users file beside the binary, a localhost login endpoint, and no
    /// database.
    fn default() -> (r: Self)
        ensures
            r.host@ == "127.0.0.1"@,
            r.port == 8443,
            r.auth_driver@ == "none"@,
            r.auth_file_path@ == "./users.json"@,
            r.auth_api_url@ == "http://localhost/login"@,
            r.database_url@ == ""@,
    {
        Config {
            host: "127.0.0.1".to_owned(),
            port: 8443,
            auth_driver: "none".to_owned(),
            auth_file_path: "./users.json".to_owned(),
            auth_api_url: "http://localhost/login".to_owned(),
            database_url: "".to_owned(),
        }
    }
}

} // verus!
