//! Where a client connects to, and as whom.

use crate::request::text_of;
use vstd::prelude::*;
use vstd::string::StringExecFns;

verus! {

/// The server, the database and the credentials of a client.
#[derive(Debug, Clone)]
pub struct ClientOptions {
    /// The base URL of the server.
    pub url: String,
    /// The database that requests go to.
    pub database: String,
    /// The user to connect as, if any.
    pub user: Option<String>,
    /// The key of that user, if any.
    pub password: Option<String>,
    /// Whether the connection is to be made over TLS.
    pub secure: bool,
}

/// The options of a client as sequences of characters.
#[verifier::ext_equal]
pub struct OptionsText {
    /// The base URL of the server.
    pub url: Seq<char>,
    /// The database that requests go to.
    pub database: Seq<char>,
    /// The user to connect as, if any.
    pub user: Option<Seq<char>>,
    /// The key of that user, if any.
    pub password: Option<Seq<char>>,
    /// Whether the connection is to be made over TLS.
    pub secure: bool,
}

impl View for ClientOptions {
    type V = OptionsText;

    open spec fn view(&self) -> OptionsText {
        OptionsText {
            url: self.url@,
            database: self.database@,
            user: text_of(self.user),
            password: text_of(self.password),
            secure: self.secure,
        }
    }
}

impl ClientOptions {
    /// Options for the server at `url` and the database `database`, without
    /// credentials and without TLS.
    pub fn new(url: &str, database: &str) -> (options: ClientOptions)
        ensures
            options@ == (OptionsText {
                url: url@,
                database: database@,
                user: None,
                password: None,
                secure: false,
            }),
    {
        ClientOptions {
            url: String::from_str(url),
            database: String::from_str(database),
            user: None,
            password: None,
            secure: false,
        }
    }
}

} // verus!
