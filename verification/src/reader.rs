//! Queries: the request that carries one to the server.

use crate::options::{ClientOptions, OptionsText};
use crate::request::{credential_headers, credentials, Request, RequestText, FORMAT_HEADER};
use crate::target::{parsed_text, with_pair, Target};
use crate::Error;
use vstd::prelude::*;
use vstd::string::StringExecFns;

verus! {

/// The format that answers to queries are asked in.
pub const ANSWER_FORMAT: &'static str = "JSON";

/// The request that carries a query with `options`: it goes to the base URL
/// with the database added to its query, and carries the credentials and
/// the format of the answer. There is none where the base URL is no
/// absolute URL or the URL would be too long.
pub open spec fn query_request(options: OptionsText) -> Option<RequestText> {
    match with_pair(parsed_text(options.url), "database"@, options.database) {
        Some(url) => Some(
            RequestText {
                url,
                headers: credentials(options.user, options.password).push(
                    (FORMAT_HEADER@, ANSWER_FORMAT@),
                ),
            },
        ),
        None => None,
    }
}

/// A sender of queries.
pub struct Reader {
    request: Request,
}

impl Reader {
    /// The request that queries are sent with, as plain values.
    pub closed spec fn planned(&self) -> RequestText {
        self.request@
    }

    /// A sender of queries to the server and database of `options`. It
    /// fails, with invalid parameters, where there is no request for them:
    /// see [`query_request`].
    pub fn new(options: ClientOptions) -> (r: Result<Reader, Error>)
        ensures
            match r {
                Ok(reader) => query_request(options@) == Some(reader.planned()),
                Err(e) => e is InvalidParams && query_request(options@) is None,
            },
    {
        let target = Target::parse(options.url.as_str())?;
        let target = target.pair("database", options.database.as_str())?;
        let mut headers = credential_headers(&options.user, &options.password);
        headers.push((String::from_str(FORMAT_HEADER), String::from_str(ANSWER_FORMAT)));
        let request = Request { url: target.into_string(), headers };
        assert(request@.headers =~= credentials(options@.user, options@.password).push(
            (FORMAT_HEADER@, ANSWER_FORMAT@),
        ));
        Ok(Reader { request })
    }

    /// The request that queries are sent with; a query is its body.
    pub fn request(&self) -> (request: &Request)
        ensures
            request@ == self.planned(),
    {
        &self.request
    }
}

} // verus!
