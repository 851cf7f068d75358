//! Clients: the one that streams, and the one that sends a table's rows in
//! a single request.

use crate::buffer::{count, empty, frozen, held};
use crate::insert::{fresh, planned_request, Insert, BUFFER_SIZE};
use crate::inserter::{started, DEFAULT_MAX_DURATION_SECS};
use crate::options::{ClientOptions, OptionsText};
use crate::request::{
    copy_text, credential_headers, credentials, table_query, table_statement, text_of, Request,
    RequestText,
};
use crate::target::{parsed_text, with_pair, Target};
use crate::time::Instant;
use crate::Error;
use bytes::{Bytes, BytesMut};
use core::ops::Deref;
use vstd::prelude::*;

verus! {

/// The server, the database and the credentials that streaming sessions are
/// opened with.
#[derive(Debug)]
pub struct Client {
    /// The base URL of the server.
    pub url: String,
    /// The database that sessions write to, if one is named.
    pub database: Option<String>,
    /// The user to connect as, if any.
    pub user: Option<String>,
    /// The key of that user, if any.
    pub password: Option<String>,
}

/// A client as sequences of characters.
#[verifier::ext_equal]
pub struct ClientText {
    /// The base URL of the server.
    pub url: Seq<char>,
    /// The database that sessions write to, if one is named.
    pub database: Option<Seq<char>>,
    /// The user to connect as, if any.
    pub user: Option<Seq<char>>,
    /// The key of that user, if any.
    pub password: Option<Seq<char>>,
}

impl View for Client {
    type V = ClientText;

    open spec fn view(&self) -> ClientText {
        ClientText {
            url: self.url@,
            database: text_of(self.database),
            user: text_of(self.user),
            password: text_of(self.password),
        }
    }
}

impl Clone for Client {
    fn clone(&self) -> (copy: Self)
        ensures
            copy == *self,
    {
        Client {
            url: self.url.clone(),
            database: copy_text(&self.database),
            user: copy_text(&self.user),
            password: copy_text(&self.password),
        }
    }
}

impl Client {
    /// Opens a session on `columns` of `table`. It fails where
    /// [`Insert::new`] does.
    pub fn insert(&self, table: &str, columns: Vec<String>) -> (r: Result<Insert, Error>)
        ensures
            match r {
                Ok(insert) => {
                    &&& insert.wf()
                    &&& planned_request(self@, table@, columns.deep_view()) == Some(
                        insert@.request,
                    )
                    &&& insert@ == fresh(insert@.request)
                },
                Err(e) => e is InvalidParams && planned_request(
                    self@,
                    table@,
                    columns.deep_view(),
                ) is None,
            },
    {
        Insert::new(self, table, columns)
    }

    /// A pipeline into `columns` of `table`, with the default limits and
    /// its first deadline one period after `now`. It fails where
    /// [`crate::inserter::Inserter::new`] does.
    pub fn inserter(&self, table: &str, columns: Vec<String>, now: Instant) -> (r: Result<
        crate::inserter::Inserter,
        Error,
    >)
        requires
            now.nanos() + DEFAULT_MAX_DURATION_SECS * 1_000_000_000 <= u128::MAX,
        ensures
            match r {
                Ok(inserter) => {
                    &&& inserter.wf()
                    &&& planned_request(self@, table@, columns.deep_view()) == Some(
                        inserter@.session.request,
                    )
                    &&& inserter@ == started(
                        self@,
                        table@,
                        columns.deep_view(),
                        inserter@.session.request,
                        now.nanos(),
                    )
                },
                Err(e) => e is InvalidParams && planned_request(
                    self@,
                    table@,
                    columns.deep_view(),
                ) is None,
            },
    {
        crate::inserter::Inserter::new(self, table, columns, now)
    }
}

/// The request that sends rows to `table` with `options`: it goes to the
/// base URL with the database and the statement added to its query, and
/// carries the credentials. There is none where the base URL is no absolute
/// URL or the URL would be too long.
pub open spec fn table_request(options: OptionsText, table: Seq<char>) -> Option<RequestText> {
    match with_pair(
        with_pair(parsed_text(options.url), "database"@, options.database),
        "query"@,
        table_statement(table),
    ) {
        Some(url) => Some(
            RequestText { url, headers: credentials(options.user, options.password) },
        ),
        None => None,
    }
}

/// Rows for one table, as plain values: the request that will carry them,
/// whether it goes over TLS, and the bytes gathered so far.
#[verifier::ext_equal]
pub struct Upload {
    /// The request that carries the rows.
    pub request: RequestText,
    /// Whether the request goes over TLS.
    pub secure: bool,
    /// The bytes of the rows gathered so far.
    pub buffered: Seq<u8>,
}

/// Rows for one table, gathered in a buffer and sent in one request.
pub struct Inserter {
    request: Request,
    secure: bool,
    buffer: BytesMut,
}

impl View for Inserter {
    type V = Upload;

    closed spec fn view(&self) -> Upload {
        Upload { request: self.request@, secure: self.secure, buffered: held(self.buffer) }
    }
}

impl Inserter {
    /// Rows for `table`, to be sent with `options`; none gathered yet. It
    /// fails, with invalid parameters, where there is no request for them:
    /// see [`table_request`].
    pub fn new(options: ClientOptions, table: &str) -> (r: Result<Inserter, Error>)
        ensures
            match r {
                Ok(inserter) => table_request(options@, table@) == Some(inserter@.request)
                    && inserter@.secure == options.secure && inserter@.buffered == Seq::<
                    u8,
                >::empty(),
                Err(e) => e is InvalidParams && table_request(options@, table@) is None,
            },
    {
        let target = Target::parse(options.url.as_str())?;
        let query = table_query(table);
        let target = target.pair("database", options.database.as_str())?;
        let target = target.pair("query", query.as_str())?;
        let headers = credential_headers(&options.user, &options.password);
        Ok(
            Inserter {
                request: Request { url: target.into_string(), headers },
                secure: options.secure,
                buffer: BytesMut::with_capacity(BUFFER_SIZE),
            },
        )
    }

    /// The request that carries the rows.
    pub fn request(&self) -> (request: &Request)
        ensures
            request@ == self@.request,
    {
        &self.request
    }

    /// Whether the request goes over TLS.
    pub fn secure(&self) -> (secure: bool)
        ensures
            secure == self@.secure,
    {
        self.secure
    }

    /// The number of bytes gathered.
    pub fn len(&self) -> (len: usize)
        ensures
            len == self@.buffered.len(),
    {
        count(&self.buffer)
    }

    /// Adds the bytes of `payload` to those gathered.
    pub fn write_bytes(&mut self, payload: Bytes) -> (r: Result<(), Error>)
        requires
            old(self)@.buffered.len() + frozen(payload).len() <= isize::MAX,
        ensures
            r is Ok,
            final(self)@ == (Upload {
                buffered: old(self)@.buffered + frozen(payload),
                ..old(self)@
            }),
    {
        self.buffer.extend_from_slice(payload.deref());
        Ok(())
    }

    /// Adds `payload` to the bytes gathered.
    pub fn write_slice(&mut self, payload: &[u8]) -> (r: Result<(), Error>)
        requires
            old(self)@.buffered.len() + payload@.len() <= isize::MAX,
        ensures
            r is Ok,
            final(self)@ == (Upload { buffered: old(self)@.buffered + payload@, ..old(self)@ }),
    {
        self.buffer.extend_from_slice(payload);
        Ok(())
    }

    /// The bytes gathered: the body of the request that sends them.
    pub fn body(&self) -> (body: &[u8])
        ensures
            body@ == self@.buffered,
    {
        self.buffer.deref()
    }

    /// Takes what sending the request with [`Inserter::body`] came to, and
    /// hands it on. Once the rows are sent they are dropped from the
    /// buffer; after a failure they stay.
    pub fn end<R, E>(&mut self, sent: Result<R, E>) -> (r: Result<R, E>)
        ensures
            r == sent,
            final(self)@ == (Upload {
                buffered: if sent is Ok {
                    Seq::empty()
                } else {
                    old(self)@.buffered
                },
                ..old(self)@
            }),
    {
        match sent {
            Ok(answer) => {
                empty(&mut self.buffer);
                Ok(answer)
            },
            Err(failure) => Err(failure),
        }
    }

    /// Drops the bytes gathered.
    pub fn clear(&mut self)
        ensures
            final(self)@ == (Upload { buffered: Seq::empty(), ..old(self)@ }),
    {
        empty(&mut self.buffer);
    }
}

impl crate::db::Inserter for Inserter {
    open spec fn buffered(&self) -> Seq<u8> {
        self@.buffered
    }

    fn len(&self) -> (len: usize) {
        Inserter::len(self)
    }

    fn write_bytes(&mut self, payload: Bytes) -> (r: Result<(), Error>) {
        Inserter::write_bytes(self, payload)
    }

    fn write_slice(&mut self, payload: &[u8]) -> (r: Result<(), Error>) {
        Inserter::write_slice(self, payload)
    }

    fn clear(&mut self) {
        Inserter::clear(self)
    }

    fn body(&self) -> (body: &[u8]) {
        Inserter::body(self)
    }

    fn end<R, E>(&mut self, sent: Result<R, E>) -> (r: Result<R, E>) {
        Inserter::end(self, sent)
    }
}

} // verus!
