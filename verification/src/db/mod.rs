//! The stores that rows can be sent to, behind one set of operations.

use crate::buffer::frozen;
use crate::client::{table_request, Inserter as Clickhouse};
use crate::options::ClientOptions;
use crate::Error;
use bytes::Bytes;
use vstd::prelude::*;

verus! {

/// What every store offers: rows are gathered, counted and dropped, and
/// sent in one request.
pub trait Inserter {
    /// The bytes of the rows gathered so far.
    spec fn buffered(&self) -> Seq<u8>;

    /// The number of bytes gathered.
    fn len(&self) -> (len: usize)
        ensures
            len == self.buffered().len(),
    ;

    /// Adds the bytes of `payload` to those gathered.
    fn write_bytes(&mut self, payload: Bytes) -> (r: Result<(), Error>)
        requires
            old(self).buffered().len() + frozen(payload).len() <= isize::MAX,
        ensures
            r is Ok,
            final(self).buffered() == old(self).buffered() + frozen(payload),
    ;

    /// Adds `payload` to the bytes gathered.
    fn write_slice(&mut self, payload: &[u8]) -> (r: Result<(), Error>)
        requires
            old(self).buffered().len() + payload@.len() <= isize::MAX,
        ensures
            r is Ok,
            final(self).buffered() == old(self).buffered() + payload@,
    ;

    /// Drops the bytes gathered.
    fn clear(&mut self)
        ensures
            final(self).buffered() == Seq::<u8>::empty(),
    ;

    /// The bytes gathered: the body of the request that sends them.
    fn body(&self) -> (body: &[u8])
        ensures
            body@ == self.buffered(),
    ;

    /// Takes what sending the request came to, and hands it on. Once the
    /// rows are sent they are dropped; after a failure they stay.
    fn end<R, E>(&mut self, sent: Result<R, E>) -> (r: Result<R, E>)
        ensures
            r == sent,
            final(self).buffered() == if sent is Ok {
                Seq::<u8>::empty()
            } else {
                old(self).buffered()
            },
    ;
}

/// The kinds of store.
#[derive(Debug, Clone, Copy, PartialEq, Eq, Structural)]
pub enum Type {
    /// A ClickHouse server.
    Clickhouse,
}

/// A store that rows are sent to.
pub enum Database {
    /// A ClickHouse server.
    Clickhouse(Clickhouse),
}

impl Database {
    /// The store of kind `db_type` for `table`, reached with `options`;
    /// no rows gathered yet. It fails, with invalid parameters, where there
    /// is no request for the rows: see [`table_request`].
    pub fn new(db_type: &Type, options: ClientOptions, table: &str) -> (r: Result<Database, Error>)
        ensures
            match r {
                Ok(Database::Clickhouse(store)) => {
                    &&& table_request(options@, table@) == Some(store@.request)
                    &&& store@.secure == options.secure
                    &&& store@.buffered == Seq::<u8>::empty()
                },
                Err(e) => e is InvalidParams && table_request(options@, table@) is None,
            },
    {
        match db_type {
            Type::Clickhouse => match Clickhouse::new(options, table) {
                Ok(store) => Ok(Database::Clickhouse(store)),
                Err(e) => Err(e),
            },
        }
    }
}

impl Inserter for Database {
    open spec fn buffered(&self) -> Seq<u8> {
        match self {
            Database::Clickhouse(store) => store@.buffered,
        }
    }

    fn len(&self) -> (len: usize) {
        match self {
            Database::Clickhouse(store) => store.len(),
        }
    }

    fn write_bytes(&mut self, payload: Bytes) -> (r: Result<(), Error>) {
        match self {
            Database::Clickhouse(store) => store.write_bytes(payload),
        }
    }

    fn write_slice(&mut self, payload: &[u8]) -> (r: Result<(), Error>) {
        match self {
            Database::Clickhouse(store) => store.write_slice(payload),
        }
    }

    fn clear(&mut self) {
        match self {
            Database::Clickhouse(store) => store.clear(),
        }
    }

    fn body(&self) -> (body: &[u8]) {
        match self {
            Database::Clickhouse(store) => store.body(),
        }
    }

    fn end<R, E>(&mut self, sent: Result<R, E>) -> (r: Result<R, E>) {
        match self {
            Database::Clickhouse(store) => store.end(sent),
        }
    }
}

} // verus!
