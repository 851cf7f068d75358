//! One streaming upload: how its rows are cut into chunks, and how it ends.
//!
//! Rows are appended to a buffer. Once the buffer holds [`MIN_CHUNK_SIZE`]
//! bytes it is handed out whole, as one chunk, and a fresh buffer takes its
//! place. The caller sends each chunk over the open stream, in the order it
//! got them. To end the upload the caller asks for what is left in the
//! buffer ([`Insert::end`]), sends it, closes the stream
//! ([`Insert::close`]), waits for the server's answer and reports how the
//! wait came out ([`Insert::finish`]). An upload that is given up before its
//! stream was closed is aborted ([`Insert::abandon`]).

use crate::buffer::{count, frozen, held};
use crate::client::{Client, ClientText};
use crate::request::{
    credential_headers, credentials, insert_query, insert_statement, Request, RequestText,
};
use crate::target::{cleared, parsed_text, with_optional_pair, with_pair, Target};
use crate::Error;
use bytes::{Bytes, BytesMut};
use core::ops::Deref;
use vstd::prelude::*;
use vstd::string::StringExecFns;

verus! {

/// The capacity that every buffer of a session is made with.
pub const BUFFER_SIZE: usize = 128 * 1024;

/// The number of buffered bytes from which a chunk is handed out. It lies
/// below [`BUFFER_SIZE`], so that a small row still finds room before the
/// buffer is checked.
pub const MIN_CHUNK_SIZE: usize = BUFFER_SIZE - 1024;

/// Where a session stands.
#[derive(Debug, Clone, Copy, PartialEq, Eq, Structural)]
pub enum Phase {
    /// The stream is open and takes rows.
    Open,
    /// The stream was closed cleanly; the server's answer is awaited.
    Ending,
    /// The wait for the server's answer is over.
    Closed,
    /// The session was given up while its stream was open, and the stream
    /// was aborted.
    Aborted,
}

/// How the task that waits for the server's answer came to its end.
#[derive(Debug)]
pub enum Joined {
    /// The task ran to its end, with the server's verdict on the upload.
    Answered(Result<(), Error>),
    /// The task panicked.
    Panicked,
    /// The task did not run to its end for another reason, described by the
    /// text.
    Cancelled(String),
}

/// What the end of a session comes to for its caller.
#[derive(Debug)]
pub enum Ended {
    /// The caller gets this result.
    Returned(Result<(), Error>),
    /// The task's panic goes on in the caller: it is no result.
    Panicked,
}

/// A session as plain values.
#[verifier::ext_equal]
pub struct Session {
    /// The bytes appended and not yet handed out.
    pub buffered: Seq<u8>,
    /// Where the session stands.
    pub phase: Phase,
    /// The request that opened the stream.
    pub request: RequestText,
}

/// A step in the life of a session.
pub enum Step {
    /// A row is appended, and the buffer is checked against
    /// [`MIN_CHUNK_SIZE`].
    Write(Seq<u8>),
    /// The buffer is checked against a threshold.
    Flush(nat),
    /// What is left in the buffer is asked for.
    End,
    /// The stream is closed cleanly.
    Close,
    /// The wait for the server's answer is over.
    Finish,
    /// The session is given up.
    Abandon,
}

impl Session {
    /// Whether the session can take `step`: rows are written and the rest
    /// is asked for while the stream is open, the stream is closed once
    /// nothing is buffered, and the wait can only be over once the stream
    /// was closed.
    pub open spec fn takes(self, step: Step) -> bool {
        match step {
            Step::Write(_) => self.phase == Phase::Open,
            Step::Flush(_) => true,
            Step::End => self.phase == Phase::Open,
            Step::Close => self.phase == Phase::Open && self.buffered.len() == 0,
            Step::Finish => self.phase == Phase::Ending,
            Step::Abandon => true,
        }
    }

    /// The chunk that `step` hands out for the caller to send, if any. A
    /// chunk that is cut while the stream is not open is dropped.
    pub open spec fn hands_out(self, step: Step) -> Option<Seq<u8>> {
        match step {
            Step::Write(row) => chunk_at(self.buffered + row, MIN_CHUNK_SIZE as nat),
            Step::Flush(threshold) => if self.phase == Phase::Open {
                chunk_at(self.buffered, threshold)
            } else {
                None
            },
            Step::End => chunk_at(self.buffered, 1),
            _ => None,
        }
    }

    /// Whether `step` has the caller abort the stream: giving up a session
    /// whose stream is open does.
    pub open spec fn aborts(self, step: Step) -> bool {
        step is Abandon && self.phase == Phase::Open
    }

    /// The session after `step`.
    pub open spec fn after(self, step: Step) -> Session {
        match step {
            Step::Write(row) => Session {
                buffered: rest_at(self.buffered + row, MIN_CHUNK_SIZE as nat),
                ..self
            },
            Step::Flush(threshold) => Session { buffered: rest_at(self.buffered, threshold), ..self },
            Step::End => Session { buffered: Seq::empty(), ..self },
            Step::Close => Session { phase: Phase::Ending, ..self },
            Step::Finish => Session { phase: Phase::Closed, ..self },
            Step::Abandon => Session {
                phase: if self.phase == Phase::Open {
                    Phase::Aborted
                } else {
                    self.phase
                },
                ..self
            },
        }
    }
}

/// One open streaming upload.
pub struct Insert {
    buffer: BytesMut,
    request: Request,
    phase: Phase,
}

/// The chunk that a flush check hands out of `buffered`: all of it, once it
/// has reached `threshold` bytes.
pub open spec fn chunk_at(buffered: Seq<u8>, threshold: nat) -> Option<Seq<u8>> {
    if buffered.len() >= threshold {
        Some(buffered)
    } else {
        None
    }
}

/// What a flush check leaves of `buffered`: nothing, once it has reached
/// `threshold` bytes.
pub open spec fn rest_at(buffered: Seq<u8>, threshold: nat) -> Seq<u8> {
    if buffered.len() >= threshold {
        Seq::empty()
    } else {
        buffered
    }
}

/// A session whose stream was just opened with `request`: open, with
/// nothing buffered.
pub open spec fn fresh(request: RequestText) -> Session {
    Session { buffered: Seq::empty(), phase: Phase::Open, request }
}

/// The bytes of a chunk, where there is one.
pub open spec fn bytes_of(chunk: Option<Bytes>) -> Option<Seq<u8>> {
    match chunk {
        Some(bytes) => Some(frozen(bytes)),
        None => None,
    }
}

/// The URL of a session: the base URL without the query pairs it had, then
/// the database where one is named, then the statement.
pub open spec fn session_url(
    base: Seq<char>,
    database: Option<Seq<char>>,
    statement: Seq<char>,
) -> Option<Seq<char>> {
    with_pair(
        with_optional_pair(cleared(parsed_text(base)), "database"@, database),
        "query"@,
        statement,
    )
}

/// The request that opens a session of `client` on `columns` of `table`:
/// it goes to the URL of the session and carries the client's credentials.
/// There is none where there is no such URL.
pub open spec fn planned_request(
    client: ClientText,
    table: Seq<char>,
    columns: Seq<Seq<char>>,
) -> Option<RequestText> {
    match session_url(client.url, client.database, insert_statement(table, columns)) {
        Some(url) => Some(
            RequestText { url, headers: credentials(client.user, client.password) },
        ),
        None => None,
    }
}

/// Makes the request that opens a session of `client` on `columns` of
/// `table`. It fails, with invalid parameters, where the client's URL is no
/// absolute URL or the URL of the session would be too long.
pub fn session_request(client: &Client, table: &str, columns: &Vec<String>) -> (r: Result<
    Request,
    Error,
>)
    ensures
        match r {
            Ok(request) => planned_request(client@, table@, columns.deep_view()) == Some(
                request@,
            ),
            Err(e) => e is InvalidParams && planned_request(client@, table@, columns.deep_view())
                is None,
        },
{
    let target = Target::parse(client.url.as_str())?;
    let target = target.clear()?;
    let target = match &client.database {
        Some(database) => target.pair("database", database.as_str())?,
        None => target,
    };
    let statement = insert_query(table, columns);
    let target = target.pair("query", statement.as_str())?;
    let headers = credential_headers(&client.user, &client.password);
    Ok(Request { url: target.into_string(), headers })
}

impl View for Insert {
    type V = Session;

    closed spec fn view(&self) -> Session {
        Session { buffered: held(self.buffer), phase: self.phase, request: self.request@ }
    }
}

impl Insert {
    /// What holds of a session between calls: while it is open, its buffer
    /// stays below the size of a chunk.
    pub open spec fn wf(&self) -> bool {
        self@.phase == Phase::Open ==> self@.buffered.len() < MIN_CHUNK_SIZE
    }

    /// Opens a session of `client` on `columns` of `table`. It fails where
    /// [`session_request`] does.
    pub fn new(client: &Client, table: &str, columns: Vec<String>) -> (r: Result<Insert, Error>)
        ensures
            match r {
                Ok(insert) => {
                    &&& insert.wf()
                    &&& planned_request(client@, table@, columns.deep_view()) == Some(
                        insert@.request,
                    )
                    &&& insert@ == fresh(insert@.request)
                },
                Err(e) => e is InvalidParams && planned_request(
                    client@,
                    table@,
                    columns.deep_view(),
                ) is None,
            },
    {
        match session_request(client, table, &columns) {
            Ok(request) => Ok(Insert::open(request)),
            Err(e) => Err(e),
        }
    }

    /// A session whose stream was opened with `request`: open, with nothing
    /// buffered.
    pub fn open(request: Request) -> (insert: Insert)
        ensures
            insert.wf(),
            insert@ == fresh(request@),
    {
        Insert { buffer: BytesMut::with_capacity(BUFFER_SIZE), request, phase: Phase::Open }
    }

    /// The request that opened the stream.
    pub fn request(&self) -> (request: &Request)
        ensures
            request@ == self@.request,
    {
        &self.request
    }

    /// Where the session stands.
    pub fn phase(&self) -> (phase: Phase)
        ensures
            phase == self@.phase,
    {
        self.phase
    }

    /// The number of bytes buffered.
    pub fn len(&self) -> (len: usize)
        ensures
            len == self@.buffered.len(),
    {
        count(&self.buffer)
    }

    /// Appends the bytes of `payload` and hands out a chunk if the buffer
    /// has reached [`MIN_CHUNK_SIZE`].
    pub fn write_bytes(&mut self, payload: Bytes) -> (chunk: Option<Bytes>)
        requires
            old(self).wf(),
            old(self)@.takes(Step::Write(frozen(payload))),
            old(self)@.buffered.len() + frozen(payload).len() <= isize::MAX,
        ensures
            final(self).wf(),
            bytes_of(chunk) == old(self)@.hands_out(Step::Write(frozen(payload))),
            final(self)@ == old(self)@.after(Step::Write(frozen(payload))),
    {
        self.buffer.extend_from_slice(payload.deref());
        self.send_chunk_if_exceeds(MIN_CHUNK_SIZE)
    }

    /// Appends `payload` and hands out a chunk if the buffer has reached
    /// [`MIN_CHUNK_SIZE`].
    pub fn write_slice(&mut self, payload: &[u8]) -> (chunk: Option<Bytes>)
        requires
            old(self).wf(),
            old(self)@.takes(Step::Write(payload@)),
            old(self)@.buffered.len() + payload@.len() <= isize::MAX,
        ensures
            final(self).wf(),
            bytes_of(chunk) == old(self)@.hands_out(Step::Write(payload@)),
            final(self)@ == old(self)@.after(Step::Write(payload@)),
    {
        self.buffer.extend_from_slice(payload);
        self.send_chunk_if_exceeds(MIN_CHUNK_SIZE)
    }

    /// The first of the three steps that end a session: hands out what is
    /// left in the buffer, as the last chunk. An empty buffer gives no
    /// chunk.
    pub fn end(&mut self) -> (chunk: Option<Bytes>)
        requires
            old(self)@.takes(Step::End),
        ensures
            final(self).wf(),
            bytes_of(chunk) == old(self)@.hands_out(Step::End),
            final(self)@ == old(self)@.after(Step::End),
    {
        let chunk = self.send_chunk_if_exceeds(1);
        assert(self@.buffered =~= Seq::<u8>::empty());
        chunk
    }

    /// The second step: the last chunk went out and the stream was closed
    /// cleanly. From here on the session is no longer aborted when it is
    /// given up.
    pub fn close(&mut self)
        requires
            old(self)@.takes(Step::Close),
        ensures
            final(self).wf(),
            final(self)@ == old(self)@.after(Step::Close),
    {
        self.phase = Phase::Ending;
    }

    /// The third step: the wait for the server's answer is over, and
    /// `joined` says how. The server's verdict is passed on as it is, a
    /// cancelled wait becomes an error of its own, and a panic stays a
    /// panic.
    pub fn finish(&mut self, joined: Joined) -> (ended: Ended)
        requires
            old(self)@.takes(Step::Finish),
        ensures
            final(self).wf(),
            final(self)@ == old(self)@.after(Step::Finish),
            ends_as(joined, ended),
    {
        self.phase = Phase::Closed;
        match joined {
            Joined::Answered(result) => Ended::Returned(result),
            Joined::Panicked => Ended::Panicked,
            Joined::Cancelled(reason) => {
                let text = String::from_str("unexpected error: ").concat(reason.as_str());
                Ended::Returned(Err(Error::Custom(text)))
            },
        }
    }

    /// Gives the session up. The answer says whether the stream is to be
    /// aborted: it is, unless it was closed before.
    pub fn abandon(&mut self) -> (abort: bool)
        ensures
            final(self).wf(),
            abort == old(self)@.aborts(Step::Abandon),
            final(self)@ == old(self)@.after(Step::Abandon),
    {
        match self.phase {
            Phase::Open => {
                self.phase = Phase::Aborted;
                true
            },
            _ => false,
        }
    }

    /// Cuts the buffer off as a chunk if it holds `threshold` bytes or
    /// more, and puts a fresh buffer in its place. The chunk is handed out
    /// for sending while the stream is open, and dropped otherwise.
    pub fn send_chunk_if_exceeds(&mut self, threshold: usize) -> (chunk: Option<Bytes>)
        ensures
            old(self).wf() ==> final(self).wf(),
            bytes_of(chunk) == old(self)@.hands_out(Step::Flush(threshold as nat)),
            final(self)@ == old(self)@.after(Step::Flush(threshold as nat)),
    {
        if count(&self.buffer) >= threshold {
            let mut chunk = BytesMut::with_capacity(BUFFER_SIZE);
            core::mem::swap(&mut self.buffer, &mut chunk);
            match self.phase {
                Phase::Open => Some(chunk.freeze()),
                _ => None,
            }
        } else {
            None
        }
    }
}

/// Whether `ended` is what a wait that came out as `joined` comes to for the
/// caller: the server's verdict as it is, a panic as a panic, and a wait
/// that was cancelled as an error that quotes the reason.
pub open spec fn ends_as(joined: Joined, ended: Ended) -> bool {
    match joined {
        Joined::Answered(result) => ended == Ended::Returned(result),
        Joined::Panicked => ended == Ended::Panicked,
        Joined::Cancelled(reason) => {
            &&& ended matches Ended::Returned(Err(Error::Custom(text)))
            &&& text@ == "unexpected error: "@ + reason@
        },
    }
}

/// The session that `start` becomes when `rows` are written to it, in
/// order.
pub open spec fn after_writes(start: Session, rows: Seq<Seq<u8>>) -> Session
    decreases rows.len(),
{
    if rows.len() == 0 {
        start
    } else {
        after_writes(start, rows.drop_last()).after(Step::Write(rows.last()))
    }
}

/// The chunks handed out while `rows` are written to `start`, in order.
pub open spec fn chunks_of(start: Session, rows: Seq<Seq<u8>>) -> Seq<Seq<u8>>
    decreases rows.len(),
{
    if rows.len() == 0 {
        Seq::empty()
    } else {
        let before = chunks_of(start, rows.drop_last());
        match after_writes(start, rows.drop_last()).hands_out(Step::Write(rows.last())) {
            Some(chunk) => before.push(chunk),
            None => before,
        }
    }
}

/// Every chunk of a session that `rows` are written to and that is then
/// ended: those of the writes, and the last one.
pub open spec fn chunks_to_end(start: Session, rows: Seq<Seq<u8>>) -> Seq<Seq<u8>> {
    match after_writes(start, rows).hands_out(Step::End) {
        Some(chunk) => chunks_of(start, rows).push(chunk),
        None => chunks_of(start, rows),
    }
}

/// Writes leave a session open, and its buffer below the size of a chunk.
pub proof fn lemma_writes_keep_open(start: Session, rows: Seq<Seq<u8>>)
    requires
        start.phase == Phase::Open,
        start.buffered.len() < MIN_CHUNK_SIZE,
    ensures
        after_writes(start, rows).phase == Phase::Open,
        after_writes(start, rows).buffered.len() < MIN_CHUNK_SIZE,
        after_writes(start, rows).request == start.request,
    decreases rows.len(),
{
    if rows.len() > 0 {
        lemma_writes_keep_open(start, rows.drop_last());
    }
}

/// The chunks of a session, put end to end, are the bytes that were written
/// to it, in the order they were written: none is lost, none is doubled.
/// While the session is open, what is missing from the chunks is in the
/// buffer; once it is ended, nothing is missing.
pub proof fn lemma_chunks_carry_rows(start: Session, rows: Seq<Seq<u8>>)
    ensures
        chunks_of(start, rows).flatten() + after_writes(start, rows).buffered == start.buffered
            + rows.flatten(),
        chunks_to_end(start, rows).flatten() == start.buffered + rows.flatten(),
    decreases rows.len(),
{
    broadcast use Seq::lemma_flatten_push;

    if rows.len() == 0 {
        assert(rows.flatten() =~= Seq::<u8>::empty());
        assert(chunks_of(start, rows).flatten() =~= Seq::<u8>::empty());
    } else {
        let head = rows.drop_last();
        lemma_chunks_carry_rows(start, head);
        assert(rows =~= head.push(rows.last()));
        assert(rows.flatten() =~= head.flatten() + rows.last());
        let all = after_writes(start, head).buffered + rows.last();
        assert(chunks_of(start, rows).flatten() + after_writes(start, rows).buffered
            =~= chunks_of(start, head).flatten() + all);
        assert(chunks_of(start, head).flatten() + all =~= start.buffered + head.flatten()
            + rows.last());
    }
    assert(chunks_to_end(start, rows).flatten() =~= chunks_of(start, rows).flatten()
        + after_writes(start, rows).buffered);
}

/// No chunk of a session is empty.
pub proof fn lemma_no_empty_chunk(start: Session, rows: Seq<Seq<u8>>, i: int)
    requires
        0 <= i < chunks_to_end(start, rows).len(),
    ensures
        chunks_to_end(start, rows)[i].len() >= 1,
{
    lemma_chunks_are_full(start, rows);
}

/// Each chunk that a write hands out holds [`MIN_CHUNK_SIZE`] bytes or
/// more.
pub proof fn lemma_chunks_are_full(start: Session, rows: Seq<Seq<u8>>)
    ensures
        forall|i: int|
            0 <= i < chunks_of(start, rows).len() ==> #[trigger] chunks_of(start, rows)[i].len()
                >= MIN_CHUNK_SIZE,
    decreases rows.len(),
{
    if rows.len() > 0 {
        let head = rows.drop_last();
        lemma_chunks_are_full(start, head);
        assert forall|i: int| 0 <= i < chunks_of(start, rows).len() implies #[trigger] chunks_of(
            start,
            rows,
        )[i].len() >= MIN_CHUNK_SIZE by {
            if i < chunks_of(start, head).len() {
                assert(chunks_of(start, rows)[i] == chunks_of(start, head)[i]);
            }
        }
    }
}

/// A fresh session whose rows stay below the size of a chunk, all taken
/// together, hands out nothing and holds them all.
pub proof fn lemma_small_rows_are_buffered(start: Session, rows: Seq<Seq<u8>>)
    requires
        start.buffered.len() == 0,
        rows.flatten().len() < MIN_CHUNK_SIZE,
    ensures
        chunks_of(start, rows) == Seq::<Seq<u8>>::empty(),
        after_writes(start, rows).buffered == rows.flatten(),
    decreases rows.len(),
{
    broadcast use Seq::lemma_flatten_push;

    if rows.len() == 0 {
        assert(rows.flatten() =~= Seq::<u8>::empty());
        assert(start.buffered =~= Seq::<u8>::empty());
    } else {
        let head = rows.drop_last();
        assert(rows =~= head.push(rows.last()));
        assert(rows.flatten() =~= head.flatten() + rows.last());
        lemma_small_rows_are_buffered(start, head);
    }
}

/// Where the rows written to a fresh session reach the size of a chunk with
/// row `k` and not before, no chunk is handed out before row `k`, and row
/// `k` hands out one: all the bytes written up to there.
pub proof fn lemma_first_chunk(start: Session, rows: Seq<Seq<u8>>, k: int)
    requires
        start.buffered.len() == 0,
        0 <= k < rows.len(),
        rows.take(k).flatten().len() < MIN_CHUNK_SIZE <= rows.take(k + 1).flatten().len(),
    ensures
        chunks_of(start, rows.take(k)) == Seq::<Seq<u8>>::empty(),
        chunks_of(start, rows.take(k + 1)) == seq![rows.take(k + 1).flatten()],
        after_writes(start, rows.take(k + 1)).buffered == Seq::<u8>::empty(),
{
    broadcast use Seq::lemma_flatten_push;

    let head = rows.take(k);
    let upto = rows.take(k + 1);
    lemma_small_rows_are_buffered(start, head);
    assert(upto.drop_last() =~= head);
    assert(upto.last() == rows[k]);
    assert(upto =~= head.push(rows[k]));
    assert(upto.flatten() =~= head.flatten() + rows[k]);
}

/// A session that is given up while its stream is open has its stream
/// aborted, and is aborted itself.
pub proof fn lemma_abandon_aborts(session: Session)
    requires
        session.phase == Phase::Open,
    ensures
        session.aborts(Step::Abandon),
        session.after(Step::Abandon).phase == Phase::Aborted,
{
}

/// A stream is aborted only when a session is given up whose stream is
/// open: a session whose stream was closed cleanly is left as it is.
pub proof fn lemma_abort_needs_open_stream(session: Session, step: Step)
    requires
        session.aborts(step),
    ensures
        step is Abandon,
        session.phase == Phase::Open,
{
}

/// An aborted session stays aborted whatever step it takes, and hands out
/// no chunk: its stream is never closed cleanly, so that no answer of the
/// server is waited for and none is reported.
pub proof fn lemma_aborted_is_final(session: Session, step: Step)
    requires
        session.phase == Phase::Aborted,
    ensures
        !session.takes(Step::Close),
        !session.takes(Step::Finish),
        session.takes(step) ==> session.after(step).phase == Phase::Aborted,
        session.takes(step) ==> session.hands_out(step) is None,
{
}

/// A session is closed only after its stream was closed cleanly, and its
/// stream is closed cleanly only while it is open and nothing is left in
/// its buffer.
pub proof fn lemma_closed_after_clean_end(session: Session, step: Step)
    requires
        session.takes(step),
        session.phase != Phase::Closed,
        session.after(step).phase == Phase::Closed,
    ensures
        step is Finish,
        session.phase == Phase::Ending,
{
}

} // verus!
