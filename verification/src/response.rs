//! The server's answer: how it is judged, and how its body is read in
//! pieces.

use crate::Error;
use core::task::Poll;
use vstd::prelude::*;

verus! {

/// `core::task::Poll`: what a stream gives when it is asked for its next
/// item, with its two variants as they are.
#[verifier::external_type_specification]
#[verifier::reject_recursive_types(T)]
pub struct ExPoll<T>(Poll<T>);

/// The status that the server answers with when it has accepted a request.
pub const STATUS_OK: u16 = 200;

/// How the body of an answer is compressed.
#[derive(Debug, Clone, Copy, PartialEq, Eq, Structural)]
#[non_exhaustive]
pub enum Compression {
    /// The body comes as it is.
    Off,
}

impl Default for Compression {
    fn default() -> (c: Self)
        ensures
            c == Compression::Off,
    {
        Compression::Off
    }
}

/// Whether a character is white space: whether it has the Unicode property
/// `White_Space`, by which `str::trim` goes.
pub uninterp spec fn is_white_space(c: char) -> bool;

/// The text that bytes are read as when what is no UTF-8 among them is
/// replaced, as `String::from_utf8_lossy` does.
pub uninterp spec fn lossy_text(bytes: Seq<u8>) -> Seq<char>;

/// `text` without the white space it starts with.
pub open spec fn trimmed_start(text: Seq<char>) -> Seq<char>
    decreases text.len(),
{
    if text.len() > 0 && is_white_space(text.first()) {
        trimmed_start(text.drop_first())
    } else {
        text
    }
}

/// `text` without the white space it ends with.
pub open spec fn trimmed_end(text: Seq<char>) -> Seq<char>
    decreases text.len(),
{
    if text.len() > 0 && is_white_space(text.last()) {
        trimmed_end(text.drop_last())
    } else {
        text
    }
}

/// `text` without the white space it starts and ends with.
pub open spec fn trimmed(text: Seq<char>) -> Seq<char> {
    trimmed_end(trimmed_start(text))
}

/// `str::trim`: the text without leading and trailing white space, so that
/// what is left neither starts nor ends with any.
pub assume_specification[ str::trim ](text: &str) -> (part: &str)
    ensures
        part@ == trimmed(text@),
        part@.len() > 0 ==> !is_white_space(part@.first()) && !is_white_space(part@.last()),
;

/// `String::from_utf8_lossy`: the bytes as text, with a replacement
/// character wherever they are no UTF-8. The text depends on the bytes
/// alone; what it is, the contract does not say.
#[verifier::external_body]
fn from_utf8_lossy(bytes: &[u8]) -> (text: String)
    ensures
        text@ == lossy_text(bytes@),
{
    String::from_utf8_lossy(bytes).into_owned()
}

/// The reason that the server gave for refusing a request: the body of its
/// answer as text, trimmed.
pub open spec fn reason(body: Seq<u8>) -> Seq<char> {
    trimmed(lossy_text(body))
}

/// The error that a refusal of the server comes to: a bad response with the
/// reason the server gave in the body of its answer.
pub fn rejected(body: &[u8]) -> (e: Error)
    ensures
        e matches Error::BadResponse(text) && text@ == reason(body@),
{
    let text = from_utf8_lossy(body);
    Error::BadResponse(text.as_str().trim().to_owned())
}

/// What is known of the pieces of a body.
#[derive(Debug, Clone, Copy, PartialEq, Eq, Structural)]
enum Inner {
    /// The body may hold more pieces.
    Plain,
    /// The body has come to its end.
    Empty,
}

/// The body of an answer, read piece by piece.
#[derive(Debug)]
pub struct Chunks(Inner);

impl Chunks {
    /// Whether the body has come to its end: it then holds no more piece,
    /// and is not asked for one again.
    pub closed spec fn exhausted(&self) -> bool {
        self.0 == Inner::Empty
    }

    /// Whether the body has come to its end.
    pub fn is_exhausted(&self) -> (exhausted: bool)
        ensures
            exhausted == self.exhausted(),
    {
        match self.0 {
            Inner::Empty => true,
            Inner::Plain => false,
        }
    }

    /// Takes what the body gave when it was asked for its next piece, and
    /// hands it on with its error converted by `f`. Once the body has given
    /// its end, every further call answers with the end, whatever it is
    /// given.
    pub fn poll_next<T, E, E2, F: FnOnce(E) -> E2>(
        &mut self,
        polled: Poll<Option<Result<T, E>>>,
        f: F,
    ) -> (r: Poll<Option<Result<T, E2>>>)
        requires
            forall|e: E| polled == Poll::Ready(Some(Err::<T, E>(e))) ==> f.requires((e,)),
        ensures
            old(self).exhausted() ==> r == Poll::<Option<Result<T, E2>>>::Ready(None),
            !old(self).exhausted() ==> maps_to(polled, f, r),
            final(self).exhausted() <==> r == Poll::<Option<Result<T, E2>>>::Ready(None),
    {
        let res = match self.0 {
            Inner::Plain => map_poll_err(polled, f),
            Inner::Empty => Poll::Ready(None),
        };
        if let Poll::Ready(None) = res {
            self.0 = Inner::Empty;
        }
        res
    }

    /// The bounds on the number of pieces left: those of the body while it
    /// may hold more, and none once it has come to its end.
    pub fn size_hint(&self, inner: (usize, Option<usize>)) -> (hint: (usize, Option<usize>))
        ensures
            hint == if self.exhausted() {
                (0usize, Some(0usize))
            } else {
                inner
            },
    {
        match self.0 {
            Inner::Plain => inner,
            Inner::Empty => (0, Some(0)),
        }
    }
}

/// An answer of the server: awaited, or being read.
#[derive(Debug)]
pub enum Response {
    /// The answer has not come yet; its body will be compressed this way.
    Waiting(Compression),
    /// The answer was accepted, and its body is being read.
    Loading(Chunks),
}

impl Response {
    /// An answer that is awaited.
    pub fn new(compression: Compression) -> (response: Response)
        ensures
            response == Response::Waiting(compression),
    {
        Response::Waiting(compression)
    }

    /// Judges the status of the answer that has come. With status 200 the
    /// answer is accepted and its body is read from its start; with any
    /// other it is refused, and stays awaited: the caller reads the body and
    /// makes the error of it with [`rejected`]. An answer that is already
    /// being read stays as it is.
    pub fn resolve(&mut self, status: u16) -> (accepted: bool)
        ensures
            accepted == (*old(self) is Loading || status == STATUS_OK),
            match *old(self) {
                Response::Waiting(_) => if status == STATUS_OK {
                    *final(self) matches Response::Loading(chunks) && !chunks.exhausted()
                } else {
                    *final(self) == *old(self)
                },
                Response::Loading(_) => *final(self) == *old(self),
            },
    {
        if let Response::Waiting(compression) = self {
            if status != STATUS_OK {
                return false;
            }
            let chunks = match compression {
                Compression::Off => Inner::Plain,
            };
            *self = Response::Loading(Chunks(chunks));
        }
        true
    }
}

/// Whether `r` is `polled` with its error converted by `f`: a piece, the
/// end and a wait are handed on as they are.
pub open spec fn maps_to<T, E, E2, F: FnOnce(E) -> E2>(
    polled: Poll<Option<Result<T, E>>>,
    f: F,
    r: Poll<Option<Result<T, E2>>>,
) -> bool {
    match polled {
        Poll::Ready(Some(Ok(v))) => r == Poll::Ready(Some(Ok::<T, E2>(v))),
        Poll::Ready(Some(Err(e))) => r matches Poll::Ready(Some(Err(e2))) && f.ensures((e,), e2),
        Poll::Ready(None) => r == Poll::<Option<Result<T, E2>>>::Ready(None),
        Poll::Pending => r == Poll::<Option<Result<T, E2>>>::Pending,
    }
}

/// Converts the error of what a stream gave with `f`, and hands on
/// everything else as it is.
pub fn map_poll_err<T, E, E2, F: FnOnce(E) -> E2>(
    poll: Poll<Option<Result<T, E>>>,
    f: F,
) -> (r: Poll<Option<Result<T, E2>>>)
    requires
        forall|e: E| poll == Poll::Ready(Some(Err::<T, E>(e))) ==> f.requires((e,)),
    ensures
        maps_to(poll, f, r),
{
    match poll {
        Poll::Ready(Some(Ok(val))) => Poll::Ready(Some(Ok(val))),
        Poll::Ready(Some(Err(err))) => Poll::Ready(Some(Err(f(err)))),
        Poll::Ready(None) => Poll::Ready(None),
        Poll::Pending => Poll::Pending,
    }
}

} // verus!
