//! The pipeline: rows go to a session, and commits decide when the session
//! is replaced by a fresh one.
//!
//! A commit first counts the rows written since the last one. Then it
//! rotates the session if enough rows were counted or the deadline has
//! passed: a fresh session takes the place of the current one, which the
//! caller ends, and the deadline moves on by the period, shifted a little
//! each time so that many clients do not rotate at the same instant.

use crate::buffer::frozen;
use crate::client::{Client, ClientText};
use crate::insert::{
    bytes_of, fresh, planned_request, Insert, Phase, Session, Step, MIN_CHUNK_SIZE,
};
use crate::request::{copy_texts, RequestText};
use crate::time::{Duration, Instant, NANOS_PER_SEC};
use crate::Error;
use bytes::Bytes;
use vstd::prelude::*;
use vstd::string::StringExecFns;

verus! {

/// The number of rows after which a session is rotated, unless the caller
/// sets another.
pub const DEFAULT_MAX_ENTRIES: u64 = 250_000;

/// The period after which a session is rotated, in seconds, unless the
/// caller sets another.
pub const DEFAULT_MAX_DURATION_SECS: u64 = 10;

/// The largest shift of a deadline, in 255ths of the period: a tenth of
/// 255, rounded.
pub const MAX_TIME_BIAS_255: u128 = 26;

/// Rows and commits counted since the last rotation.
#[derive(Debug, Clone, PartialEq, Eq, Structural)]
pub struct Quantities {
    /// The number of rows.
    pub entries: u64,
    /// The number of commits that counted at least one row.
    pub transactions: u64,
}

impl Quantities {
    /// No rows and no commits.
    pub open spec fn spec_zero() -> Quantities {
        Quantities { entries: 0, transactions: 0 }
    }

    /// No rows and no commits.
    #[verifier::when_used_as_spec(spec_zero)]
    pub fn zero() -> (zero: Quantities)
        ensures
            zero == Quantities::spec_zero(),
    {
        Quantities { entries: 0, transactions: 0 }
    }
}

/// The distance between two instants, in nanoseconds.
pub open spec fn distance(now: nat, prev: nat) -> nat {
    if now >= prev {
        (now - prev) as nat
    } else {
        (prev - now) as nat
    }
}

/// What a deadline is shifted by, out of 255: the low eight bits of the
/// nanoseconds within the second of the distance between `now` and the
/// deadline that passed.
pub open spec fn coefficient(now: nat, prev: nat) -> nat {
    (distance(now, prev) % (NANOS_PER_SEC as nat)) % 256
}

/// The largest shift of a deadline, for a period of `max_duration`
/// nanoseconds.
pub open spec fn max_bias(max_duration: nat) -> nat {
    max_duration * (MAX_TIME_BIAS_255 as nat) / 255
}

/// The part of the largest shift that the coefficient `coef` selects.
pub open spec fn bias(max_duration: nat, coef: nat) -> nat {
    max_bias(max_duration) * coef / 255
}

/// The deadline that follows `prev` by one period without a shift.
pub open spec fn nominal(prev: nat, max_duration: nat) -> nat {
    prev + max_duration
}

/// The deadline that follows `prev`, shifted: the nominal one, moved by
/// twice the selected part of the largest shift and back by the largest
/// shift.
pub open spec fn shifted(now: nat, prev: nat, max_duration: nat) -> nat {
    (nominal(prev, max_duration) + 2 * bias(max_duration, coefficient(now, prev)) - max_bias(
        max_duration,
    )) as nat
}

/// The largest shift is at most 26/255 of the period, and no selected part
/// of it is larger.
pub proof fn lemma_bias_bounds(max_duration: nat, coef: nat)
    requires
        coef <= 255,
    ensures
        255 * max_bias(max_duration) <= 26 * max_duration,
        max_bias(max_duration) <= max_duration,
        bias(max_duration, coef) <= max_bias(max_duration),
        255 * bias(max_duration, coef) <= max_bias(max_duration) * coef,
        max_bias(max_duration) * coef <= 255 * max_bias(max_duration),
{
    let m = max_bias(max_duration);
    assert(255 * (max_duration * 26 / 255) <= max_duration * 26) by (nonlinear_arith);
    assert(m * coef <= m * 255) by (nonlinear_arith)
        requires
            coef <= 255,
    ;
    assert(255 * (m * coef / 255) <= m * coef) by (nonlinear_arith);
}

/// The largest shift for the period `max_duration` and the part of it that
/// the instants `now` and `prev` select, in nanoseconds.
pub fn biases(now: Instant, prev: Instant, max_duration: Duration) -> (r: (u128, u128))
    ensures
        r.0 == max_bias(max_duration.nanos()),
        r.1 == bias(max_duration.nanos(), coefficient(now.nanos(), prev.nanos())),
        r.1 <= r.0 <= max_duration.nanos(),
{
    let now_nanos: u128 = now.as_nanos();
    let prev_nanos: u128 = prev.as_nanos();
    let period: u128 = max_duration.as_nanos();
    let delta: u128 = if now_nanos >= prev_nanos {
        now_nanos - prev_nanos
    } else {
        prev_nanos - now_nanos
    };
    let subsec: u128 = delta % NANOS_PER_SEC;
    let coef: u128 = subsec & 0xff;
    assert(coef == subsec % 256) by (bit_vector)
        requires
            coef == subsec & 0xff,
    ;
    proof {
        lemma_bias_bounds(period as nat, coef as nat);
    }
    let max_bias: u128 = period * MAX_TIME_BIAS_255 / 255;
    let bias: u128 = max_bias * coef / 255;
    (max_bias, bias)
}

/// The deadline that follows `prev` when a commit at `now` rotates the
/// session. The instant has to be one that can be held, and the sum of
/// which the largest shift is taken off as well.
pub fn shifted_next_time(now: Instant, prev: Instant, max_duration: Duration) -> (next: Instant)
    requires
        nominal(prev.nanos(), max_duration.nanos()) + 2 * bias(
            max_duration.nanos(),
            coefficient(now.nanos(), prev.nanos()),
        ) <= u128::MAX,
    ensures
        next.nanos() == shifted(now.nanos(), prev.nanos(), max_duration.nanos()),
{
    let (max_bias, bias) = biases(now, prev, max_duration);
    Instant::from_nanos(prev.as_nanos() + max_duration.as_nanos() + 2 * bias - max_bias)
}

/// The shifted deadline lies within the largest shift of the nominal one,
/// before it or after it, whatever the instants are; and the largest shift
/// is at most 26/255 of the period.
pub proof fn lemma_shift_is_bounded(now: nat, prev: nat, max_duration: nat)
    ensures
        nominal(prev, max_duration) - max_bias(max_duration) <= shifted(now, prev, max_duration),
        shifted(now, prev, max_duration) <= nominal(prev, max_duration) + max_bias(max_duration),
        255 * max_bias(max_duration) <= 26 * max_duration,
        prev <= shifted(now, prev, max_duration),
{
    lemma_bias_bounds(max_duration, coefficient(now, prev));
}

/// Whether the shift that the coefficient `coef` selects stays within a
/// tenth of the period.
pub open spec fn within_tenth(max_duration: nat, coef: nat) -> bool {
    &&& 10 * (max_bias(max_duration) - 2 * bias(max_duration, coef)) <= max_duration
    &&& 10 * (2 * bias(max_duration, coef) - max_bias(max_duration)) <= max_duration
}

/// Where the selected shift stays within a tenth of the period, the shifted
/// deadline lies within a tenth of the period of the nominal one. The
/// largest shift itself is a little more than a tenth, 26/255, so that the
/// smallest and the largest coefficients leave the tenth.
pub proof fn lemma_shift_within_tenth(now: nat, prev: nat, max_duration: nat)
    requires
        within_tenth(max_duration, coefficient(now, prev)),
    ensures
        10 * (nominal(prev, max_duration) - shifted(now, prev, max_duration)) <= max_duration,
        10 * (shifted(now, prev, max_duration) - nominal(prev, max_duration)) <= max_duration,
{
    lemma_bias_bounds(max_duration, coefficient(now, prev));
}

/// The shift stays within a tenth of the period for every coefficient from
/// 3 to 252, once the period is five microseconds or more.
pub proof fn lemma_middle_coefficients_within_tenth(max_duration: nat, coef: nat)
    requires
        3 <= coef <= 252,
        max_duration >= 5_000,
    ensures
        within_tenth(max_duration, coef),
{
    let m = max_bias(max_duration);
    let b = bias(max_duration, coef);
    lemma_bias_bounds(max_duration, coef);
    assert(255 * b > m * coef - 255) by (nonlinear_arith)
        requires
            b == m * coef / 255,
    ;
    assert(m * coef <= m * 252) by (nonlinear_arith)
        requires
            coef <= 252,
    ;
    assert(m * coef >= m * 3) by (nonlinear_arith)
        requires
            coef >= 3,
    ;
}

/// A pipeline as plain values.
#[verifier::ext_equal]
pub struct Pipeline {
    /// The client that sessions are opened with.
    pub client: ClientText,
    /// The table that rows go to.
    pub table: Seq<char>,
    /// The columns that rows have.
    pub columns: Seq<Seq<char>>,
    /// The number of committed rows from which a commit rotates.
    pub max_entries: u64,
    /// The period between two deadlines, in nanoseconds.
    pub max_duration: nat,
    /// The current session.
    pub session: Session,
    /// The deadline from which a commit rotates.
    pub next_insert_at: nat,
    /// What was committed since the last rotation.
    pub committed: Quantities,
    /// The rows written since the last commit.
    pub uncommitted_entries: u64,
}

impl Pipeline {
    /// What is committed once the rows written since the last commit are
    /// counted: they are added, and make one more transaction if there is
    /// any.
    pub open spec fn merged(self) -> Quantities {
        if self.uncommitted_entries > 0 {
            Quantities {
                entries: (self.committed.entries + self.uncommitted_entries) as u64,
                transactions: (self.committed.transactions + 1) as u64,
            }
        } else {
            self.committed
        }
    }

    /// Whether the counters have room for the rows written since the last
    /// commit.
    pub open spec fn can_merge(self) -> bool {
        &&& self.committed.entries + self.uncommitted_entries <= u64::MAX
        &&& self.uncommitted_entries > 0 ==> self.committed.transactions < u64::MAX
    }

    /// Whether `committed` rows, or the instant `now`, have the session
    /// rotated: the rows have reached the limit, or the deadline has come.
    pub open spec fn reached(self, committed: Quantities, now: nat) -> bool {
        committed.entries >= self.max_entries || now >= self.next_insert_at
    }

    /// Whether a commit at `now` rotates the session.
    pub open spec fn rotates(self, now: nat) -> bool {
        self.reached(self.merged(), now)
    }

    /// Whether a commit at `now` can be made: the counters have room, and
    /// if the session is rotated, the next deadline is an instant that can
    /// be held.
    pub open spec fn can_commit(self, now: nat) -> bool {
        &&& self.can_merge()
        &&& self.rotates(now) ==> nominal(self.next_insert_at, self.max_duration) + 2 * bias(
            self.max_duration,
            coefficient(now, self.next_insert_at),
        ) <= u128::MAX
    }

    /// The pipeline after a commit at `now`: the rows are counted, and if
    /// the session is rotated, a fresh session for the same request has
    /// taken its place and the deadline has moved on.
    pub open spec fn after_commit(self, now: nat) -> Pipeline {
        if self.rotates(now) {
            Pipeline {
                committed: self.merged(),
                uncommitted_entries: 0,
                next_insert_at: shifted(now, self.next_insert_at, self.max_duration),
                session: fresh(self.session.request),
                ..self
            }
        } else {
            Pipeline { committed: self.merged(), uncommitted_entries: 0, ..self }
        }
    }

    /// The pipeline after a row of bytes `row` is written.
    pub open spec fn after_write(self, row: Seq<u8>) -> Pipeline {
        Pipeline {
            uncommitted_entries: (self.uncommitted_entries + 1) as u64,
            session: self.session.after(Step::Write(row)),
            ..self
        }
    }

    /// The pipeline once the period is `threshold` nanoseconds: the deadline
    /// is as far from the one before as the new period says.
    pub open spec fn with_period(self, threshold: nat) -> Pipeline {
        Pipeline {
            next_insert_at: (self.next_insert_at - self.max_duration + threshold) as nat,
            max_duration: threshold,
            ..self
        }
    }
}

/// A commit below both thresholds rotates nothing: the session stays as it
/// is, with what it has buffered, and so does the deadline.
pub proof fn lemma_below_thresholds_nothing_rotates(pipeline: Pipeline, now: nat)
    requires
        pipeline.merged().entries < pipeline.max_entries,
        now < pipeline.next_insert_at,
    ensures
        !pipeline.rotates(now),
        pipeline.after_commit(now).session == pipeline.session,
        pipeline.after_commit(now).next_insert_at == pipeline.next_insert_at,
        pipeline.after_commit(now).committed == pipeline.merged(),
{
}

/// Either threshold rotates by itself: enough committed rows do before the
/// deadline, and the deadline does with too few rows. The fresh session is
/// opened with the request of the one it replaces, and holds nothing.
pub proof fn lemma_either_threshold_rotates(pipeline: Pipeline, now: nat)
    requires
        pipeline.merged().entries >= pipeline.max_entries || now >= pipeline.next_insert_at,
    ensures
        pipeline.rotates(now),
        pipeline.after_commit(now).session == fresh(pipeline.session.request),
        pipeline.after_commit(now).next_insert_at == shifted(
            now,
            pipeline.next_insert_at,
            pipeline.max_duration,
        ),
        pipeline.after_commit(now).committed == pipeline.merged(),
{
}

/// The pipeline that starts at `now` with a session opened by `request`:
/// the default limits, the first deadline one period after `now`, and
/// nothing counted.
pub open spec fn started(
    client: ClientText,
    table: Seq<char>,
    columns: Seq<Seq<char>>,
    request: RequestText,
    now: nat,
) -> Pipeline {
    Pipeline {
        client,
        table,
        columns,
        max_entries: DEFAULT_MAX_ENTRIES,
        max_duration: (DEFAULT_MAX_DURATION_SECS * 1_000_000_000) as nat,
        session: fresh(request),
        next_insert_at: (now + DEFAULT_MAX_DURATION_SECS * 1_000_000_000) as nat,
        committed: Quantities::zero(),
        uncommitted_entries: 0,
    }
}

/// What a commit comes to.
pub enum Commit {
    /// No threshold was reached: the session goes on as it is, and what is
    /// flushed is nothing.
    Continue(Quantities),
    /// A threshold was reached: a fresh session has taken the place of this
    /// one, which the caller now ends.
    Rotate(Insert),
}

/// Rows on their way to a table, and the schedule of the sessions that
/// carry them.
pub struct Inserter {
    columns: Vec<String>,
    client: Client,
    table: String,
    max_entries: u64,
    max_duration: Duration,
    insert: Insert,
    next_insert_at: Instant,
    committed: Quantities,
    uncommitted_entries: u64,
}

impl View for Inserter {
    type V = Pipeline;

    closed spec fn view(&self) -> Pipeline {
        Pipeline {
            client: self.client@,
            table: self.table@,
            columns: self.columns.deep_view(),
            max_entries: self.max_entries,
            max_duration: self.max_duration.nanos(),
            session: self.insert@,
            next_insert_at: self.next_insert_at.nanos(),
            committed: self.committed,
            uncommitted_entries: self.uncommitted_entries,
        }
    }
}

impl Inserter {
    /// What holds of a pipeline between calls: its session is open and was
    /// opened with the request that its client, table and columns give, and
    /// its deadline lies a period or more after the origin of time.
    pub closed spec fn wf(&self) -> bool {
        &&& self.insert.wf()
        &&& self@.session.phase == Phase::Open
        &&& planned_request(self@.client, self@.table, self@.columns) == Some(
            self@.session.request,
        )
        &&& self@.next_insert_at >= self@.max_duration
    }

    /// What [`Inserter::wf`] says of the pipeline as plain values.
    pub proof fn lemma_wf(&self)
        requires
            self.wf(),
        ensures
            self@.session.phase == Phase::Open,
            self@.session.buffered.len() < MIN_CHUNK_SIZE,
            planned_request(self@.client, self@.table, self@.columns) == Some(
                self@.session.request,
            ),
            self@.next_insert_at >= self@.max_duration,
    {
    }

    /// A pipeline of `client` into `columns` of `table`, with the default
    /// limits and its first deadline one period after `now`. It fails where
    /// no session can be opened: see [`crate::insert::session_request`].
    pub fn new(client: &Client, table: &str, columns: Vec<String>, now: Instant) -> (r: Result<
        Inserter,
        Error,
    >)
        requires
            now.nanos() + DEFAULT_MAX_DURATION_SECS * 1_000_000_000 <= u128::MAX,
        ensures
            match r {
                Ok(inserter) => {
                    &&& inserter.wf()
                    &&& planned_request(client@, table@, columns.deep_view()) == Some(
                        inserter@.session.request,
                    )
                    &&& inserter@ == started(
                        client@,
                        table@,
                        columns.deep_view(),
                        inserter@.session.request,
                        now.nanos(),
                    )
                },
                Err(e) => e is InvalidParams && planned_request(
                    client@,
                    table@,
                    columns.deep_view(),
                ) is None,
            },
    {
        let kept = copy_texts(&columns);
        let insert = match client.insert(table, columns) {
            Ok(insert) => insert,
            Err(e) => {
                return Err(e);
            },
        };
        let max_duration = Duration::from_secs(DEFAULT_MAX_DURATION_SECS);
        Ok(
            Inserter {
                columns: kept,
                client: client.clone(),
                table: String::from_str(table),
                max_entries: DEFAULT_MAX_ENTRIES,
                max_duration,
                insert,
                next_insert_at: Instant::from_nanos(now.as_nanos() + max_duration.as_nanos()),
                committed: Quantities::zero(),
                uncommitted_entries: 0,
            },
        )
    }

    /// The same pipeline with `threshold` as the number of committed rows
    /// from which a commit rotates.
    pub fn with_max_entries(self, threshold: u64) -> (inserter: Inserter)
        requires
            self.wf(),
        ensures
            inserter.wf(),
            inserter@ == (Pipeline { max_entries: threshold, ..self@ }),
    {
        let mut inserter = self;
        inserter.set_max_entries(threshold);
        inserter
    }

    /// The same pipeline with `threshold` as its period: see
    /// [`Inserter::set_max_duration`].
    pub fn with_max_duration(self, threshold: Duration) -> (inserter: Inserter)
        requires
            self.wf(),
            self@.next_insert_at - self@.max_duration + threshold.nanos() <= u128::MAX,
        ensures
            inserter.wf(),
            inserter@ == self@.with_period(threshold.nanos()),
    {
        let mut inserter = self;
        inserter.set_max_duration(threshold);
        inserter
    }

    /// Makes `threshold` the number of committed rows from which a commit
    /// rotates.
    pub fn set_max_entries(&mut self, threshold: u64)
        requires
            old(self).wf(),
        ensures
            final(self).wf(),
            final(self)@ == (Pipeline { max_entries: threshold, ..old(self)@ }),
    {
        self.max_entries = threshold;
    }

    /// Makes `threshold` the period. The deadline moves with it: it stays
    /// as far from the deadline before as the period says. The new deadline
    /// has to be an instant that can be held.
    pub fn set_max_duration(&mut self, threshold: Duration)
        requires
            old(self).wf(),
            old(self)@.next_insert_at - old(self)@.max_duration + threshold.nanos() <= u128::MAX,
        ensures
            final(self).wf(),
            final(self)@ == old(self)@.with_period(threshold.nanos()),
    {
        let prev_insert_at: u128 = self.next_insert_at.as_nanos() - self.max_duration.as_nanos();
        self.next_insert_at = Instant::from_nanos(prev_insert_at + threshold.as_nanos());
        self.max_duration = threshold;
    }

    /// Appends the bytes of `payload` as one row; the session hands out a
    /// chunk if its buffer has reached the size of one.
    #[inline]
    pub fn write_bytes(&mut self, payload: Bytes) -> (chunk: Option<Bytes>)
        requires
            old(self).wf(),
            old(self)@.uncommitted_entries < u64::MAX,
            old(self)@.session.buffered.len() + frozen(payload).len() <= isize::MAX,
        ensures
            final(self).wf(),
            final(self)@ == old(self)@.after_write(frozen(payload)),
            bytes_of(chunk) == old(self)@.session.hands_out(Step::Write(frozen(payload))),
    {
        self.uncommitted_entries += 1;
        self.insert.write_bytes(payload)
    }

    /// Appends `payload` as one row; the session hands out a chunk if its
    /// buffer has reached the size of one.
    #[inline]
    pub fn write_slice(&mut self, payload: &[u8]) -> (chunk: Option<Bytes>)
        requires
            old(self).wf(),
            old(self)@.uncommitted_entries < u64::MAX,
            old(self)@.session.buffered.len() + payload@.len() <= isize::MAX,
        ensures
            final(self).wf(),
            final(self)@ == old(self)@.after_write(payload@),
            bytes_of(chunk) == old(self)@.session.hands_out(Step::Write(payload@)),
    {
        self.uncommitted_entries += 1;
        self.insert.write_slice(payload)
    }

    /// Counts the rows written since the last commit, and rotates the
    /// session if the committed rows have reached the limit or `now` has
    /// reached the deadline. A rotation hands the session out for the
    /// caller to end, with a fresh one in its place, and moves the deadline
    /// on. What was committed stays counted until the caller reports that
    /// the session ended well: see [`Inserter::take_committed`].
    pub fn commit(&mut self, now: Instant) -> (r: Result<Commit, Error>)
        requires
            old(self).wf(),
            old(self)@.can_commit(now.nanos()),
        ensures
            final(self).wf(),
            final(self)@ == old(self)@.after_commit(now.nanos()),
            match r {
                Ok(Commit::Continue(flushed)) => !old(self)@.rotates(now.nanos()) && flushed
                    == Quantities::zero(),
                Ok(Commit::Rotate(ended)) => old(self)@.rotates(now.nanos()) && ended.wf()
                    && ended@ == old(self)@.session,
                Err(_) => false,
            },
    {
        if self.uncommitted_entries > 0 {
            self.committed.entries += self.uncommitted_entries;
            self.committed.transactions += 1;
            self.uncommitted_entries = 0;
        }
        if self.is_threshold_reached(now) {
            self.next_insert_at = shifted_next_time(now, self.next_insert_at, self.max_duration);
            let columns = copy_texts(&self.columns);
            let mut insert = match self.client.insert(self.table.as_str(), columns) {
                Ok(insert) => insert,
                Err(e) => {
                    return Err(e);
                },
            };
            core::mem::swap(&mut self.insert, &mut insert);
            proof {
                lemma_shift_is_bounded(
                    now.nanos(),
                    old(self)@.next_insert_at,
                    old(self)@.max_duration,
                );
            }
            Ok(Commit::Rotate(insert))
        } else {
            Ok(Commit::Continue(Quantities::zero()))
        }
    }

    /// Reports that the session handed out by the last rotation ended
    /// well: what was committed is handed out as flushed, and the count
    /// starts again at nothing.
    pub fn take_committed(&mut self) -> (flushed: Quantities)
        requires
            old(self).wf(),
        ensures
            final(self).wf(),
            flushed == old(self)@.committed,
            final(self)@ == (Pipeline { committed: Quantities::zero(), ..old(self)@ }),
    {
        let mut flushed = Quantities::zero();
        core::mem::swap(&mut self.committed, &mut flushed);
        flushed
    }

    /// Ends the pipeline: hands out the session for the caller to end,
    /// whatever the thresholds say, and what was committed, to be reported
    /// once the session has ended well.
    pub fn end(self) -> (r: (Insert, Quantities))
        requires
            self.wf(),
        ensures
            r.0.wf(),
            r.0@ == self@.session,
            r.1 == self@.committed,
    {
        (self.insert, self.committed)
    }

    /// Gives the pipeline up without ending it: its session is given up,
    /// and the answer says whether the stream of the session is to be
    /// aborted.
    pub fn abandon(&mut self) -> (abort: bool)
        ensures
            abort == old(self)@.session.aborts(Step::Abandon),
            final(self)@ == (Pipeline {
                session: old(self)@.session.after(Step::Abandon),
                ..old(self)@
            }),
    {
        self.insert.abandon()
    }

    /// Whether a commit at `now` can be made: whether the counters and the
    /// next deadline stay within what can be held.
    pub fn can_commit(&self, now: Instant) -> (can: bool)
        ensures
            can == self@.can_commit(now.nanos()),
    {
        let entries: u64 = match self.committed.entries.checked_add(self.uncommitted_entries) {
            Some(entries) => entries,
            None => {
                return false;
            },
        };
        if self.uncommitted_entries > 0 && self.committed.transactions == u64::MAX {
            return false;
        }
        if entries >= self.max_entries || now.as_nanos() >= self.next_insert_at.as_nanos() {
            let (_, bias) = biases(now, self.next_insert_at, self.max_duration);
            let nominal: u128 = match self.next_insert_at.as_nanos().checked_add(
                self.max_duration.as_nanos(),
            ) {
                Some(nominal) => nominal,
                None => {
                    return false;
                },
            };
            nominal.checked_add(2 * bias).is_some()
        } else {
            true
        }
    }

    /// What was committed since the last rotation.
    pub fn committed(&self) -> (committed: &Quantities)
        ensures
            *committed == self@.committed,
    {
        &self.committed
    }

    /// The number of rows written since the last commit.
    pub fn uncommitted_entries(&self) -> (entries: u64)
        ensures
            entries == self@.uncommitted_entries,
    {
        self.uncommitted_entries
    }

    /// The number of committed rows from which a commit rotates.
    pub fn max_entries(&self) -> (entries: u64)
        ensures
            entries == self@.max_entries,
    {
        self.max_entries
    }

    /// The period between two deadlines.
    pub fn max_duration(&self) -> (period: Duration)
        ensures
            period.nanos() == self@.max_duration,
    {
        self.max_duration
    }

    /// The deadline from which a commit rotates.
    pub fn next_insert_at(&self) -> (deadline: Instant)
        ensures
            deadline.nanos() == self@.next_insert_at,
    {
        self.next_insert_at
    }

    /// The current session.
    pub fn session(&self) -> (insert: &Insert)
        ensures
            insert@ == self@.session,
    {
        &self.insert
    }

    /// Whether the committed rows have reached the limit or `now` has
    /// reached the deadline.
    pub fn is_threshold_reached(&self, now: Instant) -> (reached: bool)
        ensures
            reached == self@.reached(self@.committed, now.nanos()),
    {
        self.committed.entries >= self.max_entries || now.as_nanos()
            >= self.next_insert_at.as_nanos()
    }
}

} // verus!
