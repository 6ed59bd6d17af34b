use crate::clock::{diff_systime, span_between, Span, Timestamp};
use crate::cmsg::{
    records_valid, records_wf, software_timestamp, spec_software_timestamp, ControlRecord,
};
use crate::error::LibError;
use vstd::prelude::*;

verus! {

/// What one non-blocking receive attempt gave.
#[derive(Clone, Debug)]
pub enum RecvAttempt {
    /// No datagram was ready: the readiness report was stale.
    WouldBlock,
    /// The call failed with this `errno`.
    Failed(i32),
    /// A datagram of `bytes` bytes arrived with these control messages;
    /// `truncated` tells that the kernel cut the control data short.
    Received { bytes: usize, records: Vec<ControlRecord>, truncated: bool },
}

/// A completed read: the payload length and, when the kernel stamped the
/// datagram, the skew between that stamp and the local clock.
#[derive(Clone, Copy, Debug, PartialEq, Eq, Structural)]
pub struct ReadOutcome {
    pub bytes: usize,
    pub skew: Option<Span>,
}

/// What a read does after one attempt.
#[derive(Clone, Copy, Debug)]
pub enum ReadStep {
    /// Wait for readiness again and make another attempt.
    Retry,
    /// The read is over, with this result.
    Done(Result<ReadOutcome, LibError>),
}

/// What one non-blocking send attempt gave.
#[derive(Clone, Copy, Debug, PartialEq, Eq, Structural)]
pub enum SendAttempt {
    /// The socket could not take the datagram now.
    WouldBlock,
    /// The call failed with this `errno`.
    Failed(i32),
    /// This many bytes were sent.
    Sent(usize),
}

/// What a write does after one attempt.
#[derive(Clone, Copy, Debug, PartialEq, Eq, Structural)]
pub enum WriteStep {
    /// Wait for writability again and make another attempt.
    Retry,
    /// The write is over, having sent this many bytes.
    Done(usize),
}

/// The skew between the kernel's software timestamp among `records` and the
/// local `clock`; `None` when the kernel took none.
pub open spec fn spec_skew(clock: Timestamp, records: Seq<ControlRecord>) -> Option<Span> {
    match spec_software_timestamp(records) {
        Some(t) => Some(span_between(t, clock)),
        None => None,
    }
}

/// The decision after a receive attempt made when the local clock read
/// `clock`.
pub open spec fn spec_read_step(clock: Timestamp, attempt: RecvAttempt) -> ReadStep {
    match attempt {
        RecvAttempt::WouldBlock => ReadStep::Retry,
        RecvAttempt::Failed(_) => ReadStep::Done(Ok(ReadOutcome { bytes: 0, skew: None })),
        RecvAttempt::Received { bytes, records, truncated } => if truncated || !records_wf(
            records@,
        ) {
            ReadStep::Done(Err(LibError::AncillaryDecodeError))
        } else {
            ReadStep::Done(Ok(ReadOutcome { bytes, skew: spec_skew(clock, records@) }))
        },
    }
}

/// The decision after a send attempt.
pub open spec fn spec_write_step(attempt: SendAttempt) -> WriteStep {
    match attempt {
        SendAttempt::WouldBlock => WriteStep::Retry,
        SendAttempt::Failed(_) => WriteStep::Done(0),
        SendAttempt::Sent(n) => WriteStep::Done(n),
    }
}

/// The skew of a received datagram: the span between the kernel's software
/// receive timestamp and the clock reading taken before the receive call,
/// or `None` when the kernel left the timestamp zero or sent none.
pub fn receive_skew(clock: Timestamp, records: &Vec<ControlRecord>) -> (r: Option<Span>)
    requires
        clock.wf(),
        records_wf(records@),
    ensures
        r == spec_skew(clock, records@),
{
    match software_timestamp(records) {
        Some(t) => {
            proof {
                lemma_last_system_timestamp_wf(records@);
            }
            Some(diff_systime(t, clock))
        },
        None => None,
    }
}

proof fn lemma_last_system_timestamp_wf(s: Seq<ControlRecord>)
    requires
        records_wf(s),
    ensures
        crate::cmsg::last_system_timestamp(s) matches Some(t) ==> t.wf(),
    decreases s.len(),
{
    if s.len() > 0 {
        assert(s[s.len() - 1].wf());
        assert(records_wf(s.drop_last()));
        lemma_last_system_timestamp_wf(s.drop_last());
    }
}

/// Decides what a read does after one receive attempt, `clock` being the
/// local time read just before the attempt. A stale readiness report leads
/// to another wait, never to an error; other OS failures end the read with
/// no bytes; truncated or malformed control data is an error; a datagram
/// ends the read with its length and the skew, which is left out when the
/// kernel's timestamp is absent.
pub fn read_step(clock: Timestamp, attempt: RecvAttempt) -> (r: ReadStep)
    requires
        clock.wf(),
    ensures
        r == spec_read_step(clock, attempt),
        (attempt is WouldBlock) <==> (r is Retry),
        r matches ReadStep::Done(Ok(o)) ==> (o.skew is Some ==> attempt is Received
            && spec_software_timestamp(attempt->records@) is Some),
{
    match attempt {
        RecvAttempt::WouldBlock => ReadStep::Retry,
        RecvAttempt::Failed(_) => ReadStep::Done(Ok(ReadOutcome { bytes: 0, skew: None })),
        RecvAttempt::Received { bytes, records, truncated } => {
            if truncated || !records_valid(&records) {
                ReadStep::Done(Err(LibError::AncillaryDecodeError))
            } else {
                let skew = receive_skew(clock, &records);
                ReadStep::Done(Ok(ReadOutcome { bytes, skew }))
            }
        },
    }
}

/// Decides what a write does after one send attempt: retry on would-block,
/// report zero bytes on any other failure, else the bytes sent.
pub fn write_step(attempt: SendAttempt) -> (r: WriteStep)
    ensures
        r == spec_write_step(attempt),
{
    match attempt {
        SendAttempt::WouldBlock => WriteStep::Retry,
        SendAttempt::Failed(_) => WriteStep::Done(0),
        SendAttempt::Sent(n) => WriteStep::Done(n),
    }
}

/// Zeroes a receive buffer, so that no stale bytes survive into an attempt.
pub fn clear_buffer(buf: &mut [u8])
    ensures
        final(buf)@.len() == old(buf)@.len(),
        forall|i: int| 0 <= i < final(buf)@.len() ==> #[trigger] final(buf)@[i] == 0u8,
{
    let n = buf.len();
    let mut i: usize = 0;
    while i < n
        invariant
            n == buf@.len(),
            n == old(buf)@.len(),
            i <= n,
            forall|j: int| 0 <= j < i ==> #[trigger] buf@[j] == 0u8,
        decreases n - i,
    {
        buf[i] = 0;
        i = i + 1;
    }
}

/// The payload of the `count`-th probe: the bytes `1, 2, ..., count`.
pub fn probe_payload(count: u8) -> (r: Vec<u8>)
    ensures
        r@.len() == count as int,
        forall|i: int| 0 <= i < r@.len() ==> #[trigger] r@[i] as int == i + 1,
{
    let mut v: Vec<u8> = Vec::new();
    let mut b: u8 = 0;
    while b < count
        invariant
            b <= count,
            v@.len() == b as int,
            forall|i: int| 0 <= i < v@.len() ==> #[trigger] v@[i] as int == i + 1,
        decreases count - b,
    {
        b = b + 1;
        v.push(b);
    }
    v
}

/// How many probes the driver sends before it only listens.
pub const PROBE_LIMIT: u8 = 3;

/// The payload of the next probe when `count` probes have been counted so
/// far, or `None` once the limit is reached.
pub fn next_probe(count: u8) -> (r: Option<Vec<u8>>)
    ensures
        count >= PROBE_LIMIT ==> r is None,
        count < PROBE_LIMIT ==> (r matches Some(v) && v@.len() == count as int && (forall|i: int|
            0 <= i < v@.len() ==> #[trigger] v@[i] as int == i + 1)),
{
    if count >= PROBE_LIMIT {
        None
    } else {
        Some(probe_payload(count))
    }
}

} // verus!
