//! Reconnection: the retry schedule of an outgoing transfer, the protocol
//! version fallback, and how a receiver resumes a partly received file.
use vstd::prelude::*;
use crate::error::Error;

verus! {

/// First delay before a reconnection attempt, in milliseconds.
pub const INITIAL_BACKOFF_MS: u64 = 200;

/// The uncapped delay before attempt `a`: 200 ms, doubled for each earlier attempt.
pub open spec fn uncapped_delay(a: nat) -> int
    decreases a,
{
    if a == 0 {
        INITIAL_BACKOFF_MS as int
    } else {
        2 * uncapped_delay((a - 1) as nat)
    }
}

/// The delay before attempt `a`, capped at a tenth of the maximum retry interval.
pub open spec fn backoff_delay(a: nat, max_retry_interval_ms: u64) -> int {
    let cap = max_retry_interval_ms / 10;
    if uncapped_delay(a) < cap as int { uncapped_delay(a) } else { cap as int }
}

proof fn lemma_delay_grows(a: nat, b: nat)
    requires
        a <= b,
    ensures
        uncapped_delay(a) <= uncapped_delay(b),
        uncapped_delay(a) > 0,
    decreases b,
{
    if b > a {
        lemma_delay_grows(a, (b - 1) as nat);
    }
    if a > 0 {
        lemma_delay_grows((a - 1) as nat, (a - 1) as nat);
    }
}

/// The wait before reconnection attempt `attempt` (counted from 0).
pub fn retry_backoff_ms(attempt: u32, max_retry_interval_ms: u64) -> (r: u64)
    ensures
        r == backoff_delay(attempt as nat, max_retry_interval_ms),
{
    let cap = max_retry_interval_ms / 10;
    let mut d: u64 = INITIAL_BACKOFF_MS;
    let mut i: u32 = 0;
    while i < attempt && d < cap
        invariant
            i <= attempt,
            d == uncapped_delay(i as nat),
            cap == max_retry_interval_ms / 10,
        decreases attempt - i,
    {
        d = d * 2;
        i += 1;
    }
    if d < cap {
        d
    } else {
        proof {
            lemma_delay_grows(i as nat, attempt as nat);
        }
        cap
    }
}

/// Wire protocol versions, newest first.
#[derive(Debug, Copy, Clone, PartialEq, Eq, Structural)]
pub enum ProtocolVersion {
    V2,
    V5,
}

/// The version to probe after `v` was refused by the peer, if any is left.
pub fn fallback(v: ProtocolVersion) -> (r: Option<ProtocolVersion>)
    ensures
        r == match v {
            ProtocolVersion::V5 => Some(ProtocolVersion::V2),
            ProtocolVersion::V2 => None::<ProtocolVersion>,
        },
{
    match v {
        ProtocolVersion::V5 => Some(ProtocolVersion::V2),
        ProtocolVersion::V2 => None,
    }
}

/// What the driver does after a lost connection.
#[derive(Debug, Copy, Clone, PartialEq, Eq, Structural)]
pub enum Reconnect {
    /// Wait, then dial again, probing the newest version first.
    Retry { delay_ms: u64, version: ProtocolVersion },
    /// Give up: the transfer fails.
    Fail(Error),
}

/// Retry loop of one outgoing transfer.
pub struct ReconnectDriver {
    pub attempts: u32,
    pub max_retries: u32,
    pub max_retry_interval_ms: u64,
}

impl ReconnectDriver {
    pub fn new(max_retries: u32, max_retry_interval_ms: u64) -> (r: Self)
        ensures
            r.attempts == 0,
            r.max_retries == max_retries,
            r.max_retry_interval_ms == max_retry_interval_ms,
    {
        ReconnectDriver { attempts: 0, max_retries, max_retry_interval_ms }
    }

    /// The connection was lost: retry while attempts remain, else fail with
    /// `ConnectionLost`.
    pub fn on_disconnect(&mut self) -> (r: Reconnect)
        ensures
            final(self).max_retries == old(self).max_retries,
            final(self).max_retry_interval_ms == old(self).max_retry_interval_ms,
            old(self).attempts < old(self).max_retries ==> {
                &&& final(self).attempts == old(self).attempts + 1
                &&& r == Reconnect::Retry {
                    delay_ms: backoff_delay(old(self).attempts as nat, old(self).max_retry_interval_ms) as u64,
                    version: ProtocolVersion::V5,
                }
            },
            old(self).attempts >= old(self).max_retries ==> {
                &&& final(self).attempts == old(self).attempts
                &&& r == Reconnect::Fail(Error::ConnectionLost)
            },
    {
        if self.attempts < self.max_retries {
            let delay_ms = retry_backoff_ms(self.attempts, self.max_retry_interval_ms);
            self.attempts = self.attempts + 1;
            Reconnect::Retry { delay_ms, version: ProtocolVersion::V5 }
        } else {
            Reconnect::Fail(Error::ConnectionLost)
        }
    }

    /// A connection was established: the attempt count starts over.
    pub fn on_connected(&mut self)
        ensures
            final(self).attempts == 0,
            final(self).max_retries == old(self).max_retries,
            final(self).max_retry_interval_ms == old(self).max_retry_interval_ms,
    {
        self.attempts = 0;
    }
}

/// What a receiver sends about one file.
#[derive(Debug, Copy, Clone, PartialEq, Eq, Structural)]
pub enum ReceiverMsg {
    /// Acknowledges the bytes written so far.
    Progress(u64),
    /// Asks the sender for the checksum of the first `limit` bytes.
    ReqChsum(u64),
    /// Asks the sender to send from `offset`.
    Start(u64),
    /// The sender's checksum does not match the partial file.
    Mismatch,
}

/// An event seen by a receiver about one file.
#[derive(Debug, Copy, Clone, PartialEq, Eq, Structural)]
pub enum ReceiverEvent {
    /// `len` bytes were written to the partial file.
    Chunk(u64),
    /// The connection came back after a loss.
    Reconnected,
    /// The sender reported the checksum of the first `limit` bytes; `matches`
    /// tells whether it equals that of the partial file.
    Checksum { limit: u64, matches: bool },
}

/// Receiver side of one incoming file.
pub struct ReceiverFile {
    pub size: u64,
    pub received: u64,
}

/// One event: the bytes received after it, and what the receiver sends.
pub open spec fn receiver_step(size: u64, received: u64, ev: ReceiverEvent) -> (u64, Option<ReceiverMsg>) {
    match ev {
        ReceiverEvent::Chunk(len) => if len <= size - received {
            ((received + len) as u64, Some(ReceiverMsg::Progress((received + len) as u64)))
        } else {
            (received, None)
        },
        ReceiverEvent::Reconnected => if received == 0 {
            (received, Some(ReceiverMsg::Start(0)))
        } else {
            (received, Some(ReceiverMsg::ReqChsum(received)))
        },
        ReceiverEvent::Checksum { limit, matches } => if limit == received && matches {
            (received, Some(ReceiverMsg::Start(received)))
        } else {
            (received, Some(ReceiverMsg::Mismatch))
        },
    }
}

impl ReceiverFile {
    pub fn new(size: u64) -> (r: Self)
        ensures
            r.size == size,
            r.received == 0,
    {
        ReceiverFile { size, received: 0 }
    }

    /// Handles one event; a chunk that would overrun the file's size is dropped.
    pub fn on_event(&mut self, ev: ReceiverEvent) -> (r: Option<ReceiverMsg>)
        requires
            old(self).received <= old(self).size,
        ensures
            final(self).size == old(self).size,
            final(self).received <= final(self).size,
            (final(self).received, r) == receiver_step(old(self).size, old(self).received, ev),
    {
        match ev {
            ReceiverEvent::Chunk(len) => {
                if len <= self.size - self.received {
                    self.received = self.received + len;
                    Some(ReceiverMsg::Progress(self.received))
                } else {
                    None
                }
            },
            ReceiverEvent::Reconnected => {
                if self.received == 0 {
                    Some(ReceiverMsg::Start(0))
                } else {
                    Some(ReceiverMsg::ReqChsum(self.received))
                }
            },
            ReceiverEvent::Checksum { limit, matches } => {
                if limit == self.received && matches {
                    Some(ReceiverMsg::Start(self.received))
                } else {
                    Some(ReceiverMsg::Mismatch)
                }
            },
        }
    }
}

/// A sequence of events from `received`: the bytes after it and what was sent.
pub open spec fn receiver_run(size: u64, received: u64, evs: Seq<ReceiverEvent>) -> (u64, Seq<ReceiverMsg>)
    decreases evs.len(),
{
    if evs.len() == 0 {
        (received, Seq::empty())
    } else {
        let (r1, m) = receiver_step(size, received, evs[0]);
        let (r2, rest) = receiver_run(size, r1, evs.drop_first());
        (r2, match m {
            Some(x) => seq![x] + rest,
            None => rest,
        })
    }
}

/// Every `Start` and `ReqChsum` in `msgs` names `acked`, the last
/// acknowledged position, or the last `Progress` before it in `msgs`.
pub open spec fn resumes_at_ack(msgs: Seq<ReceiverMsg>, acked: u64) -> bool
    decreases msgs.len(),
{
    if msgs.len() == 0 {
        true
    } else {
        match msgs[0] {
            ReceiverMsg::Progress(b) => resumes_at_ack(msgs.drop_first(), b),
            ReceiverMsg::Start(o) => o == acked && resumes_at_ack(msgs.drop_first(), acked),
            ReceiverMsg::ReqChsum(l) => l == acked && resumes_at_ack(msgs.drop_first(), acked),
            ReceiverMsg::Mismatch => resumes_at_ack(msgs.drop_first(), acked),
        }
    }
}

/// However many times the connection is lost and regained, an unfinished
/// file resumes exactly at the last acknowledged position: every `Start`
/// (and every checksum request before it) names the last `Progress` sent.
pub proof fn lemma_resume_at_last_ack(size: u64, received: u64, evs: Seq<ReceiverEvent>)
    requires
        received <= size,
    ensures
        resumes_at_ack(receiver_run(size, received, evs).1, received),
        receiver_run(size, received, evs).0 <= size,
    decreases evs.len(),
{
    if evs.len() > 0 {
        let (r1, m) = receiver_step(size, received, evs[0]);
        lemma_resume_at_last_ack(size, r1, evs.drop_first());
        let rest = receiver_run(size, r1, evs.drop_first()).1;
        if let Some(x) = m {
            assert((seq![x] + rest).drop_first() =~= rest);
        }
    }
}

} // verus!
