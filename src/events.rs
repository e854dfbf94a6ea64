//! Per-file event sink: forwards progress and the single terminal event of a
//! file, and drops whatever comes after the terminal one.
use vstd::prelude::*;
use crate::error::Error;

verus! {

/// An event that the sink hands on to the application.
#[derive(Debug, Copy, Clone, PartialEq, Eq, Structural)]
pub enum FileEvent {
    Progress(u64),
    Success,
    Cancelled { by_peer: bool },
    Rejected { by_peer: bool },
    Failed(Error),
    Paused,
}

/// A call made on a sink.
#[derive(Debug, Copy, Clone, PartialEq, Eq, Structural)]
pub enum SinkCall {
    Progress(u64),
    Success,
    Cancelled { by_peer: bool },
    Rejected { by_peer: bool },
    Failed(Error),
    Paused,
    StopSilent,
}

pub open spec fn is_terminal(e: FileEvent) -> bool {
    matches!(e, FileEvent::Success | FileEvent::Cancelled { .. } | FileEvent::Rejected { .. } | FileEvent::Failed(_))
}

impl FileEvent {
    pub fn is_terminal(&self) -> (r: bool)
        ensures
            r == is_terminal(*self),
    {
        matches!(self, FileEvent::Success | FileEvent::Cancelled { .. } | FileEvent::Rejected { .. } | FileEvent::Failed(_))
    }
}

/// The abstract state of a sink.
pub struct SinkState {
    pub size: int,
    pub finished: bool,
    pub last_progress: int,
}

/// One call on a sink: the state after it and what reaches the application.
pub open spec fn step(s: SinkState, c: SinkCall) -> (SinkState, Option<FileEvent>) {
    if s.finished {
        (s, None)
    } else {
        match c {
            SinkCall::Progress(b) => if s.last_progress <= b <= s.size {
                (SinkState { last_progress: b as int, ..s }, Some(FileEvent::Progress(b)))
            } else {
                (s, None)
            },
            SinkCall::Paused => (s, Some(FileEvent::Paused)),
            SinkCall::StopSilent => (SinkState { finished: true, ..s }, None),
            SinkCall::Success => (SinkState { finished: true, ..s }, Some(FileEvent::Success)),
            SinkCall::Cancelled { by_peer } => (
                SinkState { finished: true, ..s },
                Some(FileEvent::Cancelled { by_peer }),
            ),
            SinkCall::Rejected { by_peer } => (
                SinkState { finished: true, ..s },
                Some(FileEvent::Rejected { by_peer }),
            ),
            SinkCall::Failed(e) => (SinkState { finished: true, ..s }, Some(FileEvent::Failed(e))),
        }
    }
}

/// A sequence of calls: the final state and the events emitted, in order.
pub open spec fn run(s: SinkState, calls: Seq<SinkCall>) -> (SinkState, Seq<FileEvent>)
    decreases calls.len(),
{
    if calls.len() == 0 {
        (s, Seq::empty())
    } else {
        let (s1, e) = step(s, calls[0]);
        let (s2, rest) = run(s1, calls.drop_first());
        (s2, match e {
            Some(ev) => seq![ev].add(rest),
            None => rest,
        })
    }
}

pub open spec fn terminal_count(evs: Seq<FileEvent>) -> nat
    decreases evs.len(),
{
    if evs.len() == 0 {
        0
    } else {
        (if is_terminal(evs[0]) { 1nat } else { 0nat }) + terminal_count(evs.drop_first())
    }
}

/// The progress values among `evs`, in order, are non-decreasing, start at no
/// less than `lo` and end at no more than `hi`.
pub open spec fn progress_within(evs: Seq<FileEvent>, lo: int, hi: int) -> bool
    decreases evs.len(),
{
    if evs.len() == 0 {
        true
    } else {
        match evs[0] {
            FileEvent::Progress(b) => lo <= b <= hi && progress_within(evs.drop_first(), b as int, hi),
            _ => progress_within(evs.drop_first(), lo, hi),
        }
    }
}

/// Event sink of one live file.
pub struct FileEventTx {
    size: u64,
    finished: bool,
    last_progress: u64,
}

impl View for FileEventTx {
    type V = SinkState;

    closed spec fn view(&self) -> SinkState {
        SinkState {
            size: self.size as int,
            finished: self.finished,
            last_progress: self.last_progress as int,
        }
    }
}

impl FileEventTx {
    /// A fresh sink for a file of `size` bytes, already at `offset`.
    pub fn new(size: u64, offset: u64) -> (r: Self)
        requires
            offset <= size,
        ensures
            r@ == (SinkState { size: size as int, finished: false, last_progress: offset as int }),
    {
        FileEventTx { size, finished: false, last_progress: offset }
    }

    pub fn is_finished(&self) -> (r: bool)
        ensures
            r == self@.finished,
    {
        self.finished
    }

    pub fn last_progress(&self) -> (r: u64)
        ensures
            r == self@.last_progress,
    {
        self.last_progress
    }

    /// Makes one call on the sink; returns what reaches the application.
    pub fn apply(&mut self, call: SinkCall) -> (r: Option<FileEvent>)
        ensures
            (final(self)@, r) == step(old(self)@, call),
    {
        if self.finished {
            return None;
        }
        match call {
            SinkCall::Progress(b) => {
                if self.last_progress <= b && b <= self.size {
                    self.last_progress = b;
                    Some(FileEvent::Progress(b))
                } else {
                    None
                }
            },
            SinkCall::Paused => Some(FileEvent::Paused),
            SinkCall::StopSilent => {
                self.finished = true;
                None
            },
            SinkCall::Success => {
                self.finished = true;
                Some(FileEvent::Success)
            },
            SinkCall::Cancelled { by_peer } => {
                self.finished = true;
                Some(FileEvent::Cancelled { by_peer })
            },
            SinkCall::Rejected { by_peer } => {
                self.finished = true;
                Some(FileEvent::Rejected { by_peer })
            },
            SinkCall::Failed(e) => {
                self.finished = true;
                Some(FileEvent::Failed(e))
            },
        }
    }

    pub fn progress(&mut self, bytes: u64) -> (r: Option<FileEvent>)
        ensures
            (final(self)@, r) == step(old(self)@, SinkCall::Progress(bytes)),
    {
        self.apply(SinkCall::Progress(bytes))
    }

    pub fn success(&mut self) -> (r: Option<FileEvent>)
        ensures
            (final(self)@, r) == step(old(self)@, SinkCall::Success),
    {
        self.apply(SinkCall::Success)
    }

    pub fn cancelled(&mut self, by_peer: bool) -> (r: Option<FileEvent>)
        ensures
            (final(self)@, r) == step(old(self)@, SinkCall::Cancelled { by_peer }),
    {
        self.apply(SinkCall::Cancelled { by_peer })
    }

    pub fn rejected(&mut self, by_peer: bool) -> (r: Option<FileEvent>)
        ensures
            (final(self)@, r) == step(old(self)@, SinkCall::Rejected { by_peer }),
    {
        self.apply(SinkCall::Rejected { by_peer })
    }

    pub fn failed(&mut self, err: Error) -> (r: Option<FileEvent>)
        ensures
            (final(self)@, r) == step(old(self)@, SinkCall::Failed(err)),
    {
        self.apply(SinkCall::Failed(err))
    }

    pub fn paused(&mut self) -> (r: Option<FileEvent>)
        ensures
            (final(self)@, r) == step(old(self)@, SinkCall::Paused),
    {
        self.apply(SinkCall::Paused)
    }

    /// Marks the sink terminal without emitting anything.
    pub fn stop_silent(&mut self)
        ensures
            final(self)@ == step(old(self)@, SinkCall::StopSilent).0,
    {
        self.apply(SinkCall::StopSilent);
    }
}

/// Whatever calls are made on a sink, at most one terminal event reaches the
/// application, and none once the sink is terminal.
pub proof fn lemma_at_most_one_terminal(s: SinkState, calls: Seq<SinkCall>)
    ensures
        terminal_count(run(s, calls).1) <= 1,
        s.finished ==> terminal_count(run(s, calls).1) == 0,
    decreases calls.len(),
{
    if calls.len() > 0 {
        let (s1, e) = step(s, calls[0]);
        lemma_at_most_one_terminal(s1, calls.drop_first());
        let rest = run(s1, calls.drop_first()).1;
        if let Some(ev) = e {
            let all = seq![ev].add(rest);
            assert(all.drop_first() =~= rest);
            if is_terminal(ev) {
                assert(s1.finished);
            }
        }
    }
}

/// Whatever calls are made on a sink, the progress it reports never goes
/// back, starts at no less than its position and never exceeds the file's size.
pub proof fn lemma_progress_monotone(s: SinkState, calls: Seq<SinkCall>)
    requires
        s.last_progress <= s.size,
    ensures
        progress_within(run(s, calls).1, s.last_progress, s.size),
        run(s, calls).0.last_progress >= s.last_progress,
        run(s, calls).0.size == s.size,
    decreases calls.len(),
{
    if calls.len() > 0 {
        let (s1, e) = step(s, calls[0]);
        lemma_progress_monotone(s1, calls.drop_first());
        let rest = run(s1, calls.drop_first()).1;
        lemma_progress_within_weaken(rest, s1.last_progress, s.last_progress, s.size);
        if let Some(ev) = e {
            let all = seq![ev].add(rest);
            assert(all.drop_first() =~= rest);
        }
    }
}

proof fn lemma_progress_within_weaken(evs: Seq<FileEvent>, lo: int, lo2: int, hi: int)
    requires
        progress_within(evs, lo, hi),
        lo2 <= lo,
    ensures
        progress_within(evs, lo2, hi),
    decreases evs.len(),
{
    if evs.len() > 0 {
        match evs[0] {
            FileEvent::Progress(b) => {},
            _ => lemma_progress_within_weaken(evs.drop_first(), lo, lo2, hi),
        }
    }
}

} // verus!
