//! Sender side of protocol v5. Each handler takes the loop's state, the
//! registry and one event, and yields the actions for the runtime.
use vstd::prelude::*;
use crate::error::Error;
use crate::events::SinkCall;
use crate::manager::{
    cancelled_registry, live_files_of, not_terminated, registry_wf, sink_outcome, start_outcome, terminal_outcome, FileTerminalState,
    TransferManager, TransferView,
};
use crate::protocol::{
    actions_view, emitted, emitted_with, push_action, push_emitted, push_emitted_with, Action, ActionView, ClientMsg, ClientMsgView,
    ServerMsg,
};
use crate::config::DropConfig;
use crate::storage::{TransferInfo, TransferPath, TransferType};

verus! {

/// The upload task of one file, as far as the loop knows it.
pub struct FileTask {
    pub file: String,
    pub finished: bool,
}

pub struct TaskView {
    pub file: Seq<char>,
    pub finished: bool,
}

pub struct LoopView {
    pub xfer: Seq<char>,
    pub idle_lifetime_ms: u64,
    pub tasks: Seq<TaskView>,
}

pub open spec fn has_task(tasks: Seq<TaskView>, f: Seq<char>) -> bool {
    exists|i: int| 0 <= i < tasks.len() && tasks[i].file == f
}

pub open spec fn task_index(tasks: Seq<TaskView>, f: Seq<char>) -> int {
    choose|i: int| 0 <= i < tasks.len() && tasks[i].file == f
}

/// At most one task per file.
pub open spec fn loop_wf(l: LoopView) -> bool {
    forall|i: int, j: int| 0 <= i < l.tasks.len() && 0 <= j < l.tasks.len() && l.tasks[i].file == l.tasks[j].file ==> i == j
}

pub open spec fn without_task(l: LoopView, f: Seq<char>) -> LoopView {
    if has_task(l.tasks, f) {
        LoopView { tasks: l.tasks.remove(task_index(l.tasks, f)), ..l }
    } else {
        l
    }
}

/// The loop with a running task for `f`, in place of a finished one or added.
pub open spec fn with_running_task(l: LoopView, f: Seq<char>) -> LoopView {
    if has_task(l.tasks, f) {
        LoopView { tasks: l.tasks.update(task_index(l.tasks, f), TaskView { file: f, finished: false }), ..l }
    } else {
        LoopView { tasks: l.tasks.push(TaskView { file: f, finished: false }), ..l }
    }
}

pub type Outcome = (LoopView, Seq<TransferView>, Seq<ActionView>);

/// Drops the task of a file; a task still running is aborted and its sink
/// silenced.
pub open spec fn stop_task_spec(l: LoopView, m: Seq<TransferView>, f: Seq<char>) -> Outcome {
    if !has_task(l.tasks, f) {
        (l, m, Seq::empty())
    } else if l.tasks[task_index(l.tasks, f)].finished {
        (without_task(l, f), m, Seq::empty())
    } else {
        (
            without_task(l, f),
            sink_outcome(m, TransferType::Outgoing, l.xfer, f, SinkCall::StopSilent).0,
            seq![ActionView::Abort { file: f }],
        )
    }
}

/// The peer or this side cancelled a file: a running task is aborted and
/// the cancellation goes through the registry's latch.
pub open spec fn on_cancel_spec(l: LoopView, m: Seq<TransferView>, f: Seq<char>, by_peer: bool) -> Outcome {
    if !has_task(l.tasks, f) {
        (l, m, Seq::empty())
    } else if l.tasks[task_index(l.tasks, f)].finished {
        (without_task(l, f), m, Seq::empty())
    } else {
        let (m1, r) = terminal_outcome(m, TransferType::Outgoing, l.xfer, f, FileTerminalState::Cancelled { by_peer });
        (without_task(l, f), m1, seq![ActionView::Abort { file: f }] + emitted(f, r))
    }
}

pub open spec fn on_reject_spec(l: LoopView, m: Seq<TransferView>, f: Seq<char>) -> Outcome {
    let (m1, r) = terminal_outcome(m, TransferType::Outgoing, l.xfer, f, FileTerminalState::Rejected { by_peer: true });
    let (l2, m2, a2) = stop_task_spec(l, m1, f);
    (l2, m2, emitted(f, r) + a2)
}

pub open spec fn on_progress_spec(l: LoopView, m: Seq<TransferView>, f: Seq<char>, bytes: u64) -> Outcome {
    if has_task(l.tasks, f) {
        let (m1, r) = sink_outcome(m, TransferType::Outgoing, l.xfer, f, SinkCall::Progress(bytes));
        (l, m1, emitted(f, r))
    } else {
        (l, m, Seq::empty())
    }
}

pub open spec fn on_done_spec(l: LoopView, m: Seq<TransferView>, f: Seq<char>) -> Outcome {
    let (m1, r) = terminal_outcome(m, TransferType::Outgoing, l.xfer, f, FileTerminalState::Completed);
    (without_task(l, f), m1, emitted(f, r))
}

/// A file fails on this side: the failure goes through the latch and the
/// peer is told.
pub open spec fn fail_file_spec(l: LoopView, m: Seq<TransferView>, f: Seq<char>, e: Error) -> Outcome {
    let (m1, r) = terminal_outcome(m, TransferType::Outgoing, l.xfer, f, FileTerminalState::Failed(e));
    (l, m1, emitted(f, r).push(ActionView::Send(ClientMsgView::Error { file: Some(f), error: e })))
}

pub open spec fn on_checksum_spec(l: LoopView, m: Seq<TransferView>, f: Seq<char>, limit: u64) -> Outcome {
    match not_terminated(m, TransferType::Outgoing, l.xfer, f) {
        Ok(()) => (l, m, seq![ActionView::Checksum { file: f, limit }]),
        Err(e) => fail_file_spec(l, m, f, e),
    }
}

pub open spec fn on_checksum_result_spec(l: LoopView, m: Seq<TransferView>, f: Seq<char>, limit: u64, res: Result<Seq<u8>, Error>) -> Outcome {
    match res {
        Ok(c) => (l, m, seq![ActionView::Send(ClientMsgView::ReportChsum { file: f, limit, checksum: c })]),
        Err(e) => fail_file_spec(l, m, f, e),
    }
}

/// The receiver asks for a file from `offset`: refused for a terminal file
/// and while the file's task still runs; else the task is (re)started.
pub open spec fn on_start_spec(l: LoopView, m: Seq<TransferView>, f: Seq<char>, offset: u64) -> Outcome {
    match not_terminated(m, TransferType::Outgoing, l.xfer, f) {
        Err(e) => (l, m, seq![ActionView::Send(ClientMsgView::Error { file: Some(f), error: e })]),
        Ok(()) => if has_task(l.tasks, f) && !l.tasks[task_index(l.tasks, f)].finished {
            (l, m, seq![ActionView::Send(ClientMsgView::Error { file: Some(f), error: Error::TransferInProgress })])
        } else {
            (
                with_running_task(l, f),
                start_outcome(m, TransferType::Outgoing, l.xfer, f).0,
                seq![ActionView::Upload { file: f, offset }],
            )
        },
    }
}

/// The receiver reported an error about a file: the file fails through the
/// latch, the event carries the receiver's message, and its task stops.
pub open spec fn on_error_spec(l: LoopView, m: Seq<TransferView>, file: Option<Seq<char>>, msg: Seq<char>) -> Outcome {
    match file {
        None => (l, m, Seq::empty()),
        Some(f) => {
            let (m1, r) = terminal_outcome(m, TransferType::Outgoing, l.xfer, f, FileTerminalState::Failed(Error::BadTransferState));
            let (l2, m2, a2) = stop_task_spec(l, m1, f);
            (l2, m2, emitted_with(f, r, Some(msg)) + a2)
        },
    }
}

/// The registry after silencing the sinks of the first `n` tasks, in order.
pub open spec fn silence_tasks(m: Seq<TransferView>, xfer: Seq<char>, tasks: Seq<TaskView>, n: int) -> Seq<TransferView>
    decreases n,
{
    if n <= 0 {
        m
    } else {
        sink_outcome(silence_tasks(m, xfer, tasks, n - 1), TransferType::Outgoing, xfer, tasks[n - 1].file, SinkCall::StopSilent).0
    }
}

/// The registry after pausing the sinks of the first `n` tasks, and the
/// events told.
pub open spec fn pause_tasks(m: Seq<TransferView>, xfer: Seq<char>, tasks: Seq<TaskView>, n: int) -> (Seq<TransferView>, Seq<ActionView>)
    decreases n,
{
    if n <= 0 {
        (m, Seq::empty())
    } else {
        let (m1, a1) = pause_tasks(m, xfer, tasks, n - 1);
        let f = tasks[n - 1].file;
        let (m2, r) = sink_outcome(m1, TransferType::Outgoing, xfer, f, SinkCall::Paused);
        (m2, a1 + emitted(f, r))
    }
}

pub open spec fn on_drop_spec(l: LoopView, m: Seq<TransferView>) -> Outcome {
    let (m1, a1) = pause_tasks(m, l.xfer, l.tasks, l.tasks.len() as int);
    (LoopView { tasks: Seq::empty(), ..l }, m1, a1)
}

pub open spec fn on_stop_spec(l: LoopView, m: Seq<TransferView>) -> Outcome {
    (LoopView { tasks: Seq::empty(), ..l }, silence_tasks(m, l.xfer, l.tasks, l.tasks.len() as int), Seq::empty())
}

/// The registry after cancelling the first `n` of `ids` through the latch,
/// and the events told.
pub open spec fn cancel_files(m: Seq<TransferView>, xfer: Seq<char>, ids: Seq<Seq<char>>, by_peer: bool, n: int) -> (Seq<TransferView>, Seq<ActionView>)
    decreases n,
{
    if n <= 0 {
        (m, Seq::empty())
    } else {
        let (m1, a1) = cancel_files(m, xfer, ids, by_peer, n - 1);
        let (m2, r) = terminal_outcome(m1, TransferType::Outgoing, xfer, ids[n - 1], FileTerminalState::Cancelled { by_peer });
        (m2, a1 + emitted(ids[n - 1], r))
    }
}

/// The peer closed the session: the transfer is marked cancelled and each
/// file not yet terminal is cancelled by the peer through the latch.
pub open spec fn peer_cancel(m: Seq<TransferView>, xfer: Seq<char>) -> (Seq<TransferView>, Seq<ActionView>) {
    let ids = live_files_of(m, xfer);
    cancel_files(cancelled_registry(m, xfer), xfer, ids, true, ids.len() as int)
}

/// A close: on one from the peer every open file is cancelled first, then
/// the tasks end and the transfer-level cancellation follows all file events.
pub open spec fn on_close_spec(l: LoopView, m: Seq<TransferView>, by_peer: bool) -> Outcome {
    if by_peer {
        let (m1, a1) = peer_cancel(m, l.xfer);
        let (l2, m2, _) = on_stop_spec(l, m1);
        (l2, m2, a1.push(ActionView::TransferCanceled { by_peer: true }))
    } else {
        let (l1, m1, _) = on_stop_spec(l, m);
        (l1, m1, Seq::empty())
    }
}

pub open spec fn issue_reject_spec(l: LoopView, m: Seq<TransferView>, f: Seq<char>) -> Outcome {
    let (l1, m1, a1) = stop_task_spec(l, m, f);
    (l1, m1, seq![ActionView::Send(ClientMsgView::Reject { file: f })] + a1)
}

pub open spec fn server_file(msg: ServerMsg) -> Seq<char> {
    match msg {
        ServerMsg::Progress { file, .. } => file@,
        ServerMsg::Done { file, .. } => file@,
        ServerMsg::ReqChsum { file, .. } => file@,
        ServerMsg::Start { file, .. } => file@,
        ServerMsg::Cancel { file } => file@,
        ServerMsg::Reject { file } => file@,
        ServerMsg::Error { .. } => Seq::empty(),
    }
}

/// Dispatch of one message from the receiver.
pub open spec fn on_server_msg_spec(l: LoopView, m: Seq<TransferView>, msg: ServerMsg) -> Outcome {
    let f = server_file(msg);
    match msg {
        ServerMsg::Progress { bytes_transfered, .. } => on_progress_spec(l, m, f, bytes_transfered),
        ServerMsg::Done { .. } => on_done_spec(l, m, f),
        ServerMsg::Error { file, msg } => on_error_spec(l, m, crate::protocol::opt_view(file), msg@),
        ServerMsg::ReqChsum { limit, .. } => on_checksum_spec(l, m, f, limit),
        ServerMsg::Start { offset, .. } => on_start_spec(l, m, f, offset),
        ServerMsg::Cancel { .. } => on_cancel_spec(l, m, f, true),
        ServerMsg::Reject { .. } => on_reject_spec(l, m, f),
    }
}

/// The loop of one outgoing transfer, protocol v5.
pub struct HandlerLoop {
    xfer: String,
    idle_lifetime_ms: u64,
    tasks: Vec<FileTask>,
}

impl View for HandlerLoop {
    type V = LoopView;

    closed spec fn view(&self) -> LoopView {
        LoopView {
            xfer: self.xfer@,
            idle_lifetime_ms: self.idle_lifetime_ms,
            tasks: self.tasks@.map_values(|t: FileTask| TaskView { file: t.file@, finished: t.finished }),
        }
    }
}

pub open spec fn checksum_view(res: Result<Vec<u8>, Error>) -> Result<Seq<u8>, Error> {
    match res {
        Ok(c) => Ok(c@),
        Err(e) => Err(e),
    }
}

pub open spec fn outcome_ok(l: LoopView, m: Seq<TransferView>) -> bool {
    loop_wf(l) && registry_wf(m)
}

impl HandlerLoop {
    /// The loop of a transfer that has just been accepted by the receiver.
    pub fn new(xfer: String, idle_lifetime_ms: u64) -> (r: Self)
        ensures
            r@ == (LoopView { xfer: xfer@, idle_lifetime_ms, tasks: Seq::empty() }),
            loop_wf(r@),
    {
        let r = HandlerLoop { xfer, idle_lifetime_ms, tasks: Vec::new() };
        assert(r@.tasks =~= Seq::<TaskView>::empty());
        r
    }

    pub fn xfer_id(&self) -> (r: &String)
        ensures
            r@ == self@.xfer,
    {
        &self.xfer
    }

    pub fn task_count(&self) -> (r: usize)
        ensures
            r == self@.tasks.len(),
    {
        self.tasks.len()
    }

    pub fn task_file(&self, k: usize) -> (r: String)
        requires
            k < self@.tasks.len(),
        ensures
            r@ == self@.tasks[k as int].file,
    {
        self.tasks[k].file.clone()
    }

    /// Whether the loop holds a task for the file, and whether it has finished.
    pub fn task_state(&self, f: &String) -> (r: Option<bool>)
        requires
            loop_wf(self@),
        ensures
            r == if has_task(self@.tasks, f@) {
                Some(self@.tasks[task_index(self@.tasks, f@)].finished)
            } else {
                None::<bool>
            },
    {
        match self.find_task(f) {
            None => None,
            Some(i) => Some(self.tasks[i].finished),
        }
    }

    fn find_task(&self, f: &String) -> (r: Option<usize>)
        requires
            loop_wf(self@),
        ensures
            match r {
                Some(i) => has_task(self@.tasks, f@) && i == task_index(self@.tasks, f@) && i < self@.tasks.len(),
                None => !has_task(self@.tasks, f@),
            },
    {
        let mut i: usize = 0;
        while i < self.tasks.len()
            invariant
                i <= self.tasks.len(),
                loop_wf(self@),
                forall|k: int| 0 <= k < i ==> self@.tasks[k].file != f@,
            decreases self.tasks.len() - i,
        {
            if self.tasks[i].file.eq(f) {
                assert(self@.tasks[i as int].file == f@);
                assert(has_task(self@.tasks, f@));
                let ghost j = task_index(self@.tasks, f@);
                assert(self@.tasks[j].file == f@);
                return Some(i);
            }
            i += 1;
        }
        None
    }

    /// Removes the task of a file; returns whether it had finished.
    pub fn take_task(&mut self, f: &String) -> (r: Option<bool>)
        requires
            loop_wf(old(self)@),
        ensures
            loop_wf(final(self)@),
            final(self)@ == without_task(old(self)@, f@),
            r == if has_task(old(self)@.tasks, f@) {
                Some(old(self)@.tasks[task_index(old(self)@.tasks, f@)].finished)
            } else {
                None::<bool>
            },
    {
        match self.find_task(f) {
            None => None,
            Some(i) => {
                let ghost old_v = self@;
                let t = self.tasks.remove(i);
                proof {
                    assert(self@.tasks =~= old_v.tasks.remove(i as int));
                    assert forall|a: int, b: int| 0 <= a < self@.tasks.len() && 0 <= b < self@.tasks.len()
                        && self@.tasks[a].file == self@.tasks[b].file implies a == b by {
                        let a2 = if a < i { a } else { a + 1 };
                        let b2 = if b < i { b } else { b + 1 };
                        assert(self@.tasks[a] == old_v.tasks[a2]);
                        assert(self@.tasks[b] == old_v.tasks[b2]);
                    }
                }
                Some(t.finished)
            },
        }
    }

    pub fn set_running(&mut self, f: &String)
        requires
            loop_wf(old(self)@),
        ensures
            loop_wf(final(self)@),
            final(self)@ == with_running_task(old(self)@, f@),
    {
        let ghost old_v = self@;
        match self.find_task(f) {
            Some(i) => {
                self.tasks[i].finished = false;
                assert(self@.tasks =~= old_v.tasks.update(i as int, TaskView { file: f@, finished: false }));
            },
            None => {
                self.tasks.push(FileTask { file: f.clone(), finished: false });
                assert(self@.tasks =~= old_v.tasks.push(TaskView { file: f@, finished: false }));
            },
        }
    }

    /// The runtime reports that the task of a file has ended.
    pub fn task_finished(&mut self, f: &String)
        requires
            loop_wf(old(self)@),
        ensures
            loop_wf(final(self)@),
            final(self)@ == if has_task(old(self)@.tasks, f@) {
                LoopView {
                    tasks: old(self)@.tasks.update(task_index(old(self)@.tasks, f@), TaskView { file: f@, finished: true }),
                    ..old(self)@
                }
            } else {
                old(self)@
            },
    {
        let ghost old_v = self@;
        if let Some(i) = self.find_task(f) {
            self.tasks[i].finished = true;
            assert(self@.tasks =~= old_v.tasks.update(i as int, TaskView { file: f@, finished: true }));
        }
    }

    fn stop_task_into(&mut self, mgr: &mut TransferManager, f: &String, acts: &mut Vec<Action>)
        requires
            outcome_ok(old(self)@, old(mgr)@),
        ensures
            outcome_ok(final(self)@, final(mgr)@),
            ({
                let (l, m, a) = stop_task_spec(old(self)@, old(mgr)@, f@);
                final(self)@ == l && final(mgr)@ == m && actions_view(final(acts)@) == actions_view(old(acts)@) + a
            }),
    {
        let ghost a0 = actions_view(acts@);
        match self.take_task(f) {
            Some(false) => {
                push_action(acts, Action::Abort { file: f.clone() });
                let _ = mgr.stop_silent(TransferType::Outgoing, &self.xfer, f);
                assert(actions_view(acts@) =~= a0 + seq![ActionView::Abort { file: f@ }]);
            },
            _ => {
                assert(actions_view(acts@) =~= a0 + Seq::<ActionView>::empty());
            },
        }
    }

    /// Drops the task of a file, aborting it if it still runs.
    pub fn stop_task(&mut self, mgr: &mut TransferManager, f: &String) -> (r: Vec<Action>)
        requires
            outcome_ok(old(self)@, old(mgr)@),
        ensures
            outcome_ok(final(self)@, final(mgr)@),
            (final(self)@, final(mgr)@, actions_view(r@)) == stop_task_spec(old(self)@, old(mgr)@, f@),
    {
        let mut acts: Vec<Action> = Vec::new();
        self.stop_task_into(mgr, f, &mut acts);
        assert(actions_view(acts@) =~= stop_task_spec(old(self)@, old(mgr)@, f@).2);
        acts
    }

    pub fn on_cancel(&mut self, mgr: &mut TransferManager, f: &String, by_peer: bool) -> (r: Vec<Action>)
        requires
            outcome_ok(old(self)@, old(mgr)@),
        ensures
            outcome_ok(final(self)@, final(mgr)@),
            (final(self)@, final(mgr)@, actions_view(r@)) == on_cancel_spec(old(self)@, old(mgr)@, f@, by_peer),
    {
        let mut acts: Vec<Action> = Vec::new();
        match self.take_task(f) {
            Some(false) => {
                push_action(&mut acts, Action::Abort { file: f.clone() });
                let r = mgr.outgoing_terminal_recv(&self.xfer, f, FileTerminalState::Cancelled { by_peer });
                push_emitted(&mut acts, f, r);
            },
            _ => {},
        }
        assert(actions_view(acts@) =~= on_cancel_spec(old(self)@, old(mgr)@, f@, by_peer).2);
        acts
    }

    pub fn on_reject(&mut self, mgr: &mut TransferManager, f: &String) -> (r: Vec<Action>)
        requires
            outcome_ok(old(self)@, old(mgr)@),
        ensures
            outcome_ok(final(self)@, final(mgr)@),
            (final(self)@, final(mgr)@, actions_view(r@)) == on_reject_spec(old(self)@, old(mgr)@, f@),
    {
        let mut acts: Vec<Action> = Vec::new();
        let r = mgr.outgoing_terminal_recv(&self.xfer, f, FileTerminalState::Rejected { by_peer: true });
        push_emitted(&mut acts, f, r);
        self.stop_task_into(mgr, f, &mut acts);
        acts
    }

    pub fn on_progress(&mut self, mgr: &mut TransferManager, f: &String, bytes: u64) -> (r: Vec<Action>)
        requires
            outcome_ok(old(self)@, old(mgr)@),
        ensures
            outcome_ok(final(self)@, final(mgr)@),
            (final(self)@, final(mgr)@, actions_view(r@)) == on_progress_spec(old(self)@, old(mgr)@, f@, bytes),
    {
        let mut acts: Vec<Action> = Vec::new();
        if self.find_task(f).is_some() {
            let r = mgr.progress(TransferType::Outgoing, &self.xfer, f, bytes);
            push_emitted(&mut acts, f, r);
        }
        assert(actions_view(acts@) =~= on_progress_spec(old(self)@, old(mgr)@, f@, bytes).2);
        acts
    }

    pub fn on_done(&mut self, mgr: &mut TransferManager, f: &String) -> (r: Vec<Action>)
        requires
            outcome_ok(old(self)@, old(mgr)@),
        ensures
            outcome_ok(final(self)@, final(mgr)@),
            (final(self)@, final(mgr)@, actions_view(r@)) == on_done_spec(old(self)@, old(mgr)@, f@),
    {
        let mut acts: Vec<Action> = Vec::new();
        let r = mgr.outgoing_terminal_recv(&self.xfer, f, FileTerminalState::Completed);
        push_emitted(&mut acts, f, r);
        let _ = self.take_task(f);
        assert(actions_view(acts@) =~= on_done_spec(old(self)@, old(mgr)@, f@).2);
        acts
    }

    fn fail_file_into(&mut self, mgr: &mut TransferManager, f: &String, e: Error, acts: &mut Vec<Action>)
        requires
            outcome_ok(old(self)@, old(mgr)@),
        ensures
            outcome_ok(final(self)@, final(mgr)@),
            ({
                let (l, m, a) = fail_file_spec(old(self)@, old(mgr)@, f@, e);
                final(self)@ == l && final(mgr)@ == m && actions_view(final(acts)@) == actions_view(old(acts)@) + a
            }),
    {
        let ghost a0 = actions_view(acts@);
        let r = mgr.outgoing_failure_post(&self.xfer, f, e);
        push_emitted(acts, f, r);
        push_action(acts, Action::Send(ClientMsg::Error { file: Some(f.clone()), error: e }));
        assert(actions_view(acts@) =~= a0 + fail_file_spec(old(self)@, old(mgr)@, f@, e).2);
    }

    /// The receiver asks for the checksum of a file's first `limit` bytes.
    pub fn on_checksum(&mut self, mgr: &mut TransferManager, f: &String, limit: u64) -> (r: Vec<Action>)
        requires
            outcome_ok(old(self)@, old(mgr)@),
        ensures
            outcome_ok(final(self)@, final(mgr)@),
            (final(self)@, final(mgr)@, actions_view(r@)) == on_checksum_spec(old(self)@, old(mgr)@, f@, limit),
    {
        let mut acts: Vec<Action> = Vec::new();
        match mgr.outgoing_ensure_file_not_terminated(&self.xfer, f) {
            Ok(()) => {
                push_action(&mut acts, Action::Checksum { file: f.clone(), limit });
            },
            Err(e) => {
                self.fail_file_into(mgr, f, e, &mut acts);
            },
        }
        assert(actions_view(acts@) =~= on_checksum_spec(old(self)@, old(mgr)@, f@, limit).2);
        acts
    }

    /// The runtime has computed a checksum that `on_checksum` asked for, or failed to.
    pub fn on_checksum_result(&mut self, mgr: &mut TransferManager, f: &String, limit: u64, res: Result<Vec<u8>, Error>) -> (r: Vec<Action>)
        requires
            outcome_ok(old(self)@, old(mgr)@),
        ensures
            outcome_ok(final(self)@, final(mgr)@),
            (final(self)@, final(mgr)@, actions_view(r@)) == on_checksum_result_spec(old(self)@, old(mgr)@, f@, limit, checksum_view(res)),
    {
        let ghost res_v = checksum_view(res);
        let mut acts: Vec<Action> = Vec::new();
        match res {
            Ok(checksum) => {
                push_action(&mut acts, Action::Send(ClientMsg::ReportChsum { file: f.clone(), limit, checksum }));
            },
            Err(e) => {
                self.fail_file_into(mgr, f, e, &mut acts);
            },
        }
        assert(actions_view(acts@) =~= on_checksum_result_spec(old(self)@, old(mgr)@, f@, limit, res_v).2);
        acts
    }

    /// The runtime could not run the task of a file.
    pub fn on_task_failed(&mut self, mgr: &mut TransferManager, f: &String, e: Error) -> (r: Vec<Action>)
        requires
            outcome_ok(old(self)@, old(mgr)@),
        ensures
            outcome_ok(final(self)@, final(mgr)@),
            ({
                let (l, m, a) = fail_file_spec(without_task(old(self)@, f@), old(mgr)@, f@, e);
                final(self)@ == l && final(mgr)@ == m && actions_view(r@) == a
            }),
    {
        let mut acts: Vec<Action> = Vec::new();
        let _ = self.take_task(f);
        self.fail_file_into(mgr, f, e, &mut acts);
        assert(actions_view(acts@) =~= fail_file_spec(without_task(old(self)@, f@), old(mgr)@, f@, e).2);
        acts
    }

    pub fn on_start(&mut self, mgr: &mut TransferManager, f: &String, offset: u64) -> (r: Vec<Action>)
        requires
            outcome_ok(old(self)@, old(mgr)@),
        ensures
            outcome_ok(final(self)@, final(mgr)@),
            (final(self)@, final(mgr)@, actions_view(r@)) == on_start_spec(old(self)@, old(mgr)@, f@, offset),
    {
        let mut acts: Vec<Action> = Vec::new();
        match mgr.outgoing_ensure_file_not_terminated(&self.xfer, f) {
            Err(e) => {
                push_action(&mut acts, Action::Send(ClientMsg::Error { file: Some(f.clone()), error: e }));
            },
            Ok(()) => {
                if self.task_state(f) == Some(false) {
                    push_action(&mut acts, Action::Send(ClientMsg::Error { file: Some(f.clone()), error: Error::TransferInProgress }));
                } else {
                    let _ = mgr.start_file(TransferType::Outgoing, &self.xfer, f);
                    self.set_running(f);
                    push_action(&mut acts, Action::Upload { file: f.clone(), offset });
                }
            },
        }
        assert(actions_view(acts@) =~= on_start_spec(old(self)@, old(mgr)@, f@, offset).2);
        acts
    }

    pub fn on_error(&mut self, mgr: &mut TransferManager, file: &Option<String>, msg: &String) -> (r: Vec<Action>)
        requires
            outcome_ok(old(self)@, old(mgr)@),
        ensures
            outcome_ok(final(self)@, final(mgr)@),
            (final(self)@, final(mgr)@, actions_view(r@)) == on_error_spec(old(self)@, old(mgr)@, crate::protocol::opt_view(*file), msg@),
    {
        let mut acts: Vec<Action> = Vec::new();
        match file {
            None => {
                assert(actions_view(acts@) =~= Seq::<ActionView>::empty());
            },
            Some(f) => {
                let r = mgr.outgoing_terminal_recv(&self.xfer, f, FileTerminalState::Failed(Error::BadTransferState));
                push_emitted_with(&mut acts, f, r, &Some(msg.clone()));
                self.stop_task_into(mgr, f, &mut acts);
            },
        }
        acts
    }

    /// Ends every task: each sink is silenced, the transfer-level event
    /// stands for them.
    pub fn on_stop(&mut self, mgr: &mut TransferManager) -> (r: Vec<Action>)
        requires
            outcome_ok(old(self)@, old(mgr)@),
        ensures
            outcome_ok(final(self)@, final(mgr)@),
            (final(self)@, final(mgr)@, actions_view(r@)) == on_stop_spec(old(self)@, old(mgr)@),
    {
        let ghost l0 = self@;
        let ghost m0 = mgr@;
        let n = self.tasks.len();
        let mut k: usize = 0;
        while k < n
            invariant
                self@ == l0,
                n == l0.tasks.len(),
                n == self.tasks@.len(),
                k <= n,
                registry_wf(mgr@),
                mgr@ == silence_tasks(m0, l0.xfer, l0.tasks, k as int),
            decreases n - k,
        {
            let _ = mgr.stop_silent(TransferType::Outgoing, &self.xfer, &self.tasks[k].file);
            k += 1;
        }
        self.tasks = Vec::new();
        let acts: Vec<Action> = Vec::new();
        assert(self@.tasks =~= Seq::<TaskView>::empty());
        assert(actions_view(acts@) =~= Seq::<ActionView>::empty());
        acts
    }

    /// The loop goes away with its tasks still registered (the connection
    /// was lost): each task's file is reported paused.
    pub fn on_drop(&mut self, mgr: &mut TransferManager) -> (r: Vec<Action>)
        requires
            outcome_ok(old(self)@, old(mgr)@),
        ensures
            outcome_ok(final(self)@, final(mgr)@),
            (final(self)@, final(mgr)@, actions_view(r@)) == on_drop_spec(old(self)@, old(mgr)@),
    {
        let ghost l0 = self@;
        let ghost m0 = mgr@;
        let mut acts: Vec<Action> = Vec::new();
        let n = self.tasks.len();
        let mut k: usize = 0;
        while k < n
            invariant
                self@ == l0,
                n == l0.tasks.len(),
                n == self.tasks@.len(),
                k <= n,
                registry_wf(mgr@),
                (mgr@, actions_view(acts@)) == pause_tasks(m0, l0.xfer, l0.tasks, k as int),
            decreases n - k,
        {
            let r = mgr.pause_outgoing(&self.xfer, &self.tasks[k].file);
            push_emitted(&mut acts, &self.tasks[k].file, r);
            k += 1;
        }
        self.tasks = Vec::new();
        assert(self@.tasks =~= Seq::<TaskView>::empty());
        acts
    }

    /// Cancels every open file of the transfer on the peer's behalf.
    pub fn peer_cancel_into(&self, mgr: &mut TransferManager, acts: &mut Vec<Action>)
        requires
            registry_wf(old(mgr)@),
        ensures
            registry_wf(final(mgr)@),
            (final(mgr)@, actions_view(final(acts)@)) == ({
                let (m1, a1) = peer_cancel(old(mgr)@, self@.xfer);
                (m1, actions_view(old(acts)@) + a1)
            }),
    {
        let ghost m0 = mgr@;
        let ghost a0 = actions_view(acts@);
        let ids = match mgr.cancel_transfer(&self.xfer) {
            Ok(ids) => ids,
            Err(_) => Vec::new(),
        };
        let ghost idv = live_files_of(m0, self@.xfer);
        let ghost mc = mgr@;
        assert(ids@.map_values(|s: String| s@) == idv) by {
            if !crate::manager::has_transfer(m0, self@.xfer) {
                assert(ids@.map_values(|s: String| s@) =~= Seq::<Seq<char>>::empty());
            }
        }
        assert(mc == cancelled_registry(m0, self@.xfer));
        assert(actions_view(acts@) =~= a0 + cancel_files(mc, self@.xfer, idv, true, 0).1);
        let mut k: usize = 0;
        while k < ids.len()
            invariant
                k <= ids@.len(),
                ids@.map_values(|s: String| s@) == idv,
                registry_wf(mgr@),
                (mgr@, actions_view(acts@)) == ({
                    let (m1, a1) = cancel_files(mc, self@.xfer, idv, true, k as int);
                    (m1, a0 + a1)
                }),
            decreases ids.len() - k,
        {
            assert(idv[k as int] == ids@[k as int]@);
            let ghost before = actions_view(acts@);
            let r = mgr.outgoing_terminal_recv(&self.xfer, &ids[k], FileTerminalState::Cancelled { by_peer: true });
            push_emitted(acts, &ids[k], r);
            assert(actions_view(acts@) =~= a0 + cancel_files(mc, self@.xfer, idv, true, k + 1).1);
            k += 1;
        }
    }

    pub fn on_close(&mut self, mgr: &mut TransferManager, by_peer: bool) -> (r: Vec<Action>)
        requires
            outcome_ok(old(self)@, old(mgr)@),
        ensures
            outcome_ok(final(self)@, final(mgr)@),
            (final(self)@, final(mgr)@, actions_view(r@)) == on_close_spec(old(self)@, old(mgr)@, by_peer),
    {
        let mut acts: Vec<Action> = Vec::new();
        if by_peer {
            self.peer_cancel_into(mgr, &mut acts);
        }
        let _ = self.on_stop(mgr);
        if by_peer {
            push_action(&mut acts, Action::TransferCanceled { by_peer: true });
        }
        assert(actions_view(acts@) =~= on_close_spec(old(self)@, old(mgr)@, by_peer).2);
        acts
    }

    /// Rejects a file on this side: the peer is told and the task stopped.
    pub fn issue_reject(&mut self, mgr: &mut TransferManager, f: &String) -> (r: Vec<Action>)
        requires
            outcome_ok(old(self)@, old(mgr)@),
        ensures
            outcome_ok(final(self)@, final(mgr)@),
            (final(self)@, final(mgr)@, actions_view(r@)) == issue_reject_spec(old(self)@, old(mgr)@, f@),
    {
        let mut acts: Vec<Action> = Vec::new();
        push_action(&mut acts, Action::Send(ClientMsg::Reject { file: f.clone() }));
        self.stop_task_into(mgr, f, &mut acts);
        assert(actions_view(acts@) =~= issue_reject_spec(old(self)@, old(mgr)@, f@).2);
        acts
    }

    /// Tells the peer that a file failed on this side.
    pub fn issue_faliure(&self, f: &String) -> (r: Vec<Action>)
        ensures
            actions_view(r@) == seq![ActionView::Send(ClientMsgView::Error { file: Some(f@), error: Error::BadTransferState })],
    {
        let mut acts: Vec<Action> = Vec::new();
        push_action(&mut acts, Action::Send(ClientMsg::Error { file: Some(f.clone()), error: Error::BadTransferState }));
        assert(actions_view(acts@) =~= seq![ActionView::Send(ClientMsgView::Error { file: Some(f@), error: Error::BadTransferState })]);
        acts
    }

    /// Dispatches one message from the receiver.
    pub fn on_server_msg(&mut self, mgr: &mut TransferManager, msg: &ServerMsg) -> (r: Vec<Action>)
        requires
            outcome_ok(old(self)@, old(mgr)@),
        ensures
            outcome_ok(final(self)@, final(mgr)@),
            (final(self)@, final(mgr)@, actions_view(r@)) == on_server_msg_spec(old(self)@, old(mgr)@, *msg),
    {
        match msg {
            ServerMsg::Progress { file, bytes_transfered } => self.on_progress(mgr, file, *bytes_transfered),
            ServerMsg::Done { file, .. } => self.on_done(mgr, file),
            ServerMsg::Error { file, msg } => self.on_error(mgr, file, msg),
            ServerMsg::ReqChsum { file, limit } => self.on_checksum(mgr, file, *limit),
            ServerMsg::Start { file, offset } => self.on_start(mgr, file, *offset),
            ServerMsg::Cancel { file } => self.on_cancel(mgr, file, true),
            ServerMsg::Reject { file } => self.on_reject(mgr, file),
        }
    }

    /// Time left before the session counts as idle.
    pub fn recv_timeout(&self, last_recv_elapsed_ms: u64) -> (r: u64)
        ensures
            r == if last_recv_elapsed_ms >= self@.idle_lifetime_ms { 0 } else { (self@.idle_lifetime_ms - last_recv_elapsed_ms) as u64 },
    {
        self.idle_lifetime_ms.saturating_sub(last_recv_elapsed_ms)
    }
}

/// Opening of a v5 session, before the receiver has answered.
pub struct HandlerInit {
    pub idle_lifetime_ms: u64,
}

impl HandlerInit {
    pub fn new(config: &DropConfig) -> (r: Self)
        ensures
            r.idle_lifetime_ms == config.transfer_idle_lifetime_ms,
    {
        HandlerInit { idle_lifetime_ms: config.transfer_idle_lifetime_ms }
    }

    /// The first message of the session: the transfer request.
    pub fn start(&self, xfer: &TransferInfo) -> (r: ClientMsg)
        ensures
            r@ == (ClientMsgView::TransferRequest {
                id: xfer.id@,
                files: xfer.files@.map_values(|p: TransferPath| (p.id@, p.path@, p.size as u64)),
            }),
    {
        crate::protocol::transfer_request(xfer)
    }

    /// The loop that runs the session once it is established.
    pub fn upgrade(self, xfer: String) -> (r: HandlerLoop)
        ensures
            r@ == (LoopView { xfer: xfer@, idle_lifetime_ms: self.idle_lifetime_ms, tasks: Seq::empty() }),
            loop_wf(r@),
    {
        HandlerLoop::new(xfer, self.idle_lifetime_ms)
    }

    /// Interval between liveness pings: half the idle lifetime.
    pub fn pinger(&self) -> (r: u64)
        ensures
            r == self.idle_lifetime_ms / 2,
    {
        self.idle_lifetime_ms / 2
    }
}

} // verus!
