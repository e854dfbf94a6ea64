//! Sender side of the legacy protocol v2: no resume, no rejection, no
//! checksums; uploads always start at byte 0.
use vstd::prelude::*;
use crate::client_v5::{
    has_task, loop_wf, peer_cancel, on_cancel_spec, on_done_spec, on_progress_spec, on_stop_spec, outcome_ok,
    task_index, with_running_task, without_task, LoopView, Outcome, TaskView,
};
use crate::error::Error;
use crate::manager::{not_terminated, start_outcome, terminal_outcome, FileTerminalState, TransferManager, TransferView};
use crate::protocol::{
    actions_view, append_actions, emitted_with, opt_view, push_action, push_emitted_with, Action, ActionView, ClientMsg,
    ClientMsgView,
};
use crate::config::DropConfig;
use crate::storage::{TransferInfo, TransferPath, TransferType};

verus! {

/// Messages from the receiver in protocol v2.
#[derive(Debug, Clone)]
pub enum V2ServerMsg {
    Progress { file: String, bytes_transfered: u64 },
    Done { file: String, bytes_transfered: u64 },
    Error { file: Option<String>, msg: String },
    Start { file: String },
    Cancel { file: String },
}

/// A request of this side's application to the loop.
#[derive(Debug, Clone)]
pub enum ClientReq {
    Cancel { file: String },
}

/// A download request: refused silently for an unknown or terminal file and
/// while the file's task runs; else the upload starts at byte 0.
pub open spec fn on_download_spec(l: LoopView, m: Seq<TransferView>, f: Seq<char>) -> Outcome {
    match not_terminated(m, TransferType::Outgoing, l.xfer, f) {
        Err(_) => (l, m, Seq::empty()),
        Ok(()) => if has_task(l.tasks, f) && !l.tasks[task_index(l.tasks, f)].finished {
            (l, m, Seq::empty())
        } else {
            (
                with_running_task(l, f),
                start_outcome(m, TransferType::Outgoing, l.xfer, f).0,
                seq![ActionView::Upload { file: f, offset: 0 }],
            )
        },
    }
}

/// An error reported by the receiver fails the file's running task.
pub open spec fn on_error_v2_spec(l: LoopView, m: Seq<TransferView>, file: Option<Seq<char>>, msg: Seq<char>) -> Outcome {
    match file {
        None => (l, m, Seq::empty()),
        Some(f) => if !has_task(l.tasks, f) {
            (l, m, Seq::empty())
        } else if l.tasks[task_index(l.tasks, f)].finished {
            (without_task(l, f), m, Seq::empty())
        } else {
            let (m1, r) = terminal_outcome(m, TransferType::Outgoing, l.xfer, f, FileTerminalState::Failed(Error::BadTransfer));
            (without_task(l, f), m1, seq![ActionView::Abort { file: f }] + emitted_with(f, r, Some(msg)))
        },
    }
}

/// A completion for a file whose task is gone, or was never started, is
/// ignored; otherwise it goes through the latch.
pub open spec fn on_done_v2_spec(l: LoopView, m: Seq<TransferView>, f: Seq<char>) -> Outcome {
    if !has_task(l.tasks, f) {
        (l, m, Seq::empty())
    } else {
        on_done_spec(l, m, f)
    }
}

pub open spec fn abort_all(tasks: Seq<TaskView>) -> Seq<ActionView> {
    tasks.map_values(|t: TaskView| ActionView::Abort { file: t.file })
}

/// Every task is aborted and its sink silenced.
pub open spec fn on_stop_v2_spec(l: LoopView, m: Seq<TransferView>) -> Outcome {
    let (l1, m1, _) = on_stop_spec(l, m);
    (l1, m1, abort_all(l.tasks))
}

/// A close: on one from the peer every open file is cancelled first; then
/// every task is aborted, and the transfer-level cancellation comes last.
pub open spec fn on_close_v2_spec(l: LoopView, m: Seq<TransferView>, by_peer: bool) -> Outcome {
    if by_peer {
        let (m1, a1) = peer_cancel(m, l.xfer);
        let (l2, m2, a2) = on_stop_v2_spec(l, m1);
        (l2, m2, (a1 + a2).push(ActionView::TransferCanceled { by_peer }))
    } else {
        let (l1, m1, a1) = on_stop_v2_spec(l, m);
        (l1, m1, a1.push(ActionView::TransferCanceled { by_peer }))
    }
}

pub open spec fn issue_cancel_spec(l: LoopView, m: Seq<TransferView>, f: Seq<char>) -> Outcome {
    let (l1, m1, a1) = on_cancel_spec(l, m, f, false);
    (l1, m1, seq![ActionView::Send(ClientMsgView::Cancel { file: f })] + a1)
}

pub open spec fn v2_file(msg: V2ServerMsg) -> Seq<char> {
    match msg {
        V2ServerMsg::Progress { file, .. } => file@,
        V2ServerMsg::Done { file, .. } => file@,
        V2ServerMsg::Start { file } => file@,
        V2ServerMsg::Cancel { file } => file@,
        V2ServerMsg::Error { .. } => Seq::empty(),
    }
}

pub open spec fn on_server_msg_v2_spec(l: LoopView, m: Seq<TransferView>, msg: V2ServerMsg) -> Outcome {
    let f = v2_file(msg);
    match msg {
        V2ServerMsg::Progress { bytes_transfered, .. } => on_progress_spec(l, m, f, bytes_transfered),
        V2ServerMsg::Done { .. } => on_done_v2_spec(l, m, f),
        V2ServerMsg::Error { file, msg } => on_error_v2_spec(l, m, opt_view(file), msg@),
        V2ServerMsg::Start { .. } => on_download_spec(l, m, f),
        V2ServerMsg::Cancel { .. } => on_cancel_spec(l, m, f, true),
    }
}

/// The loop of one outgoing transfer, protocol v2.
pub struct HandlerLoop {
    base: crate::client_v5::HandlerLoop,
    ping: bool,
}

impl View for HandlerLoop {
    type V = LoopView;

    closed spec fn view(&self) -> LoopView {
        self.base@
    }
}

impl HandlerLoop {
    /// A loop that sends liveness pings when `ping` holds.
    pub fn new(xfer: String, idle_lifetime_ms: u64, ping: bool) -> (r: Self)
        ensures
            r@ == (LoopView { xfer: xfer@, idle_lifetime_ms, tasks: Seq::empty() }),
            r.pings() == ping,
            loop_wf(r@),
    {
        HandlerLoop { base: crate::client_v5::HandlerLoop::new(xfer, idle_lifetime_ms), ping }
    }

    pub fn xfer_id(&self) -> (r: &String)
        ensures
            r@ == self@.xfer,
    {
        self.base.xfer_id()
    }

    pub closed spec fn pings(&self) -> bool {
        self.ping
    }

    pub fn task_finished(&mut self, f: &String)
        requires
            loop_wf(old(self)@),
        ensures
            loop_wf(final(self)@),
            final(self)@ == if has_task(old(self)@.tasks, f@) {
                LoopView {
                    tasks: old(self)@.tasks.update(task_index(old(self)@.tasks, f@), TaskView { file: f@, finished: true }),
                    ..old(self)@
                }
            } else {
                old(self)@
            },
            final(self).pings() == old(self).pings(),
    {
        self.base.task_finished(f)
    }

    pub fn on_cancel(&mut self, mgr: &mut TransferManager, f: &String, by_peer: bool) -> (r: Vec<Action>)
        requires
            outcome_ok(old(self)@, old(mgr)@),
        ensures
            outcome_ok(final(self)@, final(mgr)@),
            final(self).pings() == old(self).pings(),
            (final(self)@, final(mgr)@, actions_view(r@)) == on_cancel_spec(old(self)@, old(mgr)@, f@, by_peer),
    {
        self.base.on_cancel(mgr, f, by_peer)
    }

    pub fn on_progress(&mut self, mgr: &mut TransferManager, f: &String, bytes: u64) -> (r: Vec<Action>)
        requires
            outcome_ok(old(self)@, old(mgr)@),
        ensures
            outcome_ok(final(self)@, final(mgr)@),
            final(self).pings() == old(self).pings(),
            (final(self)@, final(mgr)@, actions_view(r@)) == on_progress_spec(old(self)@, old(mgr)@, f@, bytes),
    {
        self.base.on_progress(mgr, f, bytes)
    }

    pub fn on_done(&mut self, mgr: &mut TransferManager, f: &String) -> (r: Vec<Action>)
        requires
            outcome_ok(old(self)@, old(mgr)@),
        ensures
            outcome_ok(final(self)@, final(mgr)@),
            final(self).pings() == old(self).pings(),
            (final(self)@, final(mgr)@, actions_view(r@)) == on_done_v2_spec(old(self)@, old(mgr)@, f@),
    {
        if self.base.task_state(f).is_some() {
            self.base.on_done(mgr, f)
        } else {
            let acts: Vec<Action> = Vec::new();
            assert(actions_view(acts@) =~= Seq::<ActionView>::empty());
            acts
        }
    }

    pub fn on_download(&mut self, mgr: &mut TransferManager, f: &String) -> (r: Vec<Action>)
        requires
            outcome_ok(old(self)@, old(mgr)@),
        ensures
            outcome_ok(final(self)@, final(mgr)@),
            final(self).pings() == old(self).pings(),
            (final(self)@, final(mgr)@, actions_view(r@)) == on_download_spec(old(self)@, old(mgr)@, f@),
    {
        let mut acts: Vec<Action> = Vec::new();
        if mgr.outgoing_ensure_file_not_terminated(self.base.xfer_id(), f).is_ok() {
            if self.base.task_state(f) != Some(false) {
                let xfer = self.base.xfer_id().clone();
                let _ = mgr.start_file(TransferType::Outgoing, &xfer, f);
                self.base.set_running(f);
                push_action(&mut acts, Action::Upload { file: f.clone(), offset: 0 });
            }
        }
        assert(actions_view(acts@) =~= on_download_spec(old(self)@, old(mgr)@, f@).2);
        acts
    }

    pub fn on_error(&mut self, mgr: &mut TransferManager, file: &Option<String>, msg: &String) -> (r: Vec<Action>)
        requires
            outcome_ok(old(self)@, old(mgr)@),
        ensures
            outcome_ok(final(self)@, final(mgr)@),
            final(self).pings() == old(self).pings(),
            (final(self)@, final(mgr)@, actions_view(r@)) == on_error_v2_spec(old(self)@, old(mgr)@, opt_view(*file), msg@),
    {
        let mut acts: Vec<Action> = Vec::new();
        if let Some(f) = file {
            if self.base.take_task(f) == Some(false) {
                push_action(&mut acts, Action::Abort { file: f.clone() });
                let xfer = self.base.xfer_id().clone();
                let r = mgr.outgoing_terminal_recv(&xfer, f, FileTerminalState::Failed(Error::BadTransfer));
                push_emitted_with(&mut acts, f, r, &Some(msg.clone()));
            }
        }
        assert(actions_view(acts@) =~= on_error_v2_spec(old(self)@, old(mgr)@, opt_view(*file), msg@).2);
        acts
    }

    /// Aborts every task; their sinks are silenced.
    pub fn on_stop(&mut self, mgr: &mut TransferManager) -> (r: Vec<Action>)
        requires
            outcome_ok(old(self)@, old(mgr)@),
        ensures
            outcome_ok(final(self)@, final(mgr)@),
            final(self).pings() == old(self).pings(),
            (final(self)@, final(mgr)@, actions_view(r@)) == on_stop_v2_spec(old(self)@, old(mgr)@),
    {
        let acts = self.abort_all();
        let _ = self.base.on_stop(mgr);
        acts
    }

    /// The abort actions for every task, for when the loop is dropped.
    pub fn abort_all(&self) -> (r: Vec<Action>)
        ensures
            actions_view(r@) == abort_all(self@.tasks),
    {
        let mut acts: Vec<Action> = Vec::new();
        let n = self.base.task_count();
        let mut k: usize = 0;
        while k < n
            invariant
                n == self@.tasks.len(),
                k <= n,
                actions_view(acts@) == abort_all(self@.tasks).take(k as int),
            decreases n - k,
        {
            let f = self.base.task_file(k);
            push_action(&mut acts, Action::Abort { file: f });
            assert(actions_view(acts@) =~= abort_all(self@.tasks).take(k + 1));
            k += 1;
        }
        assert(abort_all(self@.tasks).take(n as int) =~= abort_all(self@.tasks));
        acts
    }

    pub fn on_close(&mut self, mgr: &mut TransferManager, by_peer: bool) -> (r: Vec<Action>)
        requires
            outcome_ok(old(self)@, old(mgr)@),
        ensures
            outcome_ok(final(self)@, final(mgr)@),
            final(self).pings() == old(self).pings(),
            (final(self)@, final(mgr)@, actions_view(r@)) == on_close_v2_spec(old(self)@, old(mgr)@, by_peer),
    {
        let mut acts: Vec<Action> = Vec::new();
        if by_peer {
            self.base.peer_cancel_into(mgr, &mut acts);
        }
        let stopped = self.on_stop(mgr);
        append_actions(&mut acts, &stopped);
        push_action(&mut acts, Action::TransferCanceled { by_peer });
        assert(actions_view(acts@) =~= on_close_v2_spec(old(self)@, old(mgr)@, by_peer).2);
        acts
    }

    /// Cancels a file on this side: the peer is told and the task stopped.
    pub fn issue_cancel(&mut self, mgr: &mut TransferManager, f: &String) -> (r: Vec<Action>)
        requires
            outcome_ok(old(self)@, old(mgr)@),
        ensures
            outcome_ok(final(self)@, final(mgr)@),
            final(self).pings() == old(self).pings(),
            (final(self)@, final(mgr)@, actions_view(r@)) == issue_cancel_spec(old(self)@, old(mgr)@, f@),
    {
        let mut acts: Vec<Action> = Vec::new();
        push_action(&mut acts, Action::Send(ClientMsg::Cancel { file: f.clone() }));
        let rest = self.base.on_cancel(mgr, f, false);
        append_actions(&mut acts, &rest);
        assert(actions_view(acts@) =~= issue_cancel_spec(old(self)@, old(mgr)@, f@).2);
        acts
    }

    pub fn on_req(&mut self, mgr: &mut TransferManager, req: &ClientReq) -> (r: Vec<Action>)
        requires
            outcome_ok(old(self)@, old(mgr)@),
        ensures
            outcome_ok(final(self)@, final(mgr)@),
            final(self).pings() == old(self).pings(),
            (final(self)@, final(mgr)@, actions_view(r@)) == match *req {
                ClientReq::Cancel { file } => issue_cancel_spec(old(self)@, old(mgr)@, file@),
            },
    {
        match req {
            ClientReq::Cancel { file } => self.issue_cancel(mgr, file),
        }
    }

    /// Dispatches one message from the receiver.
    pub fn on_server_msg(&mut self, mgr: &mut TransferManager, msg: &V2ServerMsg) -> (r: Vec<Action>)
        requires
            outcome_ok(old(self)@, old(mgr)@),
        ensures
            outcome_ok(final(self)@, final(mgr)@),
            final(self).pings() == old(self).pings(),
            (final(self)@, final(mgr)@, actions_view(r@)) == on_server_msg_v2_spec(old(self)@, old(mgr)@, *msg),
    {
        match msg {
            V2ServerMsg::Progress { file, bytes_transfered } => self.on_progress(mgr, file, *bytes_transfered),
            V2ServerMsg::Done { file, .. } => self.on_done(mgr, file),
            V2ServerMsg::Error { file, msg } => self.on_error(mgr, file, msg),
            V2ServerMsg::Start { file } => self.on_download(mgr, file),
            V2ServerMsg::Cancel { file } => self.on_cancel(mgr, file, true),
        }
    }

    /// The loop failed: the whole transfer is reported failed.
    pub fn finalize_failure(&self, err: Error) -> (r: Vec<Action>)
        ensures
            actions_view(r@) == seq![ActionView::TransferFailed { error: err }],
    {
        let mut acts: Vec<Action> = Vec::new();
        push_action(&mut acts, Action::TransferFailed { error: err });
        assert(actions_view(acts@) =~= seq![ActionView::TransferFailed { error: err }]);
        acts
    }

    /// Time left before the session counts as idle; none without pings.
    pub fn recv_timeout(&self, last_recv_elapsed_ms: u64) -> (r: Option<u64>)
        ensures
            r == if self.pings() {
                Some(if last_recv_elapsed_ms >= self@.idle_lifetime_ms { 0 } else { (self@.idle_lifetime_ms - last_recv_elapsed_ms) as u64 })
            } else {
                None::<u64>
            },
    {
        if self.ping {
            Some(self.base.recv_timeout(last_recv_elapsed_ms))
        } else {
            None
        }
    }
}

/// Opening of a v2 session; `ping` tells whether liveness pings are sent.
pub struct HandlerInit {
    pub idle_lifetime_ms: u64,
    pub ping: bool,
}

impl HandlerInit {
    pub fn new(config: &DropConfig, ping: bool) -> (r: Self)
        ensures
            r.idle_lifetime_ms == config.transfer_idle_lifetime_ms,
            r.ping == ping,
    {
        HandlerInit { idle_lifetime_ms: config.transfer_idle_lifetime_ms, ping }
    }

    /// The first message of the session: the transfer request.
    pub fn start(&self, xfer: &TransferInfo) -> (r: ClientMsg)
        ensures
            r@ == (ClientMsgView::TransferRequest {
                id: xfer.id@,
                files: xfer.files@.map_values(|p: TransferPath| (p.id@, p.path@, p.size as u64)),
            }),
    {
        crate::protocol::transfer_request(xfer)
    }

    pub fn upgrade(self, xfer: String) -> (r: HandlerLoop)
        ensures
            r@ == (LoopView { xfer: xfer@, idle_lifetime_ms: self.idle_lifetime_ms, tasks: Seq::empty() }),
            r.pings() == self.ping,
            loop_wf(r@),
    {
        HandlerLoop::new(xfer, self.idle_lifetime_ms, self.ping)
    }

    /// Interval between liveness pings, if any are sent.
    pub fn pinger(&self) -> (r: Option<u64>)
        ensures
            r == if self.ping { Some((self.idle_lifetime_ms / 2) as u64) } else { None::<u64> },
    {
        if self.ping {
            Some(self.idle_lifetime_ms / 2)
        } else {
            None
        }
    }
}

} // verus!
