//! The engine instance: the live registry and the ledger under one roof,
//! so that each state change is both applied and recorded.
use vstd::prelude::*;
use crate::config::DropConfig;
use crate::error::{status_code_of, Error};
use crate::events::{is_terminal, FileEvent};
use crate::ledger::{
    append_outcome, has_entry, kept, ledger_wf, new_entry, transfers_view, history_since, EntryView, KindView, Ledger, Record,
    RecordKind, RecordView,
};
use crate::manager::{
    cancelled_registry, file_bytes, has_transfer, insert_result, live_files_of, pending_files, registry_wf,
    start_outcome, terminal_outcome, transfer_index, FileTerminalState, TransferManager, TransferView,
};
use crate::protocol::{actions_view, emitted, push_action, push_emitted, Action, ActionView};
use crate::client_v2;
use crate::client_v5;
use crate::storage::{Transfer, TransferInfo, TransferType};

verus! {

/// An engine instance.
#[allow(non_camel_case_types)]
pub struct norddrop {
    pub manager: TransferManager,
    pub ledger: Ledger,
    pub config: DropConfig,
}

pub open spec fn device_wf(d: norddrop) -> bool {
    registry_wf(d.manager@) && ledger_wf(d.ledger@)
}

/// Whether a transfer is taken on: within the limits, new to the ledger
/// and to the registry.
pub open spec fn acceptance(cfg: DropConfig, m: Seq<TransferView>, l: Seq<EntryView>, info: TransferInfo, depth: usize) -> Result<(), Error> {
    if depth > cfg.dir_depth_limit {
        Err(Error::DirectoryTooDeep)
    } else if info.files@.len() > cfg.transfer_file_limit {
        Err(Error::TooManyFiles)
    } else if has_entry(l, info.id@) {
        Err(Error::TransferAlreadyExists)
    } else {
        insert_result(m, info)
    }
}

/// The record that persists a terminal transition.
pub open spec fn terminal_record(x: Seq<char>, f: Seq<char>, t: FileTerminalState, bytes: i64, final_path: Seq<char>, now: i64) -> RecordView {
    RecordView {
        transfer_id: x,
        created_at: now,
        kind: match t {
            FileTerminalState::Completed => KindView::FileCompleted { file_id: f, final_path },
            FileTerminalState::Cancelled { by_peer } => KindView::FileCanceled { file_id: f, by_peer, bytes },
            FileTerminalState::Rejected { by_peer } => KindView::FileCanceled { file_id: f, by_peer, bytes },
            FileTerminalState::Failed(e) => KindView::FileFailed { file_id: f, status_code: status_code_of(e), bytes },
        },
    }
}

/// The registry and ledger after a terminal transition, and its outcome.
pub open spec fn commit_outcome(
    m: Seq<TransferView>,
    l: Seq<EntryView>,
    tt: TransferType,
    x: Seq<char>,
    f: Seq<char>,
    t: FileTerminalState,
    bytes: i64,
    final_path: Seq<char>,
    now: i64,
) -> (Seq<TransferView>, Seq<EntryView>, Result<Option<FileEvent>, Error>) {
    let (m1, r) = terminal_outcome(m, tt, x, f, t);
    let l1 = if told_terminal(r) { append_outcome(l, terminal_record(x, f, t, bytes, final_path, now)).0 } else { l };
    (m1, l1, r)
}

/// Cancelling the first `n` of `ids`, each through the latch and recorded
/// at the bytes it had reached; the events told, in order.
pub open spec fn cancel_commits(
    m: Seq<TransferView>,
    l: Seq<EntryView>,
    tt: TransferType,
    x: Seq<char>,
    ids: Seq<Seq<char>>,
    by_peer: bool,
    now: i64,
    n: int,
) -> (Seq<TransferView>, Seq<EntryView>, Seq<ActionView>)
    decreases n,
{
    if n <= 0 {
        (m, l, Seq::empty())
    } else {
        let (m1, l1, a1) = cancel_commits(m, l, tt, x, ids, by_peer, now, n - 1);
        let f = ids[n - 1];
        let (m2, l2, r) = commit_outcome(m1, l1, tt, x, f, FileTerminalState::Cancelled { by_peer }, file_bytes(m1, tt, x, f), Seq::empty(), now);
        (m2, l2, a1 + emitted(f, r))
    }
}

/// The record that persists a terminal event told about an outgoing file.
pub open spec fn event_record(x: Seq<char>, f: Seq<char>, ev: FileEvent, bytes: i64, now: i64) -> RecordView {
    RecordView {
        transfer_id: x,
        created_at: now,
        kind: match ev {
            FileEvent::Cancelled { by_peer } => KindView::FileCanceled { file_id: f, by_peer, bytes },
            FileEvent::Rejected { by_peer } => KindView::FileCanceled { file_id: f, by_peer, bytes },
            FileEvent::Failed(e) => KindView::FileFailed { file_id: f, status_code: status_code_of(e), bytes },
            _ => KindView::FileCompleted { file_id: f, final_path: Seq::empty() },
        },
    }
}

/// The ledger after recording each terminal event among the first `n`
/// actions, at the bytes each file had reached in registry `m`.
pub open spec fn record_all(m: Seq<TransferView>, l: Seq<EntryView>, tt: TransferType, x: Seq<char>, acts: Seq<ActionView>, now: i64, n: int) -> Seq<EntryView>
    decreases n,
{
    if n <= 0 {
        l
    } else {
        let l1 = record_all(m, l, tt, x, acts, now, n - 1);
        match acts[n - 1] {
            ActionView::Emit { file, event, .. } => if is_terminal(event) {
                append_outcome(l1, event_record(x, file, event, file_bytes(m, tt, x, file), now)).0
            } else {
                l1
            },
            _ => l1,
        }
    }
}

pub open spec fn told_terminal(r: Result<Option<FileEvent>, Error>) -> bool {
    match r {
        Ok(Some(ev)) => is_terminal(ev),
        _ => false,
    }
}

impl norddrop {
    pub fn new(config: DropConfig) -> (r: Self)
        ensures
            device_wf(r),
            r.manager@ == Seq::<TransferView>::empty(),
            r.ledger@ == Seq::<EntryView>::empty(),
            r.config == config,
    {
        norddrop { manager: TransferManager::new(), ledger: Ledger::new(), config }
    }

    fn register(&mut self, tt: TransferType, info: &TransferInfo, depth: usize, now: i64) -> (r: Result<(), Error>)
        requires
            device_wf(*old(self)),
        ensures
            device_wf(*final(self)),
            final(self).config == old(self).config,
            r == acceptance(old(self).config, old(self).manager@, old(self).ledger@, *info, depth),
            r is Ok ==> final(self).manager@ == old(self).manager@.push(TransferView {
                id: info.id@,
                peer: info.peer@,
                transfer_type: tt,
                files: pending_files(*info),
                cancelled: false,
            }) && final(self).ledger@ == old(self).ledger@.push(new_entry(*info, tt, now)),
            r is Err ==> final(self).manager@ == old(self).manager@ && final(self).ledger@ == old(self).ledger@,
    {
        if depth > self.config.dir_depth_limit {
            return Err(Error::DirectoryTooDeep);
        }
        if info.files.len() > self.config.transfer_file_limit {
            return Err(Error::TooManyFiles);
        }
        if self.ledger.contains(&info.id) {
            return Err(Error::TransferAlreadyExists);
        }
        self.manager.insert_transfer(tt, info)?;
        let r = self.ledger.insert_transfer(info, tt, now);
        assert(r is Ok) by {
            let pv = info.files@.map_values(|p: crate::storage::TransferPath| crate::ledger::path_view(p));
            assert forall|i: int, j: int| 0 <= i < j < pv.len() implies pv[i].0 != pv[j].0 by {
                assert(pv[i].0 == info.files@[i].id@);
                assert(pv[j].0 == info.files@[j].id@);
            }
        }
        Ok(())
    }

    /// Starts an outgoing transfer: refused beyond the depth or file-count
    /// limit, for a known identifier, or for a malformed file list; nothing
    /// is registered or recorded then.
    pub fn new_transfer(&mut self, info: &TransferInfo, depth: usize, now: i64) -> (r: Result<(), Error>)
        requires
            device_wf(*old(self)),
        ensures
            device_wf(*final(self)),
            final(self).config == old(self).config,
            r == acceptance(old(self).config, old(self).manager@, old(self).ledger@, *info, depth),
            r is Ok ==> final(self).manager@ == old(self).manager@.push(TransferView {
                id: info.id@,
                peer: info.peer@,
                transfer_type: TransferType::Outgoing,
                files: pending_files(*info),
                cancelled: false,
            }) && final(self).ledger@ == old(self).ledger@.push(new_entry(*info, TransferType::Outgoing, now)),
            r is Err ==> final(self).manager@ == old(self).manager@ && final(self).ledger@ == old(self).ledger@,
    {
        self.register(TransferType::Outgoing, info, depth, now)
    }

    /// Admits a transfer offered by a peer, under the same checks.
    pub fn accept_incoming(&mut self, info: &TransferInfo, depth: usize, now: i64) -> (r: Result<(), Error>)
        requires
            device_wf(*old(self)),
        ensures
            device_wf(*final(self)),
            final(self).config == old(self).config,
            r == acceptance(old(self).config, old(self).manager@, old(self).ledger@, *info, depth),
            r is Ok ==> final(self).manager@ == old(self).manager@.push(TransferView {
                id: info.id@,
                peer: info.peer@,
                transfer_type: TransferType::Incoming,
                files: pending_files(*info),
                cancelled: false,
            }) && final(self).ledger@ == old(self).ledger@.push(new_entry(*info, TransferType::Incoming, now)),
            r is Err ==> final(self).manager@ == old(self).manager@ && final(self).ledger@ == old(self).ledger@,
    {
        self.register(TransferType::Incoming, info, depth, now)
    }

    /// Starts (or resumes) a file from `bytes`, and records the start.
    pub fn start_file(&mut self, tt: TransferType, xfer: &String, file: &String, bytes: i64, now: i64) -> (r: Result<bool, Error>)
        requires
            device_wf(*old(self)),
        ensures
            device_wf(*final(self)),
            final(self).config == old(self).config,
            (final(self).manager@, r) == start_outcome(old(self).manager@, tt, xfer@, file@),
            final(self).ledger@ == if r is Ok {
                append_outcome(old(self).ledger@, RecordView {
                    transfer_id: xfer@,
                    created_at: now,
                    kind: KindView::FileStarted { file_id: file@, bytes },
                }).0
            } else {
                old(self).ledger@
            },
    {
        let r = self.manager.start_file(tt, xfer, file);
        if r.is_ok() {
            let _ = self.ledger.append(Record {
                transfer_id: xfer.clone(),
                created_at: now,
                kind: RecordKind::FileStarted { file_id: file.clone(), bytes },
            });
        }
        r
    }

    /// A terminal transition of a file: the registry's latch decides, and
    /// the ledger records the transition exactly when the application is
    /// told of it.
    pub fn commit_terminal(
        &mut self,
        tt: TransferType,
        xfer: &String,
        file: &String,
        t: FileTerminalState,
        bytes: i64,
        final_path: &String,
        now: i64,
    ) -> (r: Result<Option<FileEvent>, Error>)
        requires
            device_wf(*old(self)),
        ensures
            device_wf(*final(self)),
            final(self).config == old(self).config,
            (final(self).manager@, final(self).ledger@, r)
                == commit_outcome(old(self).manager@, old(self).ledger@, tt, xfer@, file@, t, bytes, final_path@, now),
    {
        let r = self.manager.terminal_recv(tt, xfer, file, t);
        let told = match &r {
            Ok(Some(ev)) => ev.is_terminal(),
            _ => false,
        };
        if told {
            let kind = match t {
                FileTerminalState::Completed => RecordKind::FileCompleted { file_id: file.clone(), final_path: final_path.clone() },
                FileTerminalState::Cancelled { by_peer } => RecordKind::FileCanceled { file_id: file.clone(), by_peer, bytes },
                FileTerminalState::Rejected { by_peer } => RecordKind::FileCanceled { file_id: file.clone(), by_peer, bytes },
                FileTerminalState::Failed(e) => RecordKind::FileFailed { file_id: file.clone(), status_code: e.status_code(), bytes },
            };
            let _ = self.ledger.append(Record { transfer_id: xfer.clone(), created_at: now, kind });
        }
        r
    }

    /// Cancels a whole transfer: each file not yet terminal is cancelled
    /// through the latch and recorded, then the transfer-level cancellation
    /// is recorded; the events come in that order, the transfer's last.
    pub fn cancel_transfer(&mut self, xfer: &String, by_peer: bool, now: i64) -> (r: Result<Vec<Action>, Error>)
        requires
            device_wf(*old(self)),
        ensures
            device_wf(*final(self)),
            final(self).config == old(self).config,
            !has_transfer(old(self).manager@, xfer@) ==> r == Err::<Vec<Action>, Error>(Error::BadTransfer)
                && final(self).manager@ == old(self).manager@ && final(self).ledger@ == old(self).ledger@,
            has_transfer(old(self).manager@, xfer@) ==> {
                let m = old(self).manager@;
                let tt = m[transfer_index(m, xfer@)].transfer_type;
                let ids = live_files_of(m, xfer@);
                let (m1, l1, a1) = cancel_commits(cancelled_registry(m, xfer@), old(self).ledger@, tt, xfer@, ids, by_peer, now, ids.len() as int);
                &&& r is Ok
                &&& actions_view(r->Ok_0@) == a1.push(ActionView::TransferCanceled { by_peer })
                &&& final(self).manager@ == m1
                &&& final(self).ledger@ == append_outcome(l1, RecordView {
                    transfer_id: xfer@,
                    created_at: now,
                    kind: KindView::Canceled { by_peer },
                }).0
            },
    {
        let tt = match self.manager.transfer_type(xfer) {
            None => return Err(Error::BadTransfer),
            Some(tt) => tt,
        };
        let ghost m0 = self.manager@;
        let ghost l0 = self.ledger@;
        let ghost idv = live_files_of(m0, xfer@);
        let ids = self.manager.cancel_transfer(xfer)?;
        let ghost mc = self.manager@;
        assert(mc == cancelled_registry(m0, xfer@));
        let mut acts: Vec<Action> = Vec::new();
        assert(actions_view(acts@) =~= Seq::<ActionView>::empty());
        let empty = String::new();
        let mut k: usize = 0;
        while k < ids.len()
            invariant
                k <= ids@.len(),
                ids@.map_values(|s: String| s@) == idv,
                device_wf(*self),
                self.config == old(self).config,
                empty@ == Seq::<char>::empty(),
                (self.manager@, self.ledger@, actions_view(acts@)) == cancel_commits(mc, l0, tt, xfer@, idv, by_peer, now, k as int),
            decreases ids.len() - k,
        {
            assert(idv[k as int] == ids@[k as int]@);
            let bytes = self.manager.file_bytes(tt, xfer, &ids[k]);
            let r = self.commit_terminal(tt, xfer, &ids[k], FileTerminalState::Cancelled { by_peer }, bytes, &empty, now);
            push_emitted(&mut acts, &ids[k], r);
            k += 1;
        }
        let _ = self.ledger.append(Record { transfer_id: xfer.clone(), created_at: now, kind: RecordKind::Canceled { by_peer } });
        push_action(&mut acts, Action::TransferCanceled { by_peer });
        Ok(acts)
    }

    /// Records in the ledger each terminal event among a loop's actions.
    pub fn record_emitted(&mut self, tt: TransferType, xfer: &String, acts: &Vec<Action>, now: i64)
        requires
            device_wf(*old(self)),
        ensures
            device_wf(*final(self)),
            final(self).config == old(self).config,
            final(self).manager@ == old(self).manager@,
            final(self).ledger@ == record_all(old(self).manager@, old(self).ledger@, tt, xfer@, actions_view(acts@), now, acts@.len() as int),
    {
        let ghost l0 = self.ledger@;
        let ghost av = actions_view(acts@);
        let mut k: usize = 0;
        while k < acts.len()
            invariant
                k <= acts@.len(),
                av == actions_view(acts@),
                device_wf(*self),
                self.config == old(self).config,
                self.manager@ == old(self).manager@,
                self.ledger@ == record_all(old(self).manager@, l0, tt, xfer@, av, now, k as int),
            decreases acts.len() - k,
        {
            assert(av[k as int] == acts@[k as int]@);
            if let Action::Emit { file, event, .. } = &acts[k] {
                if event.is_terminal() {
                    let bytes = self.manager.file_bytes(tt, xfer, file);
                    let kind = match event {
                        FileEvent::Cancelled { by_peer } => RecordKind::FileCanceled { file_id: file.clone(), by_peer: *by_peer, bytes },
                        FileEvent::Rejected { by_peer } => RecordKind::FileCanceled { file_id: file.clone(), by_peer: *by_peer, bytes },
                        FileEvent::Failed(e) => RecordKind::FileFailed { file_id: file.clone(), status_code: e.status_code(), bytes },
                        _ => RecordKind::FileCompleted { file_id: file.clone(), final_path: String::new() },
                    };
                    let _ = self.ledger.append(Record { transfer_id: xfer.clone(), created_at: now, kind });
                }
            }
            k += 1;
        }
    }

    /// Runs a v5 loop's handler for one message from the receiver and
    /// records the terminal events it tells.
    pub fn v5_on_server_msg(&mut self, l: &mut client_v5::HandlerLoop, msg: &crate::protocol::ServerMsg, now: i64) -> (r: Vec<Action>)
        requires
            device_wf(*old(self)),
            client_v5::loop_wf(old(l)@),
        ensures
            device_wf(*final(self)),
            client_v5::loop_wf(final(l)@),
            final(self).config == old(self).config,
            ({
                let (l1, m1, a1) = client_v5::on_server_msg_spec(old(l)@, old(self).manager@, *msg);
                &&& final(l)@ == l1
                &&& final(self).manager@ == m1
                &&& actions_view(r@) == a1
                &&& final(self).ledger@ == record_all(m1, old(self).ledger@, TransferType::Outgoing, old(l)@.xfer, a1, now, a1.len() as int)
            }),
    {
        let acts = l.on_server_msg(&mut self.manager, msg);
        let x = l.xfer_id().clone();
        self.record_emitted(TransferType::Outgoing, &x, &acts, now);
        acts
    }

    /// Runs a v5 loop's close and records the terminal events it tells.
    pub fn v5_on_close(&mut self, l: &mut client_v5::HandlerLoop, by_peer: bool, now: i64) -> (r: Vec<Action>)
        requires
            device_wf(*old(self)),
            client_v5::loop_wf(old(l)@),
        ensures
            device_wf(*final(self)),
            client_v5::loop_wf(final(l)@),
            final(self).config == old(self).config,
            ({
                let (l1, m1, a1) = client_v5::on_close_spec(old(l)@, old(self).manager@, by_peer);
                &&& final(l)@ == l1
                &&& final(self).manager@ == m1
                &&& actions_view(r@) == a1
                &&& final(self).ledger@ == record_all(m1, old(self).ledger@, TransferType::Outgoing, old(l)@.xfer, a1, now, a1.len() as int)
            }),
    {
        let acts = l.on_close(&mut self.manager, by_peer);
        let x = l.xfer_id().clone();
        self.record_emitted(TransferType::Outgoing, &x, &acts, now);
        acts
    }

    /// Runs a v2 loop's handler for one message from the receiver and
    /// records the terminal events it tells.
    pub fn v2_on_server_msg(&mut self, l: &mut client_v2::HandlerLoop, msg: &client_v2::V2ServerMsg, now: i64) -> (r: Vec<Action>)
        requires
            device_wf(*old(self)),
            client_v5::loop_wf(old(l)@),
        ensures
            device_wf(*final(self)),
            client_v5::loop_wf(final(l)@),
            final(self).config == old(self).config,
            ({
                let (l1, m1, a1) = client_v2::on_server_msg_v2_spec(old(l)@, old(self).manager@, *msg);
                &&& final(l)@ == l1
                &&& final(self).manager@ == m1
                &&& actions_view(r@) == a1
                &&& final(self).ledger@ == record_all(m1, old(self).ledger@, TransferType::Outgoing, old(l)@.xfer, a1, now, a1.len() as int)
            }),
    {
        let x = l.xfer_id().clone();
        let acts = l.on_server_msg(&mut self.manager, msg);
        self.record_emitted(TransferType::Outgoing, &x, &acts, now);
        acts
    }

    /// Runs a v2 loop's close and records the terminal events it tells.
    pub fn v2_on_close(&mut self, l: &mut client_v2::HandlerLoop, by_peer: bool, now: i64) -> (r: Vec<Action>)
        requires
            device_wf(*old(self)),
            client_v5::loop_wf(old(l)@),
        ensures
            device_wf(*final(self)),
            client_v5::loop_wf(final(l)@),
            final(self).config == old(self).config,
            ({
                let (l1, m1, a1) = client_v2::on_close_v2_spec(old(l)@, old(self).manager@, by_peer);
                &&& final(l)@ == l1
                &&& final(self).manager@ == m1
                &&& actions_view(r@) == a1
                &&& final(self).ledger@ == record_all(m1, old(self).ledger@, TransferType::Outgoing, old(l)@.xfer, a1, now, a1.len() as int)
            }),
    {
        let x = l.xfer_id().clone();
        let acts = l.on_close(&mut self.manager, by_peer);
        self.record_emitted(TransferType::Outgoing, &x, &acts, now);
        acts
    }

    /// Every recorded transfer created at or after `ts`, with its history.
    pub fn transfers_since(&self, ts: i64) -> (r: Vec<Transfer>)
        ensures
            transfers_view(r@) == history_since(self.ledger@, ts, self.ledger@.len() as int),
    {
        self.ledger.transfers_since(ts)
    }

    /// Deletes the recorded transfers named by a JSON array of identifiers.
    pub fn purge_transfers(&mut self, txids: &str) -> (r: Result<(), Error>)
        requires
            device_wf(*old(self)),
        ensures
            device_wf(*final(self)),
            final(self).config == old(self).config,
            final(self).manager@ == old(self).manager@,
            match crate::json::json_string_list(txids@) {
                None => r == Err::<(), Error>(Error::BadInput) && final(self).ledger@ == old(self).ledger@,
                Some(ids) => r is Ok && final(self).ledger@ == kept(old(self).ledger@, ids, None, old(self).ledger@.len() as int),
            },
    {
        self.ledger.purge_transfers(txids)
    }

    /// Deletes the recorded transfers created strictly before `ts`.
    pub fn purge_transfers_until(&mut self, ts: i64)
        requires
            device_wf(*old(self)),
        ensures
            device_wf(*final(self)),
            final(self).config == old(self).config,
            final(self).manager@ == old(self).manager@,
            final(self).ledger@ == kept(old(self).ledger@, Seq::empty(), Some(ts), old(self).ledger@.len() as int),
    {
        self.ledger.purge_until(ts)
    }
}

} // verus!
