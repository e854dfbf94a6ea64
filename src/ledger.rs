//! The persistent ledger, as an append-only log per transfer. Each record is
//! accepted only where it fits the file state machine, so a log read back
//! never holds a completion before a start or two terminal records.
use vstd::prelude::*;
use crate::error::Error;
use crate::storage::{
    DbTransferType, IncomingPath, IncomingPathCancelState, IncomingPathCompletedState,
    IncomingPathFailedState, IncomingPathPendingState, IncomingPathStartedState, OutgoingPath,
    OutgoingPathCancelState, OutgoingPathCompletedState, OutgoingPathFailedState,
    OutgoingPathPendingState, OutgoingPathStartedState, Transfer, TransferActiveState,
    TransferCancelState, TransferFailedState, TransferInfo, TransferPath, TransferType,
};

verus! {

/// A state change recorded after a transfer was created.
#[derive(Debug, Clone)]
pub enum RecordKind {
    Active,
    Canceled { by_peer: bool },
    Failed { status_code: u32 },
    FileStarted { file_id: String, bytes: i64 },
    FileCanceled { file_id: String, by_peer: bool, bytes: i64 },
    FileFailed { file_id: String, status_code: u32, bytes: i64 },
    FileCompleted { file_id: String, final_path: String },
}

#[derive(Debug, Clone)]
pub struct Record {
    pub transfer_id: String,
    pub created_at: i64,
    pub kind: RecordKind,
}

pub enum KindView {
    Active,
    Canceled { by_peer: bool },
    Failed { status_code: u32 },
    FileStarted { file_id: Seq<char>, bytes: i64 },
    FileCanceled { file_id: Seq<char>, by_peer: bool, bytes: i64 },
    FileFailed { file_id: Seq<char>, status_code: u32, bytes: i64 },
    FileCompleted { file_id: Seq<char>, final_path: Seq<char> },
}

pub struct RecordView {
    pub transfer_id: Seq<char>,
    pub created_at: i64,
    pub kind: KindView,
}

impl View for Record {
    type V = RecordView;

    open spec fn view(&self) -> RecordView {
        RecordView {
            transfer_id: self.transfer_id@,
            created_at: self.created_at,
            kind: match self.kind {
                RecordKind::Active => KindView::Active,
                RecordKind::Canceled { by_peer } => KindView::Canceled { by_peer },
                RecordKind::Failed { status_code } => KindView::Failed { status_code },
                RecordKind::FileStarted { file_id, bytes } => KindView::FileStarted { file_id: file_id@, bytes },
                RecordKind::FileCanceled { file_id, by_peer, bytes } => KindView::FileCanceled { file_id: file_id@, by_peer, bytes },
                RecordKind::FileFailed { file_id, status_code, bytes } => KindView::FileFailed { file_id: file_id@, status_code, bytes },
                RecordKind::FileCompleted { file_id, final_path } => KindView::FileCompleted { file_id: file_id@, final_path: final_path@ },
            },
        }
    }
}

/// The file a record is about, if any.
pub open spec fn kind_file(k: KindView) -> Option<Seq<char>> {
    match k {
        KindView::FileStarted { file_id, .. } => Some(file_id),
        KindView::FileCanceled { file_id, .. } => Some(file_id),
        KindView::FileFailed { file_id, .. } => Some(file_id),
        KindView::FileCompleted { file_id, .. } => Some(file_id),
        _ => None,
    }
}

pub open spec fn kind_is_file_terminal(k: KindView) -> bool {
    matches!(k, KindView::FileCanceled { .. } | KindView::FileFailed { .. } | KindView::FileCompleted { .. })
}

pub open spec fn kind_is_transfer_terminal(k: KindView) -> bool {
    matches!(k, KindView::Canceled { .. } | KindView::Failed { .. })
}

pub type PathView = (Seq<char>, Seq<char>, i64);

pub open spec fn path_view(p: TransferPath) -> PathView {
    (p.id@, p.path@, p.size)
}

/// One transfer of the ledger: its creation and the records that followed.
pub struct EntryView {
    pub id: Seq<char>,
    pub peer: Seq<char>,
    pub transfer_type: TransferType,
    pub created_at: i64,
    pub files: Seq<PathView>,
    pub records: Seq<RecordView>,
}

pub open spec fn transfer_ended(recs: Seq<RecordView>) -> bool {
    exists|i: int| 0 <= i < recs.len() && kind_is_transfer_terminal(#[trigger] recs[i].kind)
}

pub open spec fn file_ended(recs: Seq<RecordView>, f: Seq<char>) -> bool {
    exists|i: int| 0 <= i < recs.len() && kind_is_file_terminal(#[trigger] recs[i].kind) && kind_file(recs[i].kind) == Some(f)
}

pub open spec fn file_started(recs: Seq<RecordView>, f: Seq<char>) -> bool {
    exists|i: int| 0 <= i < recs.len() && (#[trigger] recs[i].kind) is FileStarted && kind_file(recs[i].kind) == Some(f)
}

pub open spec fn lists_file(files: Seq<PathView>, f: Seq<char>) -> bool {
    exists|i: int| 0 <= i < files.len() && (#[trigger] files[i]).0 == f
}

/// Whether a record may follow those of its transfer: nothing after a
/// transfer-level end, nothing after a file's terminal record, no completion
/// before a start, and only files that the transfer holds.
pub open spec fn accepts(e: EntryView, r: RecordView) -> bool {
    &&& r.transfer_id == e.id
    &&& !transfer_ended(e.records)
    &&& match kind_file(r.kind) {
        None => true,
        Some(f) => {
            &&& lists_file(e.files, f)
            &&& !file_ended(e.records, f)
            &&& (r.kind is FileCompleted ==> file_started(e.records, f))
        },
    }
}

pub open spec fn unique_paths(files: Seq<PathView>) -> bool {
    forall|i: int, j: int| 0 <= i < j < files.len() ==> files[i].0 != files[j].0
}

/// Each record of an entry was accepted by those before it.
pub open spec fn entry_wf(e: EntryView) -> bool {
    &&& unique_paths(e.files)
    &&& forall|i: int| 0 <= i < e.records.len() ==> accepts(EntryView { records: e.records.take(i), ..e }, #[trigger] e.records[i])
}

pub open spec fn has_entry(v: Seq<EntryView>, id: Seq<char>) -> bool {
    exists|i: int| 0 <= i < v.len() && v[i].id == id
}

pub open spec fn entry_index(v: Seq<EntryView>, id: Seq<char>) -> int {
    choose|i: int| 0 <= i < v.len() && v[i].id == id
}

pub open spec fn ledger_wf(v: Seq<EntryView>) -> bool {
    &&& forall|i: int, j: int| 0 <= i < v.len() && 0 <= j < v.len() && v[i].id == v[j].id ==> i == j
    &&& forall|i: int| 0 <= i < v.len() ==> entry_wf(#[trigger] v[i])
}

/// The outcome of recording a new transfer.
pub open spec fn create_result(v: Seq<EntryView>, info: TransferInfo) -> Result<(), Error> {
    if has_entry(v, info.id@) {
        Err(Error::TransferAlreadyExists)
    } else if !unique_paths(info.files@.map_values(|p: TransferPath| path_view(p))) {
        Err(Error::BadTransfer)
    } else {
        Ok(())
    }
}

pub open spec fn new_entry(info: TransferInfo, tt: TransferType, created_at: i64) -> EntryView {
    EntryView {
        id: info.id@,
        peer: info.peer@,
        transfer_type: tt,
        created_at,
        files: info.files@.map_values(|p: TransferPath| path_view(p)),
        records: Seq::empty(),
    }
}

/// The ledger after a record, and the outcome.
pub open spec fn append_outcome(v: Seq<EntryView>, r: RecordView) -> (Seq<EntryView>, Result<(), Error>) {
    if !has_entry(v, r.transfer_id) {
        (v, Err(Error::BadTransfer))
    } else {
        let i = entry_index(v, r.transfer_id);
        if accepts(v[i], r) {
            (v.update(i, EntryView { records: v[i].records.push(r), ..v[i] }), Ok(()))
        } else {
            (v, Err(Error::BadTransferState))
        }
    }
}

pub struct TransferEntry {
    pub info: TransferInfo,
    pub transfer_type: TransferType,
    pub created_at: i64,
    pub records: Vec<Record>,
}

impl View for TransferEntry {
    type V = EntryView;

    open spec fn view(&self) -> EntryView {
        EntryView {
            id: self.info.id@,
            peer: self.info.peer@,
            transfer_type: self.transfer_type,
            created_at: self.created_at,
            files: self.info.files@.map_values(|p: TransferPath| path_view(p)),
            records: self.records@.map_values(|r: Record| r@),
        }
    }
}

/// The transfer history store.
pub struct Ledger {
    entries: Vec<TransferEntry>,
}

impl View for Ledger {
    type V = Seq<EntryView>;

    closed spec fn view(&self) -> Seq<EntryView> {
        self.entries@.map_values(|e: TransferEntry| e@)
    }
}

impl Ledger {
    pub fn new() -> (r: Self)
        ensures
            r@ == Seq::<EntryView>::empty(),
            ledger_wf(r@),
    {
        let r = Ledger { entries: Vec::new() };
        assert(r@ =~= Seq::<EntryView>::empty());
        r
    }

    pub fn len(&self) -> (r: usize)
        ensures
            r == self@.len(),
    {
        self.entries.len()
    }

    /// Whether a transfer of that identifier is recorded.
    pub fn contains(&self, id: &String) -> (r: bool)
        requires
            ledger_wf(self@),
        ensures
            r == has_entry(self@, id@),
    {
        self.find(id).is_some()
    }

    fn find(&self, id: &String) -> (r: Option<usize>)
        requires
            ledger_wf(self@),
        ensures
            match r {
                Some(i) => has_entry(self@, id@) && i == entry_index(self@, id@) && i < self@.len(),
                None => !has_entry(self@, id@),
            },
    {
        let mut i: usize = 0;
        while i < self.entries.len()
            invariant
                i <= self.entries.len(),
                ledger_wf(self@),
                forall|k: int| 0 <= k < i ==> self@[k].id != id@,
            decreases self.entries.len() - i,
        {
            if self.entries[i].info.id.eq(id) {
                assert(self@[i as int].id == id@);
                assert(has_entry(self@, id@));
                let ghost j = entry_index(self@, id@);
                assert(self@[j].id == id@);
                return Some(i);
            }
            i += 1;
        }
        None
    }

    /// Records a new transfer.
    pub fn insert_transfer(&mut self, info: &TransferInfo, tt: TransferType, created_at: i64) -> (r: Result<(), Error>)
        requires
            ledger_wf(old(self)@),
        ensures
            ledger_wf(final(self)@),
            r == create_result(old(self)@, *info),
            r is Ok ==> final(self)@ == old(self)@.push(new_entry(*info, tt, created_at)),
            r is Err ==> final(self)@ == old(self)@,
    {
        if self.find(&info.id).is_some() {
            return Err(Error::TransferAlreadyExists);
        }
        let ghost pv = info.files@.map_values(|p: TransferPath| path_view(p));
        let n = info.files.len();
        let mut j: usize = 0;
        while j < n
            invariant
                n == info.files@.len(),
                pv.len() == n,
                pv == info.files@.map_values(|p: TransferPath| path_view(p)),
                j <= n,
                ledger_wf(self@),
                !has_entry(self@, info.id@),
                forall|a: int, b: int| 0 <= a < b < j ==> pv[a].0 != pv[b].0,
            decreases n - j,
        {
            let mut k: usize = 0;
            while k < j
                invariant
                    n == info.files@.len(),
                    pv == info.files@.map_values(|p: TransferPath| path_view(p)),
                    k <= j < n,
                    ledger_wf(self@),
                    !has_entry(self@, info.id@),
                    forall|a: int| 0 <= a < k ==> pv[a].0 != pv[j as int].0,
                decreases j - k,
            {
                if info.files[k].id.eq(&info.files[j].id) {
                    assert(pv[k as int].0 == pv[j as int].0);
                    return Err(Error::BadTransfer);
                }
                k += 1;
            }
            j += 1;
        }
        let e = TransferEntry { info: info.clone_info(), transfer_type: tt, created_at, records: Vec::new() };
        assert(e@.records =~= Seq::<RecordView>::empty());
        assert(e@ == new_entry(*info, tt, created_at));
        let ghost old_v = self@;
        self.entries.push(e);
        assert(self@ =~= old_v.push(new_entry(*info, tt, created_at)));
        Ok(())
    }

    /// Appends a record to its transfer's log if it fits the state machine.
    pub fn append(&mut self, rec: Record) -> (r: Result<(), Error>)
        requires
            ledger_wf(old(self)@),
        ensures
            ledger_wf(final(self)@),
            (final(self)@, r) == append_outcome(old(self)@, rec@),
    {
        let i = match self.find(&rec.transfer_id) {
            None => return Err(Error::BadTransfer),
            Some(i) => i,
        };
        if !self.entries[i].accepts(&rec) {
            return Err(Error::BadTransferState);
        }
        let ghost old_v = self@;
        let ghost rv = rec@;
        self.entries[i].records.push(rec);
        proof {
            let ne = EntryView { records: old_v[i as int].records.push(rv), ..old_v[i as int] };
            assert(self@[i as int].records =~= ne.records);
            assert(self@ =~= old_v.update(i as int, ne));
            assert forall|k: int| 0 <= k < ne.records.len() implies accepts(EntryView { records: ne.records.take(k), ..ne }, #[trigger] ne.records[k]) by {
                if k < old_v[i as int].records.len() {
                    assert(ne.records.take(k) =~= old_v[i as int].records.take(k));
                    assert(entry_wf(old_v[i as int]));
                } else {
                    assert(ne.records.take(k) =~= old_v[i as int].records);
                }
            }
        }
        Ok(())
    }
}

impl TransferInfo {
    pub fn clone_info(&self) -> (r: TransferInfo)
        ensures
            r.id@ == self.id@,
            r.peer@ == self.peer@,
            r.files@.map_values(|p: TransferPath| path_view(p)) == self.files@.map_values(|p: TransferPath| path_view(p)),
    {
        let mut files: Vec<TransferPath> = Vec::new();
        let mut k: usize = 0;
        while k < self.files.len()
            invariant
                k <= self.files@.len(),
                files@.len() == k,
                files@.map_values(|p: TransferPath| path_view(p)) == self.files@.map_values(|p: TransferPath| path_view(p)).take(k as int),
            decreases self.files.len() - k,
        {
            let p = &self.files[k];
            files.push(TransferPath { id: p.id.clone(), path: p.path.clone(), size: p.size });
            assert(files@.map_values(|p: TransferPath| path_view(p)) =~= self.files@.map_values(|p: TransferPath| path_view(p)).take(k + 1));
            k += 1;
        }
        assert(self.files@.map_values(|p: TransferPath| path_view(p)).take(self.files@.len() as int) =~= self.files@.map_values(|p: TransferPath| path_view(p)));
        TransferInfo { id: self.id.clone(), peer: self.peer.clone(), files }
    }
}

impl TransferEntry {
    fn transfer_ended(&self) -> (r: bool)
        ensures
            r == transfer_ended(self@.records),
    {
        let mut k: usize = 0;
        while k < self.records.len()
            invariant
                k <= self.records@.len(),
                forall|a: int| 0 <= a < k ==> !kind_is_transfer_terminal(#[trigger] self@.records[a].kind),
            decreases self.records.len() - k,
        {
            if matches!(self.records[k].kind, RecordKind::Canceled { .. } | RecordKind::Failed { .. }) {
                assert(kind_is_transfer_terminal(self@.records[k as int].kind));
                return true;
            }
            k += 1;
        }
        false
    }

    fn lists_file(&self, f: &String) -> (r: bool)
        ensures
            r == lists_file(self@.files, f@),
    {
        let mut k: usize = 0;
        while k < self.info.files.len()
            invariant
                k <= self.info.files@.len(),
                forall|a: int| 0 <= a < k ==> (#[trigger] self@.files[a]).0 != f@,
            decreases self.info.files.len() - k,
        {
            if self.info.files[k].id.eq(f) {
                assert(self@.files[k as int].0 == f@);
                return true;
            }
            k += 1;
        }
        false
    }

    /// Whether the file has a terminal record (`terminal`) or a start record.
    fn file_has(&self, f: &String, terminal: bool) -> (r: bool)
        ensures
            r == if terminal { file_ended(self@.records, f@) } else { file_started(self@.records, f@) },
    {
        let mut k: usize = 0;
        while k < self.records.len()
            invariant
                k <= self.records@.len(),
                forall|a: int| 0 <= a < k ==> !(if terminal { kind_is_file_terminal(#[trigger] self@.records[a].kind) } else { self@.records[a].kind is FileStarted }
                    && kind_file(self@.records[a].kind) == Some(f@)),
            decreases self.records.len() - k,
        {
            let hit = match &self.records[k].kind {
                RecordKind::FileStarted { file_id, .. } => !terminal && file_id.eq(f),
                RecordKind::FileCanceled { file_id, .. } => terminal && file_id.eq(f),
                RecordKind::FileFailed { file_id, .. } => terminal && file_id.eq(f),
                RecordKind::FileCompleted { file_id, .. } => terminal && file_id.eq(f),
                _ => false,
            };
            if hit {
                assert(self@.records[k as int].kind == self.records@[k as int]@.kind);
                return true;
            }
            k += 1;
        }
        false
    }

    fn accepts(&self, rec: &Record) -> (r: bool)
        ensures
            r == accepts(self@, rec@),
    {
        if !self.info.id.eq(&rec.transfer_id) || self.transfer_ended() {
            return false;
        }
        let (f, completed) = match &rec.kind {
            RecordKind::FileStarted { file_id, .. } => (file_id, false),
            RecordKind::FileCanceled { file_id, .. } => (file_id, false),
            RecordKind::FileFailed { file_id, .. } => (file_id, false),
            RecordKind::FileCompleted { file_id, .. } => (file_id, true),
            _ => return true,
        };
        if !self.lists_file(f) || self.file_has(f, true) {
            return false;
        }
        !completed || self.file_has(f, false)
    }
}

/// An entry of the ledger's event stream: a transfer's creation, or a
/// record that follows it.
#[derive(Debug, Clone)]
pub enum LedgerEvent {
    Created { info: TransferInfo, transfer_type: TransferType, created_at: i64 },
    Update(Record),
}

pub enum EventView {
    Created(EntryView),
    Update(RecordView),
}

impl View for LedgerEvent {
    type V = EventView;

    open spec fn view(&self) -> EventView {
        match self {
            LedgerEvent::Created { info, transfer_type, created_at } => EventView::Created(new_entry(*info, *transfer_type, *created_at)),
            LedgerEvent::Update(r) => EventView::Update(r@),
        }
    }
}

pub open spec fn apply_event(v: Seq<EntryView>, ev: EventView) -> Seq<EntryView> {
    match ev {
        EventView::Created(e) => if has_entry(v, e.id) || !unique_paths(e.files) {
            v
        } else {
            v.push(EntryView { records: Seq::empty(), ..e })
        },
        EventView::Update(r) => append_outcome(v, r).0,
    }
}

/// The ledger after a sequence of events, each applied in turn.
pub open spec fn apply_all(v: Seq<EntryView>, evs: Seq<EventView>) -> Seq<EntryView>
    decreases evs.len(),
{
    if evs.len() == 0 {
        v
    } else {
        apply_event(apply_all(v, evs.drop_last()), evs.last())
    }
}

pub open spec fn entry_events(e: EntryView) -> Seq<EventView> {
    seq![EventView::Created(EntryView { records: Seq::empty(), ..e })] + e.records.map_values(|r: RecordView| EventView::Update(r))
}

/// The ledger's content as an event stream: transfer by transfer, each
/// creation followed by its records.
pub open spec fn events_of(v: Seq<EntryView>) -> Seq<EventView>
    decreases v.len(),
{
    if v.len() == 0 {
        Seq::empty()
    } else {
        events_of(v.drop_last()) + entry_events(v.last())
    }
}

proof fn lemma_apply_all_concat(v: Seq<EntryView>, a: Seq<EventView>, b: Seq<EventView>)
    ensures
        apply_all(v, a + b) == apply_all(apply_all(v, a), b),
    decreases b.len(),
{
    if b.len() == 0 {
        assert(a + b =~= a);
    } else {
        assert((a + b).drop_last() =~= a + b.drop_last());
        lemma_apply_all_concat(v, a, b.drop_last());
    }
}

/// Applying the events of one well-formed entry to a ledger that lacks it
/// adds exactly that entry.
proof fn lemma_entry_replay(w: Seq<EntryView>, e: EntryView, k: int)
    requires
        ledger_wf(w.push(e)),
        0 <= k <= e.records.len(),
    ensures
        apply_all(w, entry_events(e).take(k + 1)) == w.push(EntryView { records: e.records.take(k), ..e }),
    decreases k,
{
    let v = w.push(e);
    assert(entry_wf(v[w.len() as int]));
    if k == 0 {
        let evs = entry_events(e).take(1);
        assert(evs.drop_last() =~= Seq::<EventView>::empty());
        if has_entry(w, e.id) {
            let i = choose|i: int| 0 <= i < w.len() && w[i].id == e.id;
            assert(v[i].id == v[w.len() as int].id);
        }
        assert(e.records.take(0) =~= Seq::<RecordView>::empty());
        assert(evs.last() == EventView::Created(EntryView { records: Seq::empty(), ..e }));
        assert(apply_all(w, evs.drop_last()) == w);
        assert(unique_paths(e.files));
        assert(apply_all(w, evs) == apply_event(w, evs.last()));
    } else {
        lemma_entry_replay(w, e, k - 1);
        let evs = entry_events(e).take(k + 1);
        assert(evs.drop_last() =~= entry_events(e).take(k));
        let prev = w.push(EntryView { records: e.records.take(k - 1), ..e });
        let r = e.records[k - 1];
        assert(evs.last() == EventView::Update(r));
        let n = w.len() as int;
        assert(prev[n].id == e.id);
        assert(has_entry(prev, r.transfer_id)) by {
            assert(accepts(EntryView { records: e.records.take(k - 1), ..e }, e.records[k - 1]));
        }
        let i = entry_index(prev, r.transfer_id);
        if i != n {
            assert(v[i].id == v[n].id);
        }
        assert(accepts(prev[n], r));
        assert(prev[n].records.push(r) =~= e.records.take(k));
        assert(prev.update(n, EntryView { records: prev[n].records.push(r), ..prev[n] })
            =~= w.push(EntryView { records: e.records.take(k), ..e }));
        assert(apply_all(w, evs.drop_last()) == prev);
        assert(apply_all(w, evs) == apply_event(prev, evs.last()));
    }
}

/// Replaying a ledger's own event stream into an empty ledger rebuilds it
/// exactly, and with it every history read from it.
pub proof fn lemma_replay_rebuilds(v: Seq<EntryView>)
    requires
        ledger_wf(v),
    ensures
        apply_all(Seq::empty(), events_of(v)) == v,
        history_since(apply_all(Seq::empty(), events_of(v)), 0, v.len() as int) == history_since(v, 0, v.len() as int),
    decreases v.len(),
{
    if v.len() > 0 {
        let w = v.drop_last();
        let e = v.last();
        assert(w.push(e) =~= v);
        assert(ledger_wf(w)) by {
            assert forall|i: int, j: int| 0 <= i < w.len() && 0 <= j < w.len() && w[i].id == w[j].id implies i == j by {
                assert(v[i] == w[i] && v[j] == w[j]);
            }
            assert forall|i: int| 0 <= i < w.len() implies entry_wf(#[trigger] w[i]) by {
                assert(v[i] == w[i]);
            }
        }
        lemma_replay_rebuilds(w);
        lemma_apply_all_concat(Seq::empty(), events_of(w), entry_events(e));
        lemma_entry_replay(w, e, e.records.len() as int);
        assert(entry_events(e).take(e.records.len() + 1 as int) =~= entry_events(e));
        assert(e.records.take(e.records.len() as int) =~= e.records);
    }
}

impl Record {
    pub fn clone_record(&self) -> (r: Record)
        ensures
            r@ == self@,
    {
        let kind = match &self.kind {
            RecordKind::Active => RecordKind::Active,
            RecordKind::Canceled { by_peer } => RecordKind::Canceled { by_peer: *by_peer },
            RecordKind::Failed { status_code } => RecordKind::Failed { status_code: *status_code },
            RecordKind::FileStarted { file_id, bytes } => RecordKind::FileStarted { file_id: file_id.clone(), bytes: *bytes },
            RecordKind::FileCanceled { file_id, by_peer, bytes } => RecordKind::FileCanceled { file_id: file_id.clone(), by_peer: *by_peer, bytes: *bytes },
            RecordKind::FileFailed { file_id, status_code, bytes } => RecordKind::FileFailed { file_id: file_id.clone(), status_code: *status_code, bytes: *bytes },
            RecordKind::FileCompleted { file_id, final_path } => RecordKind::FileCompleted { file_id: file_id.clone(), final_path: final_path.clone() },
        };
        Record { transfer_id: self.transfer_id.clone(), created_at: self.created_at, kind }
    }
}

pub open spec fn events_view(evs: Seq<LedgerEvent>) -> Seq<EventView> {
    evs.map_values(|e: LedgerEvent| e@)
}

impl Ledger {
    /// The ledger's content as an event stream.
    pub fn events(&self) -> (r: Vec<LedgerEvent>)
        ensures
            events_view(r@) == events_of(self@),
    {
        let mut out: Vec<LedgerEvent> = Vec::new();
        let mut i: usize = 0;
        while i < self.entries.len()
            invariant
                i <= self@.len(),
                self@.len() == self.entries@.len(),
                events_view(out@) == events_of(self@.take(i as int)),
            decreases self.entries.len() - i,
        {
            let e = &self.entries[i];
            let ghost ev = self@[i as int];
            assert(ev == e@);
            let ghost before = events_view(out@);
            out.push(LedgerEvent::Created { info: e.info.clone_info(), transfer_type: e.transfer_type, created_at: e.created_at });
            assert(ev.records.take(0) =~= Seq::<RecordView>::empty());
            assert(events_view(out@) =~= before + entry_events(ev).take(1));
            let mut k: usize = 0;
            while k < e.records.len()
                invariant
                    k <= e.records@.len(),
                    ev == e@,
                    events_view(out@) == before + entry_events(ev).take(k + 1),
                decreases e.records.len() - k,
            {
                let ghost prev_out = out@;
                let rc = e.records[k].clone_record();
                assert(rc@ == e.records@[k as int]@);
                out.push(LedgerEvent::Update(rc));
                assert(out@ == prev_out.push(LedgerEvent::Update(rc)));
                assert(ev.records.len() == e.records@.len());
                assert(ev.records[k as int] == e.records@[k as int]@);
                assert(events_view(out@) == events_view(prev_out).push(EventView::Update(ev.records[k as int])));
                assert(entry_events(ev)[k + 1] == EventView::Update(ev.records[k as int]));
                assert(events_view(out@) =~= before + entry_events(ev).take(k + 2));
                k += 1;
            }
            assert(entry_events(ev).take(e.records@.len() + 1 as int) =~= entry_events(ev));
            assert(self@.take(i + 1).drop_last() =~= self@.take(i as int));
            i += 1;
        }
        assert(self@.take(self@.len() as int) =~= self@);
        out
    }

    /// A ledger built by applying each event in turn; events that do not
    /// fit are skipped.
    pub fn replay(events: &Vec<LedgerEvent>) -> (r: Ledger)
        ensures
            ledger_wf(r@),
            r@ == apply_all(Seq::empty(), events_view(events@)),
    {
        let mut l = Ledger::new();
        let mut k: usize = 0;
        while k < events.len()
            invariant
                k <= events@.len(),
                ledger_wf(l@),
                l@ == apply_all(Seq::empty(), events_view(events@).take(k as int)),
            decreases events.len() - k,
        {
            let ghost before = l@;
            match &events[k] {
                LedgerEvent::Created { info, transfer_type, created_at } => {
                    let _ = l.insert_transfer(info, *transfer_type, *created_at);
                    assert(new_entry(*info, *transfer_type, *created_at).records =~= Seq::<RecordView>::empty());
                    assert(EntryView { records: Seq::empty(), ..new_entry(*info, *transfer_type, *created_at) } == new_entry(*info, *transfer_type, *created_at));
                },
                LedgerEvent::Update(r) => {
                    let _ = l.append(r.clone_record());
                },
            }
            assert(events_view(events@).take(k + 1).drop_last() =~= events_view(events@).take(k as int));
            k += 1;
        }
        assert(events_view(events@).take(events@.len() as int) =~= events_view(events@));
        l
    }
}

/// A file's history as read back: its states by kind, each in log order.
pub struct PathHistoryView {
    pub id: i64,
    pub transfer_id: Seq<char>,
    pub path: Seq<char>,
    pub bytes: i64,
    pub created_at: i64,
    pub pending: Seq<(i64, i64)>,
    pub started: Seq<(i64, i64, i64)>,
    pub cancel: Seq<(i64, i64, i64, i64)>,
    pub failed: Seq<(i64, i64, i64, i64)>,
    pub completed: Seq<(i64, Seq<char>, i64)>,
}

/// A transfer's history as read back.
pub struct HistoryView {
    pub id: Seq<char>,
    pub peer_id: Seq<char>,
    pub incoming: bool,
    pub created_at: i64,
    pub active: Seq<(Seq<char>, i64)>,
    pub cancel: Seq<(Seq<char>, i64, i64)>,
    pub failed: Seq<(Seq<char>, i64, i64)>,
    pub paths: Seq<PathHistoryView>,
}

pub open spec fn flag(b: bool) -> i64 {
    if b { 1 } else { 0 }
}

/// The start records of file `f` among the first `n`, tagged with path id `pid`.
pub open spec fn started_upto(recs: Seq<RecordView>, f: Seq<char>, pid: i64, n: int) -> Seq<(i64, i64, i64)>
    decreases n,
{
    if n <= 0 {
        Seq::empty()
    } else {
        let prev = started_upto(recs, f, pid, n - 1);
        let r = recs[n - 1];
        match r.kind {
            KindView::FileStarted { file_id, bytes } => if file_id == f { prev.push((pid, bytes, r.created_at)) } else { prev },
            _ => prev,
        }
    }
}

pub open spec fn cancel_upto(recs: Seq<RecordView>, f: Seq<char>, pid: i64, n: int) -> Seq<(i64, i64, i64, i64)>
    decreases n,
{
    if n <= 0 {
        Seq::empty()
    } else {
        let prev = cancel_upto(recs, f, pid, n - 1);
        let r = recs[n - 1];
        match r.kind {
            KindView::FileCanceled { file_id, by_peer, bytes } => if file_id == f { prev.push((pid, flag(by_peer), bytes, r.created_at)) } else { prev },
            _ => prev,
        }
    }
}

pub open spec fn failed_upto(recs: Seq<RecordView>, f: Seq<char>, pid: i64, n: int) -> Seq<(i64, i64, i64, i64)>
    decreases n,
{
    if n <= 0 {
        Seq::empty()
    } else {
        let prev = failed_upto(recs, f, pid, n - 1);
        let r = recs[n - 1];
        match r.kind {
            KindView::FileFailed { file_id, status_code, bytes } => if file_id == f { prev.push((pid, status_code as i64, bytes, r.created_at)) } else { prev },
            _ => prev,
        }
    }
}

/// Completion records; an outgoing file has no final path of its own.
pub open spec fn completed_upto(recs: Seq<RecordView>, f: Seq<char>, pid: i64, incoming: bool, n: int) -> Seq<(i64, Seq<char>, i64)>
    decreases n,
{
    if n <= 0 {
        Seq::empty()
    } else {
        let prev = completed_upto(recs, f, pid, incoming, n - 1);
        let r = recs[n - 1];
        match r.kind {
            KindView::FileCompleted { file_id, final_path } => if file_id == f {
                prev.push((pid, if incoming { final_path } else { Seq::empty() }, r.created_at))
            } else {
                prev
            },
            _ => prev,
        }
    }
}

pub open spec fn active_upto(recs: Seq<RecordView>, x: Seq<char>, n: int) -> Seq<(Seq<char>, i64)>
    decreases n,
{
    if n <= 0 {
        Seq::empty()
    } else {
        let prev = active_upto(recs, x, n - 1);
        match recs[n - 1].kind {
            KindView::Active => prev.push((x, recs[n - 1].created_at)),
            _ => prev,
        }
    }
}

pub open spec fn tcancel_upto(recs: Seq<RecordView>, x: Seq<char>, n: int) -> Seq<(Seq<char>, i64, i64)>
    decreases n,
{
    if n <= 0 {
        Seq::empty()
    } else {
        let prev = tcancel_upto(recs, x, n - 1);
        match recs[n - 1].kind {
            KindView::Canceled { by_peer } => prev.push((x, flag(by_peer), recs[n - 1].created_at)),
            _ => prev,
        }
    }
}

pub open spec fn tfailed_upto(recs: Seq<RecordView>, x: Seq<char>, n: int) -> Seq<(Seq<char>, i64, i64)>
    decreases n,
{
    if n <= 0 {
        Seq::empty()
    } else {
        let prev = tfailed_upto(recs, x, n - 1);
        match recs[n - 1].kind {
            KindView::Failed { status_code } => prev.push((x, status_code as i64, recs[n - 1].created_at)),
            _ => prev,
        }
    }
}

/// The history of the `k`-th file of an entry.
pub open spec fn path_history(e: EntryView, k: int) -> PathHistoryView {
    let f = e.files[k].0;
    let pid = k as i64;
    let n = e.records.len() as int;
    PathHistoryView {
        id: pid,
        transfer_id: e.id,
        path: e.files[k].1,
        bytes: e.files[k].2,
        created_at: e.created_at,
        pending: seq![(pid, e.created_at)],
        started: started_upto(e.records, f, pid, n),
        cancel: cancel_upto(e.records, f, pid, n),
        failed: failed_upto(e.records, f, pid, n),
        completed: completed_upto(e.records, f, pid, e.transfer_type == TransferType::Incoming, n),
    }
}

pub open spec fn history_of(e: EntryView) -> HistoryView {
    let n = e.records.len() as int;
    HistoryView {
        id: e.id,
        peer_id: e.peer,
        incoming: e.transfer_type == TransferType::Incoming,
        created_at: e.created_at,
        active: active_upto(e.records, e.id, n),
        cancel: tcancel_upto(e.records, e.id, n),
        failed: tfailed_upto(e.records, e.id, n),
        paths: Seq::new(e.files.len(), |k: int| path_history(e, k)),
    }
}

/// Histories of the transfers among the first `n` created at or after `ts`, in order.
pub open spec fn history_since(v: Seq<EntryView>, ts: i64, n: int) -> Seq<HistoryView>
    decreases n,
{
    if n <= 0 {
        Seq::empty()
    } else if v[n - 1].created_at >= ts {
        history_since(v, ts, n - 1).push(history_of(v[n - 1]))
    } else {
        history_since(v, ts, n - 1)
    }
}

pub open spec fn outgoing_path_view(p: OutgoingPath) -> PathHistoryView {
    PathHistoryView {
        id: p.id,
        transfer_id: p.transfer_id@,
        path: p.path@,
        bytes: p.bytes,
        created_at: p.created_at,
        pending: p.pending_states@.map_values(|x: OutgoingPathPendingState| (x.path_id, x.created_at)),
        started: p.started_states@.map_values(|x: OutgoingPathStartedState| (x.path_id, x.bytes_sent, x.created_at)),
        cancel: p.cancel_states@.map_values(|x: OutgoingPathCancelState| (x.path_id, x.by_peer, x.bytes_sent, x.created_at)),
        failed: p.failed_states@.map_values(|x: OutgoingPathFailedState| (x.path_id, x.status_code, x.bytes_sent, x.created_at)),
        completed: p.completed_states@.map_values(|x: OutgoingPathCompletedState| (x.path_id, Seq::<char>::empty(), x.created_at)),
    }
}

pub open spec fn incoming_path_view(p: IncomingPath) -> PathHistoryView {
    PathHistoryView {
        id: p.id,
        transfer_id: p.transfer_id@,
        path: p.path@,
        bytes: p.bytes,
        created_at: p.created_at,
        pending: p.pending_states@.map_values(|x: IncomingPathPendingState| (x.path_id, x.created_at)),
        started: p.started_states@.map_values(|x: IncomingPathStartedState| (x.path_id, x.bytes_received, x.created_at)),
        cancel: p.cancel_states@.map_values(|x: IncomingPathCancelState| (x.path_id, x.by_peer, x.bytes_received, x.created_at)),
        failed: p.failed_states@.map_values(|x: IncomingPathFailedState| (x.path_id, x.status_code, x.bytes_received, x.created_at)),
        completed: p.completed_states@.map_values(|x: IncomingPathCompletedState| (x.path_id, x.final_path@, x.created_at)),
    }
}

pub open spec fn transfer_view(t: Transfer) -> HistoryView {
    HistoryView {
        id: t.id@,
        peer_id: t.peer_id@,
        incoming: t.transfer_type is Incoming,
        created_at: t.created_at,
        active: t.active_states@.map_values(|x: TransferActiveState| (x.transfer_id@, x.created_at)),
        cancel: t.cancel_states@.map_values(|x: TransferCancelState| (x.transfer_id@, x.by_peer, x.created_at)),
        failed: t.failed_states@.map_values(|x: TransferFailedState| (x.transfer_id@, x.status_code, x.created_at)),
        paths: match t.transfer_type {
            DbTransferType::Incoming(ps) => ps@.map_values(|p: IncomingPath| incoming_path_view(p)),
            DbTransferType::Outgoing(ps) => ps@.map_values(|p: OutgoingPath| outgoing_path_view(p)),
        },
    }
}

pub open spec fn transfers_view(ts: Seq<Transfer>) -> Seq<HistoryView> {
    ts.map_values(|t: Transfer| transfer_view(t))
}

impl TransferEntry {
    fn outgoing_path(&self, k: usize) -> (r: OutgoingPath)
        requires
            k < self@.files.len(),
            self@.transfer_type == TransferType::Outgoing,
        ensures
            outgoing_path_view(r) == path_history(self@, k as int),
    {
        let ghost e = self@;
        let f = &self.info.files[k].id;
        let pid = k as i64;
        let incoming = self.transfer_type == TransferType::Incoming;
        let mut pending: Vec<OutgoingPathPendingState> = Vec::new();
        pending.push(OutgoingPathPendingState { path_id: pid, created_at: self.created_at });
        let mut started: Vec<OutgoingPathStartedState> = Vec::new();
        let mut cancel: Vec<OutgoingPathCancelState> = Vec::new();
        let mut failed: Vec<OutgoingPathFailedState> = Vec::new();
        let mut completed: Vec<OutgoingPathCompletedState> = Vec::new();
        let mut j: usize = 0;
        while j < self.records.len()
            invariant
                e == self@,
                e.transfer_type == TransferType::Outgoing,
                k < e.files.len(),
                f@ == e.files[k as int].0,
                pid == k as i64,
                incoming == (e.transfer_type == TransferType::Incoming),
                j <= self.records@.len(),
                started@.map_values(|x: OutgoingPathStartedState| (x.path_id, x.bytes_sent, x.created_at)) == started_upto(e.records, f@, pid, j as int),
                cancel@.map_values(|x: OutgoingPathCancelState| (x.path_id, x.by_peer, x.bytes_sent, x.created_at)) == cancel_upto(e.records, f@, pid, j as int),
                failed@.map_values(|x: OutgoingPathFailedState| (x.path_id, x.status_code, x.bytes_sent, x.created_at)) == failed_upto(e.records, f@, pid, j as int),
                completed@.map_values(|x: OutgoingPathCompletedState| (x.path_id, Seq::<char>::empty(), x.created_at)) == completed_upto(e.records, f@, pid, incoming, j as int),
            decreases self.records.len() - j,
        {
            let r = &self.records[j];
            assert(e.records[j as int] == r@);
            match &r.kind {
                RecordKind::FileStarted { file_id, bytes } => {
                    if file_id.eq(f) {
                        started.push(OutgoingPathStartedState { path_id: pid, bytes_sent: *bytes, created_at: r.created_at });
                    }
                },
                RecordKind::FileCanceled { file_id, by_peer, bytes } => {
                    if file_id.eq(f) {
                        cancel.push(OutgoingPathCancelState { path_id: pid, by_peer: if *by_peer { 1 } else { 0 }, bytes_sent: *bytes, created_at: r.created_at });
                    }
                },
                RecordKind::FileFailed { file_id, status_code, bytes } => {
                    if file_id.eq(f) {
                        failed.push(OutgoingPathFailedState { path_id: pid, status_code: *status_code as i64, bytes_sent: *bytes, created_at: r.created_at });
                    }
                },
                RecordKind::FileCompleted { file_id, final_path } => {
                    if file_id.eq(f) {
                        completed.push(OutgoingPathCompletedState { path_id: pid, created_at: r.created_at });
                    }
                },
                _ => {},
            }
            assert(started@.map_values(|x: OutgoingPathStartedState| (x.path_id, x.bytes_sent, x.created_at)) =~= started_upto(e.records, f@, pid, j + 1));
            assert(cancel@.map_values(|x: OutgoingPathCancelState| (x.path_id, x.by_peer, x.bytes_sent, x.created_at)) =~= cancel_upto(e.records, f@, pid, j + 1));
            assert(failed@.map_values(|x: OutgoingPathFailedState| (x.path_id, x.status_code, x.bytes_sent, x.created_at)) =~= failed_upto(e.records, f@, pid, j + 1));
            assert(completed@.map_values(|x: OutgoingPathCompletedState| (x.path_id, Seq::<char>::empty(), x.created_at)) =~= completed_upto(e.records, f@, pid, incoming, j + 1));
            j += 1;
        }
        let p = &self.info.files[k];
        let r = OutgoingPath {
            id: pid,
            transfer_id: self.info.id.clone(),
            path: p.path.clone(),
            bytes: p.size,
            created_at: self.created_at,
            pending_states: pending,
            started_states: started,
            cancel_states: cancel,
            failed_states: failed,
            completed_states: completed,
        };
        assert(outgoing_path_view(r).pending =~= path_history(e, k as int).pending);
        assert(outgoing_path_view(r).completed =~= path_history(e, k as int).completed);
        r
    }
}

impl TransferEntry {
    fn incoming_path(&self, k: usize) -> (r: IncomingPath)
        requires
            k < self@.files.len(),
            self@.transfer_type == TransferType::Incoming,
        ensures
            incoming_path_view(r) == path_history(self@, k as int),
    {
        let ghost e = self@;
        let f = &self.info.files[k].id;
        let pid = k as i64;
        let incoming = self.transfer_type == TransferType::Incoming;
        let mut pending: Vec<IncomingPathPendingState> = Vec::new();
        pending.push(IncomingPathPendingState { path_id: pid, created_at: self.created_at });
        let mut started: Vec<IncomingPathStartedState> = Vec::new();
        let mut cancel: Vec<IncomingPathCancelState> = Vec::new();
        let mut failed: Vec<IncomingPathFailedState> = Vec::new();
        let mut completed: Vec<IncomingPathCompletedState> = Vec::new();
        let mut j: usize = 0;
        while j < self.records.len()
            invariant
                e == self@,
                e.transfer_type == TransferType::Incoming,
                k < e.files.len(),
                f@ == e.files[k as int].0,
                pid == k as i64,
                incoming == (e.transfer_type == TransferType::Incoming),
                j <= self.records@.len(),
                started@.map_values(|x: IncomingPathStartedState| (x.path_id, x.bytes_received, x.created_at)) == started_upto(e.records, f@, pid, j as int),
                cancel@.map_values(|x: IncomingPathCancelState| (x.path_id, x.by_peer, x.bytes_received, x.created_at)) == cancel_upto(e.records, f@, pid, j as int),
                failed@.map_values(|x: IncomingPathFailedState| (x.path_id, x.status_code, x.bytes_received, x.created_at)) == failed_upto(e.records, f@, pid, j as int),
                completed@.map_values(|x: IncomingPathCompletedState| (x.path_id, x.final_path@, x.created_at)) == completed_upto(e.records, f@, pid, incoming, j as int),
            decreases self.records.len() - j,
        {
            let r = &self.records[j];
            assert(e.records[j as int] == r@);
            match &r.kind {
                RecordKind::FileStarted { file_id, bytes } => {
                    if file_id.eq(f) {
                        started.push(IncomingPathStartedState { path_id: pid, bytes_received: *bytes, created_at: r.created_at });
                    }
                },
                RecordKind::FileCanceled { file_id, by_peer, bytes } => {
                    if file_id.eq(f) {
                        cancel.push(IncomingPathCancelState { path_id: pid, by_peer: if *by_peer { 1 } else { 0 }, bytes_received: *bytes, created_at: r.created_at });
                    }
                },
                RecordKind::FileFailed { file_id, status_code, bytes } => {
                    if file_id.eq(f) {
                        failed.push(IncomingPathFailedState { path_id: pid, status_code: *status_code as i64, bytes_received: *bytes, created_at: r.created_at });
                    }
                },
                RecordKind::FileCompleted { file_id, final_path } => {
                    if file_id.eq(f) {
                        completed.push(IncomingPathCompletedState { path_id: pid, final_path: final_path.clone(), created_at: r.created_at });
                    }
                },
                _ => {},
            }
            assert(started@.map_values(|x: IncomingPathStartedState| (x.path_id, x.bytes_received, x.created_at)) =~= started_upto(e.records, f@, pid, j + 1));
            assert(cancel@.map_values(|x: IncomingPathCancelState| (x.path_id, x.by_peer, x.bytes_received, x.created_at)) =~= cancel_upto(e.records, f@, pid, j + 1));
            assert(failed@.map_values(|x: IncomingPathFailedState| (x.path_id, x.status_code, x.bytes_received, x.created_at)) =~= failed_upto(e.records, f@, pid, j + 1));
            assert(completed@.map_values(|x: IncomingPathCompletedState| (x.path_id, x.final_path@, x.created_at)) =~= completed_upto(e.records, f@, pid, incoming, j + 1));
            j += 1;
        }
        let p = &self.info.files[k];
        let r = IncomingPath {
            id: pid,
            transfer_id: self.info.id.clone(),
            path: p.path.clone(),
            bytes: p.size,
            created_at: self.created_at,
            pending_states: pending,
            started_states: started,
            cancel_states: cancel,
            failed_states: failed,
            completed_states: completed,
        };
        assert(incoming_path_view(r).pending =~= path_history(e, k as int).pending);
        assert(incoming_path_view(r).completed =~= path_history(e, k as int).completed);
        r
    }
}

impl TransferEntry {
    fn history(&self) -> (r: Transfer)
        ensures
            transfer_view(r) == history_of(self@),
    {
        let ghost e = self@;
        let x = &self.info.id;
        let mut active: Vec<TransferActiveState> = Vec::new();
        let mut cancel: Vec<TransferCancelState> = Vec::new();
        let mut failed: Vec<TransferFailedState> = Vec::new();
        let mut j: usize = 0;
        while j < self.records.len()
            invariant
                e == self@,
                x@ == e.id,
                j <= self.records@.len(),
                active@.map_values(|s: TransferActiveState| (s.transfer_id@, s.created_at)) == active_upto(e.records, e.id, j as int),
                cancel@.map_values(|s: TransferCancelState| (s.transfer_id@, s.by_peer, s.created_at)) == tcancel_upto(e.records, e.id, j as int),
                failed@.map_values(|s: TransferFailedState| (s.transfer_id@, s.status_code, s.created_at)) == tfailed_upto(e.records, e.id, j as int),
            decreases self.records.len() - j,
        {
            let r = &self.records[j];
            assert(e.records[j as int] == r@);
            match &r.kind {
                RecordKind::Active => {
                    active.push(TransferActiveState { transfer_id: x.clone(), created_at: r.created_at });
                },
                RecordKind::Canceled { by_peer } => {
                    cancel.push(TransferCancelState { transfer_id: x.clone(), by_peer: if *by_peer { 1 } else { 0 }, created_at: r.created_at });
                },
                RecordKind::Failed { status_code } => {
                    failed.push(TransferFailedState { transfer_id: x.clone(), status_code: *status_code as i64, created_at: r.created_at });
                },
                _ => {},
            }
            assert(active@.map_values(|s: TransferActiveState| (s.transfer_id@, s.created_at)) =~= active_upto(e.records, e.id, j + 1));
            assert(cancel@.map_values(|s: TransferCancelState| (s.transfer_id@, s.by_peer, s.created_at)) =~= tcancel_upto(e.records, e.id, j + 1));
            assert(failed@.map_values(|s: TransferFailedState| (s.transfer_id@, s.status_code, s.created_at)) =~= tfailed_upto(e.records, e.id, j + 1));
            j += 1;
        }
        let ghost paths_spec = Seq::new(e.files.len(), |k: int| path_history(e, k));
        let n = self.info.files.len();
        let transfer_type = if self.transfer_type == TransferType::Incoming {
            let mut ps: Vec<IncomingPath> = Vec::new();
            let mut k: usize = 0;
            while k < n
                invariant
                    e == self@,
                    e.transfer_type == TransferType::Incoming,
                    paths_spec == Seq::new(e.files.len(), |k: int| path_history(e, k)),
                    n == e.files.len(),
                    k <= n,
                    ps@.len() == k,
                    ps@.map_values(|p: IncomingPath| incoming_path_view(p)) == paths_spec.take(k as int),
                decreases n - k,
            {
                ps.push(self.incoming_path(k));
                assert(paths_spec[k as int] == path_history(e, k as int));
                assert(ps@.map_values(|p: IncomingPath| incoming_path_view(p)) =~= paths_spec.take(k + 1));
                k += 1;
            }
            assert(paths_spec.take(n as int) =~= paths_spec);
            DbTransferType::Incoming(ps)
        } else {
            let mut ps: Vec<OutgoingPath> = Vec::new();
            let mut k: usize = 0;
            while k < n
                invariant
                    e == self@,
                    e.transfer_type == TransferType::Outgoing,
                    paths_spec == Seq::new(e.files.len(), |k: int| path_history(e, k)),
                    n == e.files.len(),
                    k <= n,
                    ps@.len() == k,
                    ps@.map_values(|p: OutgoingPath| outgoing_path_view(p)) == paths_spec.take(k as int),
                decreases n - k,
            {
                ps.push(self.outgoing_path(k));
                assert(paths_spec[k as int] == path_history(e, k as int));
                assert(ps@.map_values(|p: OutgoingPath| outgoing_path_view(p)) =~= paths_spec.take(k + 1));
                k += 1;
            }
            assert(paths_spec.take(n as int) =~= paths_spec);
            DbTransferType::Outgoing(ps)
        };
        Transfer {
            id: x.clone(),
            peer_id: self.info.peer.clone(),
            transfer_type,
            created_at: self.created_at,
            active_states: active,
            cancel_states: cancel,
            failed_states: failed,
        }
    }
}

impl Ledger {
    /// Every transfer created at or after `ts`, in creation order, each with
    /// its full history.
    pub fn transfers_since(&self, ts: i64) -> (r: Vec<Transfer>)
        ensures
            transfers_view(r@) == history_since(self@, ts, self@.len() as int),
    {
        let mut out: Vec<Transfer> = Vec::new();
        let mut i: usize = 0;
        while i < self.entries.len()
            invariant
                i <= self@.len(),
                self@.len() == self.entries@.len(),
                transfers_view(out@) == history_since(self@, ts, i as int),
            decreases self.entries.len() - i,
        {
            assert(self@[i as int] == self.entries@[i as int]@);
            if self.entries[i].created_at >= ts {
                let t = self.entries[i].history();
                out.push(t);
                assert(transfers_view(out@) =~= history_since(self@, ts, i + 1));
            }
            i += 1;
        }
        out
    }

    /// Deletes the transfers that are named in `drop` or, with `until`,
    /// created strictly before it; the others stay, in order.
    fn retain(&mut self, drop: &Vec<String>, until: Option<i64>)
        requires
            ledger_wf(old(self)@),
        ensures
            ledger_wf(final(self)@),
            final(self)@ == kept(old(self)@, drop@.map_values(|s: String| s@), until, old(self)@.len() as int),
    {
        let ghost v0 = self@;
        let ghost ids = drop@.map_values(|s: String| s@);
        let ghost n = v0.len() as int;
        let ghost mut k: int = 0;
        let mut i: usize = 0;
        while i < self.entries.len()
            invariant
                0 <= k <= n,
                ledger_wf(self@),
                ids == drop@.map_values(|s: String| s@),
                n == v0.len(),
                self@ == kept(v0, ids, until, k) + v0.skip(k),
                i == kept(v0, ids, until, k).len(),
            decreases self.entries.len() - i,
        {
            assert(v0.skip(k).len() == n - k);
            assert(k < n);
            assert(self@[i as int] == v0.skip(k)[0]);
            assert(self@[i as int] == v0[k]);
            assert(self@[i as int] == self.entries@[i as int]@);
            if self.entries[i].purged(drop, until) {
                let ghost before = self@;
                self.entries.remove(i);
                assert(self@ =~= before.remove(i as int));
                proof { lemma_remove_keeps_wf(before, i as int); }
                assert(v0.skip(k).drop_first() =~= v0.skip(k + 1));
                assert(self@ =~= kept(v0, ids, until, k + 1) + v0.skip(k + 1));
            } else {
                assert(v0.skip(k).drop_first() =~= v0.skip(k + 1));
                assert(kept(v0, ids, until, k + 1) + v0.skip(k + 1) =~= kept(v0, ids, until, k) + v0.skip(k));
                i += 1;
            }
            proof {
                k = k + 1;
            }
        }
        assert(v0.skip(k).len() == 0);
        assert(k == n);
        assert(self@ =~= kept(v0, ids, until, n));
    }

    /// Deletes the transfers named by a JSON array of identifiers; text that
    /// is no such array is refused and nothing is deleted.
    pub fn purge_transfers(&mut self, txids: &str) -> (r: Result<(), Error>)
        requires
            ledger_wf(old(self)@),
        ensures
            ledger_wf(final(self)@),
            match crate::json::json_string_list(txids@) {
                None => r == Err::<(), Error>(Error::BadInput) && final(self)@ == old(self)@,
                Some(ids) => r is Ok && final(self)@ == kept(old(self)@, ids, None, old(self)@.len() as int),
            },
    {
        match crate::json::parse_string_list(txids) {
            None => Err(Error::BadInput),
            Some(ids) => {
                self.purge_ids(&ids);
                Ok(())
            },
        }
    }

    /// Deletes the named transfers.
    pub fn purge_ids(&mut self, ids: &Vec<String>)
        requires
            ledger_wf(old(self)@),
        ensures
            ledger_wf(final(self)@),
            final(self)@ == kept(old(self)@, ids@.map_values(|s: String| s@), None, old(self)@.len() as int),
    {
        self.retain(ids, None)
    }

    /// Deletes the transfers created strictly before `ts`.
    pub fn purge_until(&mut self, ts: i64)
        requires
            ledger_wf(old(self)@),
        ensures
            ledger_wf(final(self)@),
            final(self)@ == kept(old(self)@, Seq::empty(), Some(ts), old(self)@.len() as int),
    {
        let none: Vec<String> = Vec::new();
        assert(none@.map_values(|s: String| s@) =~= Seq::<Seq<char>>::empty());
        self.retain(&none, Some(ts))
    }
}

impl TransferEntry {
    fn purged(&self, drop: &Vec<String>, until: Option<i64>) -> (r: bool)
        ensures
            r == purged(self@, drop@.map_values(|s: String| s@), until),
    {
        if let Some(t) = until {
            if self.created_at < t {
                return true;
            }
        }
        let mut k: usize = 0;
        while k < drop.len()
            invariant
                k <= drop@.len(),
                forall|a: int| 0 <= a < k ==> drop@[a]@ != self@.id,
            decreases drop.len() - k,
        {
            if drop[k].eq(&self.info.id) {
                assert(drop@.map_values(|s: String| s@)[k as int] == self@.id);
                return true;
            }
            k += 1;
        }
        let ghost ids = drop@.map_values(|s: String| s@);
        assert(!ids.contains(self@.id)) by {
            if ids.contains(self@.id) {
                let a = choose|a: int| 0 <= a < ids.len() && #[trigger] ids[a] == self@.id;
                assert(drop@[a]@ == self@.id);
            }
        }
        false
    }
}

/// Whether a purge selects an entry: named, or created before the bound.
pub open spec fn purged(e: EntryView, ids: Seq<Seq<char>>, until: Option<i64>) -> bool {
    ids.contains(e.id) || match until {
        Some(t) => e.created_at < t,
        None => false,
    }
}

/// The entries among the first `n` that a purge keeps, in order.
pub open spec fn kept(v: Seq<EntryView>, ids: Seq<Seq<char>>, until: Option<i64>, n: int) -> Seq<EntryView>
    decreases n,
{
    if n <= 0 {
        Seq::empty()
    } else if purged(v[n - 1], ids, until) {
        kept(v, ids, until, n - 1)
    } else {
        kept(v, ids, until, n - 1).push(v[n - 1])
    }
}

proof fn lemma_remove_keeps_wf(v: Seq<EntryView>, i: int)
    requires
        ledger_wf(v),
        0 <= i < v.len(),
    ensures
        ledger_wf(v.remove(i)),
{
    let w = v.remove(i);
    assert forall|a: int, b: int| 0 <= a < w.len() && 0 <= b < w.len() && w[a].id == w[b].id implies a == b by {
        let a2 = if a < i { a } else { a + 1 };
        let b2 = if b < i { b } else { b + 1 };
        assert(w[a] == v[a2]);
        assert(w[b] == v[b2]);
    }
    assert forall|a: int| 0 <= a < w.len() implies entry_wf(#[trigger] w[a]) by {
        let a2 = if a < i { a } else { a + 1 };
        assert(w[a] == v[a2]);
    }
}

} // verus!
