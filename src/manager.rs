//! In-memory registry of live transfers. Every terminal transition of a file
//! goes through one latch here, so that the first one wins and later ones are
//! ignored.
use vstd::prelude::*;
use crate::error::Error;
use crate::events::{lemma_progress_monotone, progress_within, run, step, FileEvent, FileEventTx, SinkCall, SinkState};
use crate::storage::{TransferInfo, TransferType};

verus! {

/// State of one file of a live transfer.
#[derive(Debug, Copy, Clone, PartialEq, Eq, Structural)]
pub enum FileState {
    Pending,
    Started,
    Completed,
    Cancelled,
    Rejected,
    Failed,
}

pub open spec fn is_terminal_state(s: FileState) -> bool {
    !matches!(s, FileState::Pending | FileState::Started)
}

impl FileTerminalState {
    pub fn state(&self) -> (r: FileState)
        ensures
            r == state_of(*self),
    {
        match self {
            FileTerminalState::Completed => FileState::Completed,
            FileTerminalState::Cancelled { .. } => FileState::Cancelled,
            FileTerminalState::Rejected { .. } => FileState::Rejected,
            FileTerminalState::Failed(_) => FileState::Failed,
        }
    }

    pub fn sink_call(&self) -> (r: SinkCall)
        ensures
            r == call_of(*self),
    {
        match self {
            FileTerminalState::Completed => SinkCall::Success,
            FileTerminalState::Cancelled { by_peer } => SinkCall::Cancelled { by_peer: *by_peer },
            FileTerminalState::Rejected { by_peer } => SinkCall::Rejected { by_peer: *by_peer },
            FileTerminalState::Failed(e) => SinkCall::Failed(*e),
        }
    }
}

impl FileState {
    pub fn is_terminal(&self) -> (r: bool)
        ensures
            r == is_terminal_state(*self),
    {
        !matches!(self, FileState::Pending | FileState::Started)
    }
}

/// A terminal transition, with what the application is told of it.
#[derive(Debug, Copy, Clone, PartialEq, Eq, Structural)]
pub enum FileTerminalState {
    Completed,
    Cancelled { by_peer: bool },
    Rejected { by_peer: bool },
    Failed(Error),
}

pub open spec fn state_of(t: FileTerminalState) -> FileState {
    match t {
        FileTerminalState::Completed => FileState::Completed,
        FileTerminalState::Cancelled { .. } => FileState::Cancelled,
        FileTerminalState::Rejected { .. } => FileState::Rejected,
        FileTerminalState::Failed(_) => FileState::Failed,
    }
}

pub open spec fn call_of(t: FileTerminalState) -> SinkCall {
    match t {
        FileTerminalState::Completed => SinkCall::Success,
        FileTerminalState::Cancelled { by_peer } => SinkCall::Cancelled { by_peer },
        FileTerminalState::Rejected { by_peer } => SinkCall::Rejected { by_peer },
        FileTerminalState::Failed(e) => SinkCall::Failed(e),
    }
}

/// The event that tells the application of a terminal transition.
pub open spec fn event_of(t: FileTerminalState) -> FileEvent {
    match t {
        FileTerminalState::Completed => FileEvent::Success,
        FileTerminalState::Cancelled { by_peer } => FileEvent::Cancelled { by_peer },
        FileTerminalState::Rejected { by_peer } => FileEvent::Rejected { by_peer },
        FileTerminalState::Failed(e) => FileEvent::Failed(e),
    }
}

pub struct FileView {
    pub id: Seq<char>,
    pub size: int,
    pub state: FileState,
    pub sink: SinkState,
}

pub struct TransferView {
    pub id: Seq<char>,
    pub peer: Seq<char>,
    pub transfer_type: TransferType,
    pub files: Seq<FileView>,
    pub cancelled: bool,
}

/// One file of a live transfer.
pub struct LiveFile {
    pub id: String,
    pub size: u64,
    pub state: FileState,
    pub events: FileEventTx,
}

impl View for LiveFile {
    type V = FileView;

    open spec fn view(&self) -> FileView {
        FileView { id: self.id@, size: self.size as int, state: self.state, sink: self.events@ }
    }
}

/// A live transfer.
pub struct LiveTransfer {
    pub id: String,
    pub peer: String,
    pub transfer_type: TransferType,
    pub files: Vec<LiveFile>,
    pub cancelled: bool,
}

impl View for LiveTransfer {
    type V = TransferView;

    open spec fn view(&self) -> TransferView {
        TransferView {
            id: self.id@,
            peer: self.peer@,
            transfer_type: self.transfer_type,
            files: self.files@.map_values(|f: LiveFile| f@),
            cancelled: self.cancelled,
        }
    }
}

pub open spec fn has_transfer(v: Seq<TransferView>, id: Seq<char>) -> bool {
    exists|i: int| 0 <= i < v.len() && v[i].id == id
}

pub open spec fn transfer_index(v: Seq<TransferView>, id: Seq<char>) -> int {
    choose|i: int| 0 <= i < v.len() && v[i].id == id
}

pub open spec fn has_file(files: Seq<FileView>, id: Seq<char>) -> bool {
    exists|i: int| 0 <= i < files.len() && files[i].id == id
}

pub open spec fn file_index(files: Seq<FileView>, id: Seq<char>) -> int {
    choose|i: int| 0 <= i < files.len() && files[i].id == id
}

pub open spec fn unique_file_ids(files: Seq<FileView>) -> bool {
    forall|i: int, j: int| 0 <= i < files.len() && 0 <= j < files.len() && files[i].id == files[j].id ==> i == j
}

/// A file's sink counts against the file's own size, and has not passed it.
pub open spec fn sink_fits(f: FileView) -> bool {
    f.sink.size == f.size && f.sink.last_progress <= f.sink.size
}

/// Transfer identifiers are unique, and so are file identifiers within a
/// transfer; every sink fits its file.
pub open spec fn registry_wf(v: Seq<TransferView>) -> bool {
    &&& forall|i: int, j: int| 0 <= i < v.len() && 0 <= j < v.len() && v[i].id == v[j].id ==> i == j
    &&& forall|i: int| 0 <= i < v.len() ==> unique_file_ids(#[trigger] v[i].files)
    &&& forall|i: int, k: int| 0 <= i < v.len() && 0 <= k < v[i].files.len() ==> sink_fits(#[trigger] v[i].files[k])
}

/// Where a file of a transfer of the given direction stands, or the error
/// that names what is missing.
pub open spec fn locate(v: Seq<TransferView>, tt: TransferType, xfer: Seq<char>, file: Seq<char>) -> Result<(int, int), Error> {
    if !has_transfer(v, xfer) || v[transfer_index(v, xfer)].transfer_type != tt {
        Err(Error::BadTransfer)
    } else if !has_file(v[transfer_index(v, xfer)].files, file) {
        Err(Error::FileNotFound)
    } else {
        Ok((transfer_index(v, xfer), file_index(v[transfer_index(v, xfer)].files, file)))
    }
}

/// The registry with one file replaced.
pub open spec fn with_file(v: Seq<TransferView>, ti: int, fi: int, f: FileView) -> Seq<TransferView> {
    v.update(ti, TransferView { files: v[ti].files.update(fi, f), ..v[ti] })
}

/// The registry after a terminal transition of a file, and what is returned.
pub open spec fn terminal_outcome(v: Seq<TransferView>, tt: TransferType, xfer: Seq<char>, file: Seq<char>, t: FileTerminalState) -> (Seq<TransferView>, Result<Option<FileEvent>, Error>) {
    match locate(v, tt, xfer, file) {
        Err(e) => (v, Err(e)),
        Ok((i, j)) => {
            let (nf, e) = terminal_file_step(v[i].files[j], t);
            (with_file(v, i, j, nf), Ok(e))
        },
    }
}

/// The registry after a call on a file's sink, and what the sink emits.
pub open spec fn sink_outcome(v: Seq<TransferView>, tt: TransferType, xfer: Seq<char>, file: Seq<char>, c: SinkCall) -> (Seq<TransferView>, Result<Option<FileEvent>, Error>) {
    match locate(v, tt, xfer, file) {
        Err(e) => (v, Err(e)),
        Ok((i, j)) => {
            let f = v[i].files[j];
            let (s, e) = step(f.sink, c);
            (with_file(v, i, j, FileView { sink: s, ..f }), Ok(e))
        },
    }
}

/// Whether a file may still be worked on: it exists and is not terminal.
pub open spec fn not_terminated(v: Seq<TransferView>, tt: TransferType, xfer: Seq<char>, file: Seq<char>) -> Result<(), Error> {
    match locate(v, tt, xfer, file) {
        Err(e) => Err(e),
        Ok((i, j)) => if is_terminal_state(v[i].files[j].state) {
            Err(Error::BadTransferState)
        } else {
            Ok(())
        },
    }
}

/// The registry after starting a file: a pending file becomes started.
pub open spec fn start_outcome(v: Seq<TransferView>, tt: TransferType, xfer: Seq<char>, file: Seq<char>) -> (Seq<TransferView>, Result<bool, Error>) {
    match locate(v, tt, xfer, file) {
        Err(e) => (v, Err(e)),
        Ok((i, j)) => {
            let f = v[i].files[j];
            if is_terminal_state(f.state) {
                (v, Err(Error::BadTransferState))
            } else if f.state == FileState::Pending {
                (with_file(v, i, j, FileView { state: FileState::Started, ..f }), Ok(true))
            } else {
                (v, Ok(false))
            }
        },
    }
}

/// A terminal transition of one file: ignored once the file is terminal.
pub open spec fn terminal_file_step(f: FileView, t: FileTerminalState) -> (FileView, Option<FileEvent>) {
    if is_terminal_state(f.state) {
        (f, None)
    } else {
        let (s, e) = step(f.sink, call_of(t));
        (FileView { state: state_of(t), sink: s, ..f }, e)
    }
}

/// The files of a new transfer, all pending.
pub open spec fn pending_files(info: TransferInfo) -> Seq<FileView> {
    info.files@.map_values(|p: crate::storage::TransferPath| FileView {
        id: p.id@,
        size: p.size as int,
        state: FileState::Pending,
        sink: SinkState { size: p.size as int, finished: false, last_progress: 0 },
    })
}

pub open spec fn duplicate_file_ids(info: TransferInfo) -> bool {
    exists|i: int, j: int| 0 <= i < j < info.files@.len() && info.files@[i].id@ == info.files@[j].id@
}

pub open spec fn negative_size(info: TransferInfo) -> bool {
    exists|i: int| 0 <= i < info.files@.len() && info.files@[i].size < 0
}

/// The outcome of registering a transfer.
pub open spec fn insert_result(v: Seq<TransferView>, info: TransferInfo) -> Result<(), Error> {
    if has_transfer(v, info.id@) {
        Err(Error::TransferAlreadyExists)
    } else if duplicate_file_ids(info) {
        Err(Error::BadTransfer)
    } else if negative_size(info) {
        Err(Error::BadFile)
    } else {
        Ok(())
    }
}

/// Identifiers of the files among the first `n` that are not terminal, in order.
pub open spec fn live_ids(files: Seq<FileView>, n: int) -> Seq<Seq<char>>
    decreases n,
{
    if n <= 0 {
        Seq::empty()
    } else if is_terminal_state(files[n - 1].state) {
        live_ids(files, n - 1)
    } else {
        live_ids(files, n - 1).push(files[n - 1].id)
    }
}

/// Registry of live transfers.
pub struct TransferManager {
    transfers: Vec<LiveTransfer>,
}

impl View for TransferManager {
    type V = Seq<TransferView>;

    closed spec fn view(&self) -> Seq<TransferView> {
        self.transfers@.map_values(|t: LiveTransfer| t@)
    }
}

impl TransferManager {
    pub fn new() -> (r: Self)
        ensures
            r@ == Seq::<TransferView>::empty(),
            registry_wf(r@),
    {
        let r = TransferManager { transfers: Vec::new() };
        assert(r@ =~= Seq::<TransferView>::empty());
        r
    }

    pub fn len(&self) -> (r: usize)
        ensures
            r == self@.len(),
    {
        self.transfers.len()
    }

    fn find_transfer(&self, id: &String) -> (r: Option<usize>)
        requires
            registry_wf(self@),
        ensures
            match r {
                Some(i) => has_transfer(self@, id@) && i == transfer_index(self@, id@),
                None => !has_transfer(self@, id@),
            },
    {
        let mut i: usize = 0;
        while i < self.transfers.len()
            invariant
                i <= self.transfers.len(),
                registry_wf(self@),
                forall|k: int| 0 <= k < i ==> self@[k].id != id@,
            decreases self.transfers.len() - i,
        {
            if self.transfers[i].id.eq(id) {
                assert(self@[i as int].id == id@);
                assert(has_transfer(self@, id@));
                let ghost j = transfer_index(self@, id@);
                assert(self@[j].id == id@);
                return Some(i);
            }
            i += 1;
        }
        None
    }

    fn find_file(&self, ti: usize, id: &String) -> (r: Option<usize>)
        requires
            ti < self@.len(),
        ensures
            match r {
                Some(j) => has_file(self@[ti as int].files, id@) && self@[ti as int].files[j as int].id == id@
                    && j < self@[ti as int].files.len(),
                None => !has_file(self@[ti as int].files, id@),
            },
    {
        let files = &self.transfers[ti].files;
        assert(self@[ti as int].files == files@.map_values(|f: LiveFile| f@));
        let mut j: usize = 0;
        while j < files.len()
            invariant
                j <= files.len(),
                self@[ti as int].files == files@.map_values(|f: LiveFile| f@),
                forall|k: int| 0 <= k < j ==> self@[ti as int].files[k].id != id@,
            decreases files.len() - j,
        {
            if files[j].id.eq(id) {
                assert(self@[ti as int].files[j as int].id == id@);
                return Some(j);
            }
            j += 1;
        }
        None
    }

    /// Finds a file of a transfer of the given direction.
    fn locate(&self, tt: TransferType, xfer: &String, file: &String) -> (r: Result<(usize, usize), Error>)
        requires
            registry_wf(self@),
        ensures
            match r {
                Ok((i, j)) => locate(self@, tt, xfer@, file@) == Ok::<(int, int), Error>((i as int, j as int))
                    && i < self@.len() && j < self@[i as int].files.len(),
                Err(e) => locate(self@, tt, xfer@, file@) == Err::<(int, int), Error>(e),
            },
    {
        match self.find_transfer(xfer) {
            None => Err(Error::BadTransfer),
            Some(i) => {
                if self.transfers[i].transfer_type != tt {
                    return Err(Error::BadTransfer);
                }
                match self.find_file(i, file) {
                    None => Err(Error::FileNotFound),
                    Some(j) => {
                        assert(unique_file_ids(self@[i as int].files));
                        Ok((i, j))
                    },
                }
            },
        }
    }

    /// Registers a transfer of the given direction, all of its files pending.
    pub fn insert_transfer(&mut self, tt: TransferType, info: &TransferInfo) -> (r: Result<(), Error>)
        requires
            registry_wf(old(self)@),
        ensures
            registry_wf(final(self)@),
            r == insert_result(old(self)@, *info),
            r is Ok ==> final(self)@ == old(self)@.push(TransferView {
                id: info.id@,
                peer: info.peer@,
                transfer_type: tt,
                files: pending_files(*info),
                cancelled: false,
            }),
            r is Err ==> final(self)@ == old(self)@,
    {
        if self.find_transfer(&info.id).is_some() {
            return Err(Error::TransferAlreadyExists);
        }
        let n = info.files.len();
        let mut j: usize = 0;
        while j < n
            invariant
                n == info.files@.len(),
                j <= n,
                registry_wf(self@),
                !has_transfer(self@, info.id@),
                forall|a: int, b: int| 0 <= a < b < j ==> info.files@[a].id@ != info.files@[b].id@,
            decreases n - j,
        {
            let mut k: usize = 0;
            while k < j
                invariant
                    n == info.files@.len(),
                    k <= j < n,
                    registry_wf(self@),
                    !has_transfer(self@, info.id@),
                    forall|a: int| 0 <= a < k ==> info.files@[a].id@ != info.files@[j as int].id@,
                decreases j - k,
            {
                if info.files[k].id.eq(&info.files[j].id) {
                    assert(duplicate_file_ids(*info)) by {
                        assert(info.files@[k as int].id@ == info.files@[j as int].id@);
                    }
                    return Err(Error::BadTransfer);
                }
                k += 1;
            }
            j += 1;
        }
        let mut j: usize = 0;
        while j < n
            invariant
                n == info.files@.len(),
                j <= n,
                registry_wf(self@),
                !has_transfer(self@, info.id@),
                !duplicate_file_ids(*info),
                forall|a: int| 0 <= a < j ==> info.files@[a].size >= 0,
            decreases n - j,
        {
            if info.files[j].size < 0 {
                assert(negative_size(*info));
                return Err(Error::BadFile);
            }
            j += 1;
        }
        let mut files: Vec<LiveFile> = Vec::new();
        let mut j: usize = 0;
        while j < n
            invariant
                n == info.files@.len(),
                j <= n,
                forall|a: int| 0 <= a < n ==> info.files@[a].size >= 0,
                files@.len() == j,
                registry_wf(self@),
                !has_transfer(self@, info.id@),
                !duplicate_file_ids(*info),
                !negative_size(*info),
                files@.map_values(|f: LiveFile| f@) == pending_files(*info).take(j as int),
            decreases n - j,
        {
            let p = &info.files[j];
            let size = p.size as u64;
            files.push(LiveFile {
                id: p.id.clone(),
                size,
                state: FileState::Pending,
                events: FileEventTx::new(size, 0),
            });
            assert(files@[j as int]@ == pending_files(*info)[j as int]);
            assert(files@.map_values(|f: LiveFile| f@) =~= pending_files(*info).take(j + 1));
            j += 1;
        }
        assert(pending_files(*info).take(n as int) =~= pending_files(*info));
        let xfer = LiveTransfer {
            id: info.id.clone(),
            peer: info.peer.clone(),
            transfer_type: tt,
            files,
            cancelled: false,
        };
        let ghost old_v = self@;
        self.transfers.push(xfer);
        assert(self@ =~= old_v.push(xfer@));
        assert(unique_file_ids(pending_files(*info)));
        Ok(())
    }

    pub fn insert_outgoing(&mut self, info: &TransferInfo) -> (r: Result<(), Error>)
        requires
            registry_wf(old(self)@),
        ensures
            registry_wf(final(self)@),
            r == insert_result(old(self)@, *info),
            r is Ok ==> final(self)@ == old(self)@.push(TransferView {
                id: info.id@,
                peer: info.peer@,
                transfer_type: TransferType::Outgoing,
                files: pending_files(*info),
                cancelled: false,
            }),
            r is Err ==> final(self)@ == old(self)@,
    {
        self.insert_transfer(TransferType::Outgoing, info)
    }

    pub fn insert_incoming(&mut self, info: &TransferInfo) -> (r: Result<(), Error>)
        requires
            registry_wf(old(self)@),
        ensures
            registry_wf(final(self)@),
            r == insert_result(old(self)@, *info),
            r is Ok ==> final(self)@ == old(self)@.push(TransferView {
                id: info.id@,
                peer: info.peer@,
                transfer_type: TransferType::Incoming,
                files: pending_files(*info),
                cancelled: false,
            }),
            r is Err ==> final(self)@ == old(self)@,
    {
        self.insert_transfer(TransferType::Incoming, info)
    }

    /// Records a terminal transition of a file. The first one wins and
    /// returns what the file's sink emits; later ones change nothing and
    /// return `Ok(None)`.
    pub fn terminal_recv(&mut self, tt: TransferType, xfer: &String, file: &String, t: FileTerminalState) -> (r: Result<Option<FileEvent>, Error>)
        requires
            registry_wf(old(self)@),
        ensures
            registry_wf(final(self)@),
            (final(self)@, r) == terminal_outcome(old(self)@, tt, xfer@, file@, t),
    {
        let (i, j) = match self.locate(tt, xfer, file) {
            Err(e) => return Err(e),
            Ok(p) => p,
        };
        let ghost old_v = self@;
        if self.transfers[i].files[j].state.is_terminal() {
            assert(old_v[i as int].files.update(j as int, old_v[i as int].files[j as int]) =~= old_v[i as int].files);
            assert(with_file(old_v, i as int, j as int, old_v[i as int].files[j as int]) =~= old_v);
            return Ok(None);
        }
        let st = t.state();
        self.transfers[i].files[j].state = st;
        let ev = self.transfers[i].files[j].events.apply(t.sink_call());
        proof {
            let nf = terminal_file_step(old_v[i as int].files[j as int], t).0;
            assert(self@[i as int].files =~= old_v[i as int].files.update(j as int, nf));
            assert(self@ =~= with_file(old_v, i as int, j as int, nf));
            assert(unique_file_ids(old_v[i as int].files));
        }
        Ok(ev)
    }

    pub fn outgoing_terminal_recv(&mut self, xfer: &String, file: &String, t: FileTerminalState) -> (r: Result<Option<FileEvent>, Error>)
        requires
            registry_wf(old(self)@),
        ensures
            registry_wf(final(self)@),
            (final(self)@, r) == terminal_outcome(old(self)@, TransferType::Outgoing, xfer@, file@, t),
    {
        self.terminal_recv(TransferType::Outgoing, xfer, file, t)
    }

    pub fn incoming_terminal_recv(&mut self, xfer: &String, file: &String, t: FileTerminalState) -> (r: Result<Option<FileEvent>, Error>)
        requires
            registry_wf(old(self)@),
        ensures
            registry_wf(final(self)@),
            (final(self)@, r) == terminal_outcome(old(self)@, TransferType::Incoming, xfer@, file@, t),
    {
        self.terminal_recv(TransferType::Incoming, xfer, file, t)
    }

    /// Marks a failure that did not come from the peer; a terminal transition
    /// like any other.
    pub fn outgoing_failure_post(&mut self, xfer: &String, file: &String, err: Error) -> (r: Result<Option<FileEvent>, Error>)
        requires
            registry_wf(old(self)@),
        ensures
            registry_wf(final(self)@),
            (final(self)@, r) == terminal_outcome(old(self)@, TransferType::Outgoing, xfer@, file@, FileTerminalState::Failed(err)),
    {
        self.terminal_recv(TransferType::Outgoing, xfer, file, FileTerminalState::Failed(err))
    }

    /// Fails when the file is unknown or already terminal.
    pub fn outgoing_ensure_file_not_terminated(&self, xfer: &String, file: &String) -> (r: Result<(), Error>)
        requires
            registry_wf(self@),
        ensures
            r == not_terminated(self@, TransferType::Outgoing, xfer@, file@),
    {
        let (i, j) = self.locate(TransferType::Outgoing, xfer, file)?;
        if self.transfers[i].files[j].state.is_terminal() {
            Err(Error::BadTransferState)
        } else {
            Ok(())
        }
    }

    /// Moves a pending file to started. Returns whether it was pending.
    pub fn start_file(&mut self, tt: TransferType, xfer: &String, file: &String) -> (r: Result<bool, Error>)
        requires
            registry_wf(old(self)@),
        ensures
            registry_wf(final(self)@),
            (final(self)@, r) == start_outcome(old(self)@, tt, xfer@, file@),
    {
        let (i, j) = self.locate(tt, xfer, file)?;
        let ghost old_v = self@;
        if self.transfers[i].files[j].state.is_terminal() {
            return Err(Error::BadTransferState);
        }
        if self.transfers[i].files[j].state == FileState::Pending {
            self.transfers[i].files[j].state = FileState::Started;
            proof {
                let nf = FileView { state: FileState::Started, ..old_v[i as int].files[j as int] };
                assert(self@[i as int].files =~= old_v[i as int].files.update(j as int, nf));
                assert(self@ =~= with_file(old_v, i as int, j as int, nf));
                assert(unique_file_ids(old_v[i as int].files));
            }
            Ok(true)
        } else {
            Ok(false)
        }
    }

    /// Forwards a progress report to the file's sink.
    pub fn progress(&mut self, tt: TransferType, xfer: &String, file: &String, bytes: u64) -> (r: Result<Option<FileEvent>, Error>)
        requires
            registry_wf(old(self)@),
        ensures
            registry_wf(final(self)@),
            (final(self)@, r) == sink_outcome(old(self)@, tt, xfer@, file@, SinkCall::Progress(bytes)),
    {
        let (i, j) = self.locate(tt, xfer, file)?;
        let ghost old_v = self@;
        let ev = self.transfers[i].files[j].events.apply(SinkCall::Progress(bytes));
        proof {
            let f = old_v[i as int].files[j as int];
            let nf = FileView { sink: step(f.sink, SinkCall::Progress(bytes)).0, ..f };
            assert(self@[i as int].files =~= old_v[i as int].files.update(j as int, nf));
            assert(self@ =~= with_file(old_v, i as int, j as int, nf));
            assert(unique_file_ids(old_v[i as int].files));
        }
        Ok(ev)
    }

    /// Marks the file's sink terminal without telling the application.
    pub fn stop_silent(&mut self, tt: TransferType, xfer: &String, file: &String) -> (r: Result<Option<FileEvent>, Error>)
        requires
            registry_wf(old(self)@),
        ensures
            registry_wf(final(self)@),
            (final(self)@, r) == sink_outcome(old(self)@, tt, xfer@, file@, SinkCall::StopSilent),
    {
        let (i, j) = self.locate(tt, xfer, file)?;
        let ghost old_v = self@;
        let ev = self.transfers[i].files[j].events.apply(SinkCall::StopSilent);
        proof {
            let f = old_v[i as int].files[j as int];
            let nf = FileView { sink: step(f.sink, SinkCall::StopSilent).0, ..f };
            assert(self@[i as int].files =~= old_v[i as int].files.update(j as int, nf));
            assert(self@ =~= with_file(old_v, i as int, j as int, nf));
            assert(unique_file_ids(old_v[i as int].files));
        }
        Ok(ev)
    }

    /// Reports an outgoing file paused through its sink.
    pub fn pause_outgoing(&mut self, xfer: &String, file: &String) -> (r: Result<Option<FileEvent>, Error>)
        requires
            registry_wf(old(self)@),
        ensures
            registry_wf(final(self)@),
            (final(self)@, r) == sink_outcome(old(self)@, TransferType::Outgoing, xfer@, file@, SinkCall::Paused),
    {
        let (i, j) = self.locate(TransferType::Outgoing, xfer, file)?;
        let ghost old_v = self@;
        let ev = self.transfers[i].files[j].events.apply(SinkCall::Paused);
        proof {
            let f = old_v[i as int].files[j as int];
            let nf = FileView { sink: step(f.sink, SinkCall::Paused).0, ..f };
            assert(self@[i as int].files =~= old_v[i as int].files.update(j as int, nf));
            assert(self@ =~= with_file(old_v, i as int, j as int, nf));
            assert(unique_file_ids(old_v[i as int].files));
        }
        Ok(ev)
    }

    /// The direction of a live transfer.
    pub fn transfer_type(&self, xfer: &String) -> (r: Option<TransferType>)
        requires
            registry_wf(self@),
        ensures
            r == if has_transfer(self@, xfer@) {
                Some(self@[transfer_index(self@, xfer@)].transfer_type)
            } else {
                None::<TransferType>
            },
    {
        match self.find_transfer(xfer) {
            None => None,
            Some(i) => Some(self.transfers[i].transfer_type),
        }
    }

    /// The last position reported for a file, or 0 for an unknown file.
    pub fn file_bytes(&self, tt: TransferType, xfer: &String, file: &String) -> (r: i64)
        requires
            registry_wf(self@),
        ensures
            r == file_bytes(self@, tt, xfer@, file@),
    {
        match self.locate(tt, xfer, file) {
            Err(_) => 0,
            Ok((i, j)) => {
                assert(self@[i as int].files[j as int] == self.transfers@[i as int].files@[j as int]@);
                self.transfers[i].files[j].events.last_progress() as i64
            },
        }
    }

    /// Marks a whole transfer cancelled; returns the files whose tasks must be
    /// aborted, those not yet terminal, in order.
    pub fn cancel_transfer(&mut self, xfer: &String) -> (r: Result<Vec<String>, Error>)
        requires
            registry_wf(old(self)@),
        ensures
            registry_wf(final(self)@),
            !has_transfer(old(self)@, xfer@) ==> r == Err::<Vec<String>, Error>(Error::BadTransfer) && final(self)@ == old(self)@,
            has_transfer(old(self)@, xfer@) ==> {
                let i = transfer_index(old(self)@, xfer@);
                let t = old(self)@[i];
                &&& r is Ok
                &&& r->Ok_0@.map_values(|s: String| s@) == live_ids(t.files, t.files.len() as int)
                &&& final(self)@ == old(self)@.update(i, TransferView { cancelled: true, ..t })
            },
    {
        let i = match self.find_transfer(xfer) {
            None => return Err(Error::BadTransfer),
            Some(i) => i,
        };
        let ghost old_v = self@;
        let mut ids: Vec<String> = Vec::new();
        let n = self.transfers[i].files.len();
        let mut j: usize = 0;
        while j < n
            invariant
                self@ == old_v,
                i < old_v.len(),
                n == old_v[i as int].files.len(),
                n == self.transfers@[i as int].files@.len(),
                j <= n,
                ids@.map_values(|s: String| s@) == live_ids(old_v[i as int].files, j as int),
            decreases n - j,
        {
            assert(old_v[i as int].files[j as int] == self.transfers@[i as int].files@[j as int]@);
            if !self.transfers[i].files[j].state.is_terminal() {
                ids.push(self.transfers[i].files[j].id.clone());
            }
            assert(ids@.map_values(|s: String| s@) =~= live_ids(old_v[i as int].files, j + 1));
            j += 1;
        }
        self.transfers[i].cancelled = true;
        proof {
            let nt = TransferView { cancelled: true, ..old_v[i as int] };
            assert(self@[i as int].files =~= old_v[i as int].files);
            assert(self@ =~= old_v.update(i as int, nt));
        }
        Ok(ids)
    }

    /// Whether a transfer has ended: cancelled, or every file terminal.
    pub fn is_done(&self, xfer: &String) -> (r: bool)
        requires
            registry_wf(self@),
        ensures
            r == (has_transfer(self@, xfer@) && transfer_done(self@[transfer_index(self@, xfer@)])),
    {
        match self.find_transfer(xfer) {
            None => false,
            Some(i) => self.done_at(i),
        }
    }

    fn done_at(&self, i: usize) -> (r: bool)
        requires
            i < self@.len(),
        ensures
            r == transfer_done(self@[i as int]),
    {
        if self.transfers[i].cancelled {
            return true;
        }
        let n = self.transfers[i].files.len();
        let mut j: usize = 0;
        while j < n
            invariant
                i < self@.len(),
                n == self@[i as int].files.len(),
                n == self.transfers@[i as int].files@.len(),
                !self@[i as int].cancelled,
                j <= n,
                forall|k: int| 0 <= k < j ==> is_terminal_state(#[trigger] self@[i as int].files[k].state),
            decreases n - j,
        {
            assert(self@[i as int].files[j as int] == self.transfers@[i as int].files@[j as int]@);
            if !self.transfers[i].files[j].state.is_terminal() {
                assert(!is_terminal_state(self@[i as int].files[j as int].state));
                return false;
            }
            j += 1;
        }
        true
    }

    /// Drops a transfer from the registry once it has ended. Returns whether
    /// it was dropped.
    pub fn evict_if_done(&mut self, xfer: &String) -> (r: bool)
        requires
            registry_wf(old(self)@),
        ensures
            registry_wf(final(self)@),
            r == (has_transfer(old(self)@, xfer@) && transfer_done(old(self)@[transfer_index(old(self)@, xfer@)])),
            r ==> final(self)@ == old(self)@.remove(transfer_index(old(self)@, xfer@)),
            !r ==> final(self)@ == old(self)@,
    {
        match self.find_transfer(xfer) {
            None => false,
            Some(i) => {
                if self.done_at(i) {
                    let ghost old_v = self@;
                    self.transfers.remove(i);
                    assert(self@ =~= old_v.remove(i as int));
                    assert forall|a: int, b: int| 0 <= a < self@.len() && 0 <= b < self@.len() && self@[a].id == self@[b].id implies a == b by {
                        let a2 = if a < i { a } else { a + 1 };
                        let b2 = if b < i { b } else { b + 1 };
                        assert(self@[a] == old_v[a2]);
                        assert(self@[b] == old_v[b2]);
                    }
                    assert forall|a: int| 0 <= a < self@.len() implies unique_file_ids(#[trigger] self@[a].files) by {
                        let a2 = if a < i { a } else { a + 1 };
                        assert(self@[a] == old_v[a2]);
                    }
                    true
                } else {
                    false
                }
            },
        }
    }
}

/// The bytes a file had reached, as a ledger stores them; 0 for an unknown file.
pub open spec fn file_bytes(v: Seq<TransferView>, tt: TransferType, xfer: Seq<char>, file: Seq<char>) -> i64 {
    match locate(v, tt, xfer, file) {
        Ok((i, j)) => v[i].files[j].sink.last_progress as i64,
        Err(_) => 0,
    }
}

/// The registry with a transfer marked cancelled.
pub open spec fn cancelled_registry(v: Seq<TransferView>, x: Seq<char>) -> Seq<TransferView> {
    if has_transfer(v, x) {
        let i = transfer_index(v, x);
        v.update(i, TransferView { cancelled: true, ..v[i] })
    } else {
        v
    }
}

/// The files of a transfer that are not terminal, in order.
pub open spec fn live_files_of(v: Seq<TransferView>, x: Seq<char>) -> Seq<Seq<char>> {
    if has_transfer(v, x) {
        let t = v[transfer_index(v, x)];
        live_ids(t.files, t.files.len() as int)
    } else {
        Seq::empty()
    }
}

/// A transfer has ended once cancelled or once each of its files is terminal.
pub open spec fn transfer_done(t: TransferView) -> bool {
    t.cancelled || forall|k: int| 0 <= k < t.files.len() ==> is_terminal_state(#[trigger] t.files[k].state)
}

/// A file after a sequence of terminal transitions, and the events told.
pub open spec fn terminal_run(f: FileView, ts: Seq<FileTerminalState>) -> (FileView, Seq<FileEvent>)
    decreases ts.len(),
{
    if ts.len() == 0 {
        (f, Seq::empty())
    } else {
        let (f1, e) = terminal_file_step(f, ts[0]);
        let (f2, rest) = terminal_run(f1, ts.drop_first());
        (f2, match e {
            Some(ev) => seq![ev] + rest,
            None => rest,
        })
    }
}

/// Once a file is terminal, further terminal transitions change nothing and
/// tell nothing.
pub proof fn lemma_terminal_latch(f: FileView, ts: Seq<FileTerminalState>)
    requires
        is_terminal_state(f.state),
    ensures
        terminal_run(f, ts) == (f, Seq::<FileEvent>::empty()),
    decreases ts.len(),
{
    if ts.len() > 0 {
        lemma_terminal_latch(f, ts.drop_first());
    }
}

/// However concurrent cancellations, completions and failures of a file are
/// ordered, the first to arrive decides: the file's recorded state is the one
/// it names, and the application is told exactly that one event.
pub proof fn lemma_first_terminal_wins(f: FileView, ts: Seq<FileTerminalState>)
    requires
        !is_terminal_state(f.state),
        !f.sink.finished,
        ts.len() > 0,
    ensures
        terminal_run(f, ts).0.state == state_of(ts[0]),
        terminal_run(f, ts).1 == seq![event_of(ts[0])],
{
    let (f1, e) = terminal_file_step(f, ts[0]);
    assert(is_terminal_state(f1.state));
    lemma_terminal_latch(f1, ts.drop_first());
    assert(seq![event_of(ts[0])] + Seq::<FileEvent>::empty() =~= seq![event_of(ts[0])]);
}

/// Whatever calls are made on the sink of a registered file, the progress
/// it reports never goes back and never exceeds the file's size.
pub proof fn lemma_file_progress_bounded(v: Seq<TransferView>, i: int, k: int, calls: Seq<SinkCall>)
    requires
        registry_wf(v),
        0 <= i < v.len(),
        0 <= k < v[i].files.len(),
    ensures
        progress_within(run(v[i].files[k].sink, calls).1, v[i].files[k].sink.last_progress, v[i].files[k].size),
{
    assert(sink_fits(v[i].files[k]));
    lemma_progress_monotone(v[i].files[k].sink, calls);
}

} // verus!
