//! Control messages of the transfer protocol, and the actions that a protocol
//! loop hands to the runtime that drives it.
use vstd::prelude::*;
use crate::error::Error;
use crate::events::FileEvent;
use crate::storage::{TransferInfo, TransferPath};

verus! {

/// One file offered in a transfer request.
#[derive(Debug, Clone)]
pub struct FileDesc {
    pub id: String,
    pub path: String,
    pub size: u64,
}

/// Messages from the receiver (server) to the sender (client).
#[derive(Debug, Clone)]
pub enum ServerMsg {
    Progress { file: String, bytes_transfered: u64 },
    Done { file: String, bytes_transfered: u64 },
    Error { file: Option<String>, msg: String },
    ReqChsum { file: String, limit: u64 },
    Start { file: String, offset: u64 },
    Cancel { file: String },
    Reject { file: String },
}

/// Messages from the sender (client) to the receiver (server).
#[derive(Debug, Clone)]
pub enum ClientMsg {
    TransferRequest { id: String, files: Vec<FileDesc> },
    ReportChsum { file: String, limit: u64, checksum: Vec<u8> },
    Error { file: Option<String>, error: Error },
    Cancel { file: String },
    Reject { file: String },
}

pub enum ClientMsgView {
    TransferRequest { id: Seq<char>, files: Seq<(Seq<char>, Seq<char>, u64)> },
    ReportChsum { file: Seq<char>, limit: u64, checksum: Seq<u8> },
    Error { file: Option<Seq<char>>, error: Error },
    Cancel { file: Seq<char> },
    Reject { file: Seq<char> },
}

pub open spec fn opt_view(o: Option<String>) -> Option<Seq<char>> {
    match o {
        Some(s) => Some(s@),
        None => None,
    }
}

impl View for ClientMsg {
    type V = ClientMsgView;

    open spec fn view(&self) -> ClientMsgView {
        match self {
            ClientMsg::TransferRequest { id, files } => ClientMsgView::TransferRequest {
                id: id@,
                files: files@.map_values(|f: FileDesc| (f.id@, f.path@, f.size)),
            },
            ClientMsg::ReportChsum { file, limit, checksum } => ClientMsgView::ReportChsum {
                file: file@,
                limit: *limit,
                checksum: checksum@,
            },
            ClientMsg::Error { file, error } => ClientMsgView::Error { file: opt_view(*file), error: *error },
            ClientMsg::Cancel { file } => ClientMsgView::Cancel { file: file@ },
            ClientMsg::Reject { file } => ClientMsgView::Reject { file: file@ },
        }
    }
}

/// What a protocol loop asks its runtime to do.
#[derive(Debug, Clone)]
pub enum Action {
    /// Hand a file event to the application, with the peer's own words
    /// where it reported the cause.
    Emit { file: String, event: FileEvent, detail: Option<String> },
    /// Send a control message to the peer.
    Send(ClientMsg),
    /// Start the upload task of a file from a byte offset.
    Upload { file: String, offset: u64 },
    /// Compute the checksum of a file's first `limit` bytes and report it back.
    Checksum { file: String, limit: u64 },
    /// Abort the task of a file.
    Abort { file: String },
    /// Tell the application that the whole transfer was cancelled.
    TransferCanceled { by_peer: bool },
    /// Tell the application that the whole transfer failed.
    TransferFailed { error: Error },
}

pub enum ActionView {
    Emit { file: Seq<char>, event: FileEvent, detail: Option<Seq<char>> },
    Send(ClientMsgView),
    Upload { file: Seq<char>, offset: u64 },
    Checksum { file: Seq<char>, limit: u64 },
    Abort { file: Seq<char> },
    TransferCanceled { by_peer: bool },
    TransferFailed { error: Error },
}

impl View for Action {
    type V = ActionView;

    open spec fn view(&self) -> ActionView {
        match self {
            Action::Emit { file, event, detail } => ActionView::Emit { file: file@, event: *event, detail: opt_view(*detail) },
            Action::Send(m) => ActionView::Send(m@),
            Action::Upload { file, offset } => ActionView::Upload { file: file@, offset: *offset },
            Action::Checksum { file, limit } => ActionView::Checksum { file: file@, limit: *limit },
            Action::Abort { file } => ActionView::Abort { file: file@ },
            Action::TransferCanceled { by_peer } => ActionView::TransferCanceled { by_peer: *by_peer },
            Action::TransferFailed { error } => ActionView::TransferFailed { error: *error },
        }
    }
}

pub open spec fn actions_view(a: Seq<Action>) -> Seq<ActionView> {
    a.map_values(|x: Action| x@)
}

/// The event to hand on, if a sink emitted one.
pub open spec fn emitted(file: Seq<char>, r: Result<Option<FileEvent>, Error>) -> Seq<ActionView> {
    emitted_with(file, r, None)
}

/// The event to hand on, if a sink emitted one, with the peer's words.
pub open spec fn emitted_with(file: Seq<char>, r: Result<Option<FileEvent>, Error>, detail: Option<Seq<char>>) -> Seq<ActionView> {
    match r {
        Ok(Some(ev)) => seq![ActionView::Emit { file, event: ev, detail }],
        _ => Seq::empty(),
    }
}

pub fn clone_opt(o: &Option<String>) -> (r: Option<String>)
    ensures
        opt_view(r) == opt_view(*o),
{
    match o {
        Some(s) => Some(s.clone()),
        None => None,
    }
}

impl ClientMsg {
    pub fn clone_msg(&self) -> (r: ClientMsg)
        ensures
            r@ == self@,
    {
        match self {
            ClientMsg::TransferRequest { id, files } => {
                let mut out: Vec<FileDesc> = Vec::new();
                let mut k: usize = 0;
                while k < files.len()
                    invariant
                        k <= files@.len(),
                        out@.len() == k,
                        out@.map_values(|f: FileDesc| (f.id@, f.path@, f.size))
                            == files@.map_values(|f: FileDesc| (f.id@, f.path@, f.size)).take(k as int),
                    decreases files.len() - k,
                {
                    let f = &files[k];
                    out.push(FileDesc { id: f.id.clone(), path: f.path.clone(), size: f.size });
                    assert(out@.map_values(|f: FileDesc| (f.id@, f.path@, f.size))
                        =~= files@.map_values(|f: FileDesc| (f.id@, f.path@, f.size)).take(k + 1));
                    k += 1;
                }
                assert(files@.map_values(|f: FileDesc| (f.id@, f.path@, f.size)).take(files@.len() as int)
                    =~= files@.map_values(|f: FileDesc| (f.id@, f.path@, f.size)));
                ClientMsg::TransferRequest { id: id.clone(), files: out }
            },
            ClientMsg::ReportChsum { file, limit, checksum } => {
                ClientMsg::ReportChsum { file: file.clone(), limit: *limit, checksum: checksum.clone() }
            },
            ClientMsg::Error { file, error } => ClientMsg::Error { file: clone_opt(file), error: *error },
            ClientMsg::Cancel { file } => ClientMsg::Cancel { file: file.clone() },
            ClientMsg::Reject { file } => ClientMsg::Reject { file: file.clone() },
        }
    }
}

impl Action {
    pub fn clone_action(&self) -> (r: Action)
        ensures
            r@ == self@,
    {
        match self {
            Action::Emit { file, event, detail } => Action::Emit { file: file.clone(), event: *event, detail: clone_opt(detail) },
            Action::Send(m) => Action::Send(m.clone_msg()),
            Action::Upload { file, offset } => Action::Upload { file: file.clone(), offset: *offset },
            Action::Checksum { file, limit } => Action::Checksum { file: file.clone(), limit: *limit },
            Action::Abort { file } => Action::Abort { file: file.clone() },
            Action::TransferCanceled { by_peer } => Action::TransferCanceled { by_peer: *by_peer },
            Action::TransferFailed { error } => Action::TransferFailed { error: *error },
        }
    }
}

/// The request that opens a transfer: its identifier and each file's
/// identifier, path and size.
pub fn transfer_request(info: &TransferInfo) -> (r: ClientMsg)
    ensures
        r@ == (ClientMsgView::TransferRequest {
            id: info.id@,
            files: info.files@.map_values(|p: TransferPath| (p.id@, p.path@, p.size as u64)),
        }),
{
    let mut files: Vec<FileDesc> = Vec::new();
    let mut k: usize = 0;
    while k < info.files.len()
        invariant
            k <= info.files@.len(),
            files@.len() == k,
            files@.map_values(|f: FileDesc| (f.id@, f.path@, f.size))
                == info.files@.map_values(|p: TransferPath| (p.id@, p.path@, p.size as u64)).take(k as int),
        decreases info.files.len() - k,
    {
        let p = &info.files[k];
        files.push(FileDesc { id: p.id.clone(), path: p.path.clone(), size: p.size as u64 });
        assert(files@.map_values(|f: FileDesc| (f.id@, f.path@, f.size))
            =~= info.files@.map_values(|p: TransferPath| (p.id@, p.path@, p.size as u64)).take(k + 1));
        k += 1;
    }
    assert(info.files@.map_values(|p: TransferPath| (p.id@, p.path@, p.size as u64)).take(info.files@.len() as int)
        =~= info.files@.map_values(|p: TransferPath| (p.id@, p.path@, p.size as u64)));
    ClientMsg::TransferRequest { id: info.id.clone(), files }
}

/// Appends the emit action for what a sink returned.
pub fn push_emitted(acts: &mut Vec<Action>, file: &String, r: Result<Option<FileEvent>, Error>)
    ensures
        actions_view(final(acts)@) == actions_view(old(acts)@) + emitted(file@, r),
{
    push_emitted_with(acts, file, r, &None)
}

/// Appends the emit action for what a sink returned, with the peer's words.
pub fn push_emitted_with(acts: &mut Vec<Action>, file: &String, r: Result<Option<FileEvent>, Error>, detail: &Option<String>)
    ensures
        actions_view(final(acts)@) == actions_view(old(acts)@) + emitted_with(file@, r, opt_view(*detail)),
{
    let ghost before = actions_view(acts@);
    match r {
        Ok(Some(ev)) => {
            acts.push(Action::Emit { file: file.clone(), event: ev, detail: clone_opt(detail) });
            assert(actions_view(acts@) =~= before + emitted_with(file@, r, opt_view(*detail)));
        },
        _ => {
            assert(actions_view(acts@) =~= before + emitted_with(file@, r, opt_view(*detail)));
        },
    }
}

/// Appends the actions of `more`, in order.
pub fn append_actions(acts: &mut Vec<Action>, more: &Vec<Action>)
    ensures
        actions_view(final(acts)@) == actions_view(old(acts)@) + actions_view(more@),
{
    let ghost a0 = actions_view(acts@);
    let mut k: usize = 0;
    while k < more.len()
        invariant
            k <= more@.len(),
            actions_view(acts@) == a0 + actions_view(more@).take(k as int),
        decreases more.len() - k,
    {
        push_action(acts, more[k].clone_action());
        assert(actions_view(acts@) =~= a0 + actions_view(more@).take(k + 1));
        k += 1;
    }
    assert(actions_view(more@).take(more@.len() as int) =~= actions_view(more@));
}

/// Appends one action.
pub fn push_action(acts: &mut Vec<Action>, a: Action)
    ensures
        actions_view(final(acts)@) == actions_view(old(acts)@).push(a@),
{
    acts.push(a);
    assert(actions_view(acts@) =~= actions_view(old(acts)@).push(a@));
}

} // verus!
