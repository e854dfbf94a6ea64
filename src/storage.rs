//! Records of the persistent ledger and the shapes in which history is read back.
use vstd::prelude::*;

verus! {

/// Direction of a transfer, seen from this peer.
#[derive(Debug, Copy, Clone, PartialEq, Eq, Structural)]
pub enum TransferType {
    Incoming,
    Outgoing,
}

/// One file of a transfer as the ledger records it on creation.
#[derive(Debug, Clone)]
pub struct TransferPath {
    pub id: String,
    pub path: String,
    pub size: i64,
}

/// A transfer as the ledger records it on creation.
#[derive(Debug, Clone)]
pub struct TransferInfo {
    pub id: String,
    pub peer: String,
    pub files: Vec<TransferPath>,
}

/// A state change handed to the ledger.
#[derive(Debug, Clone)]
pub enum Event {
    Pending { transfer_type: TransferType, transfer_info: TransferInfo },
    Started { transfer_type: TransferType, transfer_id: String, file_id: String },
    FileCanceled { transfer_type: TransferType, transfer_id: String, file_id: String, by_peer: bool },
    TransferCanceled { transfer_type: TransferType, transfer_info: TransferInfo, by_peer: bool },
    FileFailed { transfer_type: TransferType, transfer_id: String, file_id: String, error_code: u32 },
    TransferFailed { transfer_type: TransferType, transfer_info: TransferInfo, error_code: u32 },
    FileUploadComplete { transfer_id: String, file_id: String },
    FileDownloadComplete { transfer_id: String, file_id: String, final_path: String },
    Progress { transfer_id: String, file_id: String, progress: i64 },
}

/// The files of a transfer read back from the ledger, by direction.
#[derive(Debug, Clone)]
pub enum DbTransferType {
    Incoming(Vec<IncomingPath>),
    Outgoing(Vec<OutgoingPath>),
}

#[derive(Debug, Clone)]
pub struct Peer {
    pub id: Option<String>,
    pub created_at: i64,
}

/// A transfer read back from the ledger, with its history.
#[derive(Debug, Clone)]
pub struct Transfer {
    pub id: String,
    pub peer_id: String,
    pub transfer_type: DbTransferType,
    pub created_at: i64,
    pub active_states: Vec<TransferActiveState>,
    pub cancel_states: Vec<TransferCancelState>,
    pub failed_states: Vec<TransferFailedState>,
}

#[derive(Debug, Clone)]
pub struct TransferActiveState {
    pub transfer_id: String,
    pub created_at: i64,
}

#[derive(Debug, Clone)]
pub struct TransferCancelState {
    pub transfer_id: String,
    pub by_peer: i64,
    pub created_at: i64,
}

#[derive(Debug, Clone)]
pub struct TransferFailedState {
    pub transfer_id: String,
    pub status_code: i64,
    pub created_at: i64,
}

#[derive(Debug, Clone)]
pub struct OutgoingPath {
    pub id: i64,
    pub transfer_id: String,
    pub path: String,
    pub bytes: i64,
    pub created_at: i64,
    pub pending_states: Vec<OutgoingPathPendingState>,
    pub started_states: Vec<OutgoingPathStartedState>,
    pub cancel_states: Vec<OutgoingPathCancelState>,
    pub failed_states: Vec<OutgoingPathFailedState>,
    pub completed_states: Vec<OutgoingPathCompletedState>,
}

#[derive(Debug, Clone)]
pub struct OutgoingPathPendingState {
    pub path_id: i64,
    pub created_at: i64,
}

#[derive(Debug, Clone)]
pub struct OutgoingPathStartedState {
    pub path_id: i64,
    pub bytes_sent: i64,
    pub created_at: i64,
}

#[derive(Debug, Clone)]
pub struct OutgoingPathCancelState {
    pub path_id: i64,
    pub by_peer: i64,
    pub bytes_sent: i64,
    pub created_at: i64,
}

#[derive(Debug, Clone)]
pub struct OutgoingPathFailedState {
    pub path_id: i64,
    pub status_code: i64,
    pub bytes_sent: i64,
    pub created_at: i64,
}

#[derive(Debug, Clone)]
pub struct OutgoingPathCompletedState {
    pub path_id: i64,
    pub created_at: i64,
}

#[derive(Debug, Clone)]
pub struct IncomingPath {
    pub id: i64,
    pub transfer_id: String,
    pub path: String,
    pub bytes: i64,
    pub created_at: i64,
    pub pending_states: Vec<IncomingPathPendingState>,
    pub started_states: Vec<IncomingPathStartedState>,
    pub cancel_states: Vec<IncomingPathCancelState>,
    pub failed_states: Vec<IncomingPathFailedState>,
    pub completed_states: Vec<IncomingPathCompletedState>,
}

#[derive(Debug, Clone)]
pub struct IncomingPathPendingState {
    pub path_id: i64,
    pub created_at: i64,
}

#[derive(Debug, Clone)]
pub struct IncomingPathStartedState {
    pub path_id: i64,
    pub bytes_received: i64,
    pub created_at: i64,
}

#[derive(Debug, Clone)]
pub struct IncomingPathCancelState {
    pub path_id: i64,
    pub by_peer: i64,
    pub bytes_received: i64,
    pub created_at: i64,
}

#[derive(Debug, Clone)]
pub struct IncomingPathFailedState {
    pub path_id: i64,
    pub status_code: i64,
    pub bytes_received: i64,
    pub created_at: i64,
}

#[derive(Debug, Clone)]
pub struct IncomingPathCompletedState {
    pub path_id: i64,
    pub final_path: String,
    pub created_at: i64,
}

} // verus!
