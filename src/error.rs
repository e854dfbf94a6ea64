use vstd::prelude::*;

verus! {

/// Every error kind the engine distinguishes.
#[derive(Debug, Copy, Clone, PartialEq, Eq, Structural)]
pub enum Error {
    Canceled,
    BadTransfer,
    BadTransferState,
    BadFile,
    BadPath,
    IoError(u32),
    TransferTimeout,
    FileRejected,
    FileNotFound,
    ConnectionLost,
    PeerDisconnected,
    AuthenticationFailed,
    InvalidConfig,
    DirectoryTooDeep,
    TooManyFiles,
    TransferAlreadyExists,
    LedgerError,
    BadInput,
    /// A file's upload was asked for while its task still runs.
    TransferInProgress,
}

/// Whether an error fails only the file it concerns; the transfer goes on.
pub open spec fn is_file_level(e: Error) -> bool {
    matches!(e, Error::BadFile | Error::IoError(_) | Error::FileRejected)
}

impl Error {
    /// Status code reported to the embedding application and stored in the ledger.
    pub fn status_code(&self) -> (r: u32)
        ensures
            r == status_code_of(*self),
    {
        match self {
            Error::Canceled => 1,
            Error::BadTransfer => 2,
            Error::BadTransferState => 3,
            Error::BadFile => 4,
            Error::BadPath => 5,
            Error::IoError(_) => 6,
            Error::TransferTimeout => 7,
            Error::FileRejected => 8,
            Error::FileNotFound => 9,
            Error::ConnectionLost => 10,
            Error::PeerDisconnected => 11,
            Error::AuthenticationFailed => 12,
            Error::InvalidConfig => 13,
            Error::DirectoryTooDeep => 14,
            Error::TooManyFiles => 15,
            Error::TransferAlreadyExists => 16,
            Error::LedgerError => 17,
            Error::BadInput => 18,
            Error::TransferInProgress => 19,
        }
    }

    /// Whether this error fails only one file.
    pub fn is_file_level(&self) -> (r: bool)
        ensures
            r == is_file_level(*self),
    {
        match self {
            Error::BadFile | Error::IoError(_) | Error::FileRejected => true,
            _ => false,
        }
    }
}

/// The status code of each error kind; distinct kinds have distinct codes.
pub open spec fn status_code_of(e: Error) -> u32 {
    match e {
        Error::Canceled => 1,
        Error::BadTransfer => 2,
        Error::BadTransferState => 3,
        Error::BadFile => 4,
        Error::BadPath => 5,
        Error::IoError(_) => 6,
        Error::TransferTimeout => 7,
        Error::FileRejected => 8,
        Error::FileNotFound => 9,
        Error::ConnectionLost => 10,
        Error::PeerDisconnected => 11,
        Error::AuthenticationFailed => 12,
        Error::InvalidConfig => 13,
        Error::DirectoryTooDeep => 14,
        Error::TooManyFiles => 15,
        Error::TransferAlreadyExists => 16,
        Error::LedgerError => 17,
        Error::BadInput => 18,
        Error::TransferInProgress => 19,
    }
}

} // verus!
