//! The file-transfer capability: the protocol set, the error values every
//! back-end surfaces, and the trait the back-ends implement.

use vstd::prelude::*;
use crate::utils::chars_of;
use crate::fs::{FsEntry, FsFile};

verus! {

/// The closed set of wire protocols a session can use.
/// `Ftp(true)` stands for FTPS.
#[derive(PartialEq, Eq, Structural, Debug, Clone, Copy)]
pub enum FileTransferProtocol {
    Sftp,
    Scp,
    Ftp(bool),
}

/// The closed set of error kinds the user interface branches on.
/// `IoErr` carries the text of the underlying input/output error.
#[derive(Debug, Clone)]
pub enum FileTransferErrorType {
    AuthenticationFailed,
    BadAddress,
    ConnectionError,
    SslError,
    DirStatFailed,
    FileCreateDenied,
    IoErr(String),
    NoSuchFileOrDirectory,
    PexError,
    ProtocolError,
    UninitializedSession,
    UnsupportedFeature,
}

/// An error from a file-transfer back-end: a kind and an optional
/// human-readable detail.
#[derive(Debug, Clone)]
pub struct FileTransferError {
    pub code: FileTransferErrorType,
    pub msg: Option<String>,
}

/// The base message for an error kind, as the interface shows it.
pub open spec fn error_kind_msg(code: FileTransferErrorType) -> Seq<char> {
    match code {
        FileTransferErrorType::AuthenticationFailed => "Authentication failed"@,
        FileTransferErrorType::BadAddress => "Bad address syntax"@,
        FileTransferErrorType::ConnectionError => "Connection error"@,
        FileTransferErrorType::SslError => "SSL error"@,
        FileTransferErrorType::DirStatFailed => "Could not stat directory"@,
        FileTransferErrorType::FileCreateDenied => "Failed to create file"@,
        FileTransferErrorType::IoErr(e) => "IO Error: "@ + e@,
        FileTransferErrorType::NoSuchFileOrDirectory => "No such file or directory"@,
        FileTransferErrorType::PexError => "Not enough permissions"@,
        FileTransferErrorType::ProtocolError => "Protocol error"@,
        FileTransferErrorType::UninitializedSession => "Uninitialized session"@,
        FileTransferErrorType::UnsupportedFeature => "Unsupported feature"@,
    }
}

/// The full message for an error: the kind's message, with the detail
/// appended in parentheses when one is present.
pub open spec fn error_msg(e: FileTransferError) -> Seq<char> {
    match e.msg {
        Some(m) => error_kind_msg(e.code) + " ("@ + m@ + ")"@,
        None => error_kind_msg(e.code),
    }
}

impl FileTransferError {
    /// Instantiates a new FileTransferError without detail.
    pub fn new(code: FileTransferErrorType) -> (r: FileTransferError)
        ensures
            r.code == code,
            r.msg is None,
    {
        FileTransferError { code, msg: None }
    }

    /// Instantiates a new FileTransferError with a detail message.
    pub fn new_ex(code: FileTransferErrorType, msg: String) -> (r: FileTransferError)
        ensures
            r.code == code,
            r.msg == Some(msg),
    {
        let mut err: FileTransferError = FileTransferError::new(code);
        err.msg = Some(msg);
        err
    }

    /// The human-readable text of the error.
    pub fn msg_string(&self) -> (r: String)
        ensures
            r@ == error_msg(*self),
    {
        let base: String = match &self.code {
            FileTransferErrorType::AuthenticationFailed => String::from_str("Authentication failed"),
            FileTransferErrorType::BadAddress => String::from_str("Bad address syntax"),
            FileTransferErrorType::ConnectionError => String::from_str("Connection error"),
            FileTransferErrorType::SslError => String::from_str("SSL error"),
            FileTransferErrorType::DirStatFailed => String::from_str("Could not stat directory"),
            FileTransferErrorType::FileCreateDenied => String::from_str("Failed to create file"),
            FileTransferErrorType::IoErr(e) => String::from_str("IO Error: ").concat(e.as_str()),
            FileTransferErrorType::NoSuchFileOrDirectory => String::from_str("No such file or directory"),
            FileTransferErrorType::PexError => String::from_str("Not enough permissions"),
            FileTransferErrorType::ProtocolError => String::from_str("Protocol error"),
            FileTransferErrorType::UninitializedSession => String::from_str("Uninitialized session"),
            FileTransferErrorType::UnsupportedFeature => String::from_str("Unsupported feature"),
        };
        match &self.msg {
            Some(m) => base.concat(" (").concat(m.as_str()).concat(")"),
            None => base,
        }
    }
}

/// The capability set every file-transfer back-end offers. Back-ends run
/// the wire and are implemented by the caller; nothing is promised of
/// them, and the session treats every outcome.
///
/// A transfer stream lives inside the back-end: `send_file` or `recv_file`
/// opens it, `write_chunk` or `read_chunk` moves bytes, and `on_sent` or
/// `on_recv` finalizes it — the end-of-stream handshake some protocols
/// need. One transfer runs at a time.
pub trait FileTransfer {
    /// Connect to the remote server; may return its banner.
    fn connect(
        &mut self,
        address: String,
        port: u16,
        username: Option<String>,
        password: Option<String>,
    ) -> Result<Option<String>, FileTransferError>;

    /// Disconnect from the remote server.
    fn disconnect(&mut self) -> Result<(), FileTransferError>;

    /// Whether the client is connected to the remote.
    fn is_connected(&self) -> bool;

    /// The server's current directory.
    fn pwd(&mut self) -> Result<String, FileTransferError>;

    /// Change the server's working directory.
    fn change_dir(&mut self, dir: &str) -> Result<String, FileTransferError>;

    /// List a directory's entries.
    fn list_dir(&mut self, path: &str) -> Result<Vec<FsEntry>, FileTransferError>;

    /// Make a directory; must fail when it already exists.
    fn mkdir(&mut self, dir: &str) -> Result<(), FileTransferError>;

    /// Remove a file, or a directory with its contents.
    fn remove(&mut self, file: &FsEntry) -> Result<(), FileTransferError>;

    /// Rename a file or a directory; only the destination's base name is
    /// used.
    fn rename(&mut self, file: &FsEntry, dst: &str) -> Result<(), FileTransferError>;

    /// Stat a path.
    fn stat(&mut self, path: &str) -> Result<FsEntry, FileTransferError>;

    /// Open the upload stream for a local file at the remote path.
    fn send_file(&mut self, local: &FsFile, file_name: &str) -> Result<(), FileTransferError>;

    /// Write bytes into the open upload stream; returns how many the sink
    /// took.
    fn write_chunk(&mut self, data: &[u8]) -> Result<usize, FileTransferError>;

    /// Finalize the upload stream.
    fn on_sent(&mut self) -> Result<(), FileTransferError>;

    /// Open the download stream of a remote file.
    fn recv_file(&mut self, file: &FsFile) -> Result<(), FileTransferError>;

    /// Read at most `max` bytes from the open download stream; an empty
    /// answer means the stream ended.
    fn read_chunk(&mut self, max: usize) -> Result<Vec<u8>, FileTransferError>;

    /// Finalize the download stream.
    fn on_recv(&mut self) -> Result<(), FileTransferError>;
}

} // verus!
