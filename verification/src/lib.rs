//! Gateway: a dual-pane terminal file-transfer client library.
//!
//! The crate holds the verified core of the client: the file-system data
//! model, the remote-target parser, the FTP `LIST` grammar, the explorer and
//! logging state, and the streaming transfer engine. Terminal drawing and
//! real file or network input/output live outside the library and drive it
//! through plain values.

pub mod activity;
pub mod activity_manager;
pub mod explorer;
pub mod filetransfer;
pub mod fs;
pub mod ftp_transfer;
pub mod host;
pub mod transfer;
pub mod utils;
