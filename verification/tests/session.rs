use gateway::activity::{
    DialogAction, DialogYesNoOption, FileTransferActivity, FileTransferParams, InputMode, Key,
    LogLevel, OnInputAction, PopupColor, PopupType, TransferStates, UiAction,
};
use gateway::activity_manager::{auth_params, next_after_auth, next_after_filetransfer,
    NextActivity};
use gateway::explorer::FileExplorer;
use gateway::filetransfer::{FileTransferError, FileTransferErrorType, FileTransferProtocol};
use gateway::fs::{FsDirectory, FsEntry, FsFile};
use gateway::host::HostError;
use gateway::transfer::{dir_send_ops, DirOp, TransferAction, TransferEngine, TransferEvent};

fn params() -> FileTransferParams {
    FileTransferParams {
        address: String::from("172.26.104.1"),
        port: 22,
        protocol: FileTransferProtocol::Sftp,
        username: Some(String::from("root")),
        password: None,
    }
}

fn file_named(name: &str) -> FsEntry {
    FsEntry::File(FsFile {
        name: String::from(name),
        abs_path: format!("/tmp/{}", name),
        last_change_time: 0,
        last_access_time: 0,
        creation_time: 0,
        size: 1,
        ftype: None,
        readonly: false,
        symlink: None,
        user: None,
        group: None,
        unix_pex: None,
    })
}

fn dir_named(name: &str) -> FsEntry {
    FsEntry::Directory(FsDirectory {
        name: String::from(name),
        abs_path: format!("/tmp/{}", name),
        last_change_time: 0,
        last_access_time: 0,
        creation_time: 0,
        readonly: false,
        symlink: None,
        user: None,
        group: None,
        unix_pex: None,
    })
}

#[test]
fn test_explorer_dirstack_bound() {
    let mut ex = FileExplorer::new();
    for i in 0..20 {
        ex.pushd(format!("/dir{}", i).as_str());
        assert!(ex.dirstack.len() <= 16);
    }
    assert_eq!(ex.dirstack.len(), 16);
    // Newest first; the oldest were evicted at the back.
    assert_eq!(ex.popd().unwrap(), "/dir19");
    assert_eq!(ex.popd().unwrap(), "/dir18");
    let mut ex2 = FileExplorer::new();
    assert!(ex2.popd().is_none());
}

#[test]
fn test_explorer_sort_files_by_name() {
    let mut ex = FileExplorer::new();
    ex.files = vec![
        file_named("omar.txt"),
        dir_named("Docs"),
        file_named("archive.tar.gz"),
        file_named("Zulu"),
        file_named("alpha"),
    ];
    ex.sort_files_by_name();
    let names: Vec<String> = ex.files.iter().map(|e| e.get_name()).collect();
    assert_eq!(names, vec!["alpha", "archive.tar.gz", "Docs", "omar.txt", "Zulu"]);
}

#[test]
fn test_activity_log_bound() {
    let mut act = FileTransferActivity::new(params());
    for i in 0..300 {
        act.log(LogLevel::Info, format!("event {}", i).as_str());
        assert!(act.log_records.len() <= 256);
    }
    assert_eq!(act.log_records.len(), 256);
    // Newest at the front.
    assert_eq!(act.log_records[0].msg, "event 299");
    assert_eq!(act.log_index, 0);
}

#[test]
fn test_activity_log_and_alert() {
    let mut act = FileTransferActivity::new(params());
    act.log_and_alert(LogLevel::Error, String::from("boom"));
    assert!(matches!(act.log_records[0].level, LogLevel::Error));
    match &act.input_mode {
        InputMode::Popup(PopupType::Alert(c, m)) => {
            assert_eq!(*c, PopupColor::Red);
            assert_eq!(m, "boom");
        }
        _ => panic!("expected an alert popup"),
    }
}

#[test]
fn test_transfer_states_progress() {
    let mut t = TransferStates::new();
    t.set_progress(50, 200);
    assert_eq!(t.progress, 25);
    assert_eq!(t.bytes_written, 50);
    assert_eq!(t.bytes_total, 200);
    // Clamped to [0, 100].
    t.set_progress(300, 200);
    assert_eq!(t.progress, 100);
    t.set_progress(10, 0);
    assert_eq!(t.progress, 100);
    t.reset();
    assert_eq!(t.progress, 0);
    assert!(!t.aborted);
}

#[test]
fn test_transfer_engine_round_trip() {
    // A 200000-byte source pumped through the engine with short writes:
    // the sink receives the source byte for byte.
    let src: Vec<u8> = (0..200000u32).map(|i| (i % 251) as u8).collect();
    let mut sink: Vec<u8> = Vec::new();
    let mut engine = TransferEngine::start(src.len() as u64);
    let mut offset: usize = 0;
    let mut action = TransferAction::Read;
    let mut finalizes = 0;
    loop {
        match action {
            TransferAction::Read => {
                let n = std::cmp::min(65536, src.len() - offset);
                let chunk: Vec<u8> = src[offset..offset + n].to_vec();
                offset += n;
                action = engine.step(TransferEvent::Chunk(chunk));
            }
            TransferAction::Write => {
                // The sink takes at most 1000 bytes at a time.
                let pending = engine.pending_bytes();
                let n = std::cmp::min(1000, pending.len());
                sink.extend_from_slice(&pending[0..n]);
                action = engine.step(TransferEvent::Wrote(n));
            }
            TransferAction::Finalize => {
                finalizes += 1;
                action = engine.step(TransferEvent::Finalized(None));
            }
            TransferAction::Done => break,
        }
    }
    assert_eq!(finalizes, 1);
    assert_eq!(engine.written, src.len() as u64);
    assert!(engine.failed.is_none());
    assert!(!engine.aborted);
    assert_eq!(sink, src);
}

#[test]
fn test_transfer_engine_abort() {
    // A 100 MiB upload aborted after ~10 MiB: the loop exits at the next
    // chunk boundary, the stream is finalized exactly once, and the
    // session logs the warning.
    let total: u64 = 100 * 1024 * 1024;
    let mut engine = TransferEngine::start(total);
    let mut action = TransferAction::Read;
    let mut finalizes = 0;
    let mut sent_abort = false;
    loop {
        match action {
            TransferAction::Read => {
                if engine.written >= 10 * 1024 * 1024 && !sent_abort {
                    sent_abort = true;
                    action = engine.step(TransferEvent::Aborted);
                } else {
                    action = engine.step(TransferEvent::Chunk(vec![7u8; 65536]));
                }
            }
            TransferAction::Write => {
                let n = engine.pending_bytes().len();
                action = engine.step(TransferEvent::Wrote(n));
            }
            TransferAction::Finalize => {
                finalizes += 1;
                action = engine.step(TransferEvent::Finalized(None));
            }
            TransferAction::Done => break,
        }
    }
    assert!(sent_abort);
    assert_eq!(finalizes, 1);
    assert!(engine.aborted);
    assert_eq!(engine.written, 10 * 1024 * 1024);
    assert!(engine.written < total);
    // The session's closing step: the partial file stays, the warning is
    // logged, the abort flag clears.
    let mut act = FileTransferActivity::new(params());
    act.transfer.aborted = true;
    act.finish_transfer("/tmp/big.bin", true);
    assert!(matches!(act.log_records[0].level, LogLevel::Warn));
    assert_eq!(act.log_records[0].msg, "Upload aborted for \"/tmp/big.bin\"!");
    assert!(!act.transfer.aborted);
}

#[test]
fn test_transfer_dir_send_ops() {
    let children = vec![file_named("a"), file_named("b"), dir_named("c")];
    let ops = dir_send_ops("/remote/dest", &children);
    assert_eq!(ops.len(), 4);
    assert!(matches!(&ops[0], DirOp::Mkdir(p) if p == "/remote/dest"));
    assert!(matches!(ops[1], DirOp::SendChild(0)));
    assert!(matches!(ops[2], DirOp::SendChild(1)));
    assert!(matches!(ops[3], DirOp::SendChild(2)));
}

#[test]
fn test_activity_keys_explorer() {
    let mut act = FileTransferActivity::new(params());
    act.local.files = vec![file_named("a"), file_named("b"), file_named("c")];
    // Selection moves clamp to the listing.
    assert!(matches!(act.handle_key(Key::Down), UiAction::Idle));
    assert_eq!(act.local.index, 1);
    assert!(matches!(act.handle_key(Key::PageDown), UiAction::Idle));
    assert_eq!(act.local.index, 2);
    assert!(matches!(act.handle_key(Key::Up), UiAction::Idle));
    assert_eq!(act.local.index, 1);
    assert!(matches!(act.handle_key(Key::PageUp), UiAction::Idle));
    assert_eq!(act.local.index, 0);
    // The bindings that need the caller's hands return actions.
    assert!(matches!(act.handle_key(Key::Enter), UiAction::EnterSelected));
    assert!(matches!(act.handle_key(Key::Space), UiAction::TransferSelected));
    assert!(matches!(act.handle_key(Key::CtrlU), UiAction::GoToParent));
    assert!(matches!(act.handle_key(Key::Backspace), UiAction::PopDir));
    // Help popup.
    assert!(matches!(act.handle_key(Key::CtrlH), UiAction::Idle));
    assert!(matches!(act.input_mode, InputMode::Popup(PopupType::Help)));
    // Dismiss it.
    assert!(matches!(act.handle_key(Key::Esc), UiAction::Idle));
    assert!(matches!(act.input_mode, InputMode::Explorer));
}

#[test]
fn test_activity_keys_input_popup() {
    let mut act = FileTransferActivity::new(params());
    assert!(matches!(act.handle_key(Key::CtrlD), UiAction::Idle));
    match &act.input_mode {
        InputMode::Popup(PopupType::Input(prompt, action)) => {
            assert_eq!(prompt, "Insert directory name");
            assert_eq!(*action, OnInputAction::Mkdir);
        }
        _ => panic!("expected an input popup"),
    }
    act.handle_key(Key::Char('d'));
    act.handle_key(Key::Char('o'));
    act.handle_key(Key::Char('x'));
    act.handle_key(Key::Backspace);
    act.handle_key(Key::Char('c'));
    act.handle_key(Key::Char('s'));
    match act.handle_key(Key::Enter) {
        UiAction::Submit(OnInputAction::Mkdir, text) => assert_eq!(text, "docs"),
        _ => panic!("expected a submit action"),
    }
    assert!(matches!(act.input_mode, InputMode::Explorer));
    assert_eq!(act.input_txt, "");
}

#[test]
fn test_activity_keys_yesno_disconnect() {
    let mut act = FileTransferActivity::new(params());
    assert!(matches!(act.handle_key(Key::Esc), UiAction::Idle));
    assert!(matches!(
        act.input_mode,
        InputMode::Popup(PopupType::YesNo(_, DialogAction::Disconnect, DialogAction::Nothing))
    ));
    assert_eq!(act.choice_opt, DialogYesNoOption::Yes);
    // Choosing yes disconnects.
    assert!(matches!(act.handle_key(Key::Enter), UiAction::Idle));
    assert!(act.disconnected);
    // Choosing no leaves the session standing.
    let mut act2 = FileTransferActivity::new(params());
    act2.handle_key(Key::Esc);
    act2.handle_key(Key::Right);
    assert_eq!(act2.choice_opt, DialogYesNoOption::No);
    act2.handle_key(Key::Enter);
    assert!(!act2.disconnected);
    assert!(matches!(act2.input_mode, InputMode::Explorer));
}

#[test]
fn test_activity_keys_quit() {
    // The quit binding asks for confirmation; yes disconnects and quits.
    let mut act = FileTransferActivity::new(params());
    assert!(matches!(act.handle_key(Key::CtrlQ), UiAction::Idle));
    assert!(matches!(
        act.input_mode,
        InputMode::Popup(PopupType::YesNo(_, DialogAction::Quit, DialogAction::Nothing))
    ));
    assert!(matches!(act.handle_key(Key::Enter), UiAction::Idle));
    assert!(act.quit);
    assert!(act.disconnected);
}

#[test]
fn test_activity_keys_input_unicode() {
    // An input popup accumulates any character.
    let mut act = FileTransferActivity::new(params());
    act.handle_key(Key::CtrlD);
    act.handle_key(Key::Char('ü'));
    act.handle_key(Key::Char('名'));
    match act.handle_key(Key::Enter) {
        UiAction::Submit(OnInputAction::Mkdir, text) => assert_eq!(text, "ü名"),
        _ => panic!("expected a submit action"),
    }
}

#[test]
fn test_activity_keys_progress_abort() {
    let mut act = FileTransferActivity::new(params());
    act.begin_file_progress("big.bin", true);
    assert!(matches!(act.input_mode, InputMode::Popup(PopupType::Progress(_))));
    assert!(!act.transfer.aborted);
    act.handle_key(Key::Esc);
    assert!(act.transfer.aborted);
}

#[test]
fn test_activity_connect_and_scan() {
    let mut act = FileTransferActivity::new(params());
    act.on_connect_result(Ok(Some(String::from("Welcome to the jungle"))));
    assert!(matches!(act.input_mode, InputMode::Explorer));
    assert_eq!(
        act.log_records[0].msg,
        "Established connection with '172.26.104.1': \"Welcome to the jungle\""
    );
    let mut failed = FileTransferActivity::new(params());
    failed.on_connect_result(Err(FileTransferError::new(
        FileTransferErrorType::AuthenticationFailed,
    )));
    match &failed.input_mode {
        InputMode::Popup(PopupType::Fatal(m)) => assert_eq!(m, "Authentication failed"),
        _ => panic!("expected a fatal popup"),
    }
    // A successful scan shows the entries sorted; the selection resets
    // only on a directory change.
    act.apply_remote_scan(Ok(vec![file_named("zz"), file_named("aa")]));
    assert_eq!(act.remote.files[0].get_name(), "aa");
    assert_eq!(act.remote.files[1].get_name(), "zz");
    // A failed scan logs and alerts.
    act.apply_local_scan(Err(HostError::DirNotAccessible));
    assert_eq!(
        act.log_records[0].msg,
        "Could not scan current directory: Could not access directory"
    );
}

#[test]
fn test_activity_changedir() {
    let mut act = FileTransferActivity::new(params());
    act.local_changedir("/tmp", Ok(vec![file_named("x")]), true);
    assert_eq!(act.local.wrkdir, "/tmp");
    assert_eq!(act.local.index, 0);
    assert_eq!(act.log_records[0].msg, "Changed directory on local: /tmp");
    // The left directory went onto the stack.
    assert_eq!(act.local.dirstack.len(), 1);
    assert_eq!(act.local.dirstack[0], "/");
    // A failed change leaves the pane standing.
    act.remote_changedir(
        "/nope",
        Err(FileTransferError::new(FileTransferErrorType::NoSuchFileOrDirectory)),
        true,
    );
    assert_eq!(act.remote.wrkdir, "/");
    assert_eq!(
        act.log_records[0].msg,
        "Could not change working directory: No such file or directory"
    );
}

#[test]
fn test_activity_edit_precheck() {
    let mut act = FileTransferActivity::new(params());
    assert!(act.edit_precheck(b"plain text, nothing else"));
    assert!(!act.edit_precheck(b"\x00\x01\x02binary\x00"));
    assert_eq!(
        act.log_records[0].msg,
        "Could not open file in editor: file is binary"
    );
}

#[test]
fn test_error_messages() {
    let err = FileTransferError::new_ex(
        FileTransferErrorType::ConnectionError,
        String::from("connection refused"),
    );
    assert_eq!(err.msg_string(), "Connection error (connection refused)");
    let plain = FileTransferError::new(FileTransferErrorType::UnsupportedFeature);
    assert_eq!(plain.msg_string(), "Unsupported feature");
}

#[test]
fn test_manager_decisions() {
    assert_eq!(next_after_auth(false, false), None);
    assert_eq!(next_after_auth(true, false), Some(None));
    assert_eq!(next_after_auth(false, true), Some(Some(NextActivity::FileTransfer)));
    assert_eq!(next_after_auth(true, true), Some(None));
    assert_eq!(next_after_filetransfer(false, false), None);
    assert_eq!(next_after_filetransfer(true, false), Some(None));
    assert_eq!(
        next_after_filetransfer(false, true),
        Some(Some(NextActivity::Authentication))
    );
    let p = auth_params(
        String::from("172.26.104.1"),
        "8022",
        String::from("root"),
        String::new(),
        FileTransferProtocol::Scp,
    )
    .unwrap();
    assert_eq!(p.port, 8022);
    assert_eq!(p.username.unwrap(), "root");
    assert!(p.password.is_none());
    assert!(auth_params(
        String::from("h"),
        "66666",
        String::new(),
        String::new(),
        FileTransferProtocol::Sftp,
    )
    .is_none());
}

#[test]
fn test_transfer_saved_log() {
    let mut act = FileTransferActivity::new(params());
    act.log_saved_file("/tmp/a.txt", "/remote/a.txt", "8.2 KB", "2.048");
    assert_eq!(
        act.log_records[0].msg,
        "Saved file \"/tmp/a.txt\" to \"/remote/a.txt\" (took 2.048 seconds; at 8.2 KB/s)"
    );
    act.log_created_dir("/remote/docs");
    assert_eq!(act.log_records[0].msg, "Created directory \"/remote/docs\"");
}
