use gateway::ftp_transfer::FtpFileTransfer;
use gateway::fs::FsEntry;

#[test]
fn test_filetransfer_ftp_new() {
    let ftp: FtpFileTransfer = FtpFileTransfer::new(false);
    assert_eq!(ftp.ftps, false);
    assert!(!ftp.is_connected());
    // FTPS
    let ftp: FtpFileTransfer = FtpFileTransfer::new(true);
    assert_eq!(ftp.ftps, true);
    assert!(!ftp.is_connected());
}

fn current_year() -> i32 {
    chrono::Datelike::year(&chrono::Utc::now())
}

fn epoch_of(y: i32, m: u32, d: u32, h: u32, mi: u32) -> u64 {
    chrono::NaiveDate::from_ymd_opt(y, m, d)
        .unwrap()
        .and_hms_opt(h, mi, 0)
        .unwrap()
        .and_utc()
        .timestamp() as u64
}

#[test]
fn test_filetransfer_ftp_parse_list_line() {
    let ftp: FtpFileTransfer = FtpFileTransfer::new(false);
    // Simple file
    let fs_entry: FsEntry = ftp
        .parse_list_line("/tmp", "-rw-rw-r-- 1 root  dialout  8192 Nov 5 2018 omar.txt")
        .ok()
        .unwrap();
    if let FsEntry::File(file) = fs_entry {
        assert_eq!(file.abs_path, String::from("/tmp/omar.txt"));
        assert_eq!(file.name, String::from("omar.txt"));
        assert_eq!(file.size, 8192);
        assert_eq!(file.symlink, None);
        assert_eq!(file.user, None);
        assert_eq!(file.group, None);
        assert_eq!(file.unix_pex.unwrap(), (6, 6, 4));
        assert_eq!(file.last_access_time, 1541376000);
        assert_eq!(file.last_change_time, 1541376000);
        assert_eq!(file.creation_time, 1541376000);
    } else {
        panic!("Expected file, got directory");
    }
    // Simple file with number as gid, uid; the mtime without a year reads
    // in the current year.
    let fs_entry: FsEntry = ftp
        .parse_list_line("/tmp", "-rwxr-xr-x 1 0  9  4096 Nov 5 16:32 omar.txt")
        .ok()
        .unwrap();
    let now_mtime = epoch_of(current_year(), 11, 5, 16, 32);
    if let FsEntry::File(file) = fs_entry {
        assert_eq!(file.abs_path, String::from("/tmp/omar.txt"));
        assert_eq!(file.name, String::from("omar.txt"));
        assert_eq!(file.size, 4096);
        assert_eq!(file.symlink, None);
        assert_eq!(file.user, Some(0));
        assert_eq!(file.group, Some(9));
        assert_eq!(file.unix_pex.unwrap(), (7, 5, 5));
        assert_eq!(file.last_access_time, now_mtime);
        assert_eq!(file.last_change_time, now_mtime);
        assert_eq!(file.creation_time, now_mtime);
    } else {
        panic!("Expected file, got directory");
    }
    // Directory
    let fs_entry: FsEntry = ftp
        .parse_list_line("/tmp", "drwxrwxr-x 1 0  9  4096 Nov 5 2018 docs")
        .ok()
        .unwrap();
    if let FsEntry::Directory(dir) = fs_entry {
        assert_eq!(dir.abs_path, String::from("/tmp/docs"));
        assert_eq!(dir.name, String::from("docs"));
        assert_eq!(dir.symlink, None);
        assert_eq!(dir.user, Some(0));
        assert_eq!(dir.group, Some(9));
        assert_eq!(dir.unix_pex.unwrap(), (7, 7, 5));
        assert_eq!(dir.last_access_time, 1541376000);
        assert_eq!(dir.last_change_time, 1541376000);
        assert_eq!(dir.creation_time, 1541376000);
        assert_eq!(dir.readonly, false);
    } else {
        panic!("Expected directory, got directory");
    }
    // Error
    assert!(ftp
        .parse_list_line("/", "drwxrwxr-x 1 0  9  Nov 5 2018 docs")
        .is_err());
}

#[test]
fn test_filetransfer_ftp_parse_list_line_details() {
    let ftp: FtpFileTransfer = FtpFileTransfer::new(false);
    // A symlink line (`l`) yields a file without a symlink target.
    let e = ftp
        .parse_list_line("/tmp", "lrwxrwxrwx 1 0 0 11 Nov 5 2018 link.txt")
        .ok()
        .unwrap();
    assert!(!e.is_dir());
    // The file's extension comes from its own name.
    let e = ftp
        .parse_list_line("/tmp", "-rw-r--r-- 1 0 0 42 Nov 5 2018 notes.md")
        .ok()
        .unwrap();
    if let FsEntry::File(f) = e {
        assert_eq!(f.ftype.unwrap(), "md");
    } else {
        panic!("expected a file");
    }
    // A name with spaces survives whole.
    let e = ftp
        .parse_list_line("/tmp", "-rw-r--r-- 1 0 0 42 Nov 5 2018 two words.txt")
        .ok()
        .unwrap();
    assert_eq!(e.get_name(), "two words.txt");
    // A leading character outside `-`, `l` and `d` produces no entry.
    assert!(ftp
        .parse_list_line("/tmp", "crw-rw-rw- 1 0 0 0 Nov 5 2018 null")
        .is_err());
    // A bad month name produces no entry.
    assert!(ftp
        .parse_list_line("/tmp", "-rw-rw-r-- 1 0 0 42 Oma 5 2018 x.txt")
        .is_err());
}

#[test]
fn test_filetransfer_ftp_parse_list_lines() {
    let ftp: FtpFileTransfer = FtpFileTransfer::new(false);
    let lines: Vec<String> = vec![
        String::from("drwxrwxr-x 1 0  9  4096 Nov 5 2018 docs"),
        String::from("this is no listing line"),
        String::from("-rw-rw-r-- 1 root  dialout  8192 Nov 5 2018 omar.txt"),
    ];
    let entries = ftp.parse_list_lines("/tmp", &lines);
    // The bad line is skipped silently; order is kept.
    assert_eq!(entries.len(), 2);
    assert_eq!(entries[0].get_name(), "docs");
    assert!(entries[0].is_dir());
    assert_eq!(entries[1].get_name(), "omar.txt");
    assert!(!entries[1].is_dir());
}
