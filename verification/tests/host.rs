use gateway::host::{HostError, Localhost};
use gateway::fs::{basename, extension, join_path, FsEntry, FsFile};

fn sample_file(name: &str, path: &str, size: u64) -> FsEntry {
    FsEntry::File(FsFile {
        name: String::from(name),
        abs_path: String::from(path),
        last_change_time: 1541376000,
        last_access_time: 1541376000,
        creation_time: 1541376000,
        size,
        ftype: None,
        readonly: false,
        symlink: None,
        user: Some(0),
        group: Some(0),
        unix_pex: Some((6, 4, 4)),
    })
}

#[test]
fn test_host_localhost_new() {
    let host: Localhost =
        Localhost::new(String::from("/bin"), Ok(vec![sample_file("sh", "/bin/sh", 1)]))
            .ok()
            .unwrap();
    assert_eq!(host.wrkdir, String::from("/bin"));
    assert_eq!(host.files.len(), 1);
}

#[test]
fn test_host_localhost_new_bad() {
    assert!(matches!(
        Localhost::new(String::from("/omargabber/123/345"), Err(HostError::NoSuchFileOrDirectory)),
        Err(HostError::NoSuchFileOrDirectory)
    ));
}

#[test]
fn test_host_localhost_pwd() {
    let host: Localhost = Localhost::new(String::from("/bin"), Ok(vec![])).ok().unwrap();
    assert_eq!(host.pwd(), String::from("/bin"));
}

#[test]
fn test_host_localhost_list_files() {
    let host: Localhost =
        Localhost::new(String::from("/bin"), Ok(vec![sample_file("sh", "/bin/sh", 1)]))
            .ok()
            .unwrap();
    assert_eq!(host.list_dir().len(), 1);
    assert_eq!(host.list_dir()[0].get_name(), "sh");
}

#[test]
fn test_host_localhost_change_dir() {
    let mut host: Localhost = Localhost::new(String::from("/dev"), Ok(vec![])).ok().unwrap();
    assert!(host
        .change_wrkdir(String::from("/tmp"), Ok(vec![sample_file("a", "/tmp/a", 2)]))
        .is_ok());
    assert_eq!(host.pwd(), String::from("/tmp"));
    assert_eq!(host.files.len(), 1);
}

#[test]
fn test_host_localhost_change_dir_failed() {
    let mut host: Localhost =
        Localhost::new(String::from("/bin"), Ok(vec![sample_file("sh", "/bin/sh", 1)]))
            .ok()
            .unwrap();
    // A failed change rolls back: the directory and its entries stand.
    assert!(host
        .change_wrkdir(
            String::from("/omar/gabber/123/456"),
            Err(HostError::NoSuchFileOrDirectory),
        )
        .is_err());
    assert_eq!(host.pwd(), String::from("/bin"));
    assert_eq!(host.files.len(), 1);
}

#[test]
fn test_host_localhost_u32_to_mode() {
    let host: Localhost = Localhost::new(String::from("/"), Ok(vec![])).ok().unwrap();
    assert_eq!(host.u32_to_mode(0o755), (7, 5, 5));
    assert_eq!(host.u32_to_mode(0o644), (6, 4, 4));
    assert_eq!(host.u32_to_mode(0o100644), (6, 4, 4));
    assert_eq!(host.u32_to_mode(0o000), (0, 0, 0));
}

#[test]
fn test_fs_path_helpers() {
    assert_eq!(join_path("/tmp", "omar.txt"), "/tmp/omar.txt");
    assert_eq!(join_path("/tmp/", "omar.txt"), "/tmp/omar.txt");
    assert_eq!(join_path("/tmp", "/abs/path"), "/abs/path");
    assert_eq!(basename("/tmp/omar.txt"), "omar.txt");
    assert_eq!(basename("omar.txt"), "omar.txt");
    assert_eq!(basename("/tmp/"), "");
    assert_eq!(extension("omar.txt").unwrap(), "txt");
    assert_eq!(extension("archive.tar.gz").unwrap(), "gz");
    assert_eq!(extension("Makefile"), None);
    assert_eq!(extension(".bashrc"), None);
    assert_eq!(extension("dot."), None);
}

#[test]
fn test_fs_fmt_ls_parts() {
    let e = sample_file("omar.txt", "/tmp/omar.txt", 8192);
    let row = e.fmt_ls_parts(
        String::from("root"),
        String::from("8.2 KB"),
        String::from("Nov 05 2018 00:00"),
    );
    assert_eq!(
        row,
        "omar.txt                \t-rw-r--r--  \troot        \t8.2 KB   \tNov 05 2018 00:00"
    );
}
