use gateway::filetransfer::FileTransferProtocol;
use gateway::utils::{
    align_text_center, fmt_millis, fmt_pex, lstime_to_systime, lstime_to_systime_with_year,
    parse_remote_opt, parse_remote_opt_with_user, time_to_str, u64_to_string, i32_to_string,
    parse_u16_bytes, parse_u64_bytes,
};
use gateway::activity::{progress_eta, FileTransferActivity};

#[test]
fn test_utils_parse_remote_opt() {
    // Base case
    let result: (String, u16, FileTransferProtocol, Option<String>) =
        parse_remote_opt(&String::from("172.26.104.1")).ok().unwrap();
    assert_eq!(result.0, String::from("172.26.104.1"));
    assert_eq!(result.1, 22);
    assert_eq!(result.2, FileTransferProtocol::Sftp);
    assert!(result.3.is_some());
    // User case
    let result: (String, u16, FileTransferProtocol, Option<String>) =
        parse_remote_opt(&String::from("root@172.26.104.1")).ok().unwrap();
    assert_eq!(result.0, String::from("172.26.104.1"));
    assert_eq!(result.1, 22);
    assert_eq!(result.2, FileTransferProtocol::Sftp);
    assert_eq!(result.3.unwrap(), String::from("root"));
    // User + port
    let result: (String, u16, FileTransferProtocol, Option<String>) =
        parse_remote_opt(&String::from("root@172.26.104.1:8022")).ok().unwrap();
    assert_eq!(result.0, String::from("172.26.104.1"));
    assert_eq!(result.1, 8022);
    assert_eq!(result.2, FileTransferProtocol::Sftp);
    assert_eq!(result.3.unwrap(), String::from("root"));
    // Port only
    let result: (String, u16, FileTransferProtocol, Option<String>) =
        parse_remote_opt(&String::from("172.26.104.1:4022")).ok().unwrap();
    assert_eq!(result.0, String::from("172.26.104.1"));
    assert_eq!(result.1, 4022);
    assert_eq!(result.2, FileTransferProtocol::Sftp);
    assert!(result.3.is_some());
    // Protocol
    let result: (String, u16, FileTransferProtocol, Option<String>) =
        parse_remote_opt(&String::from("ftp://172.26.104.1")).ok().unwrap();
    assert_eq!(result.0, String::from("172.26.104.1"));
    assert_eq!(result.1, 21); // Fallback to ftp default
    assert_eq!(result.2, FileTransferProtocol::Ftp(false));
    assert!(result.3.is_none()); // Doesn't fall back
    // Protocol
    let result: (String, u16, FileTransferProtocol, Option<String>) =
        parse_remote_opt(&String::from("sftp://172.26.104.1")).ok().unwrap();
    assert_eq!(result.0, String::from("172.26.104.1"));
    assert_eq!(result.1, 22); // Fallback to sftp default
    assert_eq!(result.2, FileTransferProtocol::Sftp);
    assert!(result.3.is_some()); // Doesn't fall back
    let result: (String, u16, FileTransferProtocol, Option<String>) =
        parse_remote_opt(&String::from("scp://172.26.104.1")).ok().unwrap();
    assert_eq!(result.0, String::from("172.26.104.1"));
    assert_eq!(result.1, 22); // Fallback to scp default
    assert_eq!(result.2, FileTransferProtocol::Scp);
    assert!(result.3.is_some()); // Doesn't fall back
    // Protocol + user
    let result: (String, u16, FileTransferProtocol, Option<String>) =
        parse_remote_opt(&String::from("ftps://anon@172.26.104.1")).ok().unwrap();
    assert_eq!(result.0, String::from("172.26.104.1"));
    assert_eq!(result.1, 21); // Fallback to ftp default
    assert_eq!(result.2, FileTransferProtocol::Ftp(true));
    assert_eq!(result.3.unwrap(), String::from("anon"));
    // All together now
    let result: (String, u16, FileTransferProtocol, Option<String>) =
        parse_remote_opt(&String::from("ftp://anon@172.26.104.1:8021")).ok().unwrap();
    assert_eq!(result.0, String::from("172.26.104.1"));
    assert_eq!(result.1, 8021);
    assert_eq!(result.2, FileTransferProtocol::Ftp(false));
    assert_eq!(result.3.unwrap(), String::from("anon"));

    // bad syntax
    assert!(parse_remote_opt(&String::from("://172.26.104.1")).is_err()); // Missing protocol
    assert!(parse_remote_opt(&String::from("omar://172.26.104.1")).is_err()); // Bad protocol
    assert!(parse_remote_opt(&String::from("172.26.104.1:abc")).is_err()); // Bad port
}

#[test]
fn test_utils_parse_remote_opt_with_user() {
    let result = parse_remote_opt_with_user("172.26.104.1", String::from("alice")).unwrap();
    assert_eq!(result.0, "172.26.104.1");
    assert_eq!(result.1, 22);
    assert_eq!(result.2, FileTransferProtocol::Sftp);
    assert_eq!(result.3.unwrap(), "alice");
    // An FTP target takes no default user.
    let result = parse_remote_opt_with_user("ftp://172.26.104.1", String::from("alice")).unwrap();
    assert!(result.3.is_none());
    // The error messages name the refused pieces.
    let err = parse_remote_opt_with_user("omar://172.26.104.1", String::from("x")).unwrap_err();
    assert_eq!(err, "Unknown protocol 'omar'");
    let err = parse_remote_opt_with_user("172.26.104.1:abc", String::from("x")).unwrap_err();
    assert_eq!(err, "Port must be a number in range [0-65535], but is 'abc'");
    let err = parse_remote_opt_with_user("a@b@c", String::from("x")).unwrap_err();
    assert_eq!(err, "Bad syntax");
}

#[test]
fn test_utils_parse_remote_opt_unicode() {
    // A host or user outside ASCII parses like any other.
    let result =
        parse_remote_opt_with_user("sftp://köln.example:2222", String::from("x")).unwrap();
    assert_eq!(result.0, "köln.example");
    assert_eq!(result.1, 2222);
    assert_eq!(result.2, FileTransferProtocol::Sftp);
    let result = parse_remote_opt_with_user("ftp://олег@пример.рф", String::from("x")).unwrap();
    assert_eq!(result.0, "пример.рф");
    assert_eq!(result.1, 21);
    assert_eq!(result.3.unwrap(), "олег");
}

#[test]
fn test_utils_fmt_pex() {
    assert_eq!(fmt_pex(7, 7, 7), String::from("rwxrwxrwx"));
    assert_eq!(fmt_pex(7, 5, 5), String::from("rwxr-xr-x"));
    assert_eq!(fmt_pex(6, 6, 6), String::from("rw-rw-rw-"));
    assert_eq!(fmt_pex(6, 4, 4), String::from("rw-r--r--"));
    assert_eq!(fmt_pex(6, 0, 0), String::from("rw-------"));
    assert_eq!(fmt_pex(0, 0, 0), String::from("---------"));
    assert_eq!(fmt_pex(4, 4, 4), String::from("r--r--r--"));
    assert_eq!(fmt_pex(1, 2, 1), String::from("--x-w---x"));
}

#[test]
fn test_utils_time_to_str() {
    assert_eq!(time_to_str(0, "%Y-%m-%d"), String::from("1970-01-01"));
}

#[test]
fn test_utils_lstime_to_systime() {
    let this_year: i32 = chrono::Datelike::year(&chrono::Utc::now());
    let expect = |m: u32, d: u32, h: u32, mi: u32| -> u64 {
        chrono::NaiveDate::from_ymd_opt(this_year, m, d)
            .unwrap()
            .and_hms_opt(h, mi, 0)
            .unwrap()
            .and_utc()
            .timestamp() as u64
    };
    // Good cases: a time without a year is read in the current year.
    assert_eq!(
        lstime_to_systime("Nov 5 16:32", "%b %d %Y", "%b %d %H:%M").unwrap(),
        expect(11, 5, 16, 32)
    );
    assert_eq!(
        lstime_to_systime("Dec 2 21:32", "%b %d %Y", "%b %d %H:%M").unwrap(),
        expect(12, 2, 21, 32)
    );
    // Under the year they were written in, the historic values stand.
    assert_eq!(
        lstime_to_systime_with_year("Nov 5 16:32", "%b %d %Y", "%b %d %H:%M", 2020).unwrap(),
        1604593920
    );
    assert_eq!(
        lstime_to_systime_with_year("Dec 2 21:32", "%b %d %Y", "%b %d %H:%M", 2020).unwrap(),
        1606944720
    );
    assert_eq!(
        lstime_to_systime("Nov 5 2018", "%b %d %Y", "%b %d %H:%M").unwrap(),
        1541376000
    );
    assert_eq!(
        lstime_to_systime("Mar 18 2018", "%b %d %Y", "%b %d %H:%M").unwrap(),
        1521331200
    );
    // bad cases
    assert!(lstime_to_systime("Oma 31 2018", "%b %d %Y", "%b %d %H:%M").is_none());
    assert!(lstime_to_systime("Feb 31 2018", "%b %d %Y", "%b %d %H:%M").is_none());
    assert!(lstime_to_systime("Feb 15 25:32", "%b %d %Y", "%b %d %H:%M").is_none());
}

#[test]
fn test_utils_align_text_center() {
    assert_eq!(
        align_text_center("hello world!", 24),
        String::from("      hello world!")
    );
    // Bad case
    assert_eq!(
        align_text_center("hello world!", 8),
        String::from("hello world!")
    );
}

#[test]
fn test_utils_align_text_center_unicode() {
    // The indent is computed from the byte length, as a terminal column
    // estimate ("héllo" is six bytes: three columns free of twelve).
    assert_eq!(align_text_center("héllo", 12), String::from("   héllo"));
}

#[test]
fn test_utils_fmt_millis() {
    assert_eq!(fmt_millis(2048), String::from("2.048"));
    assert_eq!(fmt_millis(8192), String::from("8.192"));
    assert_eq!(fmt_millis(18192), String::from("18.192"));
}

#[test]
fn test_utils_numbers() {
    assert_eq!(u64_to_string(0), "0");
    assert_eq!(u64_to_string(90210), "90210");
    assert_eq!(i32_to_string(-2020), "-2020");
    assert_eq!(parse_u16_bytes(b"8021"), Some(8021));
    assert_eq!(parse_u16_bytes(b"65536"), None);
    assert_eq!(parse_u16_bytes(b""), None);
    assert_eq!(parse_u16_bytes(b"12a"), None);
    assert_eq!(parse_u64_bytes(b"18446744073709551615"), Some(u64::MAX));
    assert_eq!(parse_u64_bytes(b"18446744073709551616"), None);
}

#[test]
fn test_utils_omit_wrkdir_path() {
    // The path of the form {ancestor}/.../{parent}/{basename}.
    assert_eq!(
        FileTransferActivity::omit_wrkdir_path("/home/alice/projects/gateway/src", "host", 24),
        String::from("/home/.../gateway/src")
    );
    // A path that fits stands as it is.
    assert_eq!(
        FileTransferActivity::omit_wrkdir_path("/tmp", "host", 24),
        String::from("/tmp")
    );
    // Short paths keep all their segments.
    assert_eq!(
        FileTransferActivity::omit_wrkdir_path("/usr/bin", "averylonghostname", 16),
        String::from("/usr/bin")
    );
    assert_eq!(
        FileTransferActivity::omit_wrkdir_path("/usr", "averylonghostname", 12),
        String::from("usr")
    );
}

#[test]
fn test_utils_progress_eta() {
    assert_eq!(progress_eta(0, 100), String::from("--:--"));
    assert_eq!(progress_eta(50, 10), String::from("00:10"));
    assert_eq!(progress_eta(10, 60), String::from("09:00"));
    assert_eq!(progress_eta(100, 42), String::from("00:00"));
}
