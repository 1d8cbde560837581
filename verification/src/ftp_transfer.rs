//! The FTP/FTPS back-end's session state and its parser for `LIST` output.
//!
//! FTP offers no structured directory entries: the back-end reads one text
//! line per entry, of the shape
//! `type perm9 nlink user group size mtime name`, and builds an `FsEntry`
//! from it. The grammar and every extracted field are specified here; the
//! mtime text itself is read by a calendar library.

use vstd::prelude::*;

verus! {

use vstd::string::StrSliceExecFns;
use vstd::string::StringExecFns;
use crate::fs::{FsEntry, FsDirectory, FsFile, is_dir, name_of, path_of, opt_view, path_join,
    extension_of, join_path, extension};
use crate::utils::{is_digit, all_digits, bytes_of_chars, dec_value, lstime_spec,
    lstime_to_systime_with_year, current_year, parse_u32_bytes, parse_u64_bytes};

/// A whitespace character of a listing line.
pub open spec fn is_space_c(c: char) -> bool {
    c == ' ' || c == '\t' || c == '\n' || c == '\r' || c == '\u{b}' || c == '\u{c}'
}

/// A decimal digit character.
pub open spec fn is_digit_c(c: char) -> bool {
    '0' <= c <= '9'
}

/// A word character: a letter, a digit or an underscore.
pub open spec fn is_word_c(c: char) -> bool {
    is_digit_c(c) || ('a' <= c <= 'z') || ('A' <= c <= 'Z') || c == '_'
}

/// A character of the nine-column permission field.
pub open spec fn is_perm_c(c: char) -> bool {
    c == '-' || c == 'r' || c == 'w' || c == 'x' || c == 's'
}

/// The end of the whitespace run starting at `i`.
pub open spec fn space_end(s: Seq<char>, i: int) -> int
    decreases s.len() - i,
{
    if i < 0 || i >= s.len() {
        i
    } else if is_space_c(s[i]) {
        space_end(s, i + 1)
    } else {
        i
    }
}

/// The end of the digit run starting at `i`.
pub open spec fn digit_end(s: Seq<char>, i: int) -> int
    decreases s.len() - i,
{
    if i < 0 || i >= s.len() {
        i
    } else if is_digit_c(s[i]) {
        digit_end(s, i + 1)
    } else {
        i
    }
}

/// The end of the word-character run starting at `i`.
pub open spec fn word_end(s: Seq<char>, i: int) -> int
    decreases s.len() - i,
{
    if i < 0 || i >= s.len() {
        i
    } else if is_word_c(s[i]) {
        word_end(s, i + 1)
    } else {
        i
    }
}

proof fn lemma_digit_end_digits(s: Seq<char>, i: int, j: int)
    requires
        0 <= i <= j < digit_end(s, i),
    ensures
        is_digit_c(s[j]),
    decreases j - i,
{
    if j > i {
        lemma_digit_end_digits(s, i + 1, j);
    }
}

fn is_space_char(c: char) -> (r: bool)
    ensures
        r == is_space_c(c),
{
    c == ' ' || c == '\t' || c == '\n' || c == '\r' || c == '\u{b}' || c == '\u{c}'
}

fn is_digit_char(c: char) -> (r: bool)
    ensures
        r == is_digit_c(c),
{
    let v = c as u32;
    48 <= v && v <= 57
}

fn is_word_char(c: char) -> (r: bool)
    ensures
        r == is_word_c(c),
{
    let v = c as u32;
    (48 <= v && v <= 57) || (97 <= v && v <= 122) || (65 <= v && v <= 90) || v == 95
}

fn scan_space(line: &str, from: usize, n: usize) -> (j: usize)
    requires
        n == line@.len(),
        from <= n,
    ensures
        from <= j <= n,
        j == space_end(line@, from as int),
{
    let mut j = from;
    while j < n
        invariant
            from <= j <= n,
            n == line@.len(),
            space_end(line@, from as int) == space_end(line@, j as int),
        decreases n - j,
    {
        if !is_space_char(line.get_char(j)) {
            return j;
        }
        j = j + 1;
    }
    j
}

fn scan_digit(line: &str, from: usize, n: usize) -> (j: usize)
    requires
        n == line@.len(),
        from <= n,
    ensures
        from <= j <= n,
        j == digit_end(line@, from as int),
{
    let mut j = from;
    while j < n
        invariant
            from <= j <= n,
            n == line@.len(),
            digit_end(line@, from as int) == digit_end(line@, j as int),
        decreases n - j,
    {
        if !is_digit_char(line.get_char(j)) {
            return j;
        }
        j = j + 1;
    }
    j
}

fn scan_word(line: &str, from: usize, n: usize) -> (j: usize)
    requires
        n == line@.len(),
        from <= n,
    ensures
        from <= j <= n,
        j == word_end(line@, from as int),
{
    let mut j = from;
    while j < n
        invariant
            from <= j <= n,
            n == line@.len(),
            word_end(line@, from as int) == word_end(line@, j as int),
        decreases n - j,
    {
        if !is_word_char(line.get_char(j)) {
            return j;
        }
        j = j + 1;
    }
    j
}

// The column boundaries of a listing line: each skips the separating
// whitespace after the previous field.
pub open spec fn i_nlink(s: Seq<char>) -> int {
    space_end(s, 10)
}

pub open spec fn i_user(s: Seq<char>) -> int {
    space_end(s, digit_end(s, i_nlink(s)))
}

pub open spec fn i_group(s: Seq<char>) -> int {
    space_end(s, word_end(s, i_user(s)))
}

pub open spec fn i_size(s: Seq<char>) -> int {
    space_end(s, word_end(s, i_group(s)))
}

pub open spec fn i_mtime(s: Seq<char>) -> int {
    space_end(s, digit_end(s, i_size(s)))
}

/// The start of the day-of-month field, after the month word.
pub open spec fn i_day(s: Seq<char>) -> int {
    space_end(s, word_end(s, i_mtime(s)))
}

/// The start of the time-or-year field, after the day.
pub open spec fn i_tail(s: Seq<char>) -> int {
    space_end(s, digit_end(s, i_day(s)))
}

/// The end of the mtime field: past `h:mm` when the tail holds a colon,
/// else past the year digits.
pub open spec fn mtime_end(s: Seq<char>) -> int {
    let j = digit_end(s, i_tail(s));
    if j < s.len() && s[j] == ':' {
        digit_end(s, j + 1)
    } else {
        j
    }
}

/// The start of the name field.
pub open spec fn i_name(s: Seq<char>) -> int {
    space_end(s, mtime_end(s))
}

/// The leading type and the nine permission columns are well formed.
pub open spec fn perm_ok(s: Seq<char>) -> bool {
    &&& s.len() >= 10
    &&& (s[0] == '-' || s[0] == 'l' || s[0] == 'd')
    &&& forall|i: int| 1 <= i < 10 ==> is_perm_c(#[trigger] s[i])
}

/// The line matches the listing grammar: type and permission columns,
/// then link count, user, group and size fields, an `ls` mtime, and a
/// nonempty name, separated by whitespace; the size must fit a 64-bit
/// number.
pub open spec fn line_ok(s: Seq<char>) -> bool {
    &&& perm_ok(s)
    &&& i_nlink(s) > 10
    &&& digit_end(s, i_nlink(s)) > i_nlink(s)
    &&& i_user(s) > digit_end(s, i_nlink(s))
    &&& word_end(s, i_user(s)) > i_user(s)
    &&& i_group(s) > word_end(s, i_user(s))
    &&& word_end(s, i_group(s)) > i_group(s)
    &&& i_size(s) > word_end(s, i_group(s))
    &&& digit_end(s, i_size(s)) > i_size(s)
    &&& i_mtime(s) > digit_end(s, i_size(s))
    &&& word_end(s, i_mtime(s)) == i_mtime(s) + 3
    &&& i_day(s) > i_mtime(s) + 3
    &&& 1 <= digit_end(s, i_day(s)) - i_day(s) <= 2
    &&& i_tail(s) > digit_end(s, i_day(s))
    &&& ({
        let j = digit_end(s, i_tail(s));
        if j < s.len() && s[j] == ':' {
            1 <= j - i_tail(s) <= 2 && 1 <= digit_end(s, j + 1) - (j + 1) <= 2
        } else {
            j - i_tail(s) == 4
        }
    })
    &&& i_name(s) > mtime_end(s)
    &&& i_name(s) < s.len()
    &&& dec_value(bytes_of_chars(s.subrange(i_size(s), digit_end(s, i_size(s))))) <= u64::MAX
}

/// The mtime text of the line, spacing included.
pub open spec fn mtime_str_of(s: Seq<char>) -> Seq<char> {
    s.subrange(i_mtime(s), mtime_end(s))
}

/// The name field of the line: everything after the mtime's whitespace.
pub open spec fn name_of_line(s: Seq<char>) -> Seq<char> {
    s.skip(i_name(s))
}

/// The value of one permission triad starting at column `base`: 4, 2 and 1
/// for the three columns, a `-` clearing each bit.
pub open spec fn triad_of(s: Seq<char>, base: int) -> u8 {
    (((if s[base] == '-' { 0int } else { 4int }) + (if s[base + 1] == '-' { 0int } else { 2int })
        + (if s[base + 2] == '-' { 0int } else { 1int })) as u8)
}

/// The three permission octets of the line.
pub open spec fn pex_of_line(s: Seq<char>) -> (u8, u8, u8) {
    (triad_of(s, 1), triad_of(s, 4), triad_of(s, 7))
}

/// The user field as a numeric id, when it is one.
pub open spec fn uid_of_line(s: Seq<char>) -> Option<u32> {
    let f = bytes_of_chars(s.subrange(i_user(s), word_end(s, i_user(s))));
    if all_digits(f) && dec_value(f) <= u32::MAX {
        Some(dec_value(f) as u32)
    } else {
        None
    }
}

/// The group field as a numeric id, when it is one.
pub open spec fn gid_of_line(s: Seq<char>) -> Option<u32> {
    let f = bytes_of_chars(s.subrange(i_group(s), word_end(s, i_group(s))));
    if all_digits(f) && dec_value(f) <= u32::MAX {
        Some(dec_value(f) as u32)
    } else {
        None
    }
}

/// The size field's value.
pub open spec fn size_of_line(s: Seq<char>) -> int {
    dec_value(bytes_of_chars(s.subrange(i_size(s), digit_end(s, i_size(s)))))
}

/// The entry a listing line denotes, given the mtime's timestamp: a
/// directory for a `d` line, a file otherwise, named and placed under the
/// listed path, with the parsed permissions, ids and size, all three
/// timestamps set to the mtime, not read-only and with no symlink target.
pub open spec fn built_entry_ok(e: FsEntry, path: Seq<char>, s: Seq<char>, ts: u64) -> bool {
    let nm = name_of_line(s);
    &&& is_dir(e) == (s[0] == 'd')
    &&& name_of(e) == nm
    &&& path_of(e) == path_join(path, nm)
    &&& match e {
        FsEntry::Directory(d) => {
            &&& d.last_change_time == ts
            &&& d.last_access_time == ts
            &&& d.creation_time == ts
            &&& !d.readonly
            &&& d.symlink is None
            &&& d.user == uid_of_line(s)
            &&& d.group == gid_of_line(s)
            &&& d.unix_pex == Some(pex_of_line(s))
        },
        FsEntry::File(f) => {
            &&& f.last_change_time == ts
            &&& f.last_access_time == ts
            &&& f.creation_time == ts
            &&& !f.readonly
            &&& f.symlink is None
            &&& f.user == uid_of_line(s)
            &&& f.group == gid_of_line(s)
            &&& f.unix_pex == Some(pex_of_line(s))
            &&& f.size == size_of_line(s)
            &&& opt_view(f.ftype) == extension_of(nm)
        },
    }
}

/// The `parse_list_line` contract under a fixed current year: a line
/// outside the grammar, or whose mtime the calendar refuses, yields no
/// entry; any other yields the entry it denotes.
pub open spec fn list_line_post(
    r: Result<FsEntry, ()>,
    path: Seq<char>,
    s: Seq<char>,
    year: int,
) -> bool {
    match r {
        Ok(e) => line_ok(s) && (lstime_spec(mtime_str_of(s), "%b %d %Y"@, "%b %d %H:%M"@, year)
            matches Some(ts) && built_entry_ok(e, path, s, ts)),
        Err(_) => !line_ok(s) || lstime_spec(mtime_str_of(s), "%b %d %Y"@, "%b %d %H:%M"@, year)
            is None,
    }
}

/// The FTP file-transfer session state. The wire connection itself lives
/// with the caller that performs the input/output; the flag here says
/// whether one is established.
pub struct FtpFileTransfer {
    pub connected: bool,
    pub ftps: bool,
}

fn field_bytes(line: &str, from: usize, to: usize, n: usize) -> (r: Vec<u8>)
    requires
        n == line@.len(),
        from <= to <= n,
    ensures
        r@ == bytes_of_chars(line@.subrange(from as int, to as int)),
{
    let mut r: Vec<u8> = Vec::new();
    let mut j = from;
    while j < to
        invariant
            from <= j <= to <= n,
            n == line@.len(),
            r@ == bytes_of_chars(line@.subrange(from as int, j as int)),
        decreases to - j,
    {
        let c = line.get_char(j);
        r.push(c as u8);
        proof {
            assert(r@ =~= bytes_of_chars(line@.subrange(from as int, j + 1)));
        }
        j = j + 1;
    }
    r
}

impl FtpFileTransfer {
    /// Instantiates a new `FtpFileTransfer`, not yet connected.
    pub fn new(ftps: bool) -> (r: FtpFileTransfer)
        ensures
            r.ftps == ftps,
            !r.connected,
    {
        FtpFileTransfer { connected: false, ftps }
    }

    /// Whether the client is connected to the remote.
    pub fn is_connected(&self) -> (r: bool)
        ensures
            r == self.connected,
    {
        self.connected
    }

    /// Parse a line of `LIST` output into the entry it denotes under the
    /// listed path, taking `year` as the current year for mtimes written
    /// without one.
    pub fn parse_list_line_with_year(&self, path: &str, line: &str, year: i32) -> (r: Result<
        FsEntry,
        (),
    >)
        ensures
            list_line_post(r, path@, line@, year as int),
    {
        let ghost s = line@;
        let n = line.unicode_len();
        // Type and permission columns.
        if n < 10 {
            return Err(());
        }
        let t = line.get_char(0);
        if !(t == '-' || t == 'l' || t == 'd') {
            return Err(());
        }
        let mut k: usize = 1;
        while k < 10
            invariant
                1 <= k <= 10,
                n == s.len(),
                s == line@,
                n >= 10,
                forall|i: int| 1 <= i < k ==> is_perm_c(#[trigger] s[i]),
            decreases 10 - k,
        {
            let c = line.get_char(k);
            if !(c == '-' || c == 'r' || c == 'w' || c == 'x' || c == 's') {
                return Err(());
            }
            k = k + 1;
        }
        // Link count, user, group and size fields.
        let nlink_s = scan_space(line, 10, n);
        if nlink_s == 10 {
            return Err(());
        }
        let nlink_e = scan_digit(line, nlink_s, n);
        if nlink_e == nlink_s {
            return Err(());
        }
        let user_s = scan_space(line, nlink_e, n);
        if user_s == nlink_e {
            return Err(());
        }
        let user_e = scan_word(line, user_s, n);
        if user_e == user_s {
            return Err(());
        }
        let group_s = scan_space(line, user_e, n);
        if group_s == user_e {
            return Err(());
        }
        let group_e = scan_word(line, group_s, n);
        if group_e == group_s {
            return Err(());
        }
        let size_s = scan_space(line, group_e, n);
        if size_s == group_e {
            return Err(());
        }
        let size_e = scan_digit(line, size_s, n);
        if size_e == size_s {
            return Err(());
        }
        // The mtime: a three-letter month, a one or two digit day, and a
        // time or a four-digit year.
        let mtime_s = scan_space(line, size_e, n);
        if mtime_s == size_e {
            return Err(());
        }
        let month_e = scan_word(line, mtime_s, n);
        if month_e - mtime_s != 3 {
            return Err(());
        }
        let day_s = scan_space(line, month_e, n);
        if day_s == month_e {
            return Err(());
        }
        let day_e = scan_digit(line, day_s, n);
        if !(day_e - day_s == 1 || day_e - day_s == 2) {
            return Err(());
        }
        let tail_s = scan_space(line, day_e, n);
        if tail_s == day_e {
            return Err(());
        }
        let j = scan_digit(line, tail_s, n);
        let mt_end: usize;
        if j < n && line.get_char(j) == ':' {
            if !(j - tail_s == 1 || j - tail_s == 2) {
                return Err(());
            }
            let m = scan_digit(line, j + 1, n);
            if !(m - j == 2 || m - j == 3) {
                return Err(());
            }
            mt_end = m;
        } else {
            if j - tail_s != 4 {
                return Err(());
            }
            mt_end = j;
        }
        proof {
            assert(mt_end == mtime_end(s));
        }
        // The name: everything after the mtime's whitespace.
        let name_s = scan_space(line, mt_end, n);
        if name_s == mt_end || name_s == n {
            return Err(());
        }
        // Field values.
        let size_b = field_bytes(line, size_s, size_e, n);
        proof {
            assert forall|k: int| 0 <= k < size_b@.len() implies is_digit(#[trigger] size_b@[k]) by {
                lemma_digit_end_digits(s, size_s as int, size_s + k);
                assert(size_b@[k] == s[size_s + k] as u8);
            }
            assert(all_digits(size_b@));
        }
        let size: u64 = match parse_u64_bytes(size_b.as_slice()) {
            Some(v) => v,
            None => {
                return Err(());
            },
        };
        let uid: Option<u32> = parse_u32_bytes(field_bytes(line, user_s, user_e, n).as_slice());
        let gid: Option<u32> = parse_u32_bytes(field_bytes(line, group_s, group_e, n).as_slice());
        let pex_owner = self.read_triad(line, 1, n);
        let pex_group = self.read_triad(line, 4, n);
        let pex_others = self.read_triad(line, 7, n);
        let mtime_str = line.substring_char(mtime_s, mt_end).to_owned();
        let ts: u64 = match lstime_to_systime_with_year(
            mtime_str.as_str(),
            "%b %d %Y",
            "%b %d %H:%M",
            year,
        ) {
            Some(v) => v,
            None => {
                return Err(());
            },
        };
        let name = line.substring_char(name_s, n).to_owned();
        let abs_path = join_path(path, name.as_str());
        proof {
            assert(line_ok(s));
            assert(name@ == name_of_line(s));
            assert(mtime_str@ == mtime_str_of(s));
            assert(uid == uid_of_line(s));
            assert(gid == gid_of_line(s));
            assert(size == size_of_line(s));
        }
        if t == 'd' {
            Ok(
                FsEntry::Directory(
                    FsDirectory {
                        name,
                        abs_path,
                        last_change_time: ts,
                        last_access_time: ts,
                        creation_time: ts,
                        readonly: false,
                        symlink: None,
                        user: uid,
                        group: gid,
                        unix_pex: Some((pex_owner, pex_group, pex_others)),
                    },
                ),
            )
        } else {
            let ftype = extension(name.as_str());
            Ok(
                FsEntry::File(
                    FsFile {
                        name,
                        abs_path,
                        last_change_time: ts,
                        last_access_time: ts,
                        creation_time: ts,
                        size,
                        ftype,
                        readonly: false,
                        symlink: None,
                        user: uid,
                        group: gid,
                        unix_pex: Some((pex_owner, pex_group, pex_others)),
                    },
                ),
            )
        }
    }

    fn read_triad(&self, line: &str, base: usize, n: usize) -> (r: u8)
        requires
            n == line@.len(),
            base + 3 <= n,
        ensures
            r == triad_of(line@, base as int),
    {
        let mut v: u8 = 0;
        if line.get_char(base) != '-' {
            v = v + 4;
        }
        if line.get_char(base + 1) != '-' {
            v = v + 2;
        }
        if line.get_char(base + 2) != '-' {
            v = v + 1;
        }
        v
    }

    /// Parse a line of `LIST` output, taking the running year as the
    /// current one.
    pub fn parse_list_line(&self, path: &str, line: &str) -> (r: Result<FsEntry, ()>)
        ensures
            exists|year: int| #[trigger] list_line_post(r, path@, line@, year),
    {
        let year = current_year();
        let r = self.parse_list_line_with_year(path, line, year);
        proof {
            assert(list_line_post(r, path@, line@, year as int));
        }
        r
    }

    /// Build the entries of a `LIST` answer: one entry per line that
    /// parses, in the listing's order; the lines that do not parse are
    /// skipped silently.
    pub fn parse_list_lines(&self, path: &str, lines: &Vec<String>) -> (r: Vec<FsEntry>)
        ensures
            exists|year: int| #[trigger] lines_post(r@, path@, views_of(lines@), year),
    {
        let year = current_year();
        let ghost vls = views_of(lines@);
        let mut r: Vec<FsEntry> = Vec::new();
        let mut i: usize = 0;
        while i < lines.len()
            invariant
                0 <= i <= lines@.len(),
                vls == views_of(lines@),
                vls.len() == lines@.len(),
                lines_post(r@, path@, vls.take(i as int), year as int),
            decreases lines@.len() - i,
        {
            let ghost prefix = vls.take(i as int);
            let ghost ok_before = ok_lines(prefix, year as int);
            proof {
                assert(vls.take(i + 1).drop_last() =~= prefix);
                assert(vls.take(i + 1).last() == lines@[i as int]@);
            }
            match self.parse_list_line_with_year(path, lines[i].as_str(), year) {
                Ok(e) => {
                    r.push(e);
                    proof {
                        let ok_now = ok_lines(vls.take(i + 1), year as int);
                        assert(ok_now =~= ok_before.push(lines@[i as int]@));
                    }
                },
                Err(_) => {
                    proof {
                        assert(ok_lines(vls.take(i + 1), year as int) =~= ok_before);
                    }
                },
            }
            i = i + 1;
        }
        proof {
            assert(vls.take(vls.len() as int) =~= vls);
        }
        r
    }
}

/// The views of a sequence of owned lines.
pub open spec fn views_of(lines: Seq<String>) -> Seq<Seq<char>> {
    lines.map_values(|l: String| l@)
}

/// The line parses: it matches the grammar and the calendar accepts its
/// mtime.
pub open spec fn line_parses(s: Seq<char>, year: int) -> bool {
    line_ok(s) && lstime_spec(mtime_str_of(s), "%b %d %Y"@, "%b %d %H:%M"@, year) is Some
}

/// The timestamp of a line that parses.
pub open spec fn line_ts(s: Seq<char>, year: int) -> u64 {
    match lstime_spec(mtime_str_of(s), "%b %d %Y"@, "%b %d %H:%M"@, year) {
        Some(t) => t,
        None => 0,
    }
}

/// The lines of the listing that parse, in order.
pub open spec fn ok_lines(lines: Seq<Seq<char>>, year: int) -> Seq<Seq<char>>
    decreases lines.len(),
{
    if lines.len() == 0 {
        Seq::empty()
    } else {
        let rest = ok_lines(lines.drop_last(), year);
        if line_parses(lines.last(), year) {
            rest.push(lines.last())
        } else {
            rest
        }
    }
}

/// The `parse_list_lines` contract under a fixed current year: the result
/// holds exactly one entry per line that parses, in order, each the entry
/// its line denotes.
pub open spec fn lines_post(
    r: Seq<FsEntry>,
    path: Seq<char>,
    lines: Seq<Seq<char>>,
    year: int,
) -> bool {
    let ok = ok_lines(lines, year);
    &&& r.len() == ok.len()
    &&& forall|k: int| 0 <= k < ok.len() ==> built_entry_ok(
        #[trigger] r[k],
        path,
        ok[k],
        line_ts(ok[k], year),
    )
}

/// A parsed listing entry whose name holds no separator is well formed:
/// its absolute path ends in its name.
pub proof fn lemma_parsed_entry_wf(
    r: Result<FsEntry, ()>,
    path: Seq<char>,
    s: Seq<char>,
    year: int,
)
    requires
        list_line_post(r, path, s, year),
        r matches Ok(e),
        forall|i: int| 0 <= i < name_of_line(s).len() ==> name_of_line(s)[i] != '/',
    ensures
        r matches Ok(e) && crate::fs::entry_wf(e),
{
    let e = r.unwrap();
    assert(name_of_line(s).len() > 0) by {
        assert(line_ok(s));
    }
    crate::fs::lemma_join_basename(path, name_of_line(s));
}

/// A parsed listing entry is a directory exactly when its line leads with
/// `d`; a line led by anything but `-`, `l` or `d` produces no entry.
pub proof fn lemma_listing_dir_flag(
    r: Result<FsEntry, ()>,
    path: Seq<char>,
    s: Seq<char>,
    year: int,
)
    requires
        list_line_post(r, path, s, year),
    ensures
        r matches Ok(e) ==> is_dir(e) == (s[0] == 'd'),
        s.len() > 0 && s[0] != '-' && s[0] != 'l' && s[0] != 'd' ==> r is Err,
        s.len() == 0 ==> r is Err,
{
}

} // verus!
