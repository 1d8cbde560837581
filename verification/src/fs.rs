//! File-system entities: the entry model shared by the local host and the
//! remote back-ends, and the path arithmetic on their names.

use vstd::prelude::*;

verus! {

use vstd::string::StrSliceExecFns;
use vstd::string::StringExecFns;

/// A directory entry.
#[derive(Debug)]
pub struct FsDirectory {
    pub name: String,
    pub abs_path: String,
    pub last_change_time: u64,
    pub last_access_time: u64,
    pub creation_time: u64,
    pub readonly: bool,
    pub symlink: Option<String>,
    pub user: Option<u32>,
    pub group: Option<u32>,
    pub unix_pex: Option<(u8, u8, u8)>,
}

/// A file entry.
#[derive(Debug)]
pub struct FsFile {
    pub name: String,
    pub abs_path: String,
    pub last_change_time: u64,
    pub last_access_time: u64,
    pub creation_time: u64,
    pub size: u64,
    pub ftype: Option<String>,
    pub readonly: bool,
    pub symlink: Option<String>,
    pub user: Option<u32>,
    pub group: Option<u32>,
    pub unix_pex: Option<(u8, u8, u8)>,
}

/// A generic entry in a directory: a directory or a file.
#[derive(Debug)]
pub enum FsEntry {
    Directory(FsDirectory),
    File(FsFile),
}

/// The entry's base name.
pub open spec fn name_of(e: FsEntry) -> Seq<char> {
    match e {
        FsEntry::Directory(d) => d.name@,
        FsEntry::File(f) => f.name@,
    }
}

/// The entry's absolute path.
pub open spec fn path_of(e: FsEntry) -> Seq<char> {
    match e {
        FsEntry::Directory(d) => d.abs_path@,
        FsEntry::File(f) => f.abs_path@,
    }
}

/// The entry is a directory.
pub open spec fn is_dir(e: FsEntry) -> bool {
    e is Directory
}

/// The view of an optional string.
pub open spec fn opt_view(o: Option<String>) -> Option<Seq<char>> {
    match o {
        Some(s) => Some(s@),
        None => None,
    }
}

/// The two entries hold the same data, their texts compared by content.
pub open spec fn entry_same(a: FsEntry, b: FsEntry) -> bool {
    match (a, b) {
        (FsEntry::Directory(x), FsEntry::Directory(y)) => {
            &&& x.name@ == y.name@
            &&& x.abs_path@ == y.abs_path@
            &&& x.last_change_time == y.last_change_time
            &&& x.last_access_time == y.last_access_time
            &&& x.creation_time == y.creation_time
            &&& x.readonly == y.readonly
            &&& opt_view(x.symlink) == opt_view(y.symlink)
            &&& x.user == y.user
            &&& x.group == y.group
            &&& x.unix_pex == y.unix_pex
        },
        (FsEntry::File(x), FsEntry::File(y)) => {
            &&& x.name@ == y.name@
            &&& x.abs_path@ == y.abs_path@
            &&& x.last_change_time == y.last_change_time
            &&& x.last_access_time == y.last_access_time
            &&& x.creation_time == y.creation_time
            &&& x.size == y.size
            &&& opt_view(x.ftype) == opt_view(y.ftype)
            &&& x.readonly == y.readonly
            &&& opt_view(x.symlink) == opt_view(y.symlink)
            &&& x.user == y.user
            &&& x.group == y.group
            &&& x.unix_pex == y.unix_pex
        },
        _ => false,
    }
}

/// The two entry sequences hold the same data, element by element.
pub open spec fn entries_same(a: Seq<FsEntry>, b: Seq<FsEntry>) -> bool {
    a.len() == b.len() && forall|i: int| 0 <= i < a.len() ==> entry_same(#[trigger] a[i], b[i])
}

fn clone_opt_string(o: &Option<String>) -> (r: Option<String>)
    ensures
        opt_view(r) == opt_view(*o),
{
    match o {
        Some(s) => Some(s.clone()),
        None => None,
    }
}

impl FsEntry {
    /// The entry's base name.
    pub fn get_name(&self) -> (r: String)
        ensures
            r@ == name_of(*self),
    {
        match self {
            FsEntry::Directory(d) => d.name.clone(),
            FsEntry::File(f) => f.name.clone(),
        }
    }

    /// The entry's absolute path.
    pub fn get_abs_path(&self) -> (r: String)
        ensures
            r@ == path_of(*self),
    {
        match self {
            FsEntry::Directory(d) => d.abs_path.clone(),
            FsEntry::File(f) => f.abs_path.clone(),
        }
    }

    /// The entry is a directory.
    pub fn is_dir(&self) -> (r: bool)
        ensures
            r == is_dir(*self),
    {
        match self {
            FsEntry::Directory(_) => true,
            FsEntry::File(_) => false,
        }
    }

    /// A copy of the entry holding the same data.
    pub fn duplicate(&self) -> (r: FsEntry)
        ensures
            entry_same(r, *self),
    {
        match self {
            FsEntry::Directory(d) => FsEntry::Directory(FsDirectory {
                name: d.name.clone(),
                abs_path: d.abs_path.clone(),
                last_change_time: d.last_change_time,
                last_access_time: d.last_access_time,
                creation_time: d.creation_time,
                readonly: d.readonly,
                symlink: clone_opt_string(&d.symlink),
                user: d.user,
                group: d.group,
                unix_pex: d.unix_pex,
            }),
            FsEntry::File(f) => FsEntry::File(FsFile {
                name: f.name.clone(),
                abs_path: f.abs_path.clone(),
                last_change_time: f.last_change_time,
                last_access_time: f.last_access_time,
                creation_time: f.creation_time,
                size: f.size,
                ftype: clone_opt_string(&f.ftype),
                readonly: f.readonly,
                symlink: clone_opt_string(&f.symlink),
                user: f.user,
                group: f.group,
                unix_pex: f.unix_pex,
            }),
        }
    }
}

/// A copy of the entries holding the same data.
pub fn duplicate_entries(v: &Vec<FsEntry>) -> (r: Vec<FsEntry>)
    ensures
        entries_same(r@, v@),
{
    let mut r: Vec<FsEntry> = Vec::new();
    let mut i: usize = 0;
    while i < v.len()
        invariant
            0 <= i <= v@.len(),
            r@.len() == i,
            forall|j: int| 0 <= j < i ==> entry_same(#[trigger] r@[j], v@[j]),
        decreases v@.len() - i,
    {
        r.push(v[i].duplicate());
        i = i + 1;
    }
    r
}

/// Relies on users::get_user_by_uid: the name the machine's user database
/// gives the id, when it knows one.
#[verifier::external_body]
fn username_of_uid(uid: u32) -> (r: Option<String>) {
    users::get_user_by_uid(uid).map(|u| u.name().to_string_lossy().to_string())
}

/// The human-readable form a size formatter gives a byte count; it
/// depends on the number alone.
pub uninterp spec fn bytesize_str(n: u64) -> Seq<char>;

/// Relies on bytesize::ByteSize: the printed size depends on the number
/// alone.
#[verifier::external_body]
fn human_size(n: u64) -> (r: String)
    ensures
        r@ == bytesize_str(n),
{
    format!("{}", bytesize::ByteSize(n))
}

/// The text left-justified in a column of `w` characters (a longer text
/// stands as it is).
pub open spec fn pad_spec(s: Seq<char>, w: int) -> Seq<char> {
    s + crate::utils::spaces(w - s.len())
}

fn pad_right(s: String, w: usize) -> (r: String)
    ensures
        r@ == pad_spec(s@, w as int),
{
    let n = s.as_str().unicode_len();
    if n >= w {
        proof {
            assert(s@ + crate::utils::spaces(w - s@.len()) =~= s@);
        }
        s
    } else {
        let mut fill: Vec<u8> = Vec::new();
        let mut i: usize = 0;
        while i < w - n
            invariant
                0 <= i <= w - n,
                n == s@.len(),
                n < w,
                fill@.len() == i,
                forall|j: int| 0 <= j < i ==> fill@[j] == 32u8,
            decreases w - n - i,
        {
            fill.push(32u8);
            i = i + 1;
        }
        proof {
            assert(crate::utils::all_ascii(fill@));
        }
        let r = s.concat(crate::utils::string_from_ascii(fill).as_str());
        proof {
            assert(r@ =~= pad_spec(s@, w as int));
        }
        r
    }
}

/// The name as a listing shows it: names of 24 characters or more keep
/// their first 20 and an ellipsis.
pub open spec fn trunc_name(s: Seq<char>) -> Seq<char> {
    if s.len() >= 24 {
        s.take(20) + "..."@
    } else {
        s
    }
}

/// The leading type character and permission columns of an entry: `l` for
/// a symlink, `d` for a directory, `-` for a file, then the `ls` mode
/// text, with question marks when the entry carries no permissions.
pub open spec fn mode_spec(e: FsEntry) -> Seq<char> {
    let t: char = match e {
        FsEntry::Directory(d) => if d.symlink is Some {
            'l'
        } else {
            'd'
        },
        FsEntry::File(f) => if f.symlink is Some {
            'l'
        } else {
            '-'
        },
    };
    let pex: Option<(u8, u8, u8)> = match e {
        FsEntry::Directory(d) => d.unix_pex,
        FsEntry::File(f) => f.unix_pex,
    };
    seq![t] + (match pex {
        Some(p) => crate::utils::fmt_pex_spec(p.0, p.1, p.2),
        None => "?????????"@,
    })
}

/// One listing row: the (truncated) name, the mode, the owner, the size
/// and the date, each in its column.
pub open spec fn fmt_ls_template(e: FsEntry, u: Seq<char>, s: Seq<char>, d: Seq<char>) -> Seq<
    char,
> {
    pad_spec(trunc_name(name_of(e)), 24) + seq!['\t'] + pad_spec(mode_spec(e), 12) + seq!['\t']
        + pad_spec(u, 12) + seq!['\t'] + pad_spec(s, 9) + seq!['\t'] + pad_spec(d, 17)
}

/// The size column of an entry: a directory shows the conventional 4096,
/// a file its formatted size.
pub open spec fn size_column(e: FsEntry) -> Seq<char> {
    match e {
        FsEntry::Directory(_) => "4096"@,
        FsEntry::File(f) => bytesize_str(f.size),
    }
}

impl FsEntry {
    /// Format the entry as one `ls`-style listing row, from the given
    /// owner, size and date column texts.
    pub fn fmt_ls_parts(&self, user_s: String, size_s: String, date_s: String) -> (r: String)
        ensures
            r@ == fmt_ls_template(*self, user_s@, size_s@, date_s@),
    {
        let name = self.get_name();
        let nlen = name.as_str().unicode_len();
        let name_d: String = if nlen >= 24 {
            name.as_str().substring_char(0, 20).to_owned().concat("...")
        } else {
            name
        };
        let (tc, pex): (u8, Option<(u8, u8, u8)>) = match self {
            FsEntry::Directory(d) => (
                if d.symlink.is_some() {
                    108u8
                } else {
                    100u8
                },
                d.unix_pex,
            ),
            FsEntry::File(f) => (
                if f.symlink.is_some() {
                    108u8
                } else {
                    45u8
                },
                f.unix_pex,
            ),
        };
        let mut tb: Vec<u8> = Vec::new();
        tb.push(tc);
        proof {
            assert(crate::utils::all_ascii(tb@));
        }
        let mode: String = crate::utils::string_from_ascii(tb).concat(
            (match pex {
                Some(p) => crate::utils::fmt_pex(p.0, p.1, p.2),
                None => String::from_str("?????????"),
            }).as_str(),
        );
        proof {
            assert(mode@ =~= mode_spec(*self));
        }
        let r = pad_right(name_d, 24).concat("\t").concat(pad_right(mode, 12).as_str()).concat(
            "\t",
        ).concat(pad_right(user_s, 12).as_str()).concat("\t").concat(
            pad_right(size_s, 9).as_str(),
        ).concat("\t").concat(pad_right(date_s, 17).as_str());
        proof {
            reveal_strlit("\t");
            assert("\t"@ =~= seq!['\t']);
            assert(r@ =~= fmt_ls_template(*self, user_s@, size_s@, date_s@));
        }
        r
    }

    /// Format the entry as one `ls`-style listing row, as a long listing
    /// shows it: the owner comes from the user database (the bare id, or
    /// `0` when the entry names none), the size column from the size
    /// formatter, and the date from the clock's local time zone.
    pub fn fmt_ls(&self) -> (r: String)
        ensures
            exists|u: Seq<char>, d: Seq<char>|
                #![auto]
                r@ == fmt_ls_template(*self, u, size_column(*self), d) && (entry_user(*self)
                    is None ==> u == "0"@),
    {
        let uid: Option<u32> = match self {
            FsEntry::Directory(d) => d.user,
            FsEntry::File(f) => f.user,
        };
        let user_s: String = match uid {
            Some(id) => match username_of_uid(id) {
                Some(name) => name,
                None => crate::utils::u64_to_string(id as u64),
            },
            None => String::from_str("0"),
        };
        let size_s: String = match self {
            FsEntry::Directory(_) => String::from_str("4096"),
            FsEntry::File(f) => human_size(f.size),
        };
        let date_s: String = crate::utils::time_to_str(
            match self {
                FsEntry::Directory(d) => d.last_change_time,
                FsEntry::File(f) => f.last_change_time,
            },
            "%b %d %Y %H:%M",
        );
        let ghost uv = user_s@;
        let ghost dv = date_s@;
        let r = self.fmt_ls_parts(user_s, size_s, date_s);
        proof {
            assert(r@ == fmt_ls_template(*self, uv, size_column(*self), dv));
        }
        r
    }
}

/// The entry's owner id, when it carries one.
pub open spec fn entry_user(e: FsEntry) -> Option<u32> {
    match e {
        FsEntry::Directory(d) => d.user,
        FsEntry::File(f) => f.user,
    }
}

/// The path `dir/name`: an absolute `name` stands alone; otherwise the two
/// are joined with a separator unless `dir` already ends in one.
pub open spec fn path_join(dir: Seq<char>, name: Seq<char>) -> Seq<char> {
    if name.len() > 0 && name[0] == '/' {
        name
    } else if dir.len() > 0 && dir.last() == '/' {
        dir + name
    } else {
        dir + seq!['/'] + name
    }
}

/// Join a directory path and an entry name.
pub fn join_path(dir: &str, name: &str) -> (r: String)
    ensures
        r@ == path_join(dir@, name@),
{
    let nlen = name.unicode_len();
    if nlen > 0 && name.get_char(0) == '/' {
        return name.to_owned();
    }
    let dlen = dir.unicode_len();
    if dlen > 0 && dir.get_char(dlen - 1) == '/' {
        let r = String::from_str(dir).concat(name);
        assert(r@ =~= path_join(dir@, name@));
        r
    } else {
        let r = String::from_str(dir).concat("/").concat(name);
        proof {
            reveal_strlit("/");
            assert("/"@ =~= seq!['/']);
        }
        assert(r@ =~= path_join(dir@, name@));
        r
    }
}

/// The suffix of `p` after its last separator (`p` itself when it holds
/// none).
pub open spec fn basename_of(p: Seq<char>) -> Seq<char>
    decreases p.len(),
{
    if p.len() == 0 {
        p
    } else if p.last() == '/' {
        Seq::empty()
    } else {
        basename_of(p.drop_last()).push(p.last())
    }
}

proof fn lemma_basename_skip(p: Seq<char>, i: int)
    requires
        0 <= i < p.len(),
        p[i] == '/',
        forall|j: int| i < j < p.len() ==> p[j] != '/',
    ensures
        basename_of(p) == p.skip(i + 1),
    decreases p.len(),
{
    if i == p.len() - 1 {
        assert(basename_of(p) =~= p.skip(i + 1));
    } else {
        lemma_basename_skip(p.drop_last(), i);
        assert(basename_of(p) =~= p.skip(i + 1)) by {
            assert(basename_of(p) == basename_of(p.drop_last()).push(p.last()));
            assert(p.drop_last().skip(i + 1).push(p.last()) =~= p.skip(i + 1));
        }
    }
}

proof fn lemma_basename_whole(p: Seq<char>)
    requires
        forall|j: int| 0 <= j < p.len() ==> p[j] != '/',
    ensures
        basename_of(p) == p,
    decreases p.len(),
{
    if p.len() > 0 {
        lemma_basename_whole(p.drop_last());
        assert(basename_of(p) =~= p);
    }
}

/// The base name of a path.
pub fn basename(p: &str) -> (r: String)
    ensures
        r@ == basename_of(p@),
{
    let n = p.unicode_len();
    let mut i: usize = n;
    while i > 0
        invariant
            0 <= i <= n,
            n == p@.len(),
            forall|j: int| i <= j < n ==> p@[j] != '/',
        decreases i,
    {
        if p.get_char(i - 1) == '/' {
            let r = p.substring_char(i, n).to_owned();
            proof {
                lemma_basename_skip(p@, i - 1);
                assert(r@ =~= basename_of(p@));
            }
            return r;
        }
        i = i - 1;
    }
    proof {
        lemma_basename_whole(p@);
    }
    p.to_owned()
}

/// An entry is well formed when its absolute path's base name is its
/// name.
pub open spec fn entry_wf(e: FsEntry) -> bool {
    basename_of(path_of(e)) == name_of(e)
}

/// Joining a directory with a nonempty, separator-free name puts the name
/// in the base-name position: the join keeps the invariant that an
/// entry's path ends in its name.
pub proof fn lemma_join_basename(dir: Seq<char>, name: Seq<char>)
    requires
        name.len() > 0,
        forall|i: int| 0 <= i < name.len() ==> name[i] != '/',
    ensures
        basename_of(path_join(dir, name)) == name,
{
    let p = path_join(dir, name);
    if dir.len() > 0 && dir.last() == '/' {
        assert(p == dir + name);
        lemma_basename_skip(p, dir.len() as int - 1);
        assert(p.skip(dir.len() as int) =~= name);
    } else {
        assert(p == dir + seq!['/'] + name);
        lemma_basename_skip(p, dir.len() as int);
        assert(p.skip(dir.len() as int + 1) =~= name);
    }
}

/// The extension of a file name: what follows the last dot, when the dot
/// is neither the leading character nor the last one.
pub open spec fn extension_of(name: Seq<char>) -> Option<Seq<char>>
    decreases name.len(),
{
    if name.len() <= 1 {
        None
    } else if name.last() == '.' {
        None
    } else if name[name.len() - 1] != '.' && name.len() >= 2 && name[name.len() - 2] == '.' {
        if name.len() == 2 {
            None
        } else {
            Some(name.skip(name.len() - 1))
        }
    } else {
        match extension_of(name.drop_last()) {
            Some(e) => Some(e.push(name.last())),
            None => None,
        }
    }
}

/// The extension of a file name.
pub fn extension(name: &str) -> (r: Option<String>)
    ensures
        opt_view(r) == extension_of(name@),
{
    let n = name.unicode_len();
    let mut i: usize = n;
    while i > 0
        invariant
            0 <= i <= n,
            n == name@.len(),
            forall|j: int| i <= j < n ==> name@[j] != '.',
        decreases i,
    {
        if name.get_char(i - 1) == '.' {
            if i == 1 || i == n {
                proof {
                    lemma_extension_none(name@, i - 1);
                }
                return None;
            }
            let r = name.substring_char(i, n).to_owned();
            proof {
                lemma_extension_skip(name@, i - 1);
                assert(r@ =~= name@.skip(i as int));
            }
            return Some(r);
        }
        i = i - 1;
    }
    proof {
        lemma_extension_nodot(name@);
    }
    None
}

proof fn lemma_extension_nodot(p: Seq<char>)
    requires
        forall|j: int| 0 <= j < p.len() ==> p[j] != '.',
    ensures
        extension_of(p) is None,
    decreases p.len(),
{
    if p.len() > 1 {
        lemma_extension_nodot(p.drop_last());
    }
}

proof fn lemma_extension_skip(p: Seq<char>, i: int)
    requires
        1 <= i < p.len() - 1,
        p[i] == '.',
        forall|j: int| i < j < p.len() ==> p[j] != '.',
    ensures
        extension_of(p) == Some(p.skip(i + 1)),
    decreases p.len(),
{
    if i == p.len() - 2 {
        assert(p.skip(i + 1) =~= seq![p.last()]);
        assert(extension_of(p) == Some(p.skip(p.len() - 1)));
        assert(p.skip(p.len() - 1) =~= p.skip(i + 1));
    } else {
        lemma_extension_skip(p.drop_last(), i);
        assert(p.drop_last().skip(i + 1).push(p.last()) =~= p.skip(i + 1));
    }
}

proof fn lemma_extension_none(p: Seq<char>, i: int)
    requires
        0 <= i < p.len(),
        p[i] == '.',
        i == 0 || i == p.len() - 1,
        forall|j: int| i < j < p.len() ==> p[j] != '.',
    ensures
        extension_of(p) is None,
    decreases p.len(),
{
    if i == p.len() - 1 {
        // A trailing dot yields no extension.
    } else {
        // The dot leads the name: induction peels the tail back to it.
        if p.len() <= 1 {
        } else {
            lemma_extension_none(p.drop_last(), i);
        }
    }
}

} // verus!
