//! The file-transfer activity's state: connection parameters, the two
//! explorer panes, the bounded log, the modal input state and the transfer
//! accounting. Drawing and the wire itself live with the caller; every
//! state rule is here.

use vstd::prelude::*;

verus! {

use std::collections::VecDeque;
use vstd::string::StrSliceExecFns;
use vstd::string::StringExecFns;
use crate::filetransfer::{FileTransferProtocol, FileTransferError, error_msg};
use crate::explorer::{FileExplorer, explorer_wf, sorted_by_name, stack_views};
use crate::fs::FsEntry;
use crate::host::{HostError, host_error_msg};

/// The selection after a rescan: it stays when still in range, else it
/// moves to the last entry, or to the top of an empty listing.
pub open spec fn clamp_index(old_i: int, len: int) -> int {
    if old_i < len {
        old_i
    } else if len == 0 {
        0
    } else {
        len - 1
    }
}

/// What a content sniff makes of a file's first bytes: whether they look
/// binary.
pub uninterp spec fn inspects_binary(head: Seq<u8>) -> bool;

/// Relies on content_inspector::inspect: the sniff depends on the bytes
/// alone.
#[verifier::external_body]
fn sniff_binary(head: &[u8]) -> (r: bool)
    ensures
        r == inspects_binary(head@),
{
    content_inspector::inspect(head).is_binary()
}

/// Connection parameters for a file-transfer session.
pub struct FileTransferParams {
    pub address: String,
    pub port: u16,
    pub protocol: FileTransferProtocol,
    pub username: Option<String>,
    pub password: Option<String>,
}

/// The pane holding keyboard focus.
#[derive(PartialEq, Eq, Structural, Debug, Clone, Copy)]
pub enum InputField {
    Explorer,
    Logs,
}

/// The selected option of a yes/no dialog.
#[derive(PartialEq, Eq, Structural, Debug, Clone, Copy)]
pub enum DialogYesNoOption {
    Yes,
    No,
}

/// The explorer tab in focus.
#[derive(PartialEq, Eq, Structural, Debug, Clone, Copy)]
pub enum FileExplorerTab {
    Local,
    Remote,
}

/// Log level of a record.
#[derive(PartialEq, Eq, Structural, Debug, Clone, Copy)]
pub enum LogLevel {
    Error,
    Warn,
    Info,
}

/// The colour of a popup block.
#[derive(PartialEq, Eq, Structural, Debug, Clone, Copy)]
pub enum PopupColor {
    Red,
    Yellow,
    Green,
    White,
}

/// The colour an alert takes from its record's level.
pub open spec fn color_of_level(l: LogLevel) -> PopupColor {
    match l {
        LogLevel::Error => PopupColor::Red,
        LogLevel::Warn => PopupColor::Yellow,
        LogLevel::Info => PopupColor::Green,
    }
}

/// What an input popup's submitted text is for.
#[derive(PartialEq, Eq, Structural, Debug, Clone, Copy)]
pub enum OnInputAction {
    Mkdir,
    Goto,
    Rename,
}

/// What a yes/no dialog's chosen branch does.
#[derive(PartialEq, Eq, Structural, Debug, Clone, Copy)]
pub enum DialogAction {
    Disconnect,
    Quit,
    DeleteSelected,
    Nothing,
}

/// The type of the popup on show.
pub enum PopupType {
    Alert(PopupColor, String),
    Fatal(String),
    FileInfo,
    Help,
    Input(String, OnInputAction),
    Progress(String),
    Wait(String),
    YesNo(String, DialogAction, DialogAction),
}

/// The current input mode: plain explorer interaction, or a popup that
/// captures the input until dismissed.
pub enum InputMode {
    Explorer,
    Popup(PopupType),
}

/// A log record entry: its time as an epoch timestamp, a level and a
/// message.
pub struct LogRecord {
    pub time: u64,
    pub level: LogLevel,
    pub msg: String,
}

/// Relies on String::push: appends exactly the one character.
#[verifier::external_body]
fn push_char(s: &mut String, c: char)
    ensures
        final(s)@ == old(s)@ + seq![c],
{
    s.push(c);
}

/// Relies on std::time::SystemTime::now: the milliseconds since the epoch
/// (0 under a clock set before it).
#[verifier::external_body]
pub(crate) fn now_millis() -> u64 {
    std::time::SystemTime::now().duration_since(std::time::SystemTime::UNIX_EPOCH).map(
        |d| d.as_millis() as u64,
    ).unwrap_or(0)
}

impl LogRecord {
    /// Instantiates a new LogRecord, timed now.
    pub fn new(level: LogLevel, msg: &str) -> (r: LogRecord)
        ensures
            r.level == level,
            r.msg@ == msg@,
    {
        LogRecord { time: now_millis() / 1000, level, msg: msg.to_owned() }
    }
}

/// The clamped percentage of `w` written bytes out of `t`: 100 for an
/// empty total, never above 100.
pub open spec fn progress_spec(w: int, t: int) -> int {
    if t <= 0 {
        100
    } else if 100 * w / t > 100 {
        100
    } else {
        100 * w / t
    }
}

/// Progress accounting for one active transfer.
pub struct TransferStates {
    /// Current progress, as a percentage between 0 and 100.
    pub progress: u8,
    /// When the transfer started, in epoch milliseconds.
    pub started_millis: u64,
    /// The transfer has been aborted by the user.
    pub aborted: bool,
    /// Bytes written so far.
    pub bytes_written: u64,
    /// Total bytes to write.
    pub bytes_total: u64,
}

impl TransferStates {
    /// Instantiates new transfer states, started now.
    pub fn new() -> (r: TransferStates)
        ensures
            r.progress == 0,
            !r.aborted,
            r.bytes_written == 0,
            r.bytes_total == 0,
    {
        TransferStates {
            progress: 0,
            started_millis: now_millis(),
            aborted: false,
            bytes_written: 0,
            bytes_total: 0,
        }
    }

    /// Re-initialize the transfer states, restarting the clock.
    pub fn reset(&mut self)
        ensures
            final(self).progress == 0,
            !final(self).aborted,
            final(self).bytes_written == 0,
            final(self).bytes_total == 0,
    {
        self.progress = 0;
        self.started_millis = now_millis();
        self.aborted = false;
        self.bytes_written = 0;
        self.bytes_total = 0;
    }

    /// Record `w` of `sz` bytes written and set the progress percentage,
    /// clamped between 0 and 100.
    pub fn set_progress(&mut self, w: u64, sz: u64)
        ensures
            final(self).bytes_written == w,
            final(self).bytes_total == sz,
            final(self).progress == progress_spec(w as int, sz as int),
            0 <= final(self).progress <= 100,
            final(self).aborted == old(self).aborted,
            final(self).started_millis == old(self).started_millis,
    {
        self.bytes_written = w;
        self.bytes_total = sz;
        let prog: u8 = if sz == 0 {
            100
        } else {
            let p: u128 = (w as u128) * 100 / (sz as u128);
            proof {
                assert(100 * (w as int) / (sz as int) >= 0) by (nonlinear_arith)
                    requires w >= 0 && sz > 0;
            }
            if p > 100 {
                100
            } else {
                (p as u8)
            }
        };
        self.progress = prog;
    }

    /// The average transfer rate in bytes per second: the bytes written
    /// over the elapsed seconds, 0 while less than a second has passed.
    pub fn bytes_per_second(&self) -> (r: u64)
        ensures
            exists|elapsed: int|
                #![auto]
                0 <= elapsed && r == transfer_rate(self.bytes_written as int, elapsed),
    {
        let now = now_millis();
        let elapsed_secs: u64 = if now >= self.started_millis {
            (now - self.started_millis) / 1000
        } else {
            0
        };
        let r = rate_of(self.bytes_written, elapsed_secs);
        proof {
            assert(r == transfer_rate(self.bytes_written as int, elapsed_secs as int));
        }
        r
    }
}

impl Default for TransferStates {
    fn default() -> (r: Self)
        ensures
            r.progress == 0,
            !r.aborted,
            r.bytes_written == 0,
            r.bytes_total == 0,
    {
        Self::new()
    }
}

/// The average rate: bytes over seconds, 0 for an empty interval.
pub open spec fn transfer_rate(bytes: int, elapsed_secs: int) -> int {
    if elapsed_secs <= 0 {
        0
    } else {
        bytes / elapsed_secs
    }
}

/// Bytes over seconds, 0 for an empty interval.
pub fn rate_of(bytes: u64, elapsed_secs: u64) -> (r: u64)
    ensures
        r == transfer_rate(bytes as int, elapsed_secs as int),
{
    if elapsed_secs == 0 {
        0
    } else {
        bytes / elapsed_secs
    }
}

/// The end of the run of non-separator characters starting at `i`.
pub open spec fn nonsep_end(s: Seq<char>, i: int) -> int
    decreases s.len() - i,
{
    if i < 0 || i >= s.len() {
        i
    } else if s[i] == '/' {
        i
    } else {
        nonsep_end(s, i + 1)
    }
}

proof fn lemma_nonsep_end_bounds(s: Seq<char>, i: int)
    requires
        0 <= i <= s.len(),
    ensures
        i <= nonsep_end(s, i) <= s.len(),
    decreases s.len() - i,
{
    if i < s.len() && s[i] != '/' {
        lemma_nonsep_end_bounds(s, i + 1);
    }
}

proof fn lemma_nonsep_end_skip(s: Seq<char>, p: int, i: int)
    requires
        0 <= p,
        0 <= i,
        p + i <= s.len(),
    ensures
        nonsep_end(s.skip(p), i) == nonsep_end(s, p + i) - p,
    decreases s.len() - p - i,
{
    if p + i < s.len() && s[p + i] != '/' {
        lemma_nonsep_end_skip(s, p, i + 1);
    }
}

/// The non-empty segments of a path, in order: the maximal runs of
/// characters between separators.
pub open spec fn segs(w: Seq<char>) -> Seq<Seq<char>>
    decreases w.len(),
    via segs_decreases
{
    if w.len() == 0 {
        Seq::empty()
    } else if w[0] == '/' {
        segs(w.drop_first())
    } else {
        seq![w.take(nonsep_end(w, 0))] + segs(w.skip(nonsep_end(w, 0)))
    }
}

#[via_fn]
proof fn segs_decreases(w: Seq<char>) {
    if w.len() > 0 && w[0] != '/' {
        assert(nonsep_end(w, 0) == nonsep_end(w, 1));
        lemma_nonsep_end_bounds(w, 1);
    }
}

fn scan_nonsep(w: &str, from: usize, n: usize) -> (j: usize)
    requires
        n == w@.len(),
        from <= n,
    ensures
        from <= j <= n,
        j == nonsep_end(w@, from as int),
{
    let mut j = from;
    while j < n
        invariant
            from <= j <= n,
            n == w@.len(),
            nonsep_end(w@, from as int) == nonsep_end(w@, j as int),
        decreases n - j,
    {
        if w.get_char(j) == '/' {
            return j;
        }
        j = j + 1;
    }
    j
}

/// The segments of a path, as owned strings.
fn split_segments(w: &str) -> (r: Vec<String>)
    ensures
        r@.map_values(|l: String| l@) == segs(w@),
{
    let n = w.unicode_len();
    let mut r: Vec<String> = Vec::new();
    let mut pos: usize = 0;
    proof {
        assert(w@.skip(0) =~= w@);
        assert(segs(w@) =~= r@.map_values(|l: String| l@) + segs(w@.skip(0)));
    }
    while pos < n
        invariant
            0 <= pos <= n,
            n == w@.len(),
            segs(w@) == r@.map_values(|l: String| l@) + segs(w@.skip(pos as int)),
        decreases n - pos,
    {
        if w.get_char(pos) == '/' {
            proof {
                assert(w@.skip(pos as int).drop_first() =~= w@.skip(pos + 1));
            }
            pos = pos + 1;
        } else {
            let e = scan_nonsep(w, pos, n);
            proof {
                assert(nonsep_end(w@, pos as int) == nonsep_end(w@, pos + 1));
                lemma_nonsep_end_bounds(w@, pos + 1);
                lemma_nonsep_end_skip(w@, pos as int, 0);
                assert(w@.skip(pos as int).take(e - pos) =~= w@.subrange(pos as int, e as int));
                assert(w@.skip(pos as int).skip(e - pos) =~= w@.skip(e as int));
            }
            let seg = w.substring_char(pos, e).to_owned();
            let ghost before = r@;
            r.push(seg);
            proof {
                assert(r@.map_values(|l: String| l@) =~= before.map_values(|l: String| l@)
                    + seq![w@.subrange(pos as int, e as int)]);
                assert(segs(w@.skip(pos as int)) == seq![w@.subrange(pos as int, e as int)]
                    + segs(w@.skip(e as int)));
            }
            pos = e;
            proof {
                assert(segs(w@) =~= r@.map_values(|l: String| l@) + segs(w@.skip(pos as int)));
            }
        }
    }
    proof {
        assert(w@.skip(n as int).len() == 0);
        assert(segs(w@) =~= r@.map_values(|l: String| l@));
    }
    r
}

/// The pane-title form of a working directory: the path itself when the
/// path and host fit the width; else its first segment, an ellipsis, the
/// parent and the base name (shorter paths keep all their segments).
pub open spec fn omit_spec(w: Seq<char>, host: Seq<char>, width: int) -> Seq<char> {
    if w.len() + host.len() + 5 <= width {
        w
    } else {
        let ss = segs(w);
        let lead: Seq<char> = if w.len() > 0 && w[0] == '/' {
            seq!['/']
        } else {
            Seq::empty()
        };
        if ss.len() == 0 {
            Seq::empty()
        } else if ss.len() == 1 {
            ss[0]
        } else if ss.len() == 2 {
            lead + ss[0] + seq!['/'] + ss[1]
        } else {
            lead + ss[0] + seq!['/', '.', '.', '.', '/'] + ss[ss.len() - 2] + seq!['/']
                + ss[ss.len() - 1]
        }
    }
}

/// A key of the terminal, as the session's bindings see it.
#[derive(PartialEq, Eq, Structural, Debug, Clone, Copy)]
pub enum Key {
    Esc,
    Backspace,
    Up,
    Down,
    PageUp,
    PageDown,
    Enter,
    Space,
    Delete,
    Tab,
    Left,
    Right,
    CtrlD,
    CtrlG,
    CtrlH,
    CtrlQ,
    CtrlR,
    CtrlU,
    Char(char),
}

/// What the caller must do after a key was handled: the operations that
/// touch a file system or the wire are named here and performed outside.
pub enum UiAction {
    /// Nothing beyond the state change.
    Idle,
    /// Enter the selected entry when it is a directory.
    EnterSelected,
    /// Transfer the selected entry to the other pane.
    TransferSelected,
    /// Change to the parent directory, pushing the current one.
    GoToParent,
    /// Pop the focused pane's directory stack and change there.
    PopDir,
    /// Delete the selected entry; its confirmation was given.
    DeleteSelected,
    /// An input popup was submitted with this text.
    Submit(OnInputAction, String),
}

/// A list selection moved by `by`: up stops at the top, down at the last
/// entry (an empty list keeps the selection at 0).
pub open spec fn nav_spec(i: int, up: bool, by: int, len: int) -> int {
    if up {
        if i >= by {
            i - by
        } else {
            0
        }
    } else {
        if len == 0 {
            0
        } else if i + by < len {
            i + by
        } else {
            len - 1
        }
    }
}

fn nav_move(i: usize, up: bool, by: usize, len: usize) -> (r: usize)
    ensures
        r == nav_spec(i as int, up, by as int, len as int),
{
    if up {
        if i >= by {
            i - by
        } else {
            0
        }
    } else {
        if len == 0 {
            0
        } else if i < len - 1 && by < len - i {
            i + by
        } else {
            len - 1
        }
    }
}

/// The selection of the focused list moved, the others standing.
pub open spec fn selection_moved(
    pre: FileTransferActivity,
    post: FileTransferActivity,
    up: bool,
    by: int,
) -> bool {
    match pre.input_field {
        InputField::Explorer => match pre.tab {
            FileExplorerTab::Local => {
                &&& post.local.index == nav_spec(
                    pre.local.index as int,
                    up,
                    by,
                    pre.local.files@.len() as int,
                )
                &&& post.remote.index == pre.remote.index
                &&& post.log_index == pre.log_index
            },
            FileExplorerTab::Remote => {
                &&& post.remote.index == nav_spec(
                    pre.remote.index as int,
                    up,
                    by,
                    pre.remote.files@.len() as int,
                )
                &&& post.local.index == pre.local.index
                &&& post.log_index == pre.log_index
            },
        },
        InputField::Logs => {
            &&& post.log_index == nav_spec(
                pre.log_index as int,
                up,
                by,
                pre.log_records@.len() as int,
            )
            &&& post.local.index == pre.local.index
            &&& post.remote.index == pre.remote.index
        },
    }
}

/// The state after a selection move, nothing else touched.
pub open spec fn nav_key_post(
    pre: FileTransferActivity,
    post: FileTransferActivity,
    up: bool,
    by: int,
) -> bool {
    &&& post == (FileTransferActivity {
        local: post.local,
        remote: post.remote,
        log_index: post.log_index,
        ..pre
    })
    &&& post.local == (FileExplorer { index: post.local.index, ..pre.local })
    &&& post.remote == (FileExplorer { index: post.remote.index, ..pre.remote })
    &&& selection_moved(pre, post, up, by)
}

/// The state after opening an input popup: the prompt and purpose are
/// set and the gathered text starts empty.
pub open spec fn input_popup_post(
    pre: FileTransferActivity,
    post: FileTransferActivity,
    a: UiAction,
    prompt: Seq<char>,
    act: OnInputAction,
) -> bool {
    &&& a is Idle
    &&& post == (FileTransferActivity {
        input_mode: post.input_mode,
        input_txt: post.input_txt,
        ..pre
    })
    &&& post.input_txt@.len() == 0
    &&& (post.input_mode matches InputMode::Popup(PopupType::Input(p, x)) && p@ == prompt && x
        == act)
}

/// The explorer-mode key bindings, exactly: what each key does to the
/// state and what it asks the caller to perform.
pub open spec fn explorer_key_post(
    pre: FileTransferActivity,
    post: FileTransferActivity,
    k: Key,
    a: UiAction,
) -> bool {
    match k {
        Key::Esc => {
            &&& a is Idle
            &&& post == (FileTransferActivity { input_mode: post.input_mode, ..pre })
            &&& (post.input_mode matches InputMode::Popup(PopupType::YesNo(m, y, n)) && m@
                == "Are you sure you want to disconnect?"@ && y == DialogAction::Disconnect && n
                == DialogAction::Nothing)
        },
        Key::Tab => {
            &&& a is Idle
            &&& post == (FileTransferActivity { input_field: post.input_field, ..pre })
            &&& post.input_field == (match pre.input_field {
                InputField::Explorer => InputField::Logs,
                InputField::Logs => InputField::Explorer,
            })
        },
        Key::Left => a is Idle && post == (FileTransferActivity {
            tab: FileExplorerTab::Local,
            ..pre
        }),
        Key::Right => a is Idle && post == (FileTransferActivity {
            tab: FileExplorerTab::Remote,
            ..pre
        }),
        Key::Up => a is Idle && nav_key_post(pre, post, true, 1),
        Key::Down => a is Idle && nav_key_post(pre, post, false, 1),
        Key::PageUp => a is Idle && nav_key_post(pre, post, true, 8),
        Key::PageDown => a is Idle && nav_key_post(pre, post, false, 8),
        Key::Enter => post == pre && a is EnterSelected,
        Key::Space => post == pre && a is TransferSelected,
        Key::Delete => {
            let pane = if pre.tab is Local {
                pre.local
            } else {
                pre.remote
            };
            &&& a is Idle
            &&& if pane.index < pane.files@.len() {
                &&& post == (FileTransferActivity { input_mode: post.input_mode, ..pre })
                &&& (post.input_mode matches InputMode::Popup(PopupType::YesNo(m, y, n)) && m@
                    == "Delete file \""@ + crate::fs::name_of(pane.files@[pane.index as int])
                    + "\"?"@ && y == DialogAction::DeleteSelected && n == DialogAction::Nothing)
            } else {
                post == pre
            }
        },
        Key::CtrlD => input_popup_post(pre, post, a, "Insert directory name"@, OnInputAction::Mkdir),
        Key::CtrlG => input_popup_post(
            pre,
            post,
            a,
            "Change working directory"@,
            OnInputAction::Goto,
        ),
        Key::CtrlH => a is Idle && post == (FileTransferActivity {
            input_mode: InputMode::Popup(PopupType::Help),
            ..pre
        }),
        Key::CtrlQ => {
            &&& a is Idle
            &&& post == (FileTransferActivity { input_mode: post.input_mode, ..pre })
            &&& (post.input_mode matches InputMode::Popup(PopupType::YesNo(m, y, n)) && m@
                == "Are you sure you want to quit?"@ && y == DialogAction::Quit && n
                == DialogAction::Nothing)
        },
        Key::CtrlR => input_popup_post(pre, post, a, "Insert new name"@, OnInputAction::Rename),
        Key::CtrlU => post == pre && a is GoToParent,
        Key::Backspace => post == pre && a is PopDir,
        Key::Char(_) => post == pre && a is Idle,
    }
}

/// The popup-mode key handling, exactly: how each popup type interprets a
/// key. Alerts, waits and informational popups dismiss on escape or
/// enter; a progress popup additionally raises the abort flag; a fatal
/// popup quits; input popups gather text; yes/no dialogs pick a branch.
pub open spec fn popup_key_post(
    pre: FileTransferActivity,
    post: FileTransferActivity,
    k: Key,
    a: UiAction,
) -> bool {
    let dismiss = k is Esc || k is Enter;
    match pre.input_mode {
        InputMode::Explorer => post == pre && a is Idle,
        InputMode::Popup(p) => match p {
            PopupType::Alert(_, _) | PopupType::Help | PopupType::FileInfo | PopupType::Wait(_) => {
                &&& a is Idle
                &&& if dismiss {
                    post == (FileTransferActivity { input_mode: InputMode::Explorer, ..pre })
                } else {
                    post == pre
                }
            },
            PopupType::Progress(_) => {
                &&& a is Idle
                &&& if dismiss {
                    &&& post == (FileTransferActivity {
                        input_mode: InputMode::Explorer,
                        transfer: post.transfer,
                        ..pre
                    })
                    &&& post.transfer == (TransferStates { aborted: true, ..pre.transfer })
                } else {
                    post == pre
                }
            },
            PopupType::Fatal(_) => {
                &&& a is Idle
                &&& if dismiss {
                    post == (FileTransferActivity {
                        input_mode: InputMode::Explorer,
                        quit: true,
                        ..pre
                    })
                } else {
                    post == pre
                }
            },
            PopupType::Input(_, act) => match k {
                Key::Char(c) => {
                    &&& a is Idle
                    &&& post == (FileTransferActivity { input_txt: post.input_txt, ..pre })
                    &&& post.input_txt@ == pre.input_txt@ + seq![c]
                },
                Key::Backspace => {
                    &&& a is Idle
                    &&& post == (FileTransferActivity { input_txt: post.input_txt, ..pre })
                    &&& post.input_txt@ == if pre.input_txt@.len() > 0 {
                        pre.input_txt@.drop_last()
                    } else {
                        pre.input_txt@
                    }
                },
                Key::Enter => {
                    &&& (a matches UiAction::Submit(x, t) && x == act && t@ == pre.input_txt@)
                    &&& post == (FileTransferActivity {
                        input_mode: InputMode::Explorer,
                        input_txt: post.input_txt,
                        ..pre
                    })
                    &&& post.input_txt@.len() == 0
                },
                Key::Esc => {
                    &&& a is Idle
                    &&& post == (FileTransferActivity {
                        input_mode: InputMode::Explorer,
                        input_txt: post.input_txt,
                        ..pre
                    })
                    &&& post.input_txt@.len() == 0
                },
                _ => post == pre && a is Idle,
            },
            PopupType::YesNo(_, yes_act, no_act) => match k {
                Key::Left => a is Idle && post == (FileTransferActivity {
                    choice_opt: DialogYesNoOption::Yes,
                    ..pre
                }),
                Key::Right => a is Idle && post == (FileTransferActivity {
                    choice_opt: DialogYesNoOption::No,
                    ..pre
                }),
                Key::Enter => {
                    let chosen = if pre.choice_opt is Yes {
                        yes_act
                    } else {
                        no_act
                    };
                    match chosen {
                        DialogAction::Disconnect => {
                            &&& a is Idle
                            &&& post.disconnected
                            &&& (post.input_mode matches InputMode::Popup(
                                PopupType::Alert(c, m),
                            ) && c == PopupColor::Red && m@ == "Disconnecting from remote..."@)
                            &&& post == (FileTransferActivity {
                                disconnected: true,
                                input_mode: post.input_mode,
                                choice_opt: DialogYesNoOption::Yes,
                                ..pre
                            })
                        },
                        DialogAction::Quit => {
                            &&& a is Idle
                            &&& post.disconnected
                            &&& post.quit
                            &&& (post.input_mode matches InputMode::Popup(
                                PopupType::Alert(c, m),
                            ) && c == PopupColor::Red && m@ == "Disconnecting from remote..."@)
                            &&& post == (FileTransferActivity {
                                disconnected: true,
                                quit: true,
                                input_mode: post.input_mode,
                                choice_opt: DialogYesNoOption::Yes,
                                ..pre
                            })
                        },
                        DialogAction::DeleteSelected => {
                            &&& a is DeleteSelected
                            &&& post == (FileTransferActivity {
                                input_mode: InputMode::Explorer,
                                choice_opt: DialogYesNoOption::Yes,
                                ..pre
                            })
                        },
                        DialogAction::Nothing => {
                            &&& a is Idle
                            &&& post == (FileTransferActivity {
                                input_mode: InputMode::Explorer,
                                choice_opt: DialogYesNoOption::Yes,
                                ..pre
                            })
                        },
                    }
                },
                Key::Esc => a is Idle && post == (FileTransferActivity {
                    input_mode: InputMode::Explorer,
                    choice_opt: DialogYesNoOption::Yes,
                    ..pre
                }),
                _ => post == pre && a is Idle,
            },
        },
    }
}

/// The estimated seconds left of a transfer: the whole time projected
/// from the progress so far, less the time already spent.
pub open spec fn eta_secs(progress: int, elapsed: int) -> int {
    elapsed * 100 / progress - elapsed
}

/// Two decimal digits, zero-padded.
pub open spec fn pad2(k: int) -> Seq<u8> {
    if k < 10 {
        seq![48u8] + crate::utils::dec_digits(k)
    } else {
        crate::utils::dec_digits(k)
    }
}

/// The label of a progress gauge's time estimate, as `mm:ss`; an empty
/// progress shows `--:--`.
pub open spec fn eta_label(progress: int, elapsed: int) -> Seq<char> {
    if progress == 0 {
        "--:--"@
    } else {
        crate::utils::chars_of(pad2(eta_secs(progress, elapsed) / 60)) + seq![':']
            + crate::utils::chars_of(pad2(eta_secs(progress, elapsed) % 60))
    }
}

/// Format the time a transfer still needs, from its progress percentage
/// and the seconds spent so far.
pub fn progress_eta(progress: u8, elapsed_secs: u64) -> (r: String)
    requires
        progress <= 100,
        elapsed_secs <= u64::MAX / 100,
    ensures
        r@ == eta_label(progress as int, elapsed_secs as int),
{
    if progress == 0 {
        return String::from_str("--:--");
    }
    let total: u64 = elapsed_secs * 100 / (progress as u64);
    proof {
        assert((elapsed_secs as int) * 100 / (progress as int) >= elapsed_secs as int)
            by (nonlinear_arith)
            requires 1 <= progress <= 100 && elapsed_secs >= 0;
    }
    let eta: u64 = total - elapsed_secs;
    let mm: u64 = eta / 60;
    let ss: u64 = eta % 60;
    proof {
        assert(eta == eta_secs(progress as int, elapsed_secs as int));
    }
    let mut out = pad2_bytes(mm);
    out.push(58u8);
    let mut tail = pad2_bytes(ss);
    out.append(&mut tail);
    let r = crate::utils::string_from_ascii(out);
    proof {
        assert(r@ =~= eta_label(progress as int, elapsed_secs as int));
    }
    r
}

fn pad2_bytes(k: u64) -> (r: Vec<u8>)
    ensures
        r@ == pad2(k as int),
        crate::utils::all_ascii(r@),
{
    let mut out: Vec<u8> = Vec::new();
    if k < 10 {
        out.push(48u8);
    }
    let mut d = crate::utils::dec_bytes(k);
    out.append(&mut d);
    proof {
        assert(out@ =~= pad2(k as int));
    }
    out
}

/// The size of a popup overlay, as percentages of the screen: help is
/// large, inputs and dialogs narrow, the rest half-wide and flat.
pub open spec fn popup_size_spec(p: PopupType) -> (u16, u16) {
    match p {
        PopupType::Alert(_, _) => (50u16, 10u16),
        PopupType::Fatal(_) => (50u16, 10u16),
        PopupType::FileInfo => (50u16, 10u16),
        PopupType::Help => (50u16, 70u16),
        PopupType::Input(_, _) => (30u16, 10u16),
        PopupType::Progress(_) => (40u16, 10u16),
        PopupType::Wait(_) => (50u16, 10u16),
        PopupType::YesNo(_, _, _) => (30u16, 10u16),
    }
}

/// The width and height of a popup overlay, in percent of the screen.
pub fn popup_size(p: &PopupType) -> (r: (u16, u16))
    ensures
        r == popup_size_spec(*p),
{
    match p {
        PopupType::Alert(_, _) => (50, 10),
        PopupType::Fatal(_) => (50, 10),
        PopupType::FileInfo => (50, 10),
        PopupType::Help => (50, 70),
        PopupType::Input(_, _) => (30, 10),
        PopupType::Progress(_) => (40, 10),
        PopupType::Wait(_) => (50, 10),
        PopupType::YesNo(_, _, _) => (30, 10),
    }
}

/// The shape of the popup on show, with the data its key handling needs.
enum PopupTag {
    Plain,
    Running,
    Lethal,
    Asking(OnInputAction),
    Choosing(DialogAction, DialogAction),
}

/// The log holds at most this many records.
pub const LOG_CAP: usize = 256;

/// The data holder for the file-transfer activity. The transfer client and
/// the terminal live with the caller that performs the input/output; the
/// activity holds every piece of state the session's rules speak of.
pub struct FileTransferActivity {
    /// Has disconnected from the remote.
    pub disconnected: bool,
    /// Has asked to quit.
    pub quit: bool,
    /// Connection parameters.
    pub params: FileTransferParams,
    /// Local explorer pane.
    pub local: FileExplorer,
    /// Remote explorer pane.
    pub remote: FileExplorer,
    /// The explorer tab in focus.
    pub tab: FileExplorerTab,
    /// The selected log record.
    pub log_index: usize,
    /// The log records, newest first, at most `LOG_CAP`.
    pub log_records: VecDeque<LogRecord>,
    /// The bound on the log's size.
    pub log_size: usize,
    /// The current input mode.
    pub input_mode: InputMode,
    /// The pane holding keyboard focus.
    pub input_field: InputField,
    /// The text gathered by an input popup.
    pub input_txt: String,
    /// The selected option of a yes/no dialog.
    pub choice_opt: DialogYesNoOption,
    /// Progress accounting for the active transfer.
    pub transfer: TransferStates,
}

/// The activity's invariant: the log bound stands and never overflows, and
/// both panes' stacks stay within theirs.
pub open spec fn activity_wf(a: FileTransferActivity) -> bool {
    &&& a.log_size == LOG_CAP
    &&& a.log_records@.len() <= LOG_CAP
    &&& explorer_wf(a.local)
    &&& explorer_wf(a.remote)
}

impl FileTransferActivity {
    /// Instantiates a new FileTransferActivity over the given parameters.
    pub fn new(params: FileTransferParams) -> (r: FileTransferActivity)
        ensures
            activity_wf(r),
            !r.disconnected,
            !r.quit,
            r.params == params,
            r.tab == FileExplorerTab::Local,
            r.log_index == 0,
            r.log_records@.len() == 0,
            r.input_mode is Explorer,
            r.input_field == InputField::Explorer,
            r.input_txt@.len() == 0,
            r.choice_opt == DialogYesNoOption::Yes,
            !r.transfer.aborted,
    {
        FileTransferActivity {
            disconnected: false,
            quit: false,
            params,
            local: FileExplorer::new(),
            remote: FileExplorer::new(),
            tab: FileExplorerTab::Local,
            log_index: 0,
            log_records: VecDeque::with_capacity(LOG_CAP),
            log_size: LOG_CAP,
            input_mode: InputMode::Explorer,
            input_field: InputField::Explorer,
            input_txt: String::new(),
            choice_opt: DialogYesNoOption::Yes,
            transfer: TransferStates::new(),
        }
    }

    /// Add a message to the log: the record goes in at the front, the
    /// oldest record leaves when the log is full, and the log never
    /// outgrows its bound.
    pub fn log(&mut self, level: LogLevel, msg: &str)
        requires
            activity_wf(*old(self)),
        ensures
            activity_wf(*final(self)),
            final(self).log_records@.len() <= LOG_CAP,
            final(self).log_records@.len() == if old(self).log_records@.len() < LOG_CAP {
                old(self).log_records@.len() as int + 1
            } else {
                LOG_CAP as int
            },
            final(self).log_records@[0].level == level,
            final(self).log_records@[0].msg@ == msg@,
            forall|k: int|
                1 <= k < final(self).log_records@.len() ==> final(self).log_records@[k] == old(
                    self,
                ).log_records@[k - 1],
            final(self).log_index == 0,
            *final(self) == (FileTransferActivity {
                log_records: final(self).log_records,
                log_index: 0,
                ..*old(self)
            }),
    {
        let record: LogRecord = LogRecord::new(level, msg);
        if self.log_records.len() + 1 > self.log_size {
            self.log_records.pop_back();
        }
        self.log_records.push_front(record);
        self.log_index = 0;
    }

    /// Add a message to the log and raise an alert popup coloured after
    /// the record's level.
    pub fn log_and_alert(&mut self, level: LogLevel, msg: String)
        requires
            activity_wf(*old(self)),
        ensures
            activity_wf(*final(self)),
            final(self).log_records@.len() <= LOG_CAP,
            final(self).log_records@[0].level == level,
            final(self).log_records@[0].msg@ == msg@,
            (final(self).input_mode matches InputMode::Popup(PopupType::Alert(c, m))
                && c == color_of_level(level) && m@ == msg@),
            final(self).log_index == 0,
            final(self).quit == old(self).quit,
            final(self).disconnected == old(self).disconnected,
            final(self).local == old(self).local,
            final(self).remote == old(self).remote,
            final(self).transfer == old(self).transfer,
    {
        self.log(level, msg.as_str());
        let color = match level {
            LogLevel::Error => PopupColor::Red,
            LogLevel::Warn => PopupColor::Yellow,
            LogLevel::Info => PopupColor::Green,
        };
        self.input_mode = InputMode::Popup(PopupType::Alert(color, msg));
    }

    /// The quit-confirmation popup: yes disconnects and quits, no does
    /// nothing.
    pub fn create_quit_popup(&mut self) -> (r: InputMode)
        ensures
            (r matches InputMode::Popup(PopupType::YesNo(m, y, n)) && m@
                == "Are you sure you want to quit?"@ && y == DialogAction::Quit && n
                == DialogAction::Nothing),
            *final(self) == *old(self),
    {
        InputMode::Popup(
            PopupType::YesNo(
                String::from_str("Are you sure you want to quit?"),
                DialogAction::Quit,
                DialogAction::Nothing,
            ),
        )
    }

    /// Switch the keyboard focus between the explorer and the log.
    pub fn switch_input_field(&mut self)
        ensures
            final(self).input_field == match old(self).input_field {
                InputField::Explorer => InputField::Logs,
                InputField::Logs => InputField::Explorer,
            },
            *final(self) == (FileTransferActivity {
                input_field: final(self).input_field,
                ..*old(self)
            }),
    {
        self.input_field = match self.input_field {
            InputField::Explorer => InputField::Logs,
            InputField::Logs => InputField::Explorer,
        }
    }

    /// Shorten a working-directory path for a pane title: when the path
    /// and host do not fit the width, keep the first ancestor, an
    /// ellipsis, the parent and the base name.
    pub fn omit_wrkdir_path(wrkdir: &str, host: &str, width: u16) -> (r: String)
        ensures
            r@ == omit_spec(wrkdir@, host@, width as int),
    {
        let wl = wrkdir.unicode_len();
        let hl = host.unicode_len();
        if (wl as u128) + (hl as u128) + 5 <= (width as u128) {
            return wrkdir.to_owned();
        }
        let parts = split_segments(wrkdir);
        let ghost ss = segs(wrkdir@);
        proof {
            assert(parts@.len() == ss.len());
        }
        let lead: &str = if wl > 0 && wrkdir.get_char(0) == '/' {
            "/"
        } else {
            ""
        };
        proof {
            reveal_strlit("/");
            reveal_strlit("");
            reveal_strlit("/.../");
            assert("/"@ =~= seq!['/']);
            assert(""@ =~= Seq::<char>::empty());
            assert("/.../"@ =~= seq!['/', '.', '.', '.', '/']);
        }
        let n = parts.len();
        if n == 0 {
            let r = String::new();
            assert(r@ =~= omit_spec(wrkdir@, host@, width as int));
            r
        } else if n == 1 {
            let r = parts[0].clone();
            proof {
                assert(parts@.map_values(|l: String| l@)[0] == ss[0]);
            }
            assert(r@ =~= omit_spec(wrkdir@, host@, width as int));
            r
        } else if n == 2 {
            let r = String::from_str(lead).concat(parts[0].as_str()).concat("/").concat(
                parts[1].as_str(),
            );
            proof {
                assert(parts@.map_values(|l: String| l@)[0] == ss[0]);
                assert(parts@.map_values(|l: String| l@)[1] == ss[1]);
            }
            assert(r@ =~= omit_spec(wrkdir@, host@, width as int));
            r
        } else {
            let r = String::from_str(lead).concat(parts[0].as_str()).concat("/.../").concat(
                parts[n - 2].as_str(),
            ).concat("/").concat(parts[n - 1].as_str());
            proof {
                assert(parts@.map_values(|l: String| l@)[0] == ss[0]);
                assert(parts@.map_values(|l: String| l@)[n - 2] == ss[ss.len() - 2]);
                assert(parts@.map_values(|l: String| l@)[n - 1] == ss[ss.len() - 1]);
            }
            assert(r@ =~= omit_spec(wrkdir@, host@, width as int));
            r
        }
    }

    /// Open a connection attempt: show the wait popup naming the target.
    pub fn begin_connection(&mut self)
        ensures
            (final(self).input_mode matches InputMode::Popup(PopupType::Wait(m)) && m@
                == "Connecting to "@ + old(self).params.address@ + seq![':']
                + crate::utils::dec_str(old(self).params.port as int) + "..."@),
            *final(self) == (FileTransferActivity {
                input_mode: final(self).input_mode,
                ..*old(self)
            }),
    {
        let mut msg = String::from_str("Connecting to ").concat(self.params.address.as_str());
        let mut sep: Vec<u8> = Vec::new();
        sep.push(58u8);
        proof {
            assert(crate::utils::all_ascii(sep@));
        }
        msg = msg.concat(crate::utils::string_from_ascii(sep).as_str());
        msg = msg.concat(crate::utils::u64_to_string(self.params.port as u64).as_str());
        msg = msg.concat("...");
        proof {
            assert(msg@ =~= "Connecting to "@ + old(self).params.address@ + seq![':']
                + crate::utils::dec_str(old(self).params.port as int) + "..."@);
        }
        self.input_mode = InputMode::Popup(PopupType::Wait(msg));
    }

    /// Take in the outcome of a connection attempt: a banner is logged,
    /// success returns the input to the explorer, and a failure raises a
    /// fatal popup with the error's message.
    pub fn on_connect_result(&mut self, result: Result<Option<String>, FileTransferError>)
        requires
            activity_wf(*old(self)),
        ensures
            activity_wf(*final(self)),
            match result {
                Ok(banner) => {
                    &&& final(self).input_mode is Explorer
                    &&& (banner matches Some(b) ==> final(self).log_records@[0].level
                        == LogLevel::Info && final(self).log_records@[0].msg@
                        == "Established connection with '"@ + old(self).params.address@ + "': \""@
                        + b@ + "\""@)
                    &&& (banner is None ==> final(self).log_records == old(self).log_records)
                },
                Err(e) => {
                    &&& (final(self).input_mode matches InputMode::Popup(PopupType::Fatal(m))
                        && m@ == error_msg(e))
                    &&& final(self).log_records == old(self).log_records
                },
            },
            final(self).disconnected == old(self).disconnected,
            final(self).quit == old(self).quit,
            final(self).local == old(self).local,
            final(self).remote == old(self).remote,
    {
        match result {
            Ok(welcome) => {
                if let Some(banner) = welcome {
                    let msg = String::from_str("Established connection with '").concat(
                        self.params.address.as_str(),
                    ).concat("': \"").concat(banner.as_str()).concat("\"");
                    self.log(LogLevel::Info, msg.as_str());
                }
                self.input_mode = InputMode::Explorer;
            },
            Err(err) => {
                self.input_mode = InputMode::Popup(PopupType::Fatal(err.msg_string()));
            },
        }
    }

    /// Leave the session: show the disconnecting alert and mark the
    /// activity disconnected.
    pub fn disconnect(&mut self)
        ensures
            final(self).disconnected,
            (final(self).input_mode matches InputMode::Popup(PopupType::Alert(c, m)) && c
                == PopupColor::Red && m@ == "Disconnecting from remote..."@),
            *final(self) == (FileTransferActivity {
                disconnected: true,
                input_mode: final(self).input_mode,
                ..*old(self)
            }),
    {
        self.input_mode = InputMode::Popup(
            PopupType::Alert(PopupColor::Red, String::from_str("Disconnecting from remote...")),
        );
        self.disconnected = true;
    }

    /// Leave the session and quit the program.
    pub fn disconnect_and_quit(&mut self)
        ensures
            final(self).disconnected,
            final(self).quit,
            (final(self).input_mode matches InputMode::Popup(PopupType::Alert(c, m)) && c
                == PopupColor::Red && m@ == "Disconnecting from remote..."@),
            *final(self) == (FileTransferActivity {
                disconnected: true,
                quit: true,
                input_mode: final(self).input_mode,
                ..*old(self)
            }),
    {
        self.disconnect();
        self.quit = true;
    }

    /// Take in a scan of the local pane's directory: the entries go on
    /// show sorted by name, the selection stays when it can and else moves
    /// to the last entry; a failed scan logs and alerts.
    pub fn apply_local_scan(&mut self, scan: Result<Vec<FsEntry>, HostError>)
        requires
            activity_wf(*old(self)),
        ensures
            activity_wf(*final(self)),
            match scan {
                Ok(files) => {
                    &&& final(self).local.files@.to_multiset() == files@.to_multiset()
                    &&& sorted_by_name(final(self).local.files@)
                    &&& final(self).local.index == clamp_index(
                        old(self).local.index as int,
                        files@.len() as int,
                    )
                    &&& final(self).local.wrkdir == old(self).local.wrkdir
                    &&& final(self).local.dirstack == old(self).local.dirstack
                    &&& final(self).input_mode == old(self).input_mode
                    &&& final(self).log_records == old(self).log_records
                },
                Err(e) => {
                    &&& final(self).local == old(self).local
                    &&& final(self).log_records@[0].level == LogLevel::Error
                    &&& final(self).log_records@[0].msg@ == "Could not scan current directory: "@
                        + host_error_msg(e)
                    &&& (final(self).input_mode matches InputMode::Popup(PopupType::Alert(c, m))
                        && c == PopupColor::Red && m@ == "Could not scan current directory: "@
                        + host_error_msg(e))
                },
            },
            final(self).remote == old(self).remote,
            final(self).quit == old(self).quit,
            final(self).disconnected == old(self).disconnected,
    {
        match scan {
            Ok(files) => {
                let n = files.len();
                self.local.files = files;
                if self.local.index >= n {
                    self.local.index = if n == 0 {
                        0
                    } else {
                        n - 1
                    };
                }
                self.local.sort_files_by_name();
            },
            Err(err) => {
                let msg = String::from_str("Could not scan current directory: ").concat(
                    err.msg_string().as_str(),
                );
                self.log_and_alert(LogLevel::Error, msg);
            },
        }
    }

    /// Take in a scan of the remote pane's directory; as the local one,
    /// with the back-end's error message on failure.
    pub fn apply_remote_scan(&mut self, scan: Result<Vec<FsEntry>, FileTransferError>)
        requires
            activity_wf(*old(self)),
        ensures
            activity_wf(*final(self)),
            match scan {
                Ok(files) => {
                    &&& final(self).remote.files@.to_multiset() == files@.to_multiset()
                    &&& sorted_by_name(final(self).remote.files@)
                    &&& final(self).remote.index == clamp_index(
                        old(self).remote.index as int,
                        files@.len() as int,
                    )
                    &&& final(self).remote.wrkdir == old(self).remote.wrkdir
                    &&& final(self).remote.dirstack == old(self).remote.dirstack
                    &&& final(self).input_mode == old(self).input_mode
                    &&& final(self).log_records == old(self).log_records
                },
                Err(e) => {
                    &&& final(self).remote == old(self).remote
                    &&& final(self).log_records@[0].level == LogLevel::Error
                    &&& final(self).log_records@[0].msg@ == "Could not scan current directory: "@
                        + error_msg(e)
                    &&& (final(self).input_mode matches InputMode::Popup(PopupType::Alert(c, m))
                        && c == PopupColor::Red && m@ == "Could not scan current directory: "@
                        + error_msg(e))
                },
            },
            final(self).local == old(self).local,
            final(self).quit == old(self).quit,
            final(self).disconnected == old(self).disconnected,
    {
        match scan {
            Ok(files) => {
                let n = files.len();
                self.remote.files = files;
                if self.remote.index >= n {
                    self.remote.index = if n == 0 {
                        0
                    } else {
                        n - 1
                    };
                }
                self.remote.sort_files_by_name();
            },
            Err(err) => {
                let msg = String::from_str("Could not scan current directory: ").concat(
                    err.msg_string().as_str(),
                );
                self.log_and_alert(LogLevel::Error, msg);
            },
        }
    }

    /// Take in a local directory change: given the new directory's scan,
    /// the pane moves there with the scanned entries sorted and the
    /// selection reset, the move is logged, and the left directory is
    /// pushed onto the stack when asked; a failed change logs and alerts
    /// and leaves the pane standing.
    pub fn local_changedir(&mut self, path: &str, cd: Result<Vec<FsEntry>, HostError>, push: bool)
        requires
            activity_wf(*old(self)),
        ensures
            activity_wf(*final(self)),
            match cd {
                Ok(files) => {
                    &&& final(self).local.files@.to_multiset() == files@.to_multiset()
                    &&& sorted_by_name(final(self).local.files@)
                    &&& final(self).local.index == 0
                    &&& final(self).local.wrkdir@ == path@
                    &&& final(self).log_records@[0].level == LogLevel::Info
                    &&& final(self).log_records@[0].msg@ == "Changed directory on local: "@ + path@
                    &&& (push ==> stack_views(final(self).local.dirstack@)[0] == old(
                        self,
                    ).local.wrkdir@)
                    &&& (!push ==> final(self).local.dirstack == old(self).local.dirstack)
                },
                Err(e) => {
                    &&& final(self).local == old(self).local
                    &&& final(self).log_records@[0].level == LogLevel::Error
                    &&& final(self).log_records@[0].msg@ == "Could not change working directory: "@
                        + host_error_msg(e)
                },
            },
            final(self).remote == old(self).remote,
            final(self).quit == old(self).quit,
            final(self).disconnected == old(self).disconnected,
    {
        let prev_dir: String = self.local.wrkdir.clone();
        match cd {
            Ok(files) => {
                let msg = String::from_str("Changed directory on local: ").concat(path);
                self.log(LogLevel::Info, msg.as_str());
                self.local.files = files;
                self.local.sort_files_by_name();
                self.local.index = 0;
                self.local.wrkdir = path.to_owned();
                if push {
                    self.local.pushd(prev_dir.as_str());
                }
            },
            Err(err) => {
                let msg = String::from_str("Could not change working directory: ").concat(
                    err.msg_string().as_str(),
                );
                self.log_and_alert(LogLevel::Error, msg);
            },
        }
    }

    /// Take in a remote directory change; as the local one, with the
    /// back-end's error message on failure.
    pub fn remote_changedir(
        &mut self,
        path: &str,
        cd: Result<Vec<FsEntry>, FileTransferError>,
        push: bool,
    )
        requires
            activity_wf(*old(self)),
        ensures
            activity_wf(*final(self)),
            match cd {
                Ok(files) => {
                    &&& final(self).remote.files@.to_multiset() == files@.to_multiset()
                    &&& sorted_by_name(final(self).remote.files@)
                    &&& final(self).remote.index == 0
                    &&& final(self).remote.wrkdir@ == path@
                    &&& final(self).log_records@[0].level == LogLevel::Info
                    &&& final(self).log_records@[0].msg@ == "Changed directory on remote: "@
                        + path@
                    &&& (push ==> stack_views(final(self).remote.dirstack@)[0] == old(
                        self,
                    ).remote.wrkdir@)
                    &&& (!push ==> final(self).remote.dirstack == old(self).remote.dirstack)
                },
                Err(e) => {
                    &&& final(self).remote == old(self).remote
                    &&& final(self).log_records@[0].level == LogLevel::Error
                    &&& final(self).log_records@[0].msg@ == "Could not change working directory: "@
                        + error_msg(e)
                },
            },
            final(self).local == old(self).local,
            final(self).quit == old(self).quit,
            final(self).disconnected == old(self).disconnected,
    {
        let prev_dir: String = self.remote.wrkdir.clone();
        match cd {
            Ok(files) => {
                let msg = String::from_str("Changed directory on remote: ").concat(path);
                self.log(LogLevel::Info, msg.as_str());
                self.remote.files = files;
                self.remote.sort_files_by_name();
                self.remote.index = 0;
                self.remote.wrkdir = path.to_owned();
                if push {
                    self.remote.pushd(prev_dir.as_str());
                }
            },
            Err(err) => {
                let msg = String::from_str("Could not change working directory: ").concat(
                    err.msg_string().as_str(),
                );
                self.log_and_alert(LogLevel::Error, msg);
            },
        }
    }

    /// Open a transfer: show the wait popup naming the entry.
    pub fn begin_transfer(&mut self, file_name: &str, sending: bool)
        ensures
            (final(self).input_mode matches InputMode::Popup(PopupType::Wait(m)) && m@ == (
            if sending {
                "Uploading \""@ + file_name@ + "\""@
            } else {
                "Downloading \""@ + file_name@ + "\"..."@
            })),
            *final(self) == (FileTransferActivity {
                input_mode: final(self).input_mode,
                ..*old(self)
            }),
    {
        let msg = if sending {
            String::from_str("Uploading \"").concat(file_name).concat("\"")
        } else {
            String::from_str("Downloading \"").concat(file_name).concat("\"...")
        };
        self.input_mode = InputMode::Popup(PopupType::Wait(msg));
    }

    /// Open a file's byte copy: show the progress popup and reset the
    /// transfer accounting.
    pub fn begin_file_progress(&mut self, file_name: &str, sending: bool)
        ensures
            (final(self).input_mode matches InputMode::Popup(PopupType::Progress(m)) && m@ == (
            if sending {
                "Uploading \""@ + file_name@ + "\""@
            } else {
                "Downloading \""@ + file_name@ + "\"..."@
            })),
            final(self).transfer.progress == 0,
            !final(self).transfer.aborted,
            final(self).transfer.bytes_written == 0,
            final(self).transfer.bytes_total == 0,
            final(self).log_records == old(self).log_records,
            final(self).local == old(self).local,
            final(self).remote == old(self).remote,
            final(self).quit == old(self).quit,
            final(self).disconnected == old(self).disconnected,
    {
        let msg = if sending {
            String::from_str("Uploading \"").concat(file_name).concat("\"")
        } else {
            String::from_str("Downloading \"").concat(file_name).concat("\"...")
        };
        self.input_mode = InputMode::Popup(PopupType::Progress(msg));
        self.transfer.reset();
    }

    /// Log that a stream's finalize call failed: a warning, not an error.
    pub fn log_finalize_warning(&mut self, err: &FileTransferError)
        requires
            activity_wf(*old(self)),
        ensures
            activity_wf(*final(self)),
            final(self).log_records@[0].level == LogLevel::Warn,
            final(self).log_records@[0].msg@ == "Could not finalize remote stream: \""@ + error_msg(
                *err,
            ) + "\""@,
            final(self).input_mode == old(self).input_mode,
            final(self).transfer == old(self).transfer,
    {
        let msg = String::from_str("Could not finalize remote stream: \"").concat(
            err.msg_string().as_str(),
        ).concat("\"");
        self.log(LogLevel::Warn, msg.as_str());
    }

    /// Log a finished file copy: the source and target paths, the elapsed
    /// time and the average rate.
    pub fn log_saved_file(&mut self, src_path: &str, dst_path: &str, size_str: &str, secs_str: &str)
        requires
            activity_wf(*old(self)),
        ensures
            activity_wf(*final(self)),
            final(self).log_records@[0].level == LogLevel::Info,
            final(self).log_records@[0].msg@ == "Saved file \""@ + src_path@ + "\" to \""@
                + dst_path@ + "\" (took "@ + secs_str@ + " seconds; at "@ + size_str@ + "/s)"@,
            final(self).input_mode == old(self).input_mode,
            final(self).transfer == old(self).transfer,
    {
        let msg = String::from_str("Saved file \"").concat(src_path).concat("\" to \"").concat(
            dst_path,
        ).concat("\" (took ").concat(secs_str).concat(" seconds; at ").concat(size_str).concat(
            "/s)",
        );
        self.log(LogLevel::Info, msg.as_str());
    }

    /// Log a created directory.
    pub fn log_created_dir(&mut self, path: &str)
        requires
            activity_wf(*old(self)),
        ensures
            activity_wf(*final(self)),
            final(self).log_records@[0].level == LogLevel::Info,
            final(self).log_records@[0].msg@ == "Created directory \""@ + path@ + "\""@,
            final(self).input_mode == old(self).input_mode,
    {
        let msg = String::from_str("Created directory \"").concat(path).concat("\"");
        self.log(LogLevel::Info, msg.as_str());
    }

    /// Close a top-level transfer: an aborted one logs the warning and
    /// raises its alert, clearing the abort flag; a finished one returns
    /// the input to the explorer when a wait or progress popup is still
    /// up.
    pub fn finish_transfer(&mut self, abs_path: &str, sending: bool)
        requires
            activity_wf(*old(self)),
        ensures
            activity_wf(*final(self)),
            old(self).transfer.aborted ==> {
                &&& !final(self).transfer.aborted
                &&& final(self).log_records@[0].level == LogLevel::Warn
                &&& final(self).log_records@[0].msg@ == (if sending {
                    "Upload aborted for \""@ + abs_path@ + "\"!"@
                } else {
                    "Download aborted for \""@ + abs_path@ + "\"!"@
                })
                &&& (final(self).input_mode matches InputMode::Popup(PopupType::Alert(c, m)) && c
                    == PopupColor::Yellow)
            },
            !old(self).transfer.aborted ==> {
                &&& final(self).log_records == old(self).log_records
                &&& final(self).input_mode == (match old(self).input_mode {
                    InputMode::Popup(PopupType::Wait(_)) => InputMode::Explorer,
                    InputMode::Popup(PopupType::Progress(_)) => InputMode::Explorer,
                    _ => old(self).input_mode,
                })
                &&& final(self).transfer == old(self).transfer
            },
            final(self).local == old(self).local,
            final(self).remote == old(self).remote,
            final(self).quit == old(self).quit,
            final(self).disconnected == old(self).disconnected,
    {
        if self.transfer.aborted {
            let msg = if sending {
                String::from_str("Upload aborted for \"").concat(abs_path).concat("\"!")
            } else {
                String::from_str("Download aborted for \"").concat(abs_path).concat("\"!")
            };
            self.log_and_alert(LogLevel::Warn, msg);
            self.transfer.aborted = false;
        } else {
            let explorer = match &self.input_mode {
                InputMode::Popup(PopupType::Wait(_)) => true,
                InputMode::Popup(PopupType::Progress(_)) => true,
                _ => false,
            };
            if explorer {
                self.input_mode = InputMode::Explorer;
            }
        }
    }

    /// Decide whether a file may go to the editor: binary content logs
    /// and alerts and refuses the edit.
    pub fn edit_precheck(&mut self, head: &[u8]) -> (ok: bool)
        requires
            activity_wf(*old(self)),
        ensures
            activity_wf(*final(self)),
            ok == !inspects_binary(head@),
            ok ==> *final(self) == *old(self),
            !ok ==> {
                &&& final(self).log_records@[0].level == LogLevel::Error
                &&& final(self).log_records@[0].msg@
                    == "Could not open file in editor: file is binary"@
            },
    {
        if sniff_binary(head) {
            self.log_and_alert(
                LogLevel::Error,
                String::from_str("Could not open file in editor: file is binary"),
            );
            false
        } else {
            true
        }
    }

    /// Handle one key: a popup on show interprets it; otherwise the
    /// explorer bindings do.
    pub fn handle_key(&mut self, k: Key) -> (a: UiAction)
        requires
            activity_wf(*old(self)),
        ensures
            activity_wf(*final(self)),
            match old(self).input_mode {
                InputMode::Explorer => explorer_key_post(*old(self), *final(self), k, a),
                InputMode::Popup(_) => popup_key_post(*old(self), *final(self), k, a),
            },
    {
        let explorer_mode = match &self.input_mode {
            InputMode::Explorer => true,
            InputMode::Popup(_) => false,
        };
        if explorer_mode {
            self.handle_key_explorer(k)
        } else {
            self.handle_key_popup(k)
        }
    }

    fn handle_key_explorer(&mut self, k: Key) -> (a: UiAction)
        requires
            activity_wf(*old(self)),
            old(self).input_mode is Explorer,
        ensures
            activity_wf(*final(self)),
            explorer_key_post(*old(self), *final(self), k, a),
    {
        match k {
            Key::Esc => {
                self.input_mode = InputMode::Popup(
                    PopupType::YesNo(
                        String::from_str("Are you sure you want to disconnect?"),
                        DialogAction::Disconnect,
                        DialogAction::Nothing,
                    ),
                );
                UiAction::Idle
            },
            Key::Tab => {
                self.switch_input_field();
                UiAction::Idle
            },
            Key::Left => {
                self.tab = FileExplorerTab::Local;
                UiAction::Idle
            },
            Key::Right => {
                self.tab = FileExplorerTab::Remote;
                UiAction::Idle
            },
            Key::Up => {
                self.move_selection(true, 1);
                UiAction::Idle
            },
            Key::Down => {
                self.move_selection(false, 1);
                UiAction::Idle
            },
            Key::PageUp => {
                self.move_selection(true, 8);
                UiAction::Idle
            },
            Key::PageDown => {
                self.move_selection(false, 8);
                UiAction::Idle
            },
            Key::Enter => UiAction::EnterSelected,
            Key::Space => UiAction::TransferSelected,
            Key::Delete => {
                let pane = match self.tab {
                    FileExplorerTab::Local => &self.local,
                    FileExplorerTab::Remote => &self.remote,
                };
                if pane.index < pane.files.len() {
                    let name = pane.files[pane.index].get_name();
                    let msg = String::from_str("Delete file \"").concat(name.as_str()).concat(
                        "\"?",
                    );
                    self.input_mode = InputMode::Popup(
                        PopupType::YesNo(msg, DialogAction::DeleteSelected, DialogAction::Nothing),
                    );
                }
                UiAction::Idle
            },
            Key::CtrlD => {
                self.input_txt = String::new();
                self.input_mode = InputMode::Popup(
                    PopupType::Input(
                        String::from_str("Insert directory name"),
                        OnInputAction::Mkdir,
                    ),
                );
                UiAction::Idle
            },
            Key::CtrlG => {
                self.input_txt = String::new();
                self.input_mode = InputMode::Popup(
                    PopupType::Input(
                        String::from_str("Change working directory"),
                        OnInputAction::Goto,
                    ),
                );
                UiAction::Idle
            },
            Key::CtrlH => {
                self.input_mode = InputMode::Popup(PopupType::Help);
                UiAction::Idle
            },
            Key::CtrlQ => {
                let popup = self.create_quit_popup();
                self.input_mode = popup;
                UiAction::Idle
            },
            Key::CtrlR => {
                self.input_txt = String::new();
                self.input_mode = InputMode::Popup(
                    PopupType::Input(String::from_str("Insert new name"), OnInputAction::Rename),
                );
                UiAction::Idle
            },
            Key::CtrlU => UiAction::GoToParent,
            Key::Backspace => UiAction::PopDir,
            Key::Char(_) => UiAction::Idle,
        }
    }

    /// Move the focused list's selection up or down by `by`, clamped to
    /// the list.
    fn move_selection(&mut self, up: bool, by: usize)
        requires
            by <= 8,
        ensures
            *final(self) == (FileTransferActivity {
                local: final(self).local,
                remote: final(self).remote,
                log_index: final(self).log_index,
                ..*old(self)
            }),
            final(self).local == (FileExplorer { index: final(self).local.index, ..old(self).local }),
            final(self).remote == (FileExplorer {
                index: final(self).remote.index,
                ..old(self).remote
            }),
            selection_moved(*old(self), *final(self), up, by as int),
    {
        match self.input_field {
            InputField::Explorer => {
                match self.tab {
                    FileExplorerTab::Local => {
                        self.local.index = nav_move(
                            self.local.index,
                            up,
                            by,
                            self.local.files.len(),
                        );
                    },
                    FileExplorerTab::Remote => {
                        self.remote.index = nav_move(
                            self.remote.index,
                            up,
                            by,
                            self.remote.files.len(),
                        );
                    },
                }
            },
            InputField::Logs => {
                self.log_index = nav_move(self.log_index, up, by, self.log_records.len());
            },
        }
    }

    fn handle_key_popup(&mut self, k: Key) -> (a: UiAction)
        requires
            activity_wf(*old(self)),
            old(self).input_mode is Popup,
        ensures
            activity_wf(*final(self)),
            popup_key_post(*old(self), *final(self), k, a),
    {
        let dismiss = matches!(k, Key::Esc) || matches!(k, Key::Enter);
        let tag: PopupTag = match &self.input_mode {
            InputMode::Popup(PopupType::Alert(_, _)) => PopupTag::Plain,
            InputMode::Popup(PopupType::Help) => PopupTag::Plain,
            InputMode::Popup(PopupType::FileInfo) => PopupTag::Plain,
            InputMode::Popup(PopupType::Wait(_)) => PopupTag::Plain,
            InputMode::Popup(PopupType::Progress(_)) => PopupTag::Running,
            InputMode::Popup(PopupType::Fatal(_)) => PopupTag::Lethal,
            InputMode::Popup(PopupType::Input(_, a)) => PopupTag::Asking(*a),
            InputMode::Popup(PopupType::YesNo(_, y, n)) => PopupTag::Choosing(*y, *n),
            InputMode::Explorer => {
                return UiAction::Idle;
            },
        };
        match tag {
            PopupTag::Plain => {
                if dismiss {
                    self.input_mode = InputMode::Explorer;
                }
                UiAction::Idle
            },
            PopupTag::Running => {
                if dismiss {
                    self.transfer.aborted = true;
                    self.input_mode = InputMode::Explorer;
                }
                UiAction::Idle
            },
            PopupTag::Lethal => {
                if dismiss {
                    self.input_mode = InputMode::Explorer;
                    self.quit = true;
                }
                UiAction::Idle
            },
            PopupTag::Asking(action) => {
                match k {
                    Key::Char(c) => {
                        push_char(&mut self.input_txt, c);
                        UiAction::Idle
                    },
                    Key::Backspace => {
                        let n = self.input_txt.as_str().unicode_len();
                        if n > 0 {
                            self.input_txt = self.input_txt.as_str().substring_char(0, n - 1)
                                .to_owned();
                        }
                        UiAction::Idle
                    },
                    Key::Enter => {
                        let text = self.input_txt.clone();
                        self.input_txt = String::new();
                        self.input_mode = InputMode::Explorer;
                        UiAction::Submit(action, text)
                    },
                    Key::Esc => {
                        self.input_txt = String::new();
                        self.input_mode = InputMode::Explorer;
                        UiAction::Idle
                    },
                    _ => UiAction::Idle,
                }
            },
            PopupTag::Choosing(yes_act, no_act) => {
                match k {
                    Key::Left => {
                        self.choice_opt = DialogYesNoOption::Yes;
                        UiAction::Idle
                    },
                    Key::Right => {
                        self.choice_opt = DialogYesNoOption::No;
                        UiAction::Idle
                    },
                    Key::Enter => {
                        let chosen = match self.choice_opt {
                            DialogYesNoOption::Yes => yes_act,
                            DialogYesNoOption::No => no_act,
                        };
                        self.input_mode = InputMode::Explorer;
                        self.choice_opt = DialogYesNoOption::Yes;
                        match chosen {
                            DialogAction::Disconnect => {
                                self.disconnect();
                                UiAction::Idle
                            },
                            DialogAction::Quit => {
                                self.disconnect_and_quit();
                                UiAction::Idle
                            },
                            DialogAction::DeleteSelected => UiAction::DeleteSelected,
                            DialogAction::Nothing => UiAction::Idle,
                        }
                    },
                    Key::Esc => {
                        self.input_mode = InputMode::Explorer;
                        self.choice_opt = DialogYesNoOption::Yes;
                        UiAction::Idle
                    },
                    _ => UiAction::Idle,
                }
            },
        }
    }

    /// Record transfer progress: `it` of `sz` bytes done.
    pub fn set_progress(&mut self, it: u64, sz: u64)
        ensures
            final(self).transfer.bytes_written == it,
            final(self).transfer.bytes_total == sz,
            final(self).transfer.progress == progress_spec(it as int, sz as int),
            0 <= final(self).transfer.progress <= 100,
            final(self).transfer.aborted == old(self).transfer.aborted,
            *final(self) == (FileTransferActivity { transfer: final(self).transfer, ..*old(self) }),
    {
        self.transfer.set_progress(it, sz);
    }
}

} // verus!
