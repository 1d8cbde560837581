//! The per-pane explorer state: the working directory, the entries on
//! show, the selection, and the bounded stack of visited directories.

use vstd::prelude::*;

verus! {

use std::collections::VecDeque;
use vstd::string::StrSliceExecFns;
use vstd::string::StringExecFns;
use crate::fs::{FsEntry, name_of};

/// The stack holds at most this many visited directories.
pub const DIRSTACK_CAP: usize = 16;

/// The views of the stacked directory paths, front first.
pub open spec fn stack_views(s: Seq<String>) -> Seq<Seq<char>> {
    s.map_values(|p: String| p@)
}

/// What case folding makes of a text; the result depends on the
/// characters alone.
pub uninterp spec fn lowercase_of(s: Seq<char>) -> Seq<char>;

/// Relies on str::to_lowercase: the folded text depends on the characters
/// alone.
#[verifier::external_body]
fn to_lower(s: &str) -> (r: String)
    ensures
        r@ == lowercase_of(s@),
{
    s.to_lowercase()
}

/// Lexicographic order on character sequences, by code point.
pub open spec fn lex_le(a: Seq<char>, b: Seq<char>) -> bool
    decreases a.len(),
{
    if a.len() == 0 {
        true
    } else if b.len() == 0 {
        false
    } else if (a[0] as int) < (b[0] as int) {
        true
    } else if (a[0] as int) == (b[0] as int) {
        lex_le(a.drop_first(), b.drop_first())
    } else {
        false
    }
}

/// The explorer's sort order: by case-folded name.
pub open spec fn name_le(a: FsEntry, b: FsEntry) -> bool {
    lex_le(lowercase_of(name_of(a)), lowercase_of(name_of(b)))
}

/// The entries stand in sort order.
pub open spec fn sorted_by_name(s: Seq<FsEntry>) -> bool {
    forall|i: int, j: int| 0 <= i < j < s.len() ==> name_le(#[trigger] s[i], #[trigger] s[j])
}

/// Any two names are ordered one way or the other.
pub proof fn lemma_lex_le_total(a: Seq<char>, b: Seq<char>)
    ensures
        lex_le(a, b) || lex_le(b, a),
    decreases a.len(),
{
    if a.len() > 0 && b.len() > 0 && (a[0] as int) == (b[0] as int) {
        lemma_lex_le_total(a.drop_first(), b.drop_first());
    }
}

proof fn lemma_lex_le_skip(a: Seq<char>, b: Seq<char>, i: int)
    requires
        0 <= i <= a.len(),
        i <= b.len(),
        forall|j: int| 0 <= j < i ==> (a[j] as int) == (b[j] as int),
    ensures
        lex_le(a, b) == lex_le(a.skip(i), b.skip(i)),
    decreases i,
{
    if i > 0 {
        assert(a.len() > 0 && b.len() > 0);
        assert((a[0] as int) == (b[0] as int));
        assert(a.drop_first().skip(i - 1) =~= a.skip(i));
        assert(b.drop_first().skip(i - 1) =~= b.skip(i));
        lemma_lex_le_skip(a.drop_first(), b.drop_first(), i - 1);
    } else {
        assert(a.skip(0) =~= a);
        assert(b.skip(0) =~= b);
    }
}

fn name_string<'a>(e: &'a FsEntry) -> (r: &'a String)
    ensures
        r@ == name_of(*e),
{
    match e {
        FsEntry::Directory(d) => &d.name,
        FsEntry::File(f) => &f.name,
    }
}

/// Whether `a` stands at or before `b` in lexicographic order.
fn str_lex_le(a: &str, b: &str) -> (r: bool)
    ensures
        r == lex_le(a@, b@),
{
    let la = a.unicode_len();
    let lb = b.unicode_len();
    let mut i: usize = 0;
    loop
        invariant_except_break
            0 <= i <= la,
            i <= lb,
            la == a@.len(),
            lb == b@.len(),
            forall|j: int| 0 <= j < i ==> (a@[j] as int) == (b@[j] as int),
        ensures
            lex_le(a@, b@),
        decreases la - i,
    {
        if i == la {
            proof {
                lemma_lex_le_skip(a@, b@, i as int);
                assert(a@.skip(i as int).len() == 0);
            }
            assert(lex_le(a@, b@));
            break;
        }
        if i == lb {
            proof {
                lemma_lex_le_skip(b@, a@, i as int);
                assert(b@.skip(i as int).len() == 0);
            }
            assert(lex_le(b@, a@));
            assert(!lex_le(a@, b@)) by {
                lemma_lex_le_skip(a@, b@, i as int);
            }
            return false;
        }
        let x = a.get_char(i) as u32;
        let y = b.get_char(i) as u32;
        if x < y {
            proof {
                lemma_lex_le_skip(a@, b@, i as int);
            }
            assert(lex_le(a@, b@));
            return true;
        }
        if x > y {
            proof {
                lemma_lex_le_skip(a@, b@, i as int);
            }
            assert(!lex_le(a@, b@));
            return false;
        }
        i = i + 1;
    }
    true
}

/// Whether `a` sorts at or before `b`, comparing case-folded names.
fn entry_name_le(a: &FsEntry, b: &FsEntry) -> (r: bool)
    ensures
        r == name_le(*a, *b),
{
    let la = to_lower(name_string(a).as_str());
    let lb = to_lower(name_string(b).as_str());
    str_lex_le(la.as_str(), lb.as_str())
}

/// File explorer state for one pane.
pub struct FileExplorer {
    /// The pane's current directory.
    pub wrkdir: String,
    /// The selected entry.
    pub index: usize,
    /// The entries of the current directory.
    pub files: Vec<FsEntry>,
    /// The visited directories, most recent first, at most sixteen.
    pub dirstack: VecDeque<String>,
}

/// The explorer's invariant: the stack never outgrows its bound.
pub open spec fn explorer_wf(e: FileExplorer) -> bool {
    e.dirstack@.len() <= DIRSTACK_CAP
}

impl FileExplorer {
    /// Instantiates a new FileExplorer at the root directory.
    pub fn new() -> (r: FileExplorer)
        ensures
            r.wrkdir@ == "/"@,
            r.index == 0,
            r.files@.len() == 0,
            r.dirstack@.len() == 0,
            explorer_wf(r),
    {
        FileExplorer {
            wrkdir: String::from_str("/"),
            index: 0,
            files: Vec::new(),
            dirstack: VecDeque::with_capacity(DIRSTACK_CAP),
        }
    }

    /// Push a directory onto the stack's front; when the stack is full the
    /// oldest entry, at the back, leaves. The stack never outgrows its
    /// bound of sixteen.
    pub fn pushd(&mut self, dir: &str)
        requires
            explorer_wf(*old(self)),
        ensures
            explorer_wf(*final(self)),
            final(self).dirstack@.len() <= DIRSTACK_CAP,
            stack_views(final(self).dirstack@) == seq![dir@] + (
                if old(self).dirstack@.len() + 1 > DIRSTACK_CAP {
                    stack_views(old(self).dirstack@).drop_last()
                } else {
                    stack_views(old(self).dirstack@)
                }
            ),
            final(self).wrkdir == old(self).wrkdir,
            final(self).index == old(self).index,
            final(self).files == old(self).files,
    {
        if self.dirstack.len() + 1 > DIRSTACK_CAP {
            self.dirstack.pop_back();
        }
        self.dirstack.push_front(dir.to_owned());
        proof {
            assert(stack_views(self.dirstack@) =~= seq![dir@] + (
                if old(self).dirstack@.len() + 1 > DIRSTACK_CAP {
                    stack_views(old(self).dirstack@).drop_last()
                } else {
                    stack_views(old(self).dirstack@)
                }
            ));
        }
    }

    /// Pop the most recent directory from the stack, when one is there.
    pub fn popd(&mut self) -> (r: Option<String>)
        ensures
            match r {
                Some(p) => {
                    &&& old(self).dirstack@.len() > 0
                    &&& p@ == stack_views(old(self).dirstack@)[0]
                    &&& stack_views(final(self).dirstack@) == stack_views(
                        old(self).dirstack@,
                    ).drop_first()
                },
                None => {
                    &&& old(self).dirstack@.len() == 0
                    &&& final(self).dirstack@ == old(self).dirstack@
                },
            },
            final(self).dirstack@.len() <= old(self).dirstack@.len(),
            final(self).wrkdir == old(self).wrkdir,
            final(self).index == old(self).index,
            final(self).files == old(self).files,
    {
        let r = self.dirstack.pop_front();
        proof {
            if old(self).dirstack@.len() > 0 {
                assert(stack_views(self.dirstack@) =~= stack_views(
                    old(self).dirstack@,
                ).drop_first());
            }
        }
        r
    }

    /// Sort the explorer's files by their lowercased names: afterwards the
    /// entries stand in order and are exactly the ones held before.
    pub fn sort_files_by_name(&mut self)
        ensures
            sorted_by_name(final(self).files@),
            final(self).files@.to_multiset() == old(self).files@.to_multiset(),
            final(self).wrkdir == old(self).wrkdir,
            final(self).index == old(self).index,
            final(self).dirstack == old(self).dirstack,
    {
        broadcast use vstd::seq_lib::group_to_multiset_ensures;

        let mut src: Vec<FsEntry> = Vec::new();
        std::mem::swap(&mut src, &mut self.files);
        let mut out: Vec<FsEntry> = Vec::new();
        while src.len() > 0
            invariant
                out@.to_multiset().add(src@.to_multiset()) == old(self).files@.to_multiset(),
                sorted_by_name(out@),
                forall|x: int, y: int| 0 <= x < out@.len() && 0 <= y < src@.len() ==> name_le(
                    #[trigger] out@[x],
                    #[trigger] src@[y],
                ),
            decreases src@.len(),
        {
            // Select the least remaining entry.
            proof {
                lemma_lex_le_total(lowercase_of(name_of(src@[0])), lowercase_of(name_of(src@[0])));
            }
            let mut best: usize = 0;
            let mut k: usize = 1;
            while k < src.len()
                invariant
                    0 <= best < k <= src@.len(),
                    src@.len() > 0,
                    forall|j: int| 0 <= j < k ==> name_le(src@[best as int], #[trigger] src@[j]),
                decreases src@.len() - k,
            {
                if !entry_name_le(&src[best], &src[k]) {
                    proof {
                        lemma_lex_le_total(
                            lowercase_of(name_of(src@[best as int])),
                            lowercase_of(name_of(src@[k as int])),
                        );
                        assert forall|j: int| 0 <= j < k + 1 implies name_le(
                            src@[k as int],
                            #[trigger] src@[j],
                        ) by {
                            if j < k {
                                lemma_lex_le_trans(
                                    lowercase_of(name_of(src@[k as int])),
                                    lowercase_of(name_of(src@[best as int])),
                                    lowercase_of(name_of(src@[j])),
                                );
                            } else {
                                lemma_lex_le_total(
                                    lowercase_of(name_of(src@[k as int])),
                                    lowercase_of(name_of(src@[k as int])),
                                );
                            }
                        }
                    }
                    best = k;
                }
                k = k + 1;
            }
            let ghost src_before = src@;
            let picked = src.remove(best);
            proof {
                broadcast use vstd::multiset::group_multiset_axioms;
                broadcast use vstd::seq_lib::group_to_multiset_ensures;

                lemma_lex_le_total(lowercase_of(name_of(picked)), lowercase_of(name_of(picked)));
                assert(src_before.contains(picked));
                assert(src@ == src_before.remove(best as int));
                assert(src_before.remove(best as int).to_multiset() =~= src_before.to_multiset()
                    .remove(src_before[best as int]));
                assert(src@.to_multiset() =~= src_before.to_multiset().remove(picked));
                assert(out@.push(picked).to_multiset() =~= out@.to_multiset().insert(picked));
                assert(src_before.to_multiset().count(picked) > 0);
                assert forall|x: FsEntry|
                    out@.push(picked).to_multiset().add(src@.to_multiset()).count(x) == old(
                        self,
                    ).files@.to_multiset().count(x) by {
                    assert(out@.to_multiset().add(src_before.to_multiset()).count(x) == old(
                        self,
                    ).files@.to_multiset().count(x));
                }
                assert(out@.push(picked).to_multiset().add(src@.to_multiset()) =~= old(
                    self,
                ).files@.to_multiset());
            }
            out.push(picked);
        }
        proof {
            broadcast use vstd::multiset::group_multiset_axioms;
            broadcast use vstd::seq_lib::group_to_multiset_ensures;

            assert(src@.to_multiset().len() == 0);
            assert(out@.to_multiset().add(src@.to_multiset()) =~= out@.to_multiset());
        }
        self.files = out;
    }
}

/// Lexicographic order is transitive.
pub proof fn lemma_lex_le_trans(a: Seq<char>, b: Seq<char>, c: Seq<char>)
    requires
        lex_le(a, b),
        lex_le(b, c),
    ensures
        lex_le(a, c),
    decreases a.len(),
{
    if a.len() > 0 && b.len() > 0 && c.len() > 0 {
        if (a[0] as int) == (b[0] as int) && (b[0] as int) == (c[0] as int) {
            lemma_lex_le_trans(a.drop_first(), b.drop_first(), c.drop_first());
        }
    }
}

} // verus!
