//! Utilities of different kind: permission formatting, duration formatting
//! and text alignment, all specified down to the exact character sequence.

use chrono::Datelike;
use chrono::Timelike;
use std::fmt::Write;
use vstd::prelude::*;

verus! {

use vstd::string::StrSliceExecFns;
use vstd::string::StringExecFns;
use vstd::string::StringSliceAdditionalSpecFns;

broadcast use vstd::string::is_ascii_spec_bytes;

/// Characters and bytes below 128 stand for one another exactly.
pub proof fn lemma_ascii_str_chars(s: &str)
    requires
        s.is_ascii(),
    ensures
        s@ == chars_of(s.spec_bytes()),
        all_ascii(s.spec_bytes()),
{
    assert forall|i: int| 0 <= i < s@.len() implies (s@[i] as u8) as char == s@[i] by {
        assert('\0' <= s@[i] <= '\u{7f}');
    }
    assert(s@ =~= chars_of(s.spec_bytes()));
}

/// The characters standing for the bytes of an ASCII byte sequence.
pub open spec fn chars_of(b: Seq<u8>) -> Seq<char> {
    Seq::new(b.len(), |i: int| b[i] as char)
}

/// Every byte of the sequence is ASCII.
pub open spec fn all_ascii(b: Seq<u8>) -> bool {
    forall|i: int| 0 <= i < b.len() ==> b[i] < 128
}

/// Relies on String::from_utf8: bytes below 128 are valid UTF-8 and decode
/// to one character per byte, each character being the byte's code point.
#[verifier::external_body]
pub fn string_from_ascii(bytes: Vec<u8>) -> (r: String)
    requires
        all_ascii(bytes@),
    ensures
        r@ == chars_of(bytes@),
{
    String::from_utf8(bytes).unwrap_or_default()
}

/// The `ls`-style triad for one 3-bit permission octet: `r`, `w` and `x`
/// for the set bits, `-` for the clear ones.
pub open spec fn pex_triad(p: u8) -> Seq<char> {
    seq![
        if p & 4 == 4 { 'r' } else { '-' },
        if p & 2 == 2 { 'w' } else { '-' },
        if p & 1 == 1 { 'x' } else { '-' },
    ]
}

/// The nine characters of the `ls` mode string for the three octets.
pub open spec fn fmt_pex_spec(owner: u8, group: u8, others: u8) -> Seq<char> {
    pex_triad(owner) + pex_triad(group) + pex_triad(others)
}

fn push_triad(out: &mut Vec<u8>, p: u8)
    ensures
        final(out)@ == old(out)@ + seq![
            if p & 4 == 4 { 114u8 } else { 45u8 },
            if p & 2 == 2 { 119u8 } else { 45u8 },
            if p & 1 == 1 { 120u8 } else { 45u8 },
        ],
{
    out.push(if p & 4 == 4 { 114u8 } else { 45u8 });
    out.push(if p & 2 == 2 { 119u8 } else { 45u8 });
    out.push(if p & 1 == 1 { 120u8 } else { 45u8 });
}

/// The byte is a decimal digit.
pub open spec fn is_digit(b: u8) -> bool {
    48 <= b <= 57
}

/// Every byte of the sequence is a decimal digit.
pub open spec fn all_digits(s: Seq<u8>) -> bool {
    forall|i: int| 0 <= i < s.len() ==> is_digit(#[trigger] s[i])
}

/// The number a sequence of decimal digits denotes (0 for the empty one).
pub open spec fn dec_value(s: Seq<u8>) -> int
    decreases s.len(),
{
    if s.len() == 0 {
        0
    } else {
        dec_value(s.drop_last()) * 10 + (s.last() - 48)
    }
}

/// The decimal digits of a number, most significant first.
pub open spec fn dec_digits(n: int) -> Seq<u8>
    decreases n,
{
    if n < 10 {
        seq![(48 + if n < 0 { 0 } else { n }) as u8]
    } else {
        dec_digits(n / 10) + seq![(48 + n % 10) as u8]
    }
}

/// The decimal notation of a number, as characters.
pub open spec fn dec_str(n: int) -> Seq<char> {
    chars_of(dec_digits(n))
}

proof fn lemma_dec_value_nonneg(s: Seq<u8>)
    requires
        all_digits(s),
    ensures
        dec_value(s) >= 0,
    decreases s.len(),
{
    if s.len() > 0 {
        assert(all_digits(s.drop_last()));
        lemma_dec_value_nonneg(s.drop_last());
    }
}

proof fn lemma_dec_value_take_grows(s: Seq<u8>, i: int)
    requires
        all_digits(s),
        0 <= i <= s.len(),
    ensures
        dec_value(s) >= dec_value(s.take(i)),
    decreases s.len() - i,
{
    if i < s.len() {
        assert(all_digits(s.take(i)));
        lemma_dec_value_nonneg(s.take(i));
        assert(s.take(i + 1).drop_last() =~= s.take(i));
        lemma_dec_value_take_grows(s, i + 1);
    } else {
        assert(s.take(i) =~= s);
    }
}

/// The decimal digits of the bytes of `s`, as a number, when `s` is a
/// nonempty run of digits whose value fits in a `u64`.
pub fn parse_u64_bytes(s: &[u8]) -> (r: Option<u64>)
    ensures
        match r {
            Some(n) => s@.len() > 0 && all_digits(s@) && n == dec_value(s@),
            None => s@.len() == 0 || !all_digits(s@) || dec_value(s@) > u64::MAX,
        },
{
    if s.len() == 0 {
        return None;
    }
    let mut acc: u64 = 0;
    let mut i: usize = 0;
    while i < s.len()
        invariant
            0 <= i <= s@.len(),
            all_digits(s@.take(i as int)),
            acc == dec_value(s@.take(i as int)),
        decreases s@.len() - i,
    {
        let b = s[i];
        if b < 48 || b > 57 {
            assert(!all_digits(s@));
            return None;
        }
        let d: u64 = (b - 48) as u64;
        if acc > (u64::MAX - d) / 10 {
            proof {
                assert(acc * 10 + d > u64::MAX) by (nonlinear_arith)
                    requires acc > (u64::MAX - d) / 10 && d <= 9 && acc >= 0;
                assert(s@.take(i + 1).drop_last() =~= s@.take(i as int));
                assert(all_digits(s@.take(i + 1)));
                assert(dec_value(s@.take(i + 1)) == acc * 10 + d);
                if all_digits(s@) {
                    lemma_dec_value_take_grows(s@, i + 1);
                    assert(s@.take(s@.len() as int) =~= s@);
                }
            }
            return None;
        }
        proof {
            assert(acc * 10 + d <= u64::MAX) by (nonlinear_arith)
                requires acc <= (u64::MAX - d) / 10 && d <= 9 && acc >= 0;
            assert(s@.take(i + 1).drop_last() =~= s@.take(i as int));
        }
        acc = acc * 10 + d;
        i = i + 1;
    }
    proof {
        assert(s@.take(s@.len() as int) =~= s@);
    }
    Some(acc)
}

/// The decimal digits of the bytes of `s`, as a number, when it fits
/// in a `u16`.
pub fn parse_u16_bytes(s: &[u8]) -> (r: Option<u16>)
    ensures
        match r {
            Some(n) => s@.len() > 0 && all_digits(s@) && n == dec_value(s@),
            None => s@.len() == 0 || !all_digits(s@) || dec_value(s@) > u16::MAX,
        },
{
    match parse_u64_bytes(s) {
        Some(n) => if n <= 65535 { Some(n as u16) } else { None },
        None => {
            proof {
                if s@.len() > 0 && all_digits(s@) {
                    lemma_dec_value_nonneg(s@);
                }
            }
            None
        },
    }
}

/// The decimal digits of the bytes of `s`, as a number, when it fits
/// in a `u32`.
pub fn parse_u32_bytes(s: &[u8]) -> (r: Option<u32>)
    ensures
        match r {
            Some(n) => s@.len() > 0 && all_digits(s@) && n == dec_value(s@),
            None => s@.len() == 0 || !all_digits(s@) || dec_value(s@) > u32::MAX,
        },
{
    match parse_u64_bytes(s) {
        Some(n) => if n <= 0xffff_ffff { Some(n as u32) } else { None },
        None => {
            proof {
                if s@.len() > 0 && all_digits(s@) {
                    lemma_dec_value_nonneg(s@);
                }
            }
            None
        },
    }
}

/// The decimal digits of `n`, most significant first, as bytes.
pub fn dec_bytes(n: u64) -> (r: Vec<u8>)
    ensures
        r@ == dec_digits(n as int),
        all_digits(r@),
        all_ascii(r@),
        r@.len() >= 1,
    decreases n,
{
    if n < 10 {
        let mut v: Vec<u8> = Vec::new();
        v.push((48 + n) as u8);
        assert(v@ =~= dec_digits(n as int));
        v
    } else {
        let mut v = dec_bytes(n / 10);
        v.push((48 + (n % 10)) as u8);
        assert(v@ =~= dec_digits(n as int));
        v
    }
}

/// The decimal notation of `n`.
pub fn u64_to_string(n: u64) -> (r: String)
    ensures
        r@ == dec_str(n as int),
{
    string_from_ascii(dec_bytes(n))
}

/// A number padded with leading zeroes to at least three digits.
pub open spec fn pad3(k: int) -> Seq<u8> {
    if k < 10 {
        seq![48u8, 48u8] + dec_digits(k)
    } else if k < 100 {
        seq![48u8] + dec_digits(k)
    } else {
        dec_digits(k)
    }
}

/// A duration of `ms` milliseconds written as `{secs}.{millis}`,
/// the milliseconds padded to three digits.
pub open spec fn fmt_millis_spec(ms: int) -> Seq<char> {
    dec_str(ms / 1000) + seq!['.'] + chars_of(pad3(ms % 1000))
}

/// Format a duration, given in milliseconds, as `{secs}.{millis}`.
pub fn fmt_millis(millis: u64) -> (r: String)
    ensures
        r@ == fmt_millis_spec(millis as int),
{
    let mut bytes = dec_bytes(millis / 1000);
    bytes.push(46u8);
    let frac: u64 = millis % 1000;
    if frac < 10 {
        bytes.push(48u8);
        bytes.push(48u8);
    } else if frac < 100 {
        bytes.push(48u8);
    }
    let mut tail = dec_bytes(frac);
    bytes.append(&mut tail);
    let r = string_from_ascii(bytes);
    assert(r@ =~= fmt_millis_spec(millis as int));
    r
}

/// A whitespace character, in the ASCII sense.
pub open spec fn is_ws_char(c: char) -> bool {
    c == ' ' || c == '\t' || c == '\n' || c == '\r' || c == '\u{b}' || c == '\u{c}'
}

/// The sequence with its trailing whitespace characters removed.
pub open spec fn trim_end_ws(s: Seq<char>) -> Seq<char>
    decreases s.len(),
{
    if s.len() > 0 && is_ws_char(s.last()) {
        trim_end_ws(s.drop_last())
    } else {
        s
    }
}

/// `k` space characters.
pub open spec fn spaces(k: int) -> Seq<char> {
    Seq::new(if k < 0 { 0 } else { k as nat }, |i: int| ' ')
}

/// The indent that centres a text of `len` bytes in `width` columns.
pub open spec fn indent_of(len: int, width: int) -> int {
    if width >= len {
        (width - len) / 2
    } else {
        0
    }
}

/// All characters of the sequence are whitespace.
proof fn lemma_trim_all_ws(s: Seq<char>)
    requires
        forall|i: int| 0 <= i < s.len() ==> is_ws_char(#[trigger] s[i]),
    ensures
        trim_end_ws(s).len() == 0,
    decreases s.len(),
{
    if s.len() > 0 {
        lemma_trim_all_ws(s.drop_last());
    }
}

/// A sequence that trims to nothing is whitespace throughout.
proof fn lemma_trim_empty_all_ws(s: Seq<char>)
    requires
        trim_end_ws(s).len() == 0,
    ensures
        forall|i: int| 0 <= i < s.len() ==> is_ws_char(#[trigger] s[i]),
    decreases s.len(),
{
    if s.len() > 0 {
        assert(is_ws_char(s.last()));
        lemma_trim_empty_all_ws(s.drop_last());
        assert forall|i: int| 0 <= i < s.len() implies is_ws_char(#[trigger] s[i]) by {
            if i < s.len() - 1 {
                assert(s.drop_last()[i] == s[i]);
            }
        }
    }
}

/// Trailing-whitespace trimming of a concatenation stops inside the right
/// part when that part does not trim away entirely.
proof fn lemma_trim_concat(a: Seq<char>, b: Seq<char>)
    requires
        trim_end_ws(b).len() > 0,
    ensures
        trim_end_ws(a + b) == a + trim_end_ws(b),
    decreases b.len(),
{
    assert(b.len() > 0);
    assert((a + b).last() == b.last());
    if is_ws_char(b.last()) {
        assert((a + b).drop_last() =~= a + b.drop_last());
        lemma_trim_concat(a, b.drop_last());
    } else {
        assert(trim_end_ws(a + b) == a + b);
        assert(trim_end_ws(b) == b);
    }
}

fn is_ws(c: char) -> (r: bool)
    ensures
        r == is_ws_char(c),
{
    c == ' ' || c == '\t' || c == '\n' || c == '\r' || c == '\u{b}' || c == '\u{c}'
}

/// Align a one-line text to the centre of the given width: the text is
/// prefixed with half the free byte columns in spaces and stripped of
/// trailing whitespace; a text wider than `width` gets no indent.
pub fn align_text_center(text: &str, width: u16) -> (r: String)
    ensures
        r@ == trim_end_ws(
            spaces(indent_of(text.spec_bytes().len() as int, width as int)) + text@,
        ),
{
    let byte_len: usize = text.as_bytes_vec().len();
    let indent: usize = if (width as usize) >= byte_len {
        ((width as usize) - byte_len) / 2
    } else {
        0
    };
    let ghost k = indent_of(text.spec_bytes().len() as int, width as int);
    proof {
        assert(indent == k);
    }
    // Find where the text's trailing whitespace begins.
    let n = text.unicode_len();
    let mut j = n;
    proof {
        assert(text@.take(n as int) =~= text@);
    }
    loop
        invariant_except_break
            0 <= j <= n,
            n == text@.len(),
            trim_end_ws(text@) == trim_end_ws(text@.take(j as int)),
        ensures
            0 <= j <= n,
            n == text@.len(),
            trim_end_ws(text@) == text@.take(j as int),
        decreases j,
    {
        if j == 0 {
            proof {
                assert(text@.take(0).len() == 0);
            }
            break;
        }
        let c = text.get_char(j - 1);
        if is_ws(c) {
            proof {
                assert(text@.take(j as int).last() == text@[j - 1]);
                assert(text@.take(j as int).drop_last() =~= text@.take(j - 1));
            }
            j = j - 1;
        } else {
            proof {
                assert(text@.take(j as int).last() == text@[j - 1]);
                assert(trim_end_ws(text@.take(j as int)) == text@.take(j as int));
            }
            break;
        }
    }
    if j == 0 {
        // The whole line is whitespace: the indent trims away with it.
        proof {
            lemma_trim_empty_all_ws(text@);
            assert forall|i: int| 0 <= i < (spaces(k) + text@).len() implies is_ws_char(
                #[trigger] (spaces(k) + text@)[i],
            ) by {
                if i >= k {
                    assert((spaces(k) + text@)[i] == text@[i - k]);
                }
            }
            lemma_trim_all_ws(spaces(k) + text@);
        }
        return String::new();
    }
    let trimmed: &str = text.substring_char(0, j);
    let mut fill: Vec<u8> = Vec::new();
    let mut i: usize = 0;
    while i < indent
        invariant
            0 <= i <= indent,
            fill@.len() == i,
            forall|m: int| 0 <= m < i ==> fill@[m] == 32u8,
        decreases indent - i,
    {
        fill.push(32u8);
        i = i + 1;
    }
    proof {
        assert(all_ascii(fill@));
    }
    let prefix = string_from_ascii(fill);
    proof {
        assert(prefix@ =~= spaces(k));
    }
    let r = prefix.concat(trimmed);
    proof {
        lemma_trim_concat(spaces(k), text@);
    }
    r
}

/// The index of the first occurrence of `c` in `s`, or `s.len()` when
/// `c` does not occur.
pub open spec fn first_char(s: Seq<char>, c: char) -> int
    decreases s.len(),
{
    if s.len() == 0 {
        0
    } else if s[0] == c {
        0
    } else {
        1 + first_char(s.drop_first(), c)
    }
}

pub proof fn lemma_first_char(s: Seq<char>, c: char)
    ensures
        0 <= first_char(s, c) <= s.len(),
        first_char(s, c) < s.len() ==> s[first_char(s, c)] == c,
        forall|j: int| 0 <= j < first_char(s, c) ==> s[j] != c,
    decreases s.len(),
{
    if s.len() > 0 && s[0] != c {
        lemma_first_char(s.drop_first(), c);
        assert forall|j: int| 0 <= j < first_char(s, c) implies s[j] != c by {
            if j > 0 {
                assert(s.drop_first()[j - 1] == s[j]);
            }
        }
    }
}

/// The scheme separator `://` stands at index `i` of `s`.
pub open spec fn scheme_at(s: Seq<char>, i: int) -> bool {
    0 <= i && i + 3 <= s.len() && s[i] == ':' && s[i + 1] == '/' && s[i + 2] == '/'
}

/// The index of the first occurrence of `://` in `s`, or `s.len()` when
/// it does not occur.
pub open spec fn first_scheme(s: Seq<char>) -> int
    decreases s.len(),
{
    if s.len() == 0 {
        0
    } else if scheme_at(s, 0) {
        0
    } else {
        1 + first_scheme(s.drop_first())
    }
}

pub proof fn lemma_first_scheme(s: Seq<char>)
    ensures
        0 <= first_scheme(s) <= s.len(),
        first_scheme(s) < s.len() ==> scheme_at(s, first_scheme(s)),
        forall|j: int| 0 <= j < first_scheme(s) ==> !scheme_at(s, j),
    decreases s.len(),
{
    if s.len() > 0 && !scheme_at(s, 0) {
        lemma_first_scheme(s.drop_first());
        let f = first_scheme(s);
        if f < s.len() {
            assert(scheme_at(s.drop_first(), f - 1));
            assert(scheme_at(s, f));
        }
        assert forall|j: int| 0 <= j < f implies !scheme_at(s, j) by {
            if j > 0 {
                if scheme_at(s, j) {
                    assert(scheme_at(s.drop_first(), j - 1));
                }
            }
        }
    }
}

fn find_char(s: &str, c: char, n: usize) -> (i: usize)
    requires
        n == s@.len(),
    ensures
        0 <= i <= n,
        i == first_char(s@, c),
{
    proof {
        lemma_first_char(s@, c);
    }
    let mut i: usize = 0;
    while i < n
        invariant
            0 <= i <= n,
            n == s@.len(),
            forall|j: int| 0 <= j < i ==> s@[j] != c,
        decreases n - i,
    {
        if s.get_char(i) == c {
            proof {
                lemma_first_char(s@, c);
                let f = first_char(s@, c);
                if f < i {
                    assert(s@[f] != c);
                }
            }
            return i;
        }
        i = i + 1;
    }
    proof {
        lemma_first_char(s@, c);
        let f = first_char(s@, c);
        if f < n {
            assert(s@[f] != c);
        }
    }
    n
}

fn find_scheme(s: &str, n: usize) -> (i: usize)
    requires
        n == s@.len(),
    ensures
        0 <= i <= n,
        i == first_scheme(s@),
{
    if n < 3 {
        proof {
            lemma_first_scheme(s@);
            let f = first_scheme(s@);
            if f < s@.len() {
                assert(scheme_at(s@, f));
            }
        }
        return n;
    }
    let stop = n - 2;
    let mut i: usize = 0;
    while i < stop
        invariant
            0 <= i,
            n == s@.len(),
            s@.len() >= 3,
            s@.len() <= usize::MAX,
            stop == s@.len() - 2,
            i <= s@.len(),
            forall|j: int| 0 <= j < i ==> !scheme_at(s@, j),
        decreases s@.len() - i,
    {
        if s.get_char(i) == ':' && s.get_char(i + 1) == '/' && s.get_char(i + 2) == '/' {
            proof {
                lemma_first_scheme(s@);
                let f = first_scheme(s@);
                assert(scheme_at(s@, i as int));
                if f < i {
                    assert(!scheme_at(s@, f));
                }
            }
            return i;
        }
        i = i + 1;
    }
    proof {
        lemma_first_scheme(s@);
        let f = first_scheme(s@);
        assert(forall|j: int| i <= j < s@.len() ==> !scheme_at(s@, j));
        if f < s@.len() {
            assert(!scheme_at(s@, f));
        }
    }
    n
}

/// Every character of the sequence is a decimal digit.
pub open spec fn all_digit_chars(s: Seq<char>) -> bool {
    forall|i: int| 0 <= i < s.len() ==> '0' <= #[trigger] s[i] <= '9'
}

/// The bytes standing for a sequence of characters, each truncated to a
/// byte; faithful below code point 128.
pub open spec fn bytes_of_chars(s: Seq<char>) -> Seq<u8> {
    Seq::new(s.len(), |i: int| s[i] as u8)
}

/// The decimal digits of the characters of `s`, as a number, when `s` is
/// a nonempty run of digit characters whose value fits in a `u16`.
pub fn parse_u16_chars(s: &str) -> (r: Option<u16>)
    ensures
        match r {
            Some(n) => s@.len() > 0 && all_digit_chars(s@) && n == dec_value(bytes_of_chars(s@)),
            None => s@.len() == 0 || !all_digit_chars(s@) || dec_value(bytes_of_chars(s@))
                > u16::MAX,
        },
{
    let n = s.unicode_len();
    let mut b: Vec<u8> = Vec::new();
    let mut i: usize = 0;
    while i < n
        invariant
            0 <= i <= n,
            n == s@.len(),
            b@ == bytes_of_chars(s@.take(i as int)),
            forall|j: int| 0 <= j < i ==> '0' <= #[trigger] s@[j] <= '9',
        decreases n - i,
    {
        let c = s.get_char(i);
        let v = c as u32;
        if v < 48 || v > 57 {
            assert(!all_digit_chars(s@));
            return None;
        }
        b.push(c as u8);
        proof {
            assert(b@ =~= bytes_of_chars(s@.take(i + 1)));
        }
        i = i + 1;
    }
    proof {
        assert(s@.take(n as int) =~= s@);
        assert(all_digits(b@));
    }
    parse_u16_bytes(b.as_slice())
}

/// The bytes of `s` between `from` and `to`.
pub fn sub_vec(v: &Vec<u8>, from: usize, to: usize) -> (r: Vec<u8>)
    requires
        from <= to <= v@.len(),
    ensures
        r@ == v@.subrange(from as int, to as int),
{
    let mut r: Vec<u8> = Vec::new();
    let mut i: usize = from;
    while i < to
        invariant
            from <= i <= to <= v@.len(),
            r@ == v@.subrange(from as int, i as int),
        decreases to - i,
    {
        r.push(v[i]);
        proof {
            assert(v@.subrange(from as int, i + 1) =~= v@.subrange(from as int, i as int)
                + seq![v@[i as int]]);
        }
        i = i + 1;
    }
    r
}

/// The outcome of reading a remote-target option: either the four parsed
/// components, or the message shown for the refused input. An absent user
/// means the input named none; the caller supplies the default.
pub enum RemoteParse {
    Parsed { addr: Seq<char>, port: u16, proto: crate::filetransfer::FileTransferProtocol, user: Option<Seq<char>> },
    Refused { msg: Seq<char> },
}

pub open spec fn sftp_name() -> Seq<char> {
    seq!['s', 'f', 't', 'p']
}

pub open spec fn scp_name() -> Seq<char> {
    seq!['s', 'c', 'p']
}

pub open spec fn ftp_name() -> Seq<char> {
    seq!['f', 't', 'p']
}

pub open spec fn ftps_name() -> Seq<char> {
    seq!['f', 't', 'p', 's']
}

/// The protocol a scheme token names, with its default port.
pub open spec fn proto_of(p: Seq<char>) -> Option<(crate::filetransfer::FileTransferProtocol, u16)> {
    if p == sftp_name() {
        Some((crate::filetransfer::FileTransferProtocol::Sftp, 22u16))
    } else if p == scp_name() {
        Some((crate::filetransfer::FileTransferProtocol::Scp, 22u16))
    } else if p == ftp_name() {
        Some((crate::filetransfer::FileTransferProtocol::Ftp(false), 21u16))
    } else if p == ftps_name() {
        Some((crate::filetransfer::FileTransferProtocol::Ftp(true), 21u16))
    } else {
        None
    }
}

/// The grammar of a remote target, `[protocol://][user@]host[:port]`:
/// the scheme, when present, picks the protocol and its default port;
/// a `user@` prefix names the user; a `:port` suffix must be a decimal
/// 16-bit number. A second scheme separator, `@` or `:` refuses the
/// input.
pub open spec fn parse_remote_spec(s: Seq<char>) -> RemoteParse {
    let i = first_scheme(s);
    let scheme = if i == s.len() {
        Some((crate::filetransfer::FileTransferProtocol::Sftp, 22u16, s))
    } else {
        match proto_of(s.take(i)) {
            Some((pr, dp)) => {
                let rest = s.skip(i + 3);
                if first_scheme(rest) < rest.len() {
                    None
                } else {
                    Some((pr, dp, rest))
                }
            },
            None => None,
        }
    };
    if i < s.len() && proto_of(s.take(i)) is None {
        RemoteParse::Refused {
            msg: "Unknown protocol '"@ + s.take(i) + "'"@,
        }
    } else {
        match scheme {
            None => RemoteParse::Refused { msg: "Bad syntax"@ },
            Some((proto, dport, rest)) => {
                let a = first_char(rest, '@');
                if a == rest.len() {
                    parse_host_spec(rest, proto, dport, None)
                } else {
                    let h = rest.skip(a + 1);
                    if first_char(h, '@') < h.len() {
                        RemoteParse::Refused { msg: "Bad syntax"@ }
                    } else {
                        parse_host_spec(h, proto, dport, Some(rest.take(a)))
                    }
                }
            },
        }
    }
}

/// The `host[:port]` tail of a remote target.
pub open spec fn parse_host_spec(
    h: Seq<char>,
    proto: crate::filetransfer::FileTransferProtocol,
    dport: u16,
    user: Option<Seq<char>>,
) -> RemoteParse {
    let c = first_char(h, ':');
    if c == h.len() {
        RemoteParse::Parsed { addr: h, port: dport, proto, user }
    } else {
        let pb = h.skip(c + 1);
        if first_char(pb, ':') < pb.len() {
            RemoteParse::Refused { msg: "Bad syntax"@ }
        } else if pb.len() > 0 && all_digit_chars(pb) && dec_value(bytes_of_chars(pb))
            <= u16::MAX {
            RemoteParse::Parsed {
                addr: h.take(c),
                port: dec_value(bytes_of_chars(pb)) as u16,
                proto,
                user,
            }
        } else {
            RemoteParse::Refused {
                msg: "Port must be a number in range [0-65535], but is '"@ + pb + "'"@,
            }
        }
    }
}

/// Whether the protocol takes the current user as its default user.
pub open spec fn wants_default_user(proto: crate::filetransfer::FileTransferProtocol) -> bool {
    proto == crate::filetransfer::FileTransferProtocol::Sftp
        || proto == crate::filetransfer::FileTransferProtocol::Scp
}

/// The remote-option contract: the returned tuple, or the returned
/// message, is the one the grammar gives; an absent user falls back to
/// `default_user` for SFTP and SCP and to none otherwise.
pub open spec fn remote_opt_post(
    r: Result<(String, u16, crate::filetransfer::FileTransferProtocol, Option<String>), String>,
    t: &str,
    default_user: Seq<char>,
) -> bool {
    match parse_remote_spec(t@) {
        RemoteParse::Refused { msg } => r matches Err(m) && m@ == msg,
        RemoteParse::Parsed { addr, port, proto, user } => {
            &&& r matches Ok((a, p, pr, u))
            &&& a@ == addr
            &&& p == port
            &&& pr == proto
            &&& match user {
                Some(ub) => u matches Some(x) && x@ == ub,
                None => if wants_default_user(proto) {
                    u matches Some(x) && x@ == default_user
                } else {
                    u is None
                },
            }
        },
    }
}

/// The machine-independent part of the remote-option contract: everything
/// the grammar fixes, with only the default user's text left open.
pub open spec fn remote_opt_fixed_post(
    r: Result<(String, u16, crate::filetransfer::FileTransferProtocol, Option<String>), String>,
    t: &str,
) -> bool {
    match parse_remote_spec(t@) {
        RemoteParse::Refused { msg } => r matches Err(m) && m@ == msg,
        RemoteParse::Parsed { addr, port, proto, user } => {
            &&& r matches Ok((a, p, pr, u))
            &&& a@ == addr
            &&& p == port
            &&& pr == proto
            &&& match user {
                Some(ub) => u matches Some(x) && x@ == ub,
                None => if wants_default_user(proto) {
                    u is Some
                } else {
                    u is None
                },
            }
        },
    }
}

/// Parse a remote option string into `(address, port, protocol, username)`,
/// taking `default_user` as the user for SFTP and SCP targets that name
/// none. The accepted grammar is `[protocol://][user@]host[:port]` with
/// `protocol` one of `sftp`, `scp`, `ftp`, `ftps`.
#[verifier::rlimit(50)]
pub fn parse_remote_opt_with_user(remote: &str, default_user: String) -> (r: Result<
    (String, u16, crate::filetransfer::FileTransferProtocol, Option<String>),
    String,
>)
    ensures
        remote_opt_post(r, remote, default_user@),
{
    let ghost s = remote@;
    let n = remote.unicode_len();
    let i = find_scheme(remote, n);
    let proto: crate::filetransfer::FileTransferProtocol;
    let dport: u16;
    let rest: &str;
    if i == n {
        proto = crate::filetransfer::FileTransferProtocol::Sftp;
        dport = 22;
        rest = remote;
    } else {
        proof {
            lemma_first_scheme(s);
        }
        if i == 4 && remote.get_char(0) == 's' && remote.get_char(1) == 'f' && remote.get_char(2)
            == 't' && remote.get_char(3) == 'p' {
            proof {
                assert(s.take(i as int) =~= sftp_name());
            }
            proto = crate::filetransfer::FileTransferProtocol::Sftp;
            dport = 22;
        } else if i == 3 && remote.get_char(0) == 's' && remote.get_char(1) == 'c'
            && remote.get_char(2) == 'p' {
            proof {
                assert(s.take(i as int) =~= scp_name());
            }
            proto = crate::filetransfer::FileTransferProtocol::Scp;
            dport = 22;
        } else if i == 3 && remote.get_char(0) == 'f' && remote.get_char(1) == 't'
            && remote.get_char(2) == 'p' {
            proof {
                assert(s.take(i as int) =~= ftp_name());
            }
            proto = crate::filetransfer::FileTransferProtocol::Ftp(false);
            dport = 21;
        } else if i == 4 && remote.get_char(0) == 'f' && remote.get_char(1) == 't'
            && remote.get_char(2) == 'p' && remote.get_char(3) == 's' {
            proof {
                assert(s.take(i as int) =~= ftps_name());
            }
            proto = crate::filetransfer::FileTransferProtocol::Ftp(true);
            dport = 21;
        } else {
            proof {
                let t = s.take(i as int);
                assert(t.len() == i);
                assert(forall|k: int| 0 <= k < i ==> #[trigger] t[k] == s[k]);
                assert(t != sftp_name() && t != scp_name() && t != ftp_name()
                    && t != ftps_name());
            }
            let tok = remote.substring_char(0, i);
            let msg = String::from_str("Unknown protocol '").concat(tok).concat("'");
            return Err(msg);
        }
        rest = remote.substring_char(i + 3, n);
        proof {
            assert(rest@ =~= s.skip(i + 3));
        }
        let rn = rest.unicode_len();
        let j = find_scheme(rest, rn);
        if j < rn {
            return Err(String::from_str("Bad syntax"));
        }
    }
    // Split the remainder at a `user@` prefix.
    let rn = rest.unicode_len();
    let a = find_char(rest, '@', rn);
    let user_tok: Option<&str>;
    let host_part: &str;
    if a == rn {
        user_tok = None;
        host_part = rest;
    } else {
        proof {
            lemma_first_char(rest@, '@');
        }
        let u = rest.substring_char(0, a);
        let h = rest.substring_char(a + 1, rn);
        proof {
            assert(u@ =~= rest@.take(a as int));
            assert(h@ =~= rest@.skip(a + 1));
        }
        let hn = h.unicode_len();
        if find_char(h, '@', hn) < hn {
            return Err(String::from_str("Bad syntax"));
        }
        user_tok = Some(u);
        host_part = h;
    }
    // Split the host at a `:port` suffix.
    let hn = host_part.unicode_len();
    let c = find_char(host_part, ':', hn);
    let addr: String;
    let port: u16;
    if c == hn {
        addr = host_part.to_owned();
        port = dport;
    } else {
        proof {
            lemma_first_char(host_part@, ':');
        }
        let ab = host_part.substring_char(0, c);
        let pb = host_part.substring_char(c + 1, hn);
        proof {
            assert(ab@ =~= host_part@.take(c as int));
            assert(pb@ =~= host_part@.skip(c + 1));
        }
        let pn = pb.unicode_len();
        if find_char(pb, ':', pn) < pn {
            return Err(String::from_str("Bad syntax"));
        }
        match parse_u16_chars(pb) {
            Some(p) => {
                port = p;
            },
            None => {
                let msg = String::from_str("Port must be a number in range [0-65535], but is '")
                    .concat(pb).concat("'");
                return Err(msg);
            },
        }
        addr = ab.to_owned();
    }
    let username: Option<String> = match user_tok {
        Some(u) => Some(u.to_owned()),
        None => {
            match proto {
                crate::filetransfer::FileTransferProtocol::Sftp
                | crate::filetransfer::FileTransferProtocol::Scp => Some(default_user),
                _ => None,
            }
        },
    };
    Ok((addr, port, proto, username))
}

/// The decimal notation of a signed number.
pub open spec fn int_str(n: int) -> Seq<char> {
    if n < 0 {
        seq!['-'] + dec_str(-n)
    } else {
        dec_str(n)
    }
}

/// The decimal notation of `n`, with a leading minus sign when negative.
pub fn i32_to_string(n: i32) -> (r: String)
    ensures
        r@ == int_str(n as int),
{
    if n < 0 {
        let m: u64 = (-(n as i64)) as u64;
        let mut bytes: Vec<u8> = Vec::new();
        bytes.push(45u8);
        let mut tail = dec_bytes(m);
        bytes.append(&mut tail);
        let r = string_from_ascii(bytes);
        assert(r@ =~= int_str(n as int));
        r
    } else {
        let r = u64_to_string(n as u64);
        r
    }
}

/// The year is a leap year of the proleptic Gregorian calendar.
pub open spec fn is_leap_year(y: int) -> bool {
    y % 4 == 0 && (y % 100 != 0 || y % 400 == 0)
}

/// The number of leap years before year `y`.
pub open spec fn leap_count_before(y: int) -> int {
    (y - 1) / 4 - (y - 1) / 100 + (y - 1) / 400
}

/// Days from 1970-01-01 to the first day of year `y` (negative before 1970).
pub open spec fn days_before_year(y: int) -> int {
    365 * (y - 1970) + leap_count_before(y) - leap_count_before(1970)
}

/// Days from the first day of the year to the first day of month `m`.
pub open spec fn days_before_month(m: int, leap: bool) -> int {
    let base: int = if m <= 1 { 0 }
        else if m == 2 { 31 }
        else if m == 3 { 59 }
        else if m == 4 { 90 }
        else if m == 5 { 120 }
        else if m == 6 { 151 }
        else if m == 7 { 181 }
        else if m == 8 { 212 }
        else if m == 9 { 243 }
        else if m == 10 { 273 }
        else if m == 11 { 304 }
        else { 334 };
    base + if m > 2 && leap { 1int } else { 0int }
}

/// Seconds from 1970-01-01T00:00:00 to the given civil date and time
/// (negative before the epoch).
pub open spec fn civil_secs(y: int, m: int, d: int, h: int, mi: int, s: int) -> int {
    (days_before_year(y) + days_before_month(m, is_leap_year(y)) + (d - 1)) * 86400 + h * 3600
        + mi * 60 + s
}

/// The epoch timestamp of a civil date and time: its seconds from the
/// epoch, with instants before the epoch clamped to 0.
pub open spec fn civil_epoch(y: int, m: int, d: int, h: int, mi: int, s: int) -> int {
    if civil_secs(y, m, d, h, mi, s) < 0 {
        0
    } else {
        civil_secs(y, m, d, h, mi, s)
    }
}

proof fn lemma_days_before_year_mono(a: int, b: int)
    requires
        a <= b,
    ensures
        days_before_year(a) <= days_before_year(b),
    decreases b - a,
{
    if a < b {
        lemma_days_before_year_mono(a, b - 1);
        assert((b - 2) / 4 <= (b - 1) / 4);
        assert((b - 2) / 100 >= (b - 1) / 100 - 1);
        assert((b - 2) / 400 >= (b - 1) / 400 - 1);
    }
}

/// The epoch timestamp of a civil date and time, for dates within the
/// range a calendar library can represent.
pub fn epoch_from_civil(y: i32, m: u32, d: u32, h: u32, mi: u32, s: u32) -> (r: u64)
    requires
        -262144 <= y <= 262143,
        1 <= m <= 12,
        1 <= d <= 31,
        h <= 23,
        mi <= 59,
        s <= 60,
    ensures
        r == civil_epoch(y as int, m as int, d as int, h as int, mi as int, s as int),
{
    if y < 1970 {
        proof {
            lemma_days_before_year_mono(y as int, 1969);
            if is_leap_year(y as int) {
                lemma_days_before_year_mono(y as int, 1968);
            }
            assert(days_before_year(1969) == -365);
            assert(days_before_year(1968) == -731);
            assert(days_before_year(y as int) + days_before_month(
                m as int,
                is_leap_year(y as int),
            ) + (d - 1) <= -1);
            assert(civil_secs(y as int, m as int, d as int, h as int, mi as int, s as int) <= 0);
        }
        return 0;
    }
    let yu: u64 = (y - 1) as u64;
    let leaps: u64 = yu / 4 + yu / 400 - yu / 100;
    proof {
        assert(yu / 100 <= yu / 4) by (nonlinear_arith)
            requires yu >= 0;
        assert(leaps == leap_count_before(y as int));
        assert(leap_count_before(1970) == 477);
        assert(leaps >= 477) by {
            assert(yu >= 1969);
            assert(yu / 4 >= 492) by (nonlinear_arith)
                requires yu >= 1969;
            assert(yu / 100 <= yu / 4);
            assert(yu / 100 * 100 <= yu);
        }
    }
    let base: bool = (y % 4 == 0) && (y % 100 != 0 || y % 400 == 0);
    let mb: u64 = if m <= 1 { 0 }
        else if m == 2 { 31 }
        else if m == 3 { 59 }
        else if m == 4 { 90 }
        else if m == 5 { 120 }
        else if m == 6 { 151 }
        else if m == 7 { 181 }
        else if m == 8 { 212 }
        else if m == 9 { 243 }
        else if m == 10 { 273 }
        else if m == 11 { 304 }
        else { 334 };
    let mb: u64 = if m > 2 && base { mb + 1 } else { mb };
    let years: u64 = (y - 1970) as u64;
    proof {
        assert(years <= 300000);
        assert(leaps <= yu) by {
            assert(yu / 4 <= yu);
            assert(yu / 400 <= yu / 100) by (nonlinear_arith)
                requires yu >= 0;
        }
        assert(yu <= 300000);
    }
    let days: u64 = 365 * years + (leaps - 477) + mb + ((d - 1) as u64);
    proof {
        assert(mb == days_before_month(m as int, is_leap_year(y as int)));
        assert(days == days_before_year(y as int) + days_before_month(
            m as int,
            is_leap_year(y as int),
        ) + (d - 1));
    }
    let secs: u64 = days * 86400 + (h as u64) * 3600 + (mi as u64) * 60 + (s as u64);
    proof {
        assert(days <= 365 * 300000 + 300000 + 336 + 30);
        assert(secs == civil_secs(y as int, m as int, d as int, h as int, mi as int, s as int));
    }
    secs
}

/// The calendar date that a calendar library reads from `tm` under the
/// format `fmt`: year, month and day, or nothing when the text does not
/// parse as a valid date.
pub uninterp spec fn date_of(tm: Seq<char>, fmt: Seq<char>) -> Option<(i32, u32, u32)>;

/// Relies on chrono::NaiveDate::parse_from_str: the date read depends on
/// the two texts alone, and a parsed date is a valid proleptic Gregorian
/// date within chrono's year range.
#[verifier::external_body]
fn parse_ls_date(tm: &str, fmt: &str) -> (r: Option<(i32, u32, u32)>)
    ensures
        r == date_of(tm@, fmt@),
        r matches Some(t) ==> -262144 <= t.0 <= 262143 && 1 <= t.1 <= 12 && 1 <= t.2 <= 31,
{
    match chrono::NaiveDate::parse_from_str(tm, fmt) {
        Ok(d) => Some((d.year(), d.month(), d.day())),
        Err(_) => None,
    }
}

/// The date and time that a calendar library reads from `tm` under the
/// format `fmt`: year, month, day, hour, minute and second, or nothing
/// when the text does not parse.
pub uninterp spec fn datetime_of(tm: Seq<char>, fmt: Seq<char>) -> Option<
    (i32, u32, u32, u32, u32, u32),
>;

/// Relies on chrono::NaiveDateTime::parse_from_str: the value read depends
/// on the two texts alone, and a parsed value is a valid date and time
/// within chrono's ranges.
#[verifier::external_body]
fn parse_ls_datetime(tm: &str, fmt: &str) -> (r: Option<(i32, u32, u32, u32, u32, u32)>)
    ensures
        r == datetime_of(tm@, fmt@),
        r matches Some(t) ==> -262144 <= t.0 <= 262143 && 1 <= t.1 <= 12 && 1 <= t.2 <= 31
            && t.3 <= 23 && t.4 <= 59 && t.5 <= 60,
{
    match chrono::NaiveDateTime::parse_from_str(tm, fmt) {
        Ok(d) => Some((d.year(), d.month(), d.day(), d.hour(), d.minute(), d.second())),
        Err(_) => None,
    }
}

/// Relies on chrono::Utc::now: the current year, which always lies within
/// chrono's year range.
#[verifier::external_body]
pub(crate) fn current_year() -> (y: i32)
    ensures
        -262144 <= y <= 262143,
{
    chrono::Utc::now().year()
}

/// The timestamp an `ls` mtime denotes under a fixed current year: the
/// text is read first as `fmt_year` (a full date, taken at midnight), else
/// as `fmt_hours` with the given year appended; an mtime before the epoch
/// clamps to 0, and a text that parses as neither denotes nothing.
pub open spec fn lstime_spec(
    tm: Seq<char>,
    fmt_year: Seq<char>,
    fmt_hours: Seq<char>,
    year: int,
) -> Option<u64> {
    match date_of(tm, fmt_year) {
        Some((y, m, d)) => Some(civil_epoch(y as int, m as int, d as int, 0, 0, 0) as u64),
        None => {
            match datetime_of(tm + " "@ + int_str(year), fmt_hours + " %Y"@) {
                Some((y, m, d, h, mi, s)) => Some(
                    civil_epoch(y as int, m as int, d as int, h as int, mi as int, s as int) as u64,
                ),
                None => None,
            }
        },
    }
}

/// The `lstime_to_systime` contract for a fixed current year.
pub open spec fn lstime_post(
    r: Option<u64>,
    tm: Seq<char>,
    fmt_year: Seq<char>,
    fmt_hours: Seq<char>,
    year: int,
) -> bool {
    r == lstime_spec(tm, fmt_year, fmt_hours, year)
}

/// Convert `ls` syntax time to an epoch timestamp, reading a time without
/// a year as one in the given year. `ls` time has two possible syntaxes:
/// `%b %d %Y` (e.g. `Nov 5 2019`) and, within the current year,
/// `%b %d %H:%M` (e.g. `Nov 5 13:46`).
pub fn lstime_to_systime_with_year(tm: &str, fmt_year: &str, fmt_hours: &str, year: i32) -> (r:
    Option<u64>)
    ensures
        lstime_post(r, tm@, fmt_year@, fmt_hours@, year as int),
{
    match parse_ls_date(tm, fmt_year) {
        Some((y, m, d)) => Some(epoch_from_civil(y, m, d, 0, 0, 0)),
        None => {
            let full = String::from_str(tm).concat(" ").concat(i32_to_string(year).as_str());
            let fmt = String::from_str(fmt_hours).concat(" %Y");
            match parse_ls_datetime(full.as_str(), fmt.as_str()) {
                Some((y, m, d, h, mi, s)) => Some(epoch_from_civil(y, m, d, h, mi, s)),
                None => None,
            }
        },
    }
}

/// Convert `ls` syntax time to an epoch timestamp, taking the current
/// year for a time written without one.
pub fn lstime_to_systime(tm: &str, fmt_year: &str, fmt_hours: &str) -> (r: Option<u64>)
    ensures
        exists|year: int| #[trigger] lstime_post(r, tm@, fmt_year@, fmt_hours@, year),
{
    let year = current_year();
    let r = lstime_to_systime_with_year(tm, fmt_year, fmt_hours, year);
    proof {
        assert(lstime_post(r, tm@, fmt_year@, fmt_hours@, year as int));
    }
    r
}

/// Relies on chrono: format an epoch timestamp, read in the machine's
/// local time zone, under the given format. A timestamp beyond the
/// calendar's year range falls back to the epoch, and a format the
/// formatter refuses (a dangling `%`, an unknown specifier) yields the
/// empty string; neither panics.
#[verifier::external_body]
pub fn time_to_str(time: u64, fmt: &str) -> String {
    let secs: i64 = i64::try_from(time).unwrap_or(i64::MAX);
    let datetime = chrono::DateTime::from_timestamp(secs, 0)
        .unwrap_or(chrono::DateTime::UNIX_EPOCH)
        .with_timezone(&chrono::Local);
    let mut out = String::new();
    if write!(out, "{}", datetime.format(fmt)).is_err() {
        out = String::new();
    }
    out
}

/// Relies on whoami::username: the login name of the user that runs the
/// process (empty when the system cannot name one).
#[verifier::external_body]
pub fn current_username() -> String {
    whoami::username().unwrap_or_default()
}

/// Parse a remote option string into `(address, port, protocol, username)`,
/// with the current user as the default user for SFTP and SCP. See
/// `parse_remote_opt_with_user` for the accepted grammar.
pub fn parse_remote_opt(remote: &str) -> (r: Result<
    (String, u16, crate::filetransfer::FileTransferProtocol, Option<String>),
    String,
>)
    ensures
        remote_opt_fixed_post(r, remote),
        exists|u: Seq<char>| remote_opt_post(r, remote, u),
{
    let user = current_username();
    let ghost uv = user@;
    let r = parse_remote_opt_with_user(remote, user);
    proof {
        assert(remote_opt_post(r, remote, uv));
        assert(remote_opt_fixed_post(r, remote));
    }
    r
}

/// The mode string is total over the octets: always exactly nine
/// characters, each one of `r`, `w`, `x` or `-`.
pub proof fn lemma_fmt_pex_alphabet(owner: u8, group: u8, others: u8)
    ensures
        fmt_pex_spec(owner, group, others).len() == 9,
        forall|i: int|
            0 <= i < 9 ==> {
                let c = #[trigger] fmt_pex_spec(owner, group, others)[i];
                c == 'r' || c == 'w' || c == 'x' || c == '-'
            },
{
}

/// Convert 3 octets of a permissions value into `ls` notation
/// (e.g. `rwxr-xr-x`): nine characters, each in `{r, w, x, -}`.
pub fn fmt_pex(owner: u8, group: u8, others: u8) -> (r: String)
    ensures
        r@ == fmt_pex_spec(owner, group, others),
        r@.len() == 9,
{
    let mut bytes: Vec<u8> = Vec::new();
    push_triad(&mut bytes, owner);
    push_triad(&mut bytes, group);
    push_triad(&mut bytes, others);
    let r = string_from_ascii(bytes);
    assert(r@ =~= fmt_pex_spec(owner, group, others));
    r
}

} // verus!
