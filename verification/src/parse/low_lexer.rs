mod low_token;
mod low_token_kind;

pub use low_token::LowToken;
pub use low_token_kind::{LowTokenKind, LowTokenNumberLiteralKind};

use crate::text::{blen, byte_len_range, lemma_blen_subrange_le};
use unicode_xid::UnicodeXID;
use vstd::prelude::*;

verus! {

/// Whether a character has the Unicode `XID_Start` property; what
/// `unicode_xid` answers for characters above ASCII.
pub uninterp spec fn xid_start(c: char) -> bool;

/// Whether a character has the Unicode `XID_Continue` property; what
/// `unicode_xid` answers for characters above ASCII.
pub uninterp spec fn xid_continue(c: char) -> bool;

/// Relies on `unicode_xid`'s `UnicodeXID::is_xid_start` for `char`: the
/// result depends on the character alone, and on ASCII it is exactly
/// the letters (the crate's fast path).
#[verifier::external_body]
fn char_is_xid_start(c: char) -> (r: bool)
    ensures
        r == xid_start(c),
        c <= '\x7f' ==> r == ('a' <= c && c <= 'z' || 'A' <= c && c <= 'Z'),
{
    UnicodeXID::is_xid_start(c)
}

/// Relies on `unicode_xid`'s `UnicodeXID::is_xid_continue` for `char`:
/// the result depends on the character alone, and on ASCII it is
/// exactly the letters, the digits and `_` (the crate's fast path).
#[verifier::external_body]
fn char_is_xid_continue(c: char) -> (r: bool)
    ensures
        r == xid_continue(c),
        c <= '\x7f' ==> r == ('a' <= c && c <= 'z' || 'A' <= c && c <= 'Z' || '0' <= c && c <= '9'
            || c == '_'),
{
    UnicodeXID::is_xid_continue(c)
}

/// The characters with the Unicode `White_Space` property.
pub open spec fn is_ws(c: char) -> bool {
    c == '\u{0009}' || c == '\u{000A}' || c == '\u{000B}' || c == '\u{000C}' || c == '\u{000D}'
        || c == ' ' || c == '\u{0085}' || c == '\u{00A0}' || c == '\u{1680}' || ('\u{2000}' <= c
        && c <= '\u{200A}') || c == '\u{2028}' || c == '\u{2029}' || c == '\u{202F}' || c
        == '\u{205F}' || c == '\u{3000}'
}

fn is_whitespace_char(c: char) -> (r: bool)
    ensures
        r == is_ws(c),
{
    c == '\u{0009}' || c == '\u{000A}' || c == '\u{000B}' || c == '\u{000C}' || c == '\u{000D}'
        || c == ' ' || c == '\u{0085}' || c == '\u{00A0}' || c == '\u{1680}' || ('\u{2000}' <= c
        && c <= '\u{200A}') || c == '\u{2028}' || c == '\u{2029}' || c == '\u{202F}' || c
        == '\u{205F}' || c == '\u{3000}'
}

/// A character that may begin an identifier.
pub open spec fn is_id_start_char(c: char) -> bool {
    ('a' <= c && c <= 'z') || ('A' <= c && c <= 'Z') || c == '_' || (c > '\x7f' && xid_start(c))
}

/// A character that may continue an identifier.
pub open spec fn is_id_continue_char(c: char) -> bool {
    ('a' <= c && c <= 'z') || ('A' <= c && c <= 'Z') || ('0' <= c && c <= '9') || c == '_' || (c
        > '\x7f' && xid_continue(c))
}

pub fn is_id_start(c: char) -> (r: bool)
    ensures
        r == is_id_start_char(c),
{
    ('a' <= c && c <= 'z') || ('A' <= c && c <= 'Z') || (c == '_') || (c > '\x7f'
        && char_is_xid_start(c))
}

pub fn is_id_continue(c: char) -> (r: bool)
    ensures
        r == is_id_continue_char(c),
{
    ('a' <= c && c <= 'z') || ('A' <= c && c <= 'Z') || ('0' <= c && c <= '9') || (c == '_') || (c
        > '\x7f' && char_is_xid_continue(c))
}

pub open spec fn is_dec_digit(c: char) -> bool {
    '0' <= c && c <= '9'
}

pub open spec fn is_bin_digit(c: char) -> bool {
    c == '0' || c == '1'
}

pub open spec fn is_oct_digit(c: char) -> bool {
    '0' <= c && c <= '7'
}

pub open spec fn is_hex_digit(c: char) -> bool {
    ('0' <= c && c <= '9') || ('a' <= c && c <= 'f') || ('A' <= c && c <= 'F')
}

pub open spec fn ws_pred() -> spec_fn(char) -> bool {
    |c: char| is_ws(c)
}

pub open spec fn id_cont_pred() -> spec_fn(char) -> bool {
    |c: char| is_id_continue_char(c)
}

pub open spec fn bin_pred() -> spec_fn(char) -> bool {
    |c: char| is_bin_digit(c) || c == '_'
}

pub open spec fn oct_pred() -> spec_fn(char) -> bool {
    |c: char| is_oct_digit(c) || c == '_'
}

pub open spec fn hex_pred() -> spec_fn(char) -> bool {
    |c: char| is_hex_digit(c) || c == '_'
}

pub open spec fn dec_pred() -> spec_fn(char) -> bool {
    |c: char| is_dec_digit(c) || c == '_'
}

/// Where the maximal run of characters satisfying `p` that starts at
/// `i` ends.
pub open spec fn run_end(s: Seq<char>, i: int, p: spec_fn(char) -> bool) -> int
    decreases s.len() - i,
    when 0 <= i <= s.len()
{
    if i >= s.len() {
        i
    } else if p(s[i]) {
        run_end(s, i + 1, p)
    } else {
        i
    }
}

pub proof fn lemma_run_end_props(s: Seq<char>, i: int, p: spec_fn(char) -> bool)
    requires
        0 <= i <= s.len(),
    ensures
        i <= run_end(s, i, p) <= s.len(),
        forall|j: int| i <= j < run_end(s, i, p) ==> p(s[j]),
        run_end(s, i, p) < s.len() ==> !p(s[run_end(s, i, p)]),
    decreases s.len() - i,
{
    if i < s.len() && p(s[i]) {
        lemma_run_end_props(s, i + 1, p);
    }
}

/// Where a line comment that starts after `#` ends: right before the
/// next `'\n'` or `"\r\n"` pair, or at the end of input.
pub open spec fn comment_end(s: Seq<char>, i: int) -> int
    decreases s.len() - i,
    when 0 <= i <= s.len()
{
    if i >= s.len() {
        i
    } else if s[i] == '\n' {
        i
    } else if s[i] == '\r' && i + 1 < s.len() && s[i + 1] == '\n' {
        i
    } else {
        comment_end(s, i + 1)
    }
}

pub proof fn lemma_comment_end_props(s: Seq<char>, i: int)
    requires
        0 <= i <= s.len(),
    ensures
        i <= comment_end(s, i) <= s.len(),
    decreases s.len() - i,
{
    if i < s.len() && !(s[i] == '\n') && !(s[i] == '\r' && i + 1 < s.len() && s[i + 1] == '\n') {
        lemma_comment_end_props(s, i + 1);
    }
}

/// Scans a string literal's body starting right after the opening
/// quote; yields the position after the literal and whether a closing
/// quote was found. A backslash escapes the following character.
pub open spec fn string_scan(s: Seq<char>, i: int) -> (int, bool)
    decreases s.len() - i,
    when 0 <= i <= s.len()
{
    if i >= s.len() {
        (i, false)
    } else if s[i] == '"' {
        (i + 1, true)
    } else if s[i] == '\\' {
        if i + 1 >= s.len() {
            (s.len() as int, false)
        } else {
            string_scan(s, i + 2)
        }
    } else {
        string_scan(s, i + 1)
    }
}

pub proof fn lemma_string_scan_props(s: Seq<char>, i: int)
    requires
        0 <= i <= s.len(),
    ensures
        i <= string_scan(s, i).0 <= s.len(),
    decreases s.len() - i,
{
    if i < s.len() && s[i] != '"' {
        if s[i] == '\\' {
            if i + 1 < s.len() {
                lemma_string_scan_props(s, i + 2);
            }
        } else {
            lemma_string_scan_props(s, i + 1);
        }
    }
}

/// Scans a numeric literal starting at `pos` (a decimal digit): its
/// subkind and where its content (sans suffix) ends.
///
/// A leading `0` followed by `b`/`o`/`x` and at least one digit of that
/// base is a based integer. Otherwise the decimal digit run is
/// consumed (`_` serves as a digit separator inside a run), and
/// upgrades to a float when a fraction (`.` + digit) or an exponent
/// (`e`/`E`, optional sign, digit) follows. A `0` followed directly by
/// anything but a digit ends the content at the `0`, so `0_1` is the
/// content `0` with the literal suffix `_1`.
pub open spec fn number_scan(s: Seq<char>, pos: int) -> (LowTokenNumberLiteralKind, int)
    recommends
        0 <= pos < s.len(),
        is_dec_digit(s[pos]),
{
    let n = s.len() as int;
    if s[pos] == '0' && pos + 2 < n && (s[pos + 1] == 'b' || s[pos + 1] == 'B') && is_bin_digit(
        s[pos + 2],
    ) {
        (LowTokenNumberLiteralKind::IntegerBinary, run_end(s, pos + 2, bin_pred()))
    } else if s[pos] == '0' && pos + 2 < n && (s[pos + 1] == 'o' || s[pos + 1] == 'O')
        && is_oct_digit(s[pos + 2]) {
        (LowTokenNumberLiteralKind::IntegerOctal, run_end(s, pos + 2, oct_pred()))
    } else if s[pos] == '0' && pos + 2 < n && (s[pos + 1] == 'x' || s[pos + 1] == 'X')
        && is_hex_digit(s[pos + 2]) {
        (LowTokenNumberLiteralKind::IntegerHexadecimal, run_end(s, pos + 2, hex_pred()))
    } else {
        let d_end = if s[pos] == '0' && !(pos + 1 < n && is_dec_digit(s[pos + 1])) {
            pos + 1
        } else {
            run_end(s, pos + 1, dec_pred())
        };
        if d_end + 1 < n && s[d_end] == '.' && is_dec_digit(s[d_end + 1]) {
            let f_end = run_end(s, d_end + 1, dec_pred());
            if f_end + 2 < n && (s[f_end] == 'e' || s[f_end] == 'E') && (s[f_end + 1] == '+'
                || s[f_end + 1] == '-') && is_dec_digit(s[f_end + 2]) {
                (LowTokenNumberLiteralKind::Float, run_end(s, f_end + 2, dec_pred()))
            } else if f_end + 1 < n && (s[f_end] == 'e' || s[f_end] == 'E') && is_dec_digit(
                s[f_end + 1],
            ) {
                (LowTokenNumberLiteralKind::Float, run_end(s, f_end + 1, dec_pred()))
            } else {
                (LowTokenNumberLiteralKind::Float, f_end)
            }
        } else if d_end + 2 < n && (s[d_end] == 'e' || s[d_end] == 'E') && (s[d_end + 1] == '+'
            || s[d_end + 1] == '-') && is_dec_digit(s[d_end + 2]) {
            (LowTokenNumberLiteralKind::Float, run_end(s, d_end + 2, dec_pred()))
        } else if d_end + 1 < n && (s[d_end] == 'e' || s[d_end] == 'E') && is_dec_digit(
            s[d_end + 1],
        ) {
            (LowTokenNumberLiteralKind::Float, run_end(s, d_end + 1, dec_pred()))
        } else {
            (LowTokenNumberLiteralKind::IntegerDecimal, d_end)
        }
    }
}

/// Where a numeric token ends: a literal suffix (an identifier glued to
/// the content) is part of the token.
pub open spec fn suffix_end(s: Seq<char>, ce: int) -> int
    recommends
        0 <= ce <= s.len(),
{
    if ce < s.len() && is_id_start_char(s[ce]) {
        run_end(s, ce + 1, id_cont_pred())
    } else {
        ce
    }
}

pub proof fn lemma_number_scan_props(s: Seq<char>, pos: int)
    requires
        0 <= pos < s.len(),
    ensures
        pos < number_scan(s, pos).1 <= s.len(),
        pos < suffix_end(s, number_scan(s, pos).1) <= s.len(),
        number_scan(s, pos).1 <= suffix_end(s, number_scan(s, pos).1),
{
    let n = s.len() as int;
    lemma_run_end_props(s, pos + 1, dec_pred());
    if pos + 2 < n {
        lemma_run_end_props(s, pos + 2, bin_pred());
        lemma_run_end_props(s, pos + 2, oct_pred());
        lemma_run_end_props(s, pos + 2, hex_pred());
    }
    let d_end = run_end(s, pos + 1, dec_pred());
    if d_end + 1 < n && s[d_end] == '.' && is_dec_digit(s[d_end + 1]) {
        let f_end = run_end(s, d_end + 1, dec_pred());
        lemma_run_end_props(s, d_end + 1, dec_pred());
        if f_end + 2 < n {
            lemma_run_end_props(s, f_end + 2, dec_pred());
        }
        if f_end + 1 < n {
            lemma_run_end_props(s, f_end + 1, dec_pred());
        }
    } else {
        if d_end + 2 < n {
            lemma_run_end_props(s, d_end + 2, dec_pred());
        }
        if d_end + 1 < n {
            lemma_run_end_props(s, d_end + 1, dec_pred());
        }
    }
    let ce = number_scan(s, pos).1;
    if ce < s.len() && is_id_start_char(s[ce]) {
        lemma_run_end_props(s, ce + 1, id_cont_pred());
    }
}

/// A single-character punctuation character.
pub open spec fn is_punct_char(c: char) -> bool {
    c == '(' || c == ')' || c == '{' || c == '}' || c == '[' || c == ']' || c == '.' || c == ','
        || c == ':' || c == ';' || c == '=' || c == '!' || c == '@' || c == '<' || c == '>' || c
        == '+' || c == '-' || c == '*' || c == '/' || c == '%' || c == '|' || c == '&' || c == '^'
        || c == '~'
}

/// The kind of the one-character punctuation token for `c`.
pub open spec fn punct_kind(c: char) -> LowTokenKind
    recommends
        is_punct_char(c),
{
    if c == '(' {
        LowTokenKind::OpenParen
    } else if c == ')' {
        LowTokenKind::CloseParen
    } else if c == '{' {
        LowTokenKind::OpenBrace
    } else if c == '}' {
        LowTokenKind::CloseBrace
    } else if c == '[' {
        LowTokenKind::OpenBracket
    } else if c == ']' {
        LowTokenKind::CloseBracket
    } else if c == '.' {
        LowTokenKind::Dot
    } else if c == ',' {
        LowTokenKind::Comma
    } else if c == ':' {
        LowTokenKind::Colon
    } else if c == ';' {
        LowTokenKind::Semicolon
    } else if c == '=' {
        LowTokenKind::Eq
    } else if c == '!' {
        LowTokenKind::Bang
    } else if c == '@' {
        LowTokenKind::At
    } else if c == '<' {
        LowTokenKind::Lt
    } else if c == '>' {
        LowTokenKind::Gt
    } else if c == '+' {
        LowTokenKind::Plus
    } else if c == '-' {
        LowTokenKind::Minus
    } else if c == '*' {
        LowTokenKind::Star
    } else if c == '/' {
        LowTokenKind::Slash
    } else if c == '%' {
        LowTokenKind::Percent
    } else if c == '|' {
        LowTokenKind::Or
    } else if c == '&' {
        LowTokenKind::And
    } else if c == '^' {
        LowTokenKind::Caret
    } else {
        LowTokenKind::Tilde
    }
}

/// What one scan step from `pos` yields: the token `t` and the position
/// `end` right after it.
pub open spec fn low_next_ok(s: Seq<char>, pos: int, t: LowToken, end: int) -> bool {
    let n = s.len() as int;
    &&& pos <= end <= n
    &&& t.len as int == blen(s.subrange(pos, end))
    &&& (pos == n ==> t.kind == LowTokenKind::EndOfFile && end == pos)
    &&& (pos < n ==> end > pos && low_classify(s, pos, t, end))
}

/// The per-class facts of one scan step, keyed by the first character.
pub open spec fn low_classify(s: Seq<char>, pos: int, t: LowToken, end: int) -> bool {
    let n = s.len() as int;
    let c = s[pos];
    &&& (is_ws(c) ==> t.kind == LowTokenKind::Whitespace && end == run_end(s, pos, ws_pred()))
    &&& (!is_ws(c) && is_id_start_char(c) ==> t.kind == LowTokenKind::Id && end == run_end(
        s,
        pos + 1,
        id_cont_pred(),
    ))
    &&& (!is_ws(c) && !is_id_start_char(c) && is_dec_digit(c) ==> {
        let (k, ce) = number_scan(s, pos);
        &&& t.kind matches LowTokenKind::NumberLiteral { kind, suffix_start } && kind == k
            && suffix_start as int == blen(s.subrange(pos, ce))
        &&& end == suffix_end(s, ce)
    })
    &&& (c == '#' ==> t.kind == LowTokenKind::Comment && end == comment_end(s, pos + 1))
    &&& (is_punct_char(c) ==> t.kind == punct_kind(c) && end == pos + 1)
    &&& (c == '"' ==> {
        &&& t.kind matches LowTokenKind::StringLiteral { terminated } && terminated == string_scan(
            s,
            pos + 1,
        ).1
        &&& end == string_scan(s, pos + 1).0
    })
    &&& (!is_ws(c) && !is_id_start_char(c) && !is_dec_digit(c) && c != '#' && !is_punct_char(c)
        && c != '"' ==> t.kind == LowTokenKind::Unknown && end == pos + 1)
}

fn scan_ws_run(chars: &Vec<char>, start: usize) -> (r: usize)
    requires
        start <= chars@.len(),
    ensures
        start <= r <= chars@.len(),
        r as int == run_end(chars@, start as int, ws_pred()),
{
    let n = chars.len();
    let mut i = start;
    while i < n && is_whitespace_char(chars[i])
        invariant
            start <= i <= n,
            n == chars@.len(),
            run_end(chars@, start as int, ws_pred()) == run_end(chars@, i as int, ws_pred()),
        decreases n - i,
    {
        proof {
            let p = ws_pred();
            assert(p(chars@[i as int]));
        }
        i = i + 1;
    }
    i
}

fn scan_id_run(chars: &Vec<char>, start: usize) -> (r: usize)
    requires
        start <= chars@.len(),
    ensures
        start <= r <= chars@.len(),
        r as int == run_end(chars@, start as int, id_cont_pred()),
{
    let n = chars.len();
    let mut i = start;
    while i < n && is_id_continue(chars[i])
        invariant
            start <= i <= n,
            n == chars@.len(),
            run_end(chars@, start as int, id_cont_pred()) == run_end(
                chars@,
                i as int,
                id_cont_pred(),
            ),
        decreases n - i,
    {
        proof {
            let p = id_cont_pred();
            assert(p(chars@[i as int]));
        }
        i = i + 1;
    }
    i
}

fn scan_bin_run(chars: &Vec<char>, start: usize) -> (r: usize)
    requires
        start <= chars@.len(),
    ensures
        start <= r <= chars@.len(),
        r as int == run_end(chars@, start as int, bin_pred()),
{
    let n = chars.len();
    let mut i = start;
    while i < n && (chars[i] == '0' || chars[i] == '1' || chars[i] == '_')
        invariant
            start <= i <= n,
            n == chars@.len(),
            run_end(chars@, start as int, bin_pred()) == run_end(chars@, i as int, bin_pred()),
        decreases n - i,
    {
        proof {
            let p = bin_pred();
            assert(p(chars@[i as int]));
        }
        i = i + 1;
    }
    i
}

fn scan_oct_run(chars: &Vec<char>, start: usize) -> (r: usize)
    requires
        start <= chars@.len(),
    ensures
        start <= r <= chars@.len(),
        r as int == run_end(chars@, start as int, oct_pred()),
{
    let n = chars.len();
    let mut i = start;
    while i < n && ('0' <= chars[i] && chars[i] <= '7' || chars[i] == '_')
        invariant
            start <= i <= n,
            n == chars@.len(),
            run_end(chars@, start as int, oct_pred()) == run_end(chars@, i as int, oct_pred()),
        decreases n - i,
    {
        proof {
            let p = oct_pred();
            assert(p(chars@[i as int]));
        }
        i = i + 1;
    }
    i
}

fn is_hex_digit_char(c: char) -> (r: bool)
    ensures
        r == is_hex_digit(c),
{
    ('0' <= c && c <= '9') || ('a' <= c && c <= 'f') || ('A' <= c && c <= 'F')
}

fn scan_hex_run(chars: &Vec<char>, start: usize) -> (r: usize)
    requires
        start <= chars@.len(),
    ensures
        start <= r <= chars@.len(),
        r as int == run_end(chars@, start as int, hex_pred()),
{
    let n = chars.len();
    let mut i = start;
    while i < n && (is_hex_digit_char(chars[i]) || chars[i] == '_')
        invariant
            start <= i <= n,
            n == chars@.len(),
            run_end(chars@, start as int, hex_pred()) == run_end(chars@, i as int, hex_pred()),
        decreases n - i,
    {
        proof {
            let p = hex_pred();
            assert(p(chars@[i as int]));
        }
        i = i + 1;
    }
    i
}

fn scan_dec_run(chars: &Vec<char>, start: usize) -> (r: usize)
    requires
        start <= chars@.len(),
    ensures
        start <= r <= chars@.len(),
        r as int == run_end(chars@, start as int, dec_pred()),
{
    let n = chars.len();
    let mut i = start;
    while i < n && ('0' <= chars[i] && chars[i] <= '9' || chars[i] == '_')
        invariant
            start <= i <= n,
            n == chars@.len(),
            run_end(chars@, start as int, dec_pred()) == run_end(chars@, i as int, dec_pred()),
        decreases n - i,
    {
        proof {
            let p = dec_pred();
            assert(p(chars@[i as int]));
        }
        i = i + 1;
    }
    i
}

fn scan_comment(chars: &Vec<char>, start: usize) -> (r: usize)
    requires
        start <= chars@.len(),
    ensures
        start <= r <= chars@.len(),
        r as int == comment_end(chars@, start as int),
{
    let n = chars.len();
    let mut i = start;
    while i < n && chars[i] != '\n' && !(chars[i] == '\r' && i + 1 < n && chars[i + 1] == '\n')
        invariant
            start <= i <= n,
            n == chars@.len(),
            comment_end(chars@, start as int) == comment_end(chars@, i as int),
        decreases n - i,
    {
        i = i + 1;
    }
    i
}

fn scan_string(chars: &Vec<char>, start: usize) -> (r: (usize, bool))
    requires
        start <= chars@.len(),
    ensures
        start <= r.0 <= chars@.len(),
        (r.0 as int, r.1) == string_scan(chars@, start as int),
{
    let n = chars.len();
    let mut i = start;
    while i < n
        invariant
            start <= i <= n,
            n == chars@.len(),
            string_scan(chars@, start as int) == string_scan(chars@, i as int),
        decreases n - i,
    {
        let c = chars[i];
        if c == '"' {
            return (i + 1, true);
        } else if c == '\\' {
            if i + 1 < n {
                i = i + 2;
            } else {
                i = i + 1;
            }
        } else {
            i = i + 1;
        }
    }
    (i, false)
}

/// The number of bytes in the character range `[lo, hi)`, available
/// whenever the whole text fits the 32-bit coordinate space.
fn range_bytes(chars: &Vec<char>, lo: usize, hi: usize) -> (r: u32)
    requires
        lo <= hi <= chars@.len(),
        blen(chars@) <= u32::MAX,
    ensures
        r as int == blen(chars@.subrange(lo as int, hi as int)),
{
    proof {
        lemma_blen_subrange_le(chars@, lo as int, hi as int);
    }
    byte_len_range(chars, lo, hi)
}

/// Scans one primitive token at character position `pos`. Yields the
/// token and the position right after it; at the end of input it yields
/// `EndOfFile` without advancing, forever.
pub fn next(chars: &Vec<char>, pos: usize) -> (r: (LowToken, usize))
    requires
        pos <= chars@.len(),
        blen(chars@) <= u32::MAX,
    ensures
        low_next_ok(chars@, pos as int, r.0, r.1 as int),
{
    let n = chars.len();
    if pos == n {
        proof {
            assert(chars@.subrange(pos as int, pos as int) =~= Seq::<char>::empty());
            assert(blen(Seq::<char>::empty()) == 0);
        }
        return (LowToken::new(LowTokenKind::EndOfFile, 0), pos);
    }
    let c = chars[pos];
    if is_whitespace_char(c) {
        proof {
            let p = ws_pred();
            assert(p(chars@[pos as int]));
            lemma_run_end_props(chars@, pos as int, ws_pred());
        }
        let end = scan_ws_run(chars, pos);
        return (LowToken::new(LowTokenKind::Whitespace, range_bytes(chars, pos, end)), end);
    }
    if is_id_start(c) {
        proof {
            lemma_run_end_props(chars@, pos as int + 1, id_cont_pred());
        }
        let end = scan_id_run(chars, pos + 1);
        return (LowToken::new(LowTokenKind::Id, range_bytes(chars, pos, end)), end);
    }
    if '0' <= c && c <= '9' {
        return next_number(chars, pos);
    }
    if c == '#' {
        proof {
            lemma_comment_end_props(chars@, pos as int + 1);
        }
        let end = scan_comment(chars, pos + 1);
        return (LowToken::new(LowTokenKind::Comment, range_bytes(chars, pos, end)), end);
    }
    if c == '"' {
        proof {
            lemma_string_scan_props(chars@, pos as int + 1);
        }
        let (end, terminated) = scan_string(chars, pos + 1);
        return (
            LowToken::new(LowTokenKind::StringLiteral { terminated }, range_bytes(chars, pos, end)),
            end,
        );
    }
    let kind = if c == '(' {
        LowTokenKind::OpenParen
    } else if c == ')' {
        LowTokenKind::CloseParen
    } else if c == '{' {
        LowTokenKind::OpenBrace
    } else if c == '}' {
        LowTokenKind::CloseBrace
    } else if c == '[' {
        LowTokenKind::OpenBracket
    } else if c == ']' {
        LowTokenKind::CloseBracket
    } else if c == '.' {
        LowTokenKind::Dot
    } else if c == ',' {
        LowTokenKind::Comma
    } else if c == ':' {
        LowTokenKind::Colon
    } else if c == ';' {
        LowTokenKind::Semicolon
    } else if c == '=' {
        LowTokenKind::Eq
    } else if c == '!' {
        LowTokenKind::Bang
    } else if c == '@' {
        LowTokenKind::At
    } else if c == '<' {
        LowTokenKind::Lt
    } else if c == '>' {
        LowTokenKind::Gt
    } else if c == '+' {
        LowTokenKind::Plus
    } else if c == '-' {
        LowTokenKind::Minus
    } else if c == '*' {
        LowTokenKind::Star
    } else if c == '/' {
        LowTokenKind::Slash
    } else if c == '%' {
        LowTokenKind::Percent
    } else if c == '|' {
        LowTokenKind::Or
    } else if c == '&' {
        LowTokenKind::And
    } else if c == '^' {
        LowTokenKind::Caret
    } else if c == '~' {
        LowTokenKind::Tilde
    } else {
        LowTokenKind::Unknown
    };
    (LowToken::new(kind, range_bytes(chars, pos, pos + 1)), pos + 1)
}

/// Scans a numeric literal: its base or float subkind, the byte offset
/// inside the token where a suffix begins, and any trailing suffix.
fn next_number(chars: &Vec<char>, pos: usize) -> (r: (LowToken, usize))
    requires
        pos < chars@.len(),
        blen(chars@) <= u32::MAX,
        is_dec_digit(chars@[pos as int]),
        !is_ws(chars@[pos as int]),
        !is_id_start_char(chars@[pos as int]),
    ensures
        low_next_ok(chars@, pos as int, r.0, r.1 as int),
{
    let n = chars.len();
    let c = chars[pos];
    proof {
        lemma_number_scan_props(chars@, pos as int);
    }
    let (kind, ce): (LowTokenNumberLiteralKind, usize) = if c == '0' && n - pos > 2 && (chars[pos
        + 1] == 'b' || chars[pos + 1] == 'B') && (chars[pos + 2] == '0' || chars[pos + 2] == '1') {
        (LowTokenNumberLiteralKind::IntegerBinary, scan_bin_run(chars, pos + 2))
    } else if c == '0' && n - pos > 2 && (chars[pos + 1] == 'o' || chars[pos + 1] == 'O') && ('0'
        <= chars[pos + 2] && chars[pos + 2] <= '7') {
        (LowTokenNumberLiteralKind::IntegerOctal, scan_oct_run(chars, pos + 2))
    } else if c == '0' && n - pos > 2 && (chars[pos + 1] == 'x' || chars[pos + 1] == 'X')
        && is_hex_digit_char(chars[pos + 2]) {
        (LowTokenNumberLiteralKind::IntegerHexadecimal, scan_hex_run(chars, pos + 2))
    } else {
        let d_end = if c == '0' && !(n - pos > 1 && '0' <= chars[pos + 1] && chars[pos + 1] <= '9')
        {
            pos + 1
        } else {
            scan_dec_run(chars, pos + 1)
        };
        if n - d_end > 1 && chars[d_end] == '.' && ('0' <= chars[d_end + 1] && chars[d_end + 1]
            <= '9') {
            let f_end = scan_dec_run(chars, d_end + 1);
            if n - f_end > 2 && (chars[f_end] == 'e' || chars[f_end] == 'E') && (chars[f_end + 1]
                == '+' || chars[f_end + 1] == '-') && ('0' <= chars[f_end + 2] && chars[f_end + 2]
                <= '9') {
                (LowTokenNumberLiteralKind::Float, scan_dec_run(chars, f_end + 2))
            } else if n - f_end > 1 && (chars[f_end] == 'e' || chars[f_end] == 'E') && ('0'
                <= chars[f_end + 1] && chars[f_end + 1] <= '9') {
                (LowTokenNumberLiteralKind::Float, scan_dec_run(chars, f_end + 1))
            } else {
                (LowTokenNumberLiteralKind::Float, f_end)
            }
        } else if n - d_end > 2 && (chars[d_end] == 'e' || chars[d_end] == 'E') && (chars[d_end + 1]
            == '+' || chars[d_end + 1] == '-') && ('0' <= chars[d_end + 2] && chars[d_end + 2]
            <= '9') {
            (LowTokenNumberLiteralKind::Float, scan_dec_run(chars, d_end + 2))
        } else if n - d_end > 1 && (chars[d_end] == 'e' || chars[d_end] == 'E') && ('0' <= chars[
            d_end + 1] && chars[d_end + 1] <= '9') {
            (LowTokenNumberLiteralKind::Float, scan_dec_run(chars, d_end + 1))
        } else {
            (LowTokenNumberLiteralKind::IntegerDecimal, d_end)
        }
    };
    proof {
        assert((kind, ce as int) == number_scan(chars@, pos as int));
    }
    let suffix_start = range_bytes(chars, pos, ce);
    let end = if ce < n && is_id_start(chars[ce]) {
        scan_id_run(chars, ce + 1)
    } else {
        ce
    };
    (
        LowToken::new(
            LowTokenKind::NumberLiteral { kind, suffix_start },
            range_bytes(chars, pos, end),
        ),
        end,
    )
}

/// A pull-based stream of primitive tokens over one piece of text. At
/// the end of input it yields `EndOfFile` forever.
pub struct LowTokenIter<'a> {
    pub chars: &'a Vec<char>,
    pub pos: usize,
}

impl<'a> LowTokenIter<'a> {
    pub open spec fn wf(&self) -> bool {
        &&& self.pos <= self.chars@.len()
        &&& blen(self.chars@) <= u32::MAX
    }

    /// Scans the next primitive token and advances past it.
    pub fn next_token(&mut self) -> (t: LowToken)
        requires
            old(self).wf(),
        ensures
            final(self).wf(),
            final(self).chars == old(self).chars,
            low_next_ok(old(self).chars@, old(self).pos as int, t, final(self).pos as int),
    {
        let (t, end) = next(self.chars, self.pos);
        self.pos = end;
        t
    }
}

/// A primitive-token stream over `chars`, starting at its beginning.
pub fn low_token_iter<'a>(chars: &'a Vec<char>) -> (it: LowTokenIter<'a>)
    requires
        blen(chars@) <= u32::MAX,
    ensures
        it.wf(),
        it.chars == chars,
        it.pos == 0,
{
    LowTokenIter { chars, pos: 0 }
}

/// Once the input is exhausted the stream stays at `EndOfFile`: pulling
/// any number of further tokens always yields it again.
pub proof fn lemma_low_iter_eof(s: Seq<char>, pos: int, t: LowToken, end: int)
    requires
        low_next_ok(s, pos, t, end),
        pos == s.len(),
    ensures
        t.kind == LowTokenKind::EndOfFile,
        t.len == 0,
        end == pos,
{
    assert(s.subrange(pos, pos) =~= Seq::<char>::empty());
    assert(blen(Seq::<char>::empty()) == 0);
}

} // verus!
