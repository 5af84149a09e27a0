use super::{Item, ItemLevel, ItemOrigin, SubItem};
use crate::span::{SourceFile, Span};
use crate::text::blen;
use colored::{ColoredString, Colorize};
use vstd::prelude::*;
use vstd::string::StrSliceExecFns;

verus! {

/// colored's styled text, declared so wrappers can pass it along.
#[verifier::external_type_specification]
#[verifier::external_body]
pub struct ExColoredString(ColoredString);

/// Relies on colored's `Colorize::normal` for `&str`: it wraps the text
/// unstyled. What the styled form renders to depends on the
/// environment, so nothing is promised of any `ColoredString`.
#[verifier::external_body]
fn colored_normal(s: &str) -> ColoredString {
    s.normal()
}

/// Relies on colored's `Colorize::bright_green` for `&str`.
#[verifier::external_body]
fn colored_bright_green(s: &str) -> ColoredString {
    s.bright_green()
}

/// Relies on colored's `Colorize::yellow` for `&str`.
#[verifier::external_body]
fn colored_yellow(s: &str) -> ColoredString {
    s.yellow()
}

/// Relies on colored's `Colorize::red` for `&str`.
#[verifier::external_body]
fn colored_red(s: &str) -> ColoredString {
    s.red()
}

/// Relies on colored's `Colorize::bold` for `ColoredString`.
#[verifier::external_body]
fn colored_bold(c: ColoredString) -> ColoredString {
    c.bold()
}

/// Relies on `ToString` for `ColoredString`: the rendered text carries
/// ANSI styling only when the environment asks for it, so nothing is
/// promised of the result.
#[verifier::external_body]
fn colored_render(c: ColoredString) -> String {
    c.to_string()
}

pub open spec fn digit_char(d: int) -> char {
    if d == 0 {
        '0'
    } else if d == 1 {
        '1'
    } else if d == 2 {
        '2'
    } else if d == 3 {
        '3'
    } else if d == 4 {
        '4'
    } else if d == 5 {
        '5'
    } else if d == 6 {
        '6'
    } else if d == 7 {
        '7'
    } else if d == 8 {
        '8'
    } else {
        '9'
    }
}

/// The decimal digits of `n`, most significant first.
pub open spec fn dec_str(n: int) -> Seq<char>
    decreases n,
    when n >= 0
{
    if n < 10 {
        seq![digit_char(n)]
    } else {
        dec_str(n / 10).push(digit_char(n % 10))
    }
}

fn digit_str(d: u64) -> (s: &'static str)
    requires
        d < 10,
    ensures
        s@ == seq![digit_char(d as int)],
{
    if d == 0 {
        proof {
            reveal_strlit("0");
        }
        "0"
    } else if d == 1 {
        proof {
            reveal_strlit("1");
        }
        "1"
    } else if d == 2 {
        proof {
            reveal_strlit("2");
        }
        "2"
    } else if d == 3 {
        proof {
            reveal_strlit("3");
        }
        "3"
    } else if d == 4 {
        proof {
            reveal_strlit("4");
        }
        "4"
    } else if d == 5 {
        proof {
            reveal_strlit("5");
        }
        "5"
    } else if d == 6 {
        proof {
            reveal_strlit("6");
        }
        "6"
    } else if d == 7 {
        proof {
            reveal_strlit("7");
        }
        "7"
    } else if d == 8 {
        proof {
            reveal_strlit("8");
        }
        "8"
    } else {
        proof {
            reveal_strlit("9");
        }
        "9"
    }
}

/// Writes `n` in decimal.
fn dec_to_string(n: u64) -> (s: String)
    ensures
        s@ == dec_str(n as int),
    decreases n,
{
    if n < 10 {
        digit_str(n).to_owned()
    } else {
        let mut s = dec_to_string(n / 10);
        s.append(digit_str(n % 10));
        proof {
            assert(dec_str(n as int) =~= dec_str(n as int / 10) + seq![
                digit_char(n as int % 10),
            ]);
        }
        s
    }
}

pub open spec fn pow10(k: int) -> int
    decreases k,
{
    if k <= 0 {
        1
    } else {
        10 * pow10(k - 1)
    }
}

proof fn lemma_pow10_mono(a: int, b: int)
    requires
        0 <= a <= b,
    ensures
        pow10(a) <= pow10(b),
        pow10(a) >= 1,
    decreases b,
{
    if a < b {
        lemma_pow10_mono(a, b - 1);
    } else if a > 0 {
        lemma_pow10_mono(a - 1, a - 1);
    }
}

/// The number of digit positions the renderer reserves for line
/// numbers up to `n`: the least `k` with `10^k >= n`.
pub open spec fn width_of(n: int) -> int {
    choose|k: int| 0 <= k && #[trigger] pow10(k) >= n && (k == 0 || pow10(k - 1) < n)
}

proof fn lemma_width_unique(n: int, k: int)
    requires
        0 <= k,
        pow10(k) >= n,
        k == 0 || pow10(k - 1) < n,
    ensures
        width_of(n) == k,
{
    assert(pow10(width_of(n)) >= n && (width_of(n) == 0 || pow10(width_of(n) - 1) < n)
        && width_of(n) >= 0);
    let k2 = width_of(n);
    if k < k2 {
        lemma_pow10_mono(k, k2 - 1);
        assert(false);
    }
    if k2 < k {
        lemma_pow10_mono(k2, k - 1);
        assert(false);
    }
}

/// The least `k` with `10^k >= n`.
fn ceil_log10(n: u64) -> (r: u64)
    requires
        1 <= n,
        n <= 0xFFFF_FFFF_FFFFu64,
    ensures
        r == width_of(n as int),
        r <= 16,
{
    let mut k: u64 = 0;
    let mut p: u64 = 1;
    while p < n
        invariant
            1 <= n <= 0xFFFF_FFFF_FFFFu64,
            p == pow10(k as int),
            k == 0 || pow10(k as int - 1) < n,
            p <= 0xFFFF_FFFF_FFFFu64 * 10,
            k <= 16,
        decreases 16 - k,
    {
        proof {
            lemma_pow10_mono(0, k as int);
            if k >= 16 {
                lemma_pow10_mono(16, k as int);
                reveal_with_fuel(pow10, 17);
                assert(pow10(16) == 10000000000000000);
                assert(false);
            }
        }
        p = p * 10;
        k = k + 1;
    }
    proof {
        lemma_width_unique(n as int, k as int);
    }
    k
}

/// `n` copies of one character.
pub open spec fn ch_rep(c: char, n: int) -> Seq<char> {
    Seq::new(n as nat, |i: int| c)
}

fn spaces(n: u64) -> (s: String)
    ensures
        s@ == ch_rep(' ', n as int),
{
    let mut s = String::new();
    let mut i: u64 = 0;
    while i < n
        invariant
            i <= n,
            s@ == ch_rep(' ', i as int),
        decreases n - i,
    {
        s.append(" ");
        proof {
            reveal_strlit(" ");
            assert(ch_rep(' ', i as int) + " "@ =~= ch_rep(' ', i as int + 1));
        }
        i = i + 1;
    }
    s
}

fn carets(n: u64) -> (s: String)
    ensures
        s@ == ch_rep('^', n as int),
{
    let mut s = String::new();
    let mut i: u64 = 0;
    while i < n
        invariant
            i <= n,
            s@ == ch_rep('^', i as int),
        decreases n - i,
    {
        s.append("^");
        proof {
            reveal_strlit("^");
            assert(ch_rep('^', i as int) + "^"@ =~= ch_rep('^', i as int + 1));
        }
        i = i + 1;
    }
    s
}

/// `s` without its trailing newline and carriage-return characters.
pub open spec fn trim_nl(s: Seq<char>) -> Seq<char>
    decreases s.len(),
{
    if s.len() > 0 && (s.last() == '\n' || s.last() == '\r') {
        trim_nl(s.drop_last())
    } else {
        s
    }
}

/// The text of line `line` with its trailing newline characters cut.
fn line_display<'a>(file: &'a SourceFile, line: u32) -> (r: &'a str)
    requires
        file.wf(),
        (line as int) < file.nlines(),
    ensures
        r@ == trim_nl(file.line_text(line as int)),
        blen(r@) <= u32::MAX,
{
    proof {
        crate::text::lemma_blen_ge_len(file.chars@);
        assert(file.chars@.take(file.chars@.len() as int) =~= file.chars@);
    }
    let lo = file.line_char_lows[line as usize];
    let mut hi = if (line as usize) == file.line_char_lows.len() - 1 {
        file.chars.len()
    } else {
        file.line_char_lows[(line + 1) as usize]
    };
    while hi > lo && (file.chars[hi - 1] == '\n' || file.chars[hi - 1] == '\r')
        invariant
            file.wf(),
            lo <= hi <= file.chars@.len(),
            trim_nl(file.line_text(line as int)) == trim_nl(
                file.text().subrange(lo as int, hi as int),
            ),
        decreases hi,
    {
        proof {
            assert(file.text().subrange(lo as int, hi as int).drop_last() =~= file.text()
                .subrange(lo as int, hi as int - 1));
        }
        hi = hi - 1;
    }
    proof {
        crate::text::lemma_blen_subrange_le(file.chars@, lo as int, hi as int);
    }
    file.content.as_str().substring_char(lo, hi)
}

/// The header line of an item: its level tag and its message.
pub open spec fn level_tag(level: ItemLevel) -> Seq<char> {
    match level {
        ItemLevel::Hint => " hint:"@,
        ItemLevel::Warning => " warn:"@,
        ItemLevel::Error => "error:"@,
    }
}

pub open spec fn render_header(level: ItemLevel, msg: Seq<char>) -> Seq<char> {
    level_tag(level) + " "@ + msg
}

/// One source line of the context window: the one-based line number
/// right-aligned in `w + 1` columns, a separator, and the line's text.
pub open spec fn render_src_line(file: SourceFile, l: int, w: int) -> Seq<char> {
    let num = dec_str(l + 1);
    let padded = if num.len() >= w + 1 {
        num
    } else {
        ch_rep(' ', w + 1 - num.len()) + num
    };
    padded + " | "@ + trim_nl(file.line_text(l))
}

/// The locator line of one origin: `at <path>:<line>:<col>`,
/// one-based.
#[verifier::opaque]
pub open spec fn ro_locator(file: SourceFile, span: Span) -> Seq<char> {
    let ll = file.line_of(span.low);
    let cl = file.col_of(span.low);
    let path = match file.path {
        Some(ref p) => p@,
        None => "?"@,
    };
    "at "@ + path + ":"@ + dec_str(ll + 1) + ":"@ + dec_str(cl + 1) + "\n"@
}

pub open spec fn ro_line_low(file: SourceFile, span: Span) -> int {
    let ll = file.line_of(span.low);
    if ll == 0 {
        0
    } else {
        ll - 1
    }
}

pub open spec fn ro_line_high(file: SourceFile, span: Span) -> int {
    let lh = file.line_of(span.high);
    if lh == file.nlines() - 1 {
        lh
    } else {
        lh + 1
    }
}

pub open spec fn ro_width(file: SourceFile, span: Span) -> int {
    width_of(ro_line_high(file, span) + 1)
}

/// The context line before the primary line, when there is one.
#[verifier::opaque]
pub open spec fn ro_before(file: SourceFile, span: Span) -> Seq<char> {
    let ll = file.line_of(span.low);
    if ro_line_low(file, span) != ll {
        render_src_line(file, ro_line_low(file, span), ro_width(file, span)) + "\n"@
    } else {
        Seq::<char>::empty()
    }
}

/// The span's first line with a caret run to its end, when the span
/// covers more than one line.
#[verifier::opaque]
pub open spec fn ro_first(file: SourceFile, span: Span) -> Seq<char> {
    let ll = file.line_of(span.low);
    let cl = file.col_of(span.low);
    let lh = file.line_of(span.high);
    let w = ro_width(file, span);
    if ll != lh {
        let len_first = blen(trim_nl(file.line_text(ll)));
        let caret_count = if cl <= len_first {
            len_first - cl
        } else {
            0
        };
        render_src_line(file, ll, w) + "\n"@ + ch_rep(' ', w + 4 + cl) + ch_rep('^', caret_count)
            + "\n"@
    } else {
        Seq::<char>::empty()
    }
}

/// The elision marker, when more than one line is skipped.
#[verifier::opaque]
pub open spec fn ro_ellipsis(file: SourceFile, span: Span) -> Seq<char> {
    if 2 <= file.line_of(span.high) - file.line_of(span.low) {
        " ..."@ + "\n"@
    } else {
        Seq::<char>::empty()
    }
}

/// The span's last line, its caret run, and the message after the
/// final caret.
#[verifier::opaque]
pub open spec fn ro_main(level: ItemLevel, msg: Seq<char>, file: SourceFile, span: Span) -> Seq<
    char,
> {
    let ll = file.line_of(span.low);
    let cl = file.col_of(span.low);
    let lh = file.line_of(span.high);
    let ch = file.col_of(span.high);
    let w = ro_width(file, span);
    if ll == lh {
        render_src_line(file, lh, w) + "\n"@ + ch_rep(' ', w + 4 + cl) + ch_rep('^', ch - cl)
            + " "@ + msg + "\n"@
    } else {
        let caret_count = if ch >= 1 {
            ch
        } else {
            1
        };
        render_src_line(file, lh, w) + "\n"@ + ch_rep(' ', w + 4) + ch_rep('^', caret_count)
            + " "@ + msg + "\n"@
    }
}

/// The context line after the primary line, when there is one.
#[verifier::opaque]
pub open spec fn ro_after(file: SourceFile, span: Span) -> Seq<char> {
    let lh = file.line_of(span.high);
    if ro_line_high(file, span) != lh {
        render_src_line(file, ro_line_high(file, span), ro_width(file, span)) + "\n"@
    } else {
        Seq::<char>::empty()
    }
}

/// The source-framed rendering of one origin: a locator, a context
/// window of source lines, and caret runs under the span's columns,
/// with the message after the final caret run. Every line ends with a
/// newline.
pub open spec fn render_origin(
    level: ItemLevel,
    msg: Seq<char>,
    file: SourceFile,
    span: Span,
) -> Seq<char> {
    ro_locator(file, span) + ro_before(file, span) + ro_first(file, span) + ro_ellipsis(file, span)
        + ro_main(level, msg, file, span) + ro_after(file, span)
}

/// An origin the renderer can frame: its span sits inside its file on
/// character boundaries.
pub open spec fn origin_ok(o: ItemOrigin) -> bool {
    let file = *o.file;
    &&& file.wf()
    &&& o.span.wf()
    &&& file.span.spec_contains(o.span.low)
    &&& file.span.spec_contains(o.span.high)
    &&& file.is_boundary(o.span.low)
    &&& file.is_boundary(o.span.high)
}

/// One source line of the context window (see `render_src_line`).
fn src_line(file: &SourceFile, line: u32, w: u64) -> (r: String)
    requires
        file.wf(),
        (line as int) < file.nlines(),
        w <= 16,
    ensures
        r@ == render_src_line(*file, line as int, w as int),
{
    let num = dec_to_string(line as u64 + 1);
    let numlen = num.as_str().unicode_len();
    let mut s = if numlen >= (w + 1) as usize {
        String::new()
    } else {
        spaces(w + 1 - numlen as u64)
    };
    s.append(num.as_str());
    s.append(" | ");
    s.append(line_display(file, line));
    proof {
        assert(s@ =~= render_src_line(*file, line as int, w as int));
    }
    s
}

/// Applies the level's color to a piece of text when styling is on.
fn apply_level_color(level: ItemLevel, str: &str, apply_styles: bool) -> ColoredString {
    if !apply_styles {
        return colored_normal(str);
    }
    match level {
        ItemLevel::Hint => colored_bright_green(str),
        ItemLevel::Warning => colored_yellow(str),
        ItemLevel::Error => colored_red(str),
    }
}

/// The header line of an item, colored and bold when styling is on.
fn apply_level_header(level: ItemLevel, str: &str, apply_styles: bool) -> (r: String)
    ensures
        !apply_styles ==> r@ == render_header(level, str@),
{
    let tag: &str = match level {
        ItemLevel::Hint => " hint:",
        ItemLevel::Warning => " warn:",
        ItemLevel::Error => "error:",
    };
    let mut header = tag.to_owned();
    header.append(" ");
    header.append(str);
    proof {
        // What goes to the styling wrappers is exactly the header line.
        assert(header@ == render_header(level, str@));
    }
    if !apply_styles {
        return header;
    }
    colored_render(colored_bold(apply_level_color(level, header.as_str(), true)))
}

/// The shared framing computations of one origin: the line/column of
/// both span ends and the context window rows.
struct OriginFrame {
    ll: u32,
    cl: u32,
    lh: u32,
    ch: u32,
    line_low: u32,
    line_high: u32,
    w: u64,
}

fn origin_frame(file: &SourceFile, span: Span) -> (f: OriginFrame)
    requires
        file.wf(),
        span.wf(),
        file.span.spec_contains(span.low),
        file.span.spec_contains(span.high),
        file.is_boundary(span.low),
        file.is_boundary(span.high),
    ensures
        f.ll as int == file.line_of(span.low),
        f.cl as int == file.col_of(span.low),
        f.lh as int == file.line_of(span.high),
        f.ch as int == file.col_of(span.high),
        f.cl <= f.ch || f.ll < f.lh,
        f.ll <= f.lh,
        f.line_low as int == if f.ll == 0 { 0int } else { f.ll as int - 1 },
        f.line_high as int == if f.lh as int == file.nlines() - 1 { file.nlines() - 1 } else {
            f.lh as int + 1
        },
        f.w as int == width_of(f.line_high as int + 1),
        f.w <= 16,
        (f.ll as int) < file.nlines(),
        (f.lh as int) < file.nlines(),
        (f.line_low as int) < file.nlines(),
        (f.line_high as int) < file.nlines(),
{
    let lc_low = file.find_line_col(span.low);
    let lc_high = file.find_line_col(span.high);
    proof {
        crate::text::lemma_blen_ge_len(file.chars@);
        assert(file.chars@.take(file.chars@.len() as int) =~= file.chars@);
        if lc_high.col < lc_low.col && lc_low.line == lc_high.line {
            file.lemma_byte_starts_le(file.char_idx(span.high), file.char_idx(span.low));
            assert(false);
        }
        if lc_high.line < lc_low.line {
            file.lemma_line_lows_le(lc_high.line as int, lc_low.line as int);
            if lc_high.line as int + 1 < file.nlines() {
                file.lemma_line_lows_le(lc_high.line as int + 1, lc_low.line as int);
            }
            assert(false);
        }
    }
    let maxl = (file.line_lows.len() - 1) as u32;
    let line_low = if lc_low.line == 0 {
        0
    } else {
        lc_low.line - 1
    };
    let line_high = if lc_high.line == maxl {
        maxl
    } else {
        lc_high.line + 1
    };
    let w = ceil_log10(line_high as u64 + 1);
    OriginFrame {
        ll: lc_low.line,
        cl: lc_low.col,
        lh: lc_high.line,
        ch: lc_high.col,
        line_low,
        line_high,
        w,
    }
}

/// The first half of the plain rendering: the locator and the context
/// window down to the elision marker.
#[verifier::rlimit(100)]
fn origin_head(file: &SourceFile, span: Span, frame: &OriginFrame) -> (r: String)
    requires
        file.wf(),
        span.wf(),
        file.span.spec_contains(span.low),
        file.span.spec_contains(span.high),
        file.is_boundary(span.low),
        file.is_boundary(span.high),
        frame.ll as int == file.line_of(span.low),
        frame.cl as int == file.col_of(span.low),
        frame.lh as int == file.line_of(span.high),
        frame.ll <= frame.lh,
        frame.line_low as int == ro_line_low(*file, span),
        frame.w as int == ro_width(*file, span),
        frame.w <= 16,
        (frame.ll as int) < file.nlines(),
        (frame.line_low as int) < file.nlines(),
    ensures
        r@ == ro_locator(*file, span) + ro_before(*file, span) + ro_first(*file, span)
            + ro_ellipsis(*file, span),
{
    let mut out = "at ".to_owned();
    match &file.path {
        Some(p) => out.append(p.as_str()),
        None => out.append("?"),
    }
    out.append(":");
    let line_str = dec_to_string(frame.ll as u64 + 1);
    out.append(line_str.as_str());
    out.append(":");
    let col_str = dec_to_string(frame.cl as u64 + 1);
    out.append(col_str.as_str());
    out.append("\n");
    proof {
        assert(out@ =~= ro_locator(*file, span)) by {
            reveal(ro_locator);
        }
    }
    if frame.line_low != frame.ll {
        let l = src_line(file, frame.line_low, frame.w);
        out.append(l.as_str());
        out.append("\n");
    }
    proof {
        assert(out@ =~= ro_locator(*file, span) + ro_before(*file, span)) by {
            reveal(ro_before);
        }
    }
    if frame.ll != frame.lh {
        let l = src_line(file, frame.ll, frame.w);
        out.append(l.as_str());
        out.append("\n");
        let indent = spaces(frame.w + 4 + frame.cl as u64);
        out.append(indent.as_str());
        let line = line_display(file, frame.ll);
        let len_first = line.len();
        let caret_count: u64 = if (frame.cl as usize) <= len_first {
            (len_first - frame.cl as usize) as u64
        } else {
            0
        };
        let caret = carets(caret_count);
        out.append(caret.as_str());
        out.append("\n");
    }
    proof {
        assert(out@ =~= ro_locator(*file, span) + ro_before(*file, span) + ro_first(*file, span))
            by {
            reveal(ro_first);
        }
    }
    if frame.lh - frame.ll >= 2 {
        out.append(" ...");
        out.append("\n");
    }
    proof {
        assert(out@ =~= ro_locator(*file, span) + ro_before(*file, span) + ro_first(*file, span)
            + ro_ellipsis(*file, span)) by {
            reveal(ro_ellipsis);
        }
    }
    out
}

/// The second half of the plain rendering: the primary line, its caret
/// run with the message, and the context line after.
#[verifier::rlimit(100)]
fn origin_tail(
    level: ItemLevel,
    message: &str,
    file: &SourceFile,
    span: Span,
    frame: &OriginFrame,
) -> (r: String)
    requires
        file.wf(),
        span.wf(),
        file.span.spec_contains(span.low),
        file.span.spec_contains(span.high),
        file.is_boundary(span.low),
        file.is_boundary(span.high),
        frame.ll as int == file.line_of(span.low),
        frame.cl as int == file.col_of(span.low),
        frame.lh as int == file.line_of(span.high),
        frame.ch as int == file.col_of(span.high),
        frame.cl <= frame.ch || frame.ll < frame.lh,
        frame.ll <= frame.lh,
        frame.line_high as int == ro_line_high(*file, span),
        frame.w as int == ro_width(*file, span),
        frame.w <= 16,
        (frame.lh as int) < file.nlines(),
        (frame.line_high as int) < file.nlines(),
    ensures
        r@ == ro_main(level, message@, *file, span) + ro_after(*file, span),
{
    let mut out = src_line(file, frame.lh, frame.w);
    out.append("\n");
    if frame.ll == frame.lh {
        let indent = spaces(frame.w + 4 + frame.cl as u64);
        out.append(indent.as_str());
        let caret = carets((frame.ch - frame.cl) as u64);
        out.append(caret.as_str());
        out.append(" ");
        out.append(message);
        out.append("\n");
    } else {
        let indent = spaces(frame.w + 4);
        out.append(indent.as_str());
        let caret_count: u64 = if frame.ch >= 1 {
            frame.ch as u64
        } else {
            1
        };
        let caret = carets(caret_count);
        out.append(caret.as_str());
        out.append(" ");
        out.append(message);
        out.append("\n");
    }
    proof {
        assert(out@ =~= ro_main(level, message@, *file, span)) by {
            reveal(ro_main);
        }
    }
    if frame.line_high != frame.lh {
        let l = src_line(file, frame.line_high, frame.w);
        out.append(l.as_str());
        out.append("\n");
    }
    proof {
        assert(out@ =~= ro_main(level, message@, *file, span) + ro_after(*file, span)) by {
            reveal(ro_after);
        }
    }
    out
}

/// The plain rendering of one origin, exactly as `render_origin` says.
fn origin_plain(level: ItemLevel, message: &str, file: &SourceFile, span: Span) -> (r: String)
    requires
        file.wf(),
        span.wf(),
        file.span.spec_contains(span.low),
        file.span.spec_contains(span.high),
        file.is_boundary(span.low),
        file.is_boundary(span.high),
    ensures
        r@ == render_origin(level, message@, *file, span),
{
    let frame = origin_frame(file, span);
    let mut out = origin_head(file, span, &frame);
    let tail = origin_tail(level, message, file, span, &frame);
    out.append(tail.as_str());
    proof {
        assert(out@ =~= render_origin(level, message@, *file, span));
    }
    out
}

/// The styled rendering of one origin: the same block with a bold
/// locator and level-colored caret runs and message.
#[verifier::rlimit(100)]
fn origin_styled(level: ItemLevel, message: &str, file: &SourceFile, span: Span) -> (r: String)
    requires
        file.wf(),
        span.wf(),
        file.span.spec_contains(span.low),
        file.span.spec_contains(span.high),
        file.is_boundary(span.low),
        file.is_boundary(span.high),
{
    let frame = origin_frame(file, span);
    let mut out = String::new();
    let mut locator = "at ".to_owned();
    match &file.path {
        Some(p) => locator.append(p.as_str()),
        None => locator.append("?"),
    }
    locator.append(":");
    let line_str = dec_to_string(frame.ll as u64 + 1);
    locator.append(line_str.as_str());
    locator.append(":");
    let col_str = dec_to_string(frame.cl as u64 + 1);
    locator.append(col_str.as_str());
    proof {
        // What goes to the styling wrappers is exactly the locator of
        // the specified rendering (sans its newline).
        assert(locator@ + "\n"@ =~= ro_locator(*file, span)) by {
            reveal(ro_locator);
        }
    }
    let painted_locator = colored_render(colored_bold(colored_normal(locator.as_str())));
    out.append(painted_locator.as_str());
    out.append("\n");
    if frame.line_low != frame.ll {
        let l = src_line(file, frame.line_low, frame.w);
        out.append(l.as_str());
        out.append("\n");
    }
    if frame.ll != frame.lh {
        let l = src_line(file, frame.ll, frame.w);
        out.append(l.as_str());
        out.append("\n");
        let indent = spaces(frame.w + 4 + frame.cl as u64);
        out.append(indent.as_str());
        let line = line_display(file, frame.ll);
        let len_first = line.len();
        let caret_count: u64 = if (frame.cl as usize) <= len_first {
            (len_first - frame.cl as usize) as u64
        } else {
            0
        };
        let caret = carets(caret_count);
        let painted = colored_render(apply_level_color(level, caret.as_str(), true));
        out.append(painted.as_str());
        out.append("\n");
    }
    if frame.lh - frame.ll >= 2 {
        out.append(" ...");
        out.append("\n");
    }
    let l = src_line(file, frame.lh, frame.w);
    out.append(l.as_str());
    out.append("\n");
    let mut tail = " ".to_owned();
    tail.append(message);
    proof {
        // What goes to the styling wrappers is exactly the message
        // piece of the specified rendering.
        assert(tail@ == " "@ + message@);
    }
    if frame.ll == frame.lh {
        let indent = spaces(frame.w + 4 + frame.cl as u64);
        out.append(indent.as_str());
        let caret = carets((frame.ch - frame.cl) as u64);
        let painted_caret = colored_render(apply_level_color(level, caret.as_str(), true));
        out.append(painted_caret.as_str());
        let painted_tail = colored_render(apply_level_color(level, tail.as_str(), true));
        out.append(painted_tail.as_str());
        out.append("\n");
    } else {
        let indent = spaces(frame.w + 4);
        out.append(indent.as_str());
        let caret_count: u64 = if frame.ch >= 1 {
            frame.ch as u64
        } else {
            1
        };
        let caret = carets(caret_count);
        let painted_caret = colored_render(apply_level_color(level, caret.as_str(), true));
        out.append(painted_caret.as_str());
        let painted_tail = colored_render(apply_level_color(level, tail.as_str(), true));
        out.append(painted_tail.as_str());
        out.append("\n");
    }
    if frame.line_high != frame.lh {
        let l = src_line(file, frame.line_high, frame.w);
        out.append(l.as_str());
        out.append("\n");
    }
    out
}

/// Renders one origin as its source-framed block (see `render_origin`):
/// a bold locator, the primary line with a caret run under the span's
/// columns and the message after the final caret, one context line
/// before and after when available, and an elision marker when a
/// multi-line span skips lines. Plain output is exactly the specified
/// rendering; styling only wraps pieces in ANSI colors.
pub fn stringify_origin(
    level: ItemLevel,
    message: &str,
    origin: &ItemOrigin,
    apply_styles: bool,
) -> (r: String)
    requires
        origin_ok(*origin),
    ensures
        !apply_styles ==> r@ == render_origin(level, message@, *origin.file, origin.span),
{
    let file = crate::shared::arc_borrow(&origin.file);
    if apply_styles {
        origin_styled(level, message, file, origin.span)
    } else {
        origin_plain(level, message, file, origin.span)
    }
}

/// The rendering of one sub-item: its header line, then its framed
/// origin when it has one.
pub open spec fn render_sub(s: SubItem) -> Seq<char> {
    render_header(s.level, s.message@) + "\n"@ + match s.origin {
        Some(o) => render_origin(s.level, s.message@, *o.file, o.span) + "\n"@,
        None => Seq::<char>::empty(),
    }
}

pub open spec fn render_subs_prefix(subs: Seq<SubItem>, n: int) -> Seq<char>
    decreases n,
{
    if n <= 0 {
        Seq::<char>::empty()
    } else {
        render_subs_prefix(subs, n - 1) + render_sub(subs[n - 1])
    }
}

/// The full rendering of one item: its header line, its framed origin
/// when it has one, the same for each sub-item, and a closing blank
/// line.
pub open spec fn render_item(item: Item) -> Seq<char> {
    render_header(item.level, item.message@) + "\n"@ + (match item.origin {
        Some(o) => render_origin(item.level, item.message@, *o.file, o.span) + "\n"@,
        None => Seq::<char>::empty(),
    }) + render_subs_prefix(item.sub_items@, item.sub_items@.len() as int)
}

/// An item the renderer can frame: each origin it carries is valid for
/// its file.
pub open spec fn item_ok(item: Item) -> bool {
    &&& (item.origin matches Some(o) ==> origin_ok(o))
    &&& forall|i: int|
        0 <= i < item.sub_items@.len() ==> match (#[trigger] item.sub_items@[i]).origin {
            Some(o) => origin_ok(o),
            None => true,
        }
}

/// Renders an item and its sub-items as a multi-line block (see
/// `render_item`). Plain output is exactly the specified rendering;
/// styling only wraps pieces in ANSI colors.
#[verifier::rlimit(100)]
pub fn stringify_item(item: &Item, apply_styles: bool) -> (r: String)
    requires
        item_ok(*item),
    ensures
        !apply_styles ==> r@ == render_item(*item),
{
    let mut out = apply_level_header(item.level, item.message.as_str(), apply_styles);
    out.append("\n");
    match &item.origin {
        Some(o) => {
            let os = stringify_origin(item.level, item.message.as_str(), o, apply_styles);
            out.append(os.as_str());
            out.append("\n");
        },
        None => {},
    }
    let ghost base = out@;
    let n = item.sub_items.len();
    let mut i: usize = 0;
    while i < n
        invariant
            n == item.sub_items@.len(),
            i <= n,
            item_ok(*item),
            !apply_styles ==> out@ == base + render_subs_prefix(item.sub_items@, i as int),
        decreases n - i,
    {
        let sub = &item.sub_items[i];
        let h = apply_level_header(sub.level, sub.message.as_str(), apply_styles);
        out.append(h.as_str());
        out.append("\n");
        match &sub.origin {
            Some(o) => {
                let os = stringify_origin(sub.level, sub.message.as_str(), o, apply_styles);
                out.append(os.as_str());
                out.append("\n");
            },
            None => {},
        }
        proof {
            if !apply_styles {
                assert(out@ =~= base + render_subs_prefix(item.sub_items@, i as int + 1));
            }
        }
        i = i + 1;
    }
    proof {
        if !apply_styles {
            assert(out@ =~= render_item(*item));
        }
    }
    out
}

} // verus!
