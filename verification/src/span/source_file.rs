use super::{LineCol, Span};
use crate::text::{blen, char_utf8_len, lemma_blen_ge_len, lemma_blen_split, lemma_blen_subrange,
    lemma_blen_take_succ, str_chars};
use vstd::prelude::*;

verus! {

broadcast use vstd::string::group_string_axioms;

/// One registered piece of source text, pinned at a fixed range of the
/// global byte-offset coordinate space.
///
/// Beside the text itself the file keeps a table of the byte offset of
/// every character (so spans, which are byte ranges, can be mapped back
/// to characters) and a table of line starts (one entry at the file's
/// start and one after every `'\n'`).
#[derive(Debug)]
pub struct SourceFile {
    pub span: Span,
    pub content: String,
    pub chars: Vec<char>,
    pub byte_starts: Vec<u32>,
    pub line_lows: Vec<u32>,
    pub line_char_lows: Vec<usize>,
    pub name: String,
    pub path: Option<String>,
}

impl SourceFile {
    /// The text as a sequence of Unicode scalar values.
    pub open spec fn text(&self) -> Seq<char> {
        self.chars@
    }

    pub open spec fn nlines(&self) -> int {
        self.line_lows@.len() as int
    }

    /// `pos` is the byte offset of a character of this file, or the
    /// file's end offset.
    pub open spec fn is_boundary(&self, pos: u32) -> bool {
        exists|i: int|
            0 <= i <= self.chars@.len() && #[trigger] self.byte_starts@[i] == pos
    }

    /// The character index sitting at byte offset `pos`.
    pub open spec fn char_idx(&self, pos: u32) -> int {
        choose|i: int|
            0 <= i <= self.chars@.len() && #[trigger] self.byte_starts@[i] == pos
    }

    pub open spec fn wf(&self) -> bool {
        &&& self.span.wf()
        &&& self.content@ == self.chars@
        &&& self.byte_starts@.len() == self.chars@.len() + 1
        &&& forall|i: int|
            0 <= i <= self.chars@.len() ==> #[trigger] self.byte_starts@[i] as int
                == self.span.low as int + blen(self.chars@.take(i))
        &&& self.span.high as int == self.span.low as int + blen(self.chars@)
        &&& self.line_lows@.len() == self.line_char_lows@.len()
        &&& 1 <= self.line_lows@.len() <= self.chars@.len() + 1
        &&& self.line_char_lows@[0] == 0
        &&& forall|k: int|
            0 <= k < self.line_char_lows@.len() ==> #[trigger] self.line_char_lows@[k]
                <= self.chars@.len()
        &&& forall|k: int|
            0 <= k < self.line_char_lows@.len() ==> self.line_lows@[k] == self.byte_starts@[
                #[trigger] self.line_char_lows@[k] as int
            ]
        &&& forall|k: int|
            1 <= k < self.line_char_lows@.len() ==> 1 <= #[trigger] self.line_char_lows@[k]
                && self.chars@[self.line_char_lows@[k] as int - 1] == '\n'
        &&& forall|k: int, l: int|
            0 <= k < l < self.line_char_lows@.len() ==> #[trigger] self.line_char_lows@[k]
                < #[trigger] self.line_char_lows@[l]
        &&& forall|i: int|
            0 <= i < self.chars@.len() && self.chars@[i] == '\n' ==> exists|k: int|
                0 <= k < self.line_char_lows@.len() && #[trigger] self.line_char_lows@[k] == i + 1
    }

    /// The line holding byte offset `pos`: the greatest line whose
    /// start offset is at most `pos`.
    pub open spec fn line_of(&self, pos: u32) -> int {
        choose|l: int|
            0 <= l < self.nlines() && #[trigger] self.line_lows@[l] <= pos && (l + 1
                < self.nlines() ==> pos < self.line_lows@[l + 1])
    }

    /// The column of byte offset `pos`: characters from its line's
    /// start.
    pub open spec fn col_of(&self, pos: u32) -> int {
        self.char_idx(pos) - self.line_char_lows@[self.line_of(pos)]
    }

    /// The text of line `l`, including its terminating newline.
    pub open spec fn line_text(&self, l: int) -> Seq<char> {
        self.text().subrange(
            self.line_char_lows@[l] as int,
            if l + 1 < self.nlines() {
                self.line_char_lows@[l + 1] as int
            } else {
                self.text().len() as int
            },
        )
    }

    /// The line-lookup properties determine the line uniquely.
    pub proof fn lemma_line_of_unique(&self, pos: u32, l: int)
        requires
            self.wf(),
            0 <= l < self.nlines(),
            self.line_lows@[l] <= pos,
            l + 1 < self.nlines() ==> pos < self.line_lows@[l + 1],
        ensures
            self.line_of(pos) == l,
    {
        let l2 = self.line_of(pos);
        assert(0 <= l2 < self.nlines() && self.line_lows@[l2] <= pos && (l2 + 1 < self.nlines()
            ==> pos < self.line_lows@[l2 + 1]));
        if l < l2 {
            self.lemma_line_lows_le(l + 1, l2);
            assert(false);
        }
        if l2 < l {
            self.lemma_line_lows_le(l2 + 1, l);
            assert(false);
        }
    }

    /// Byte offsets grow with the character index.
    pub proof fn lemma_byte_starts_le(&self, i: int, j: int)
        requires
            self.wf(),
            0 <= i <= j <= self.chars@.len(),
        ensures
            self.byte_starts@[i] <= self.byte_starts@[j],
            i < j ==> self.byte_starts@[i] as int + (j - i) <= self.byte_starts@[j] as int,
    {
        lemma_blen_subrange(self.chars@, i, j);
        lemma_blen_ge_len(self.chars@.subrange(i, j));
    }

    /// A byte offset determines its character index.
    pub proof fn lemma_char_idx_unique(&self, pos: u32, i: int)
        requires
            self.wf(),
            0 <= i <= self.chars@.len(),
            self.byte_starts@[i] == pos,
        ensures
            self.is_boundary(pos),
            self.char_idx(pos) == i,
    {
        assert(self.is_boundary(pos));
        let j = self.char_idx(pos);
        if i < j {
            self.lemma_byte_starts_le(i, j);
            assert(false);
        }
        if j < i {
            self.lemma_byte_starts_le(j, i);
            assert(false);
        }
    }

    pub proof fn lemma_line_lows_le(&self, k: int, l: int)
        requires
            self.wf(),
            0 <= k <= l < self.nlines(),
        ensures
            self.line_lows@[k] <= self.line_lows@[l],
            k < l ==> self.line_lows@[k] < self.line_lows@[l],
    {
        if k < l {
            self.lemma_byte_starts_le(
                self.line_char_lows@[k] as int,
                self.line_char_lows@[l] as int,
            );
        }
    }

    /// Registers `content` as the text of a file whose span starts at
    /// `span_low`.
    pub fn new(span_low: u32, content: &str, name: &str, path: Option<String>) -> (f: Self)
        requires
            span_low as int + blen(content@) <= u32::MAX,
        ensures
            f.wf(),
            f.span.low == span_low,
            f.span.high as int == span_low as int + blen(content@),
            f.text() == content@,
            f.name@ == name@,
            f.path == path,
    {
        let chars = str_chars(content);
        let n = chars.len();
        let mut byte_starts: Vec<u32> = Vec::new();
        let mut line_lows: Vec<u32> = Vec::new();
        let mut line_char_lows: Vec<usize> = Vec::new();
        byte_starts.push(span_low);
        line_lows.push(span_low);
        line_char_lows.push(0);
        proof {
            assert(chars@.take(0) =~= Seq::<char>::empty());
            assert(blen(Seq::<char>::empty()) == 0);
        }
        let mut i: usize = 0;
        while i < n
            invariant
                n == chars@.len(),
                chars@ == content@,
                span_low as int + blen(chars@) <= u32::MAX,
                i <= n,
                byte_starts@.len() == i + 1,
                forall|k: int|
                    0 <= k <= i ==> #[trigger] byte_starts@[k] as int == span_low as int + blen(
                        chars@.take(k),
                    ),
                line_lows@.len() == line_char_lows@.len(),
                1 <= line_lows@.len() <= i + 1,
                line_char_lows@[0] == 0,
                forall|k: int|
                    0 <= k < line_char_lows@.len() ==> #[trigger] line_char_lows@[k] <= i,
                forall|k: int|
                    0 <= k < line_char_lows@.len() ==> line_lows@[k] == byte_starts@[
                        #[trigger] line_char_lows@[k] as int
                    ],
                forall|k: int|
                    1 <= k < line_char_lows@.len() ==> 1 <= #[trigger] line_char_lows@[k]
                        && chars@[line_char_lows@[k] as int - 1] == '\n',
                forall|k: int, l: int|
                    0 <= k < l < line_char_lows@.len() ==> #[trigger] line_char_lows@[k]
                        < #[trigger] line_char_lows@[l],
                forall|j: int|
                    0 <= j < i && chars@[j] == '\n' ==> exists|k: int|
                        0 <= k < line_char_lows@.len() && #[trigger] line_char_lows@[k] == j + 1,
            decreases n - i,
        {
            proof {
                lemma_blen_take_succ(chars@, i as int);
                lemma_blen_split(chars@, i as int + 1);
                lemma_blen_ge_len(chars@.skip(i as int + 1));
            }
            let w = char_utf8_len(chars[i]);
            let prev = byte_starts[i];
            let next_off = prev + w as u32;
            byte_starts.push(next_off);
            let ghost old_lcl = line_char_lows@;
            if chars[i] == '\n' {
                line_lows.push(next_off);
                line_char_lows.push(i + 1);
            }
            proof {
                assert forall|j: int| 0 <= j < i + 1 && chars@[j] == '\n' implies exists|k: int|
                    0 <= k < line_char_lows@.len() && #[trigger] line_char_lows@[k] == j
                        + 1 by {
                    if j < i {
                        let k = choose|k: int|
                            0 <= k < old_lcl.len() && #[trigger] old_lcl[k] == j + 1;
                        assert(line_char_lows@[k] == j + 1);
                    } else {
                        assert(line_char_lows@[line_char_lows@.len() - 1] == j + 1);
                    }
                }
            }
            i = i + 1;
        }
        proof {
            assert(chars@.take(n as int) =~= chars@);
        }
        let high = byte_starts[n];
        let f = SourceFile {
            span: Span::new(span_low, high),
            content: content.to_owned(),
            chars,
            byte_starts,
            line_lows,
            line_char_lows,
            name: name.to_owned(),
            path,
        };
        f
    }

    pub fn span(&self) -> (r: Span)
        ensures
            r == self.span,
    {
        self.span
    }

    pub fn content(&self) -> (r: &str)
        ensures
            r@ == self.content@,
    {
        self.content.as_str()
    }

    pub fn line_lows(&self) -> (r: &Vec<u32>)
        ensures
            r@ == self.line_lows@,
    {
        &self.line_lows
    }

    pub fn name(&self) -> (r: &str)
        ensures
            r@ == self.name@,
    {
        self.name.as_str()
    }

    pub fn path(&self) -> (r: Option<&String>)
        ensures
            match r {
                Some(p) => self.path is Some && p@ == self.path->0@,
                None => self.path is None,
            },
    {
        match &self.path {
            Some(p) => Some(p),
            None => None,
        }
    }

    /// The span covering line `line`, including its terminating newline.
    #[verifier::rlimit(50)]
    pub fn line_span(&self, line: u32) -> (r: Span)
        requires
            self.wf(),
            (line as int) < self.nlines(),
        ensures
            r.low == self.line_lows@[line as int],
            r.high as int == if line as int + 1 < self.nlines() {
                self.line_lows@[line as int + 1] as int
            } else {
                self.span.high as int
            },
            r.wf(),
    {
        proof {
            assert(self.chars@.take(self.chars@.len() as int) =~= self.chars@);
            lemma_blen_ge_len(self.chars@);
            self.lemma_byte_starts_le(
                self.line_char_lows@[line as int] as int,
                self.chars@.len() as int,
            );
            if line as int + 1 < self.nlines() {
                self.lemma_line_lows_le(line as int, line as int + 1);
            }
        }
        let lo = self.line_lows[line as usize];
        let hi = if (line as usize) == self.line_lows.len() - 1 {
            self.span.high()
        } else {
            self.line_lows[(line + 1) as usize]
        };
        Span::new(lo, hi)
    }

    /// The greatest line whose start offset is at most `pos`.
    pub fn find_line(&self, pos: u32) -> (r: u32)
        requires
            self.wf(),
            self.span.spec_contains(pos),
        ensures
            (r as int) < self.nlines(),
            self.line_lows@[r as int] <= pos,
            r as int + 1 < self.nlines() ==> pos < self.line_lows@[r as int + 1],
            r as int == self.line_of(pos),
    {
        proof {
            lemma_blen_ge_len(self.chars@);
            assert(self.chars@.take(0) =~= Seq::<char>::empty());
            assert(blen(Seq::<char>::empty()) == 0);
        }
        let mut lo: usize = 0;
        let mut hi: usize = self.line_lows.len();
        while hi - lo > 1
            invariant
                self.wf(),
                lo < hi <= self.nlines(),
                self.line_lows@[lo as int] <= pos,
                hi < self.nlines() ==> pos < self.line_lows@[hi as int],
            decreases hi - lo,
        {
            let mid = lo + (hi - lo) / 2;
            if self.line_lows[mid] <= pos {
                lo = mid;
            } else {
                hi = mid;
            }
        }
        proof {
            self.lemma_line_of_unique(pos, lo as int);
        }
        lo as u32
    }

    /// The index of the character sitting at byte offset `pos`.
    fn char_index_of(&self, pos: u32) -> (i: usize)
        requires
            self.wf(),
            self.is_boundary(pos),
        ensures
            i <= self.chars@.len(),
            self.byte_starts@[i as int] == pos,
            self.char_idx(pos) == i,
    {
        let mut lo: usize = 0;
        let mut hi: usize = self.chars.len();
        proof {
            lemma_blen_ge_len(self.chars@);
        }
        while lo < hi
            invariant
                self.wf(),
                lo <= hi <= self.chars@.len(),
                exists|w: int|
                    lo <= w <= hi && #[trigger] self.byte_starts@[w] == pos,
            decreases hi - lo,
        {
            let mid = lo + (hi - lo) / 2;
            proof {
                let w = choose|w: int|
                    lo <= w <= hi && #[trigger] self.byte_starts@[w] == pos;
                if self.byte_starts@[mid as int] < pos {
                    if w <= mid {
                        self.lemma_byte_starts_le(w, mid as int);
                        assert(false);
                    }
                } else {
                    if w > mid {
                        self.lemma_byte_starts_le(mid as int, w);
                    }
                }
            }
            if self.byte_starts[mid] < pos {
                lo = mid + 1;
            } else {
                hi = mid;
            }
        }
        proof {
            self.lemma_char_idx_unique(pos, lo as int);
        }
        lo
    }

    /// The text under `span`. The returned slice is exactly as many
    /// bytes long as the span.
    pub fn slice<'a>(&'a self, span: Span) -> (r: &'a str)
        requires
            self.wf(),
            span.wf(),
            self.span.spec_contains_span(span),
            self.is_boundary(span.low),
            self.is_boundary(span.high),
        ensures
            r@ == self.text().subrange(self.char_idx(span.low), self.char_idx(span.high)),
            blen(r@) == span.spec_len(),
    {
        let lo_i = self.char_index_of(span.low);
        let hi_i = self.char_index_of(span.high);
        proof {
            if lo_i > hi_i {
                self.lemma_byte_starts_le(hi_i as int, lo_i as int);
            }
            lemma_blen_subrange(self.chars@, lo_i as int, hi_i as int);
        }
        self.content.as_str().substring_char(lo_i, hi_i)
    }

    /// The text of line `line`, including its terminating newline.
    pub fn slice_line<'a>(&'a self, line: u32) -> (r: &'a str)
        requires
            self.wf(),
            (line as int) < self.nlines(),
        ensures
            r@ == self.line_text(line as int),
    {
        let span = self.line_span(line);
        proof {
            assert(self.chars@.take(self.chars@.len() as int) =~= self.chars@);
            assert(self.chars@.take(0) =~= Seq::<char>::empty());
            assert(blen(Seq::<char>::empty()) == 0);
            assert(self.byte_starts@[0] == self.span.low);
            self.lemma_char_idx_unique(span.low, self.line_char_lows@[line as int] as int);
            if line as int + 1 < self.nlines() {
                self.lemma_char_idx_unique(
                    span.high,
                    self.line_char_lows@[line as int + 1] as int,
                );
                self.lemma_byte_starts_le(
                    self.line_char_lows@[line as int + 1] as int,
                    self.chars@.len() as int,
                );
            } else {
                self.lemma_char_idx_unique(span.high, self.chars@.len() as int);
            }
            self.lemma_byte_starts_le(0, self.line_char_lows@[line as int] as int);
        }
        self.slice(span)
    }

    /// The line holding `pos` and the number of characters between the
    /// line's start and `pos`. Re-deriving the absolute offset of
    /// character `line start + col` recovers `pos` exactly.
    pub fn find_line_col(&self, pos: u32) -> (r: LineCol)
        requires
            self.wf(),
            self.span.spec_contains(pos),
            self.is_boundary(pos),
        ensures
            (r.line as int) < self.nlines(),
            self.line_lows@[r.line as int] <= pos,
            r.line as int + 1 < self.nlines() ==> pos < self.line_lows@[r.line as int + 1],
            r.col as int == self.char_idx(pos) - self.line_char_lows@[r.line as int],
            self.byte_starts@[self.line_char_lows@[r.line as int] + r.col as int] == pos,
            r.line as int == self.line_of(pos),
            r.col as int == self.col_of(pos),
    {
        let line = self.find_line(pos);
        let ci = self.char_index_of(pos);
        let lcl = self.line_char_lows[line as usize];
        proof {
            if lcl > ci {
                self.lemma_byte_starts_le(ci as int, lcl as int);
                assert(false);
            }
            lemma_blen_ge_len(self.chars@);
            assert(self.chars@.take(self.chars@.len() as int) =~= self.chars@);
        }
        LineCol::new(line, (ci - lcl) as u32)
    }
}

} // verus!
