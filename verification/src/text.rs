use vstd::prelude::*;
use vstd::std_specs::iter::IteratorSpec;

verus! {

broadcast use vstd::string::group_string_axioms;

/// Number of bytes in the UTF-8 encoding of one Unicode scalar value.
pub open spec fn ulen(c: char) -> int {
    vstd::utf8::encode_scalar(c as u32).len() as int
}

/// Number of bytes in the UTF-8 encoding of a character sequence.
pub open spec fn blen(s: Seq<char>) -> int {
    vstd::utf8::encode_utf8(s).len() as int
}

pub proof fn lemma_ulen_bounds(c: char)
    ensures
        1 <= ulen(c) <= 4,
{
    vstd::utf8::char_is_scalar(c);
}

pub proof fn lemma_encode_utf8_concat(a: Seq<char>, b: Seq<char>)
    ensures
        vstd::utf8::encode_utf8(a + b) == vstd::utf8::encode_utf8(a) + vstd::utf8::encode_utf8(b),
    decreases a.len(),
{
    if a.len() == 0 {
        assert(a + b =~= b);
        assert(vstd::utf8::encode_utf8(a) + vstd::utf8::encode_utf8(b) =~= vstd::utf8::encode_utf8(
            b,
        ));
    } else {
        assert((a + b).drop_first() =~= a.drop_first() + b);
        lemma_encode_utf8_concat(a.drop_first(), b);
        assert((a + b)[0] == a[0]);
        assert(vstd::utf8::encode_utf8(a + b) =~= vstd::utf8::encode_utf8(a)
            + vstd::utf8::encode_utf8(b));
    }
}

pub proof fn lemma_blen_concat(a: Seq<char>, b: Seq<char>)
    ensures
        blen(a + b) == blen(a) + blen(b),
{
    lemma_encode_utf8_concat(a, b);
}

pub proof fn lemma_blen_push(a: Seq<char>, c: char)
    ensures
        blen(a.push(c)) == blen(a) + ulen(c),
{
    assert(a.push(c) =~= a + seq![c]);
    lemma_blen_concat(a, seq![c]);
    assert(seq![c].drop_first() =~= Seq::<char>::empty());
    assert(vstd::utf8::encode_utf8(Seq::<char>::empty()) =~= Seq::<u8>::empty());
    assert(seq![c].len() == 1 && seq![c][0] == c);
    assert(vstd::utf8::encode_utf8(seq![c]) == vstd::utf8::encode_scalar(c as u32)
        + vstd::utf8::encode_utf8(seq![c].drop_first()));
    assert(vstd::utf8::encode_utf8(seq![c]) =~= vstd::utf8::encode_scalar(c as u32));
}

pub proof fn lemma_blen_take_succ(s: Seq<char>, i: int)
    requires
        0 <= i < s.len(),
    ensures
        blen(s.take(i + 1)) == blen(s.take(i)) + ulen(s[i]),
{
    assert(s.take(i + 1) =~= s.take(i).push(s[i]));
    lemma_blen_push(s.take(i), s[i]);
}

pub proof fn lemma_blen_split(s: Seq<char>, i: int)
    requires
        0 <= i <= s.len(),
    ensures
        blen(s) == blen(s.take(i)) + blen(s.skip(i)),
{
    assert(s =~= s.take(i) + s.skip(i));
    lemma_blen_concat(s.take(i), s.skip(i));
}

pub proof fn lemma_blen_subrange(s: Seq<char>, lo: int, hi: int)
    requires
        0 <= lo <= hi <= s.len(),
    ensures
        blen(s.subrange(lo, hi)) == blen(s.take(hi)) - blen(s.take(lo)),
{
    assert(s.take(hi) =~= s.take(lo) + s.subrange(lo, hi));
    lemma_blen_concat(s.take(lo), s.subrange(lo, hi));
}

pub proof fn lemma_blen_subrange_le(s: Seq<char>, lo: int, hi: int)
    requires
        0 <= lo <= hi <= s.len(),
    ensures
        0 <= blen(s.subrange(lo, hi)) <= blen(s),
{
    lemma_blen_subrange(s, lo, hi);
    lemma_blen_split(s, hi);
}

pub proof fn lemma_blen_singleton(s: Seq<char>, i: int)
    requires
        0 <= i < s.len(),
    ensures
        blen(s.subrange(i, i + 1)) == ulen(s[i]),
{
    assert(s.subrange(i, i + 1) =~= Seq::<char>::empty().push(s[i]));
    lemma_blen_push(Seq::<char>::empty(), s[i]);
    assert(vstd::utf8::encode_utf8(Seq::<char>::empty()) =~= Seq::<u8>::empty());
}

/// An ASCII character encodes as one byte.
pub proof fn lemma_ulen_ascii(c: char)
    requires
        c <= '\x7f',
    ensures
        ulen(c) == 1,
{
    vstd::utf8::char_is_scalar(c);
}

pub proof fn lemma_blen_ge_len(s: Seq<char>)
    ensures
        blen(s) >= s.len(),
    decreases s.len(),
{
    if s.len() > 0 {
        lemma_blen_ge_len(s.drop_first());
        lemma_ulen_bounds(s[0]);
        assert(vstd::utf8::encode_utf8(s) == vstd::utf8::encode_scalar(s[0] as u32)
            + vstd::utf8::encode_utf8(s.drop_first()));
    }
}

/// How many bytes the UTF-8 encoding of one character takes.
pub fn char_utf8_len(c: char) -> (n: u8)
    ensures
        n as int == ulen(c),
{
    proof {
        vstd::utf8::char_is_scalar(c);
    }
    let u = c as u32;
    if u < 0x80 {
        1
    } else if u < 0x800 {
        2
    } else if u < 0x10000 {
        3
    } else {
        4
    }
}

/// The UTF-8 byte length of the character range `[lo, hi)` of `chars`.
pub fn byte_len_range(chars: &Vec<char>, lo: usize, hi: usize) -> (n: u32)
    requires
        lo <= hi <= chars@.len(),
        blen(chars@.subrange(lo as int, hi as int)) <= u32::MAX,
    ensures
        n as int == blen(chars@.subrange(lo as int, hi as int)),
{
    proof {
        assert(chars@.subrange(lo as int, lo as int) =~= Seq::<char>::empty());
        assert(blen(Seq::<char>::empty()) == 0);
    }
    let mut n: u32 = 0;
    let mut j: usize = lo;
    while j < hi
        invariant
            lo <= j <= hi <= chars@.len(),
            blen(chars@.subrange(lo as int, hi as int)) <= u32::MAX,
            n as int == blen(chars@.subrange(lo as int, j as int)),
        decreases hi - j,
    {
        proof {
            assert(chars@.subrange(lo as int, j as int + 1) =~= chars@.subrange(
                lo as int,
                j as int,
            ).push(chars@[j as int]));
            lemma_blen_push(chars@.subrange(lo as int, j as int), chars@[j as int]);
            assert(chars@.subrange(lo as int, hi as int) =~= chars@.subrange(lo as int, j as int + 1)
                + chars@.subrange(j as int + 1, hi as int));
            lemma_blen_concat(
                chars@.subrange(lo as int, j as int + 1),
                chars@.subrange(j as int + 1, hi as int),
            );
            lemma_blen_ge_len(chars@.subrange(j as int + 1, hi as int));
        }
        n = n + char_utf8_len(chars[j]) as u32;
        j = j + 1;
    }
    n
}

/// Collects the characters of a string slice into a vector.
pub fn str_chars(s: &str) -> (v: Vec<char>)
    ensures
        v@ == s@,
{
    let mut v: Vec<char> = Vec::new();
    let mut it = s.chars();
    loop
        invariant
            v@ + it.remaining() == s@,
            it.decrease() is Some,
        ensures
            v@ == s@,
        decreases it.decrease()->0,
    {
        match it.next() {
            Some(c) => {
                v.push(c);
            },
            None => {
                proof {
                    assert(v@ + it.remaining() =~= v@);
                }
                break ;
            },
        }
    }
    v
}

} // verus!
