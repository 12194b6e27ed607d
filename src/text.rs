//! Text as the matcher sees it: the UTF-8 bytes of a `str`, with the
//! character boundaries at which it may be cut.
use vstd::prelude::*;
use vstd::utf8::*;

verus! {

broadcast use {vstd::utf8::encode_utf8_valid_utf8, vstd::utf8::encode_utf8_decode_utf8};

/// The UTF-8 bytes of a character sequence.
pub open spec fn utf8(s: Seq<char>) -> Seq<u8> {
    encode_utf8(s)
}

/// The first character encoded at the start of `t`.
pub open spec fn first_char(t: Seq<u8>) -> char {
    decode_first_scalar(t) as char
}

/// The number of bytes of the first character of `t`.
pub open spec fn first_width(t: Seq<u8>) -> nat {
    length_of_first_scalar(t) as nat
}

/// `t` with its first `n` bytes cut off.
pub open spec fn drop_bytes(t: Seq<u8>, n: nat) -> Seq<u8> {
    t.subrange(n as int, t.len() as int)
}

/// `n` is a place where `t` may be cut: inside it and between two characters.
pub open spec fn cut_ok(t: Seq<u8>, n: nat) -> bool {
    n <= t.len() && is_char_boundary(t, n as int)
}

/// The characters of the first `n` bytes of `t`.
pub open spec fn text_prefix(t: Seq<u8>, n: nat) -> Seq<char> {
    decode_utf8(t.subrange(0, n as int))
}

/// The characters of `t`.
pub open spec fn chars_of(t: Seq<u8>) -> Seq<char> {
    decode_utf8(t)
}

pub proof fn lemma_utf8_valid(s: Seq<char>)
    ensures
        valid_utf8(utf8(s)),
        decode_utf8(utf8(s)) == s,
{
}

/// Cutting a text and cutting again what is left is one cut at the sum.
pub proof fn lemma_cut_add(t: Seq<u8>, a: nat, b: nat)
    requires
        valid_utf8(t),
        cut_ok(t, a),
        cut_ok(drop_bytes(t, a), b),
    ensures
        cut_ok(t, a + b),
        valid_utf8(drop_bytes(t, a)),
        drop_bytes(drop_bytes(t, a), b) == drop_bytes(t, a + b),
    decreases t.len(),
{
    valid_utf8_split(t, a as int);
    assert(drop_bytes(drop_bytes(t, a), b) =~= drop_bytes(t, a + b));
    if a == 0 {
        assert(drop_bytes(t, 0) =~= t);
    } else {
        reveal_with_fuel(valid_utf8, 2);
        let k = length_of_first_scalar(t);
        let p = pop_first_scalar(t);
        assert(is_char_boundary(p, a - k));
        assert(drop_bytes(p, (a - k) as nat) =~= drop_bytes(t, a));
        lemma_cut_add(p, (a - k) as nat, b);
        assert(is_char_boundary(t, (a + b) as int));
    }
}

/// A text that begins with the bytes of a whole text may be cut after them.
pub proof fn lemma_prefix_cut(t: Seq<u8>, p: Seq<u8>)
    requires
        valid_utf8(t),
        valid_utf8(p),
        p.len() <= t.len(),
        t.subrange(0, p.len() as int) == p,
    ensures
        cut_ok(t, p.len()),
        valid_utf8(drop_bytes(t, p.len())),
        valid_utf8(t.subrange(0, p.len() as int)),
        decode_utf8(t) == decode_utf8(p) + decode_utf8(drop_bytes(t, p.len())),
    decreases p.len(),
{
    if p.len() == 0 {
        assert(drop_bytes(t, 0) =~= t);
        assert(decode_utf8(p) =~= Seq::<char>::empty());
        assert(decode_utf8(t) =~= decode_utf8(p) + decode_utf8(drop_bytes(t, p.len())));
    } else {
        reveal_with_fuel(valid_utf8, 2);
        assert(t[0] == p[0]);
        let k = length_of_first_scalar(p);
        assert forall|i: int| 0 <= i < k implies t[i] == p[i] by {
            assert(t.subrange(0, p.len() as int)[i] == t[i]);
        }
        assert(decode_first_scalar(t) == decode_first_scalar(p));
        let tp = pop_first_scalar(t);
        let pp = pop_first_scalar(p);
        assert(tp.subrange(0, pp.len() as int) =~= pp);
        lemma_prefix_cut(tp, pp);
        assert(drop_bytes(tp, pp.len()) =~= drop_bytes(t, p.len()));
        assert(is_char_boundary(t, p.len() as int));
        assert(decode_utf8(t) =~= decode_utf8(p) + decode_utf8(drop_bytes(t, p.len())));
    }
    valid_utf8_split(t, p.len() as int);
}

/// The first character of a text, and where it ends.
pub proof fn lemma_first_char(s: Seq<char>)
    requires
        s.len() > 0,
    ensures
        first_char(utf8(s)) == s[0],
        first_width(utf8(s)) == encode_scalar(s[0] as u32).len(),
        1 <= first_width(utf8(s)) <= 4,
        cut_ok(utf8(s), first_width(utf8(s))),
        utf8(s)[0] < 0x80 <==> first_width(utf8(s)) == 1,
{
    encode_utf8_first_scalar(s);
    char_u32_cast(s[0], decode_first_scalar(utf8(s)));
    reveal_with_fuel(is_char_boundary, 2);
    let t = utf8(s);
    reveal_with_fuel(valid_utf8, 2);
    assert(is_char_boundary(pop_first_scalar(t), 0));
}

/// Splits `text` after `n` bytes.
pub fn split_text(text: &str, n: usize) -> (r: (&str, &str))
    requires
        cut_ok(utf8(text@), n as nat),
    ensures
        utf8(r.0@) == utf8(text@).subrange(0, n as int),
        utf8(r.1@) == drop_bytes(utf8(text@), n as nat),
        r.0@ == text_prefix(utf8(text@), n as nat),
        r.1@ == chars_of(drop_bytes(utf8(text@), n as nat)),
{
    let r = text.split_at(n);
    proof {
        lemma_utf8_valid(r.0@);
        lemma_utf8_valid(r.1@);
    }
    r
}

/// The first character of `text` and its width in bytes, if there is one.
pub fn first_char_of(text: &str) -> (r: Option<(char, usize)>)
    ensures
        match r {
            None => text@.len() == 0,
            Some((c, w)) => {
                &&& text@.len() > 0
                &&& c == first_char(utf8(text@))
                &&& w == first_width(utf8(text@))
                &&& cut_ok(utf8(text@), w as nat)
            },
        },
{
    broadcast use vstd::string::group_string_axioms;

    let mut it = text.chars();
    match it.next() {
        None => None,
        Some(c) => {
            proof {
                lemma_first_char(text@);
            }
            Some((c, char_width(c)))
        },
    }
}

/// The number of bytes that UTF-8 gives to `c`.
pub fn char_width(c: char) -> (n: usize)
    ensures
        n == encode_scalar(c as u32).len(),
{
    let v = c as u32;
    if v <= 0x7f {
        1
    } else if v <= 0x7ff {
        2
    } else if v <= 0xffff {
        proof {
            char_is_scalar(c);
        }
        3
    } else {
        4
    }
}

/// Whether the bytes of `prefix` begin the bytes of `text`.
pub fn starts_with_text(text: &str, prefix: &str) -> (r: bool)
    ensures
        r == (utf8(prefix@).len() <= utf8(text@).len() && utf8(text@).subrange(
            0,
            utf8(prefix@).len() as int,
        ) == utf8(prefix@)),
{
    let t = text.as_bytes();
    let p = prefix.as_bytes();
    if p.len() > t.len() {
        return false;
    }
    let mut i: usize = 0;
    while i < p.len()
        invariant
            p@ == utf8(prefix@),
            t@ == utf8(text@),
            p.len() <= t.len(),
            i <= p.len(),
            forall|j: int| 0 <= j < i ==> t@[j] == p@[j],
        decreases p.len() - i,
    {
        if t[i] != p[i] {
            assert(t@.subrange(0, p@.len() as int)[i as int] != p@[i as int]);
            return false;
        }
        i = i + 1;
    }
    assert(t@.subrange(0, p@.len() as int) =~= p@);
    true
}

} // verus!
