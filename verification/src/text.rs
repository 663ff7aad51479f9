//! Facts about text that the library's rules are stated in.
use vstd::prelude::*;

verus! {

/// Number of bytes that the UTF-8 encoding of `c` takes.
pub open spec fn char_utf8_width(c: char) -> nat {
    if (c as u32) < 0x80 {
        1
    } else if (c as u32) < 0x800 {
        2
    } else if (c as u32) < 0x10000 {
        3
    } else {
        4
    }
}

/// Number of bytes of the UTF-8 encoding of a text (what `str::len` returns).
pub open spec fn utf8_len(s: Seq<char>) -> nat
    decreases s.len(),
{
    if s.len() == 0 {
        0
    } else {
        utf8_len(s.drop_last()) + char_utf8_width(s.last())
    }
}

/// The encoding of a nonempty text is that of its first character followed by that of the rest.
pub proof fn lemma_utf8_len_front(s: Seq<char>)
    requires
        s.len() > 0,
    ensures
        utf8_len(s) == char_utf8_width(s[0]) + utf8_len(s.drop_first()),
    decreases s.len(),
{
    if s.len() > 1 {
        lemma_utf8_len_front(s.drop_last());
        assert(s.drop_first().drop_last() =~= s.drop_last().drop_first());
        assert(utf8_len(s) == utf8_len(s.drop_last()) + char_utf8_width(s.last()));
        assert(utf8_len(s.drop_first()) == utf8_len(s.drop_first().drop_last()) + char_utf8_width(
            s.drop_first().last(),
        ));
        assert(s.drop_last()[0] == s[0]);
        assert(s.drop_first().last() == s.last());
    } else {
        assert(s.drop_first().len() == 0);
        assert(s.drop_last().len() == 0);
        assert(utf8_len(s) == utf8_len(s.drop_last()) + char_utf8_width(s.last()));
        assert(s.last() == s[0]);
    }
}

/// `utf8_len` is the length of vstd's UTF-8 encoding of the text.
pub proof fn lemma_utf8_len_is_encoding_len(s: Seq<char>)
    ensures
        utf8_len(s) == vstd::utf8::encode_utf8(s).len(),
    decreases s.len(),
{
    if s.len() > 0 {
        lemma_utf8_len_front(s);
        lemma_utf8_len_is_encoding_len(s.drop_first());
        let c = s[0];
        vstd::utf8::char_is_scalar(c);
        assert(vstd::utf8::encode_scalar(c as u32).len() == char_utf8_width(c));
    }
}

/// A longer prefix never has a shorter encoding.
pub proof fn lemma_utf8_len_prefix(s: Seq<char>, i: int)
    requires
        0 <= i <= s.len(),
    ensures
        utf8_len(s.take(i)) <= utf8_len(s),
    decreases s.len() - i,
{
    if i < s.len() {
        lemma_utf8_len_prefix(s, i + 1);
        assert(s.take(i + 1).drop_last() =~= s.take(i));
    } else {
        assert(s.take(i) =~= s);
    }
}

/// Whether the UTF-8 encoding of `s` has fewer than `n` bytes, for a small `n`.
/// Looks at no more than `n` characters.
pub(crate) fn utf8_shorter_than(s: &str, n: usize) -> (r: bool)
    requires
        n <= 1024,
    ensures
        r == (utf8_len(s@) < n),
{
    let len = s.unicode_len();
    let mut i: usize = 0;
    let mut acc: usize = 0;
    while i < len && acc < n
        invariant
            len == s@.len(),
            i <= len,
            n <= 1024,
            acc == utf8_len(s@.take(i as int)),
            acc < n + 4,
        decreases len - i,
    {
        let c = s.get_char(i);
        let w: usize = if (c as u32) < 0x80 {
            1
        } else if (c as u32) < 0x800 {
            2
        } else if (c as u32) < 0x10000 {
            3
        } else {
            4
        };
        proof {
            assert(s@.take(i + 1).drop_last() =~= s@.take(i as int));
        }
        acc = acc + w;
        i = i + 1;
    }
    proof {
        if i == len {
            assert(s@.take(i as int) =~= s@);
        } else {
            lemma_utf8_len_prefix(s@, i as int);
        }
    }
    acc < n
}

/// Two texts are equal, character for character.
pub(crate) fn text_eq(a: &str, b: &str) -> (r: bool)
    ensures
        r == (a@ == b@),
{
    let la = a.unicode_len();
    let lb = b.unicode_len();
    if la != lb {
        return false;
    }
    let mut i: usize = 0;
    while i < la
        invariant
            la == a@.len(),
            lb == b@.len(),
            la == lb,
            i <= la,
            forall|j: int| 0 <= j < i ==> a@[j] == b@[j],
        decreases la - i,
    {
        if a.get_char(i) != b.get_char(i) {
            return false;
        }
        i = i + 1;
    }
    assert(a@ =~= b@);
    true
}

} // verus!
