//! Sequences of characters: their width in bytes, joining and padding.

use vstd::prelude::*;
use vstd::utf8::{
    decode_utf8, encode_utf8, encode_utf8_decode_utf8, is_ascii_chars, is_ascii_chars_encode_utf8,
};

verus! {

/// The number of bytes that `text` occupies in UTF-8, which is what `str::len` reports.
pub open spec fn byte_len(text: Seq<char>) -> nat {
    encode_utf8(text).len()
}

/// The first `n` parts, with `sep` between each two neighbours.
pub open spec fn joined_prefix(parts: Seq<Seq<char>>, sep: Seq<char>, n: nat) -> Seq<char>
    decreases n,
{
    if n == 0 {
        Seq::empty()
    } else if n == 1 {
        parts[0]
    } else {
        joined_prefix(parts, sep, (n - 1) as nat) + sep + parts[n - 1]
    }
}

/// All parts, with `sep` between each two neighbours.
pub open spec fn joined(parts: Seq<Seq<char>>, sep: Seq<char>) -> Seq<char> {
    joined_prefix(parts, sep, parts.len())
}

/// The bytes that the first `n` parts occupy.
pub open spec fn parts_width(parts: Seq<Seq<char>>, n: nat) -> nat
    decreases n,
{
    if n == 0 {
        0
    } else {
        parts_width(parts, (n - 1) as nat) + byte_len(parts[n - 1])
    }
}

/// `n` spaces.
pub open spec fn blanks(n: nat) -> Seq<char> {
    Seq::new(n, |i: int| ' ')
}

/// Text made of ASCII characters alone is as wide in bytes as it is long.
pub proof fn lemma_ascii_width(text: Seq<char>)
    requires
        is_ascii_chars(text),
    ensures
        byte_len(text) == text.len(),
{
    is_ascii_chars_encode_utf8(text);
}

/// Two texts, one after the other, are as wide as both together.
pub proof fn lemma_width_adds(first: Seq<char>, second: Seq<char>)
    ensures
        byte_len(first + second) == byte_len(first) + byte_len(second),
    decreases first.len(),
{
    if first.len() == 0 {
        assert(first + second =~= second);
    } else {
        assert((first + second).drop_first() =~= first.drop_first() + second);
        lemma_width_adds(first.drop_first(), second);
    }
}

/// Parts joined by a separator of one byte are as wide as the parts and the
/// separators between them.
pub proof fn lemma_joined_width(parts: Seq<Seq<char>>, sep: Seq<char>, n: nat)
    requires
        byte_len(sep) == 1,
        1 <= n <= parts.len(),
    ensures
        byte_len(joined_prefix(parts, sep, n)) == parts_width(parts, n) + n - 1,
    decreases n,
{
    if n == 1 {
        assert(parts_width(parts, 0) == 0);
    } else {
        lemma_joined_width(parts, sep, (n - 1) as nat);
        lemma_width_adds(joined_prefix(parts, sep, (n - 1) as nat), sep);
        lemma_width_adds(joined_prefix(parts, sep, (n - 1) as nat) + sep, parts[n - 1]);
    }
}

/// The text that `std`'s `Debug` formatting gives for a list of strings with
/// these characters. It depends on nothing but the characters.
pub uninterp spec fn debug_list_text(items: Seq<Seq<char>>) -> Seq<char>;

/// Renders `items` through `<Vec<String> as std::fmt::Debug>::fmt`, as `{:?}` does.
///
/// Trusted: equal lists are rendered alike. Nothing is claimed of the text itself.
#[verifier::external_body]
pub(crate) fn debug_list(items: &Vec<String>) -> (text: String)
    ensures
        text@ == debug_list_text(items.deep_view()),
{
    format!("{:?}", items)
}

/// The number of bytes that `text` occupies.
pub fn width(text: &str) -> (bytes: usize)
    ensures
        bytes == byte_len(text@),
{
    text.as_bytes().len()
}

/// Whether `a` and `b` hold the same characters.
pub fn same_text(a: &str, b: &str) -> (same: bool)
    ensures
        same == (a@ == b@),
{
    let left = a.as_bytes();
    let right = b.as_bytes();
    proof {
        // Equal encodings decode to equal texts.
        encode_utf8_decode_utf8(a@);
        encode_utf8_decode_utf8(b@);
    }
    if left.len() != right.len() {
        return false;
    }
    let mut i: usize = 0;
    while i < left.len()
        invariant
            i <= left.len(),
            left.len() == right.len(),
            left@ == encode_utf8(a@),
            right@ == encode_utf8(b@),
            decode_utf8(encode_utf8(a@)) == a@,
            decode_utf8(encode_utf8(b@)) == b@,
            forall|j: int| 0 <= j < i ==> left@[j] == right@[j],
        decreases left.len() - i,
    {
        if left[i] != right[i] {
            return false;
        }
        i += 1;
    }
    assert(left@ =~= right@);
    true
}

/// Joins `parts` with `sep` between each two neighbours.
pub fn join(parts: &Vec<String>, sep: &str) -> (out: String)
    ensures
        out@ == joined(parts.deep_view(), sep@),
{
    let mut out = String::new();
    let mut i: usize = 0;
    while i < parts.len()
        invariant
            i <= parts.len(),
            out@ == joined_prefix(parts.deep_view(), sep@, i as nat),
        decreases parts.len() - i,
    {
        if i > 0 {
            out.append(sep);
        }
        out.append(parts[i].as_str());
        i += 1;
    }
    out
}

/// A string of `n` spaces.
pub fn spaces(n: usize) -> (out: String)
    ensures
        out@ == blanks(n as nat),
{
    let mut out = String::new();
    let mut i: usize = 0;
    while i < n
        invariant
            i <= n,
            out@ == blanks(i as nat),
        decreases n - i,
    {
        proof {
            reveal_strlit(" ");
        }
        out.append(" ");
        i += 1;
    }
    out
}

} // verus!
