//! Escaping of markup-reserved characters in user-controlled text.
//!
//! Every user-supplied field (title, body, login, URL, ...) is passed
//! through [`clean_string`] exactly once before it is interpolated into a
//! message template, so that it renders as literal text in the MarkdownV2
//! dialect. The sanitized form of a text is pinned down by the spec
//! function [`sanitized`].

use vstd::prelude::*;
use vstd::string::*;

verus! {

/// The fixed set of characters the chat markup dialect reserves; each
/// occurrence in raw text must be escaped with a backslash.
pub open spec fn is_reserved(c: char) -> bool {
    c == '_' || c == '*' || c == '[' || c == ']' || c == '(' || c == ')' || c == '~' || c == '`'
        || c == '>' || c == '#' || c == '+' || c == '-' || c == '=' || c == '|' || c == '{'
        || c == '}' || c == '.' || c == '!'
}

/// What one character contributes to the sanitized text: reserved
/// characters gain a backslash prefix, all others pass through unchanged.
pub open spec fn escape_char(c: char) -> Seq<char> {
    if is_reserved(c) {
        seq!['\\', c]
    } else {
        seq![c]
    }
}

/// The sanitized form of a text: each character's escape, in order.
pub open spec fn sanitized(s: Seq<char>) -> Seq<char>
    decreases s.len(),
{
    if s.len() == 0 {
        Seq::empty()
    } else {
        escape_char(s[0]) + sanitized(s.skip(1))
    }
}

/// How many characters of `s` are reserved.
pub open spec fn reserved_count(s: Seq<char>) -> int
    decreases s.len(),
{
    if s.len() == 0 {
        0
    } else {
        (if is_reserved(s[0]) {
            1int
        } else {
            0int
        }) + reserved_count(s.skip(1))
    }
}

/// Sanitizing grows a text by one backslash per reserved character.
pub proof fn lemma_sanitized_len(s: Seq<char>)
    ensures
        0 <= reserved_count(s),
        sanitized(s).len() == s.len() + reserved_count(s),
    decreases s.len(),
{
    if s.len() > 0 {
        lemma_sanitized_len(s.skip(1));
    }
}

/// The sanitized form of a single character is its escape.
pub proof fn lemma_sanitized_singleton(c: char)
    ensures
        sanitized(seq![c]) == escape_char(c),
{
    assert(seq![c].skip(1) =~= Seq::<char>::empty());
    assert(sanitized(Seq::<char>::empty()) == Seq::<char>::empty());
    assert(sanitized(seq![c]) =~= escape_char(c));
}

/// Sanitizing distributes over concatenation.
pub proof fn lemma_sanitized_concat(a: Seq<char>, b: Seq<char>)
    ensures
        sanitized(a + b) == sanitized(a) + sanitized(b),
    decreases a.len(),
{
    if a.len() == 0 {
        assert(a + b =~= b);
        assert(sanitized(a) + sanitized(b) =~= sanitized(b));
    } else {
        assert((a + b).skip(1) =~= a.skip(1) + b);
        lemma_sanitized_concat(a.skip(1), b);
        assert(escape_char(a[0]) + (sanitized(a.skip(1)) + sanitized(b)) =~= (escape_char(a[0])
            + sanitized(a.skip(1))) + sanitized(b));
        assert((a + b)[0] == a[0]);
    }
}

/// Where character `i` of the raw text starts in the sanitized text.
pub open spec fn sanitized_pos(s: Seq<char>, i: int) -> int {
    i + reserved_count(s.take(i))
}

/// Law: sanitizing a text escapes exactly the reserved characters. At the
/// position where character `i` lands, a reserved character appears as a
/// backslash followed by the character itself, and any other character
/// appears unaltered.
pub proof fn lemma_sanitize_positions(s: Seq<char>, i: int)
    requires
        0 <= i < s.len(),
    ensures
        sanitized(s).len() == s.len() + reserved_count(s),
        is_reserved(s[i]) ==> sanitized(s)[sanitized_pos(s, i)] == '\\' && sanitized(s)[sanitized_pos(
            s,
            i,
        ) + 1] == s[i],
        !is_reserved(s[i]) ==> sanitized(s)[sanitized_pos(s, i)] == s[i],
{
    lemma_sanitized_len(s);
    let front = s.take(i);
    let rest = s.skip(i + 1);
    assert(s =~= front + (seq![s[i]] + rest));
    lemma_sanitized_concat(front, seq![s[i]] + rest);
    lemma_sanitized_concat(seq![s[i]], rest);
    lemma_sanitized_len(front);
    lemma_sanitized_singleton(s[i]);
    assert(sanitized(s) == sanitized(front) + (escape_char(s[i]) + sanitized(rest)));
    assert(sanitized(front).len() == sanitized_pos(s, i));
}

/// Executable test for membership in the reserved set.
fn is_reserved_char(c: char) -> (r: bool)
    ensures
        r == is_reserved(c),
{
    c == '_' || c == '*' || c == '[' || c == ']' || c == '(' || c == ')' || c == '~' || c == '`'
        || c == '>' || c == '#' || c == '+' || c == '-' || c == '=' || c == '|' || c == '{'
        || c == '}' || c == '.' || c == '!'
}

/// Escapes every reserved character of `s` with a backslash.
pub fn clean_string(s: &str) -> (r: String)
    ensures
        r@ == sanitized(s@),
{
    let len: usize = s.unicode_len();
    let mut out = String::new();
    let mut i: usize = 0;
    while i < len
        invariant
            i <= len,
            len == s@.len(),
            out@ == sanitized(s@.take(i as int)),
        decreases len - i,
    {
        let c = s.get_char(i);
        if is_reserved_char(c) {
            out.append("\\");
        }
        let piece = s.substring_char(i, i + 1);
        out.append(piece);
        proof {
            reveal_strlit("\\");
            assert(piece@ =~= seq![s@[i as int]]);
            assert(s@.take(i + 1) =~= s@.take(i as int) + seq![s@[i as int]]);
            lemma_sanitized_concat(s@.take(i as int), seq![s@[i as int]]);
            lemma_sanitized_singleton(s@[i as int]);
            assert(out@ =~= sanitized(s@.take(i as int)) + escape_char(s@[i as int]));
        }
        i = i + 1;
    }
    proof {
        assert(s@.take(len as int) =~= s@);
    }
    out
}

} // verus!
