//! JSON string literals.
use vstd::prelude::*;

verus! {

/// `serde_json::Error`: why a value could not be written as JSON.
#[verifier::external_type_specification]
#[verifier::external_body]
pub struct ExJsonError(serde_json::Error);

/// The lower-case hexadecimal digit that stands for `d`.
pub open spec fn hex_digit(d: int) -> char {
    if d < 10 {
        ('0' as int + d) as char
    } else {
        ('a' as int + d - 10) as char
    }
}

/// How one character is written inside a JSON string: quotes, backslashes and control characters
/// are escaped, and everything else stands for itself.
pub open spec fn escaped(c: char) -> Seq<char> {
    if c == '"' {
        seq!['\\', '"']
    } else if c == '\\' {
        seq!['\\', '\\']
    } else if c == '\u{8}' {
        seq!['\\', 'b']
    } else if c == '\u{c}' {
        seq!['\\', 'f']
    } else if c == '\n' {
        seq!['\\', 'n']
    } else if c == '\r' {
        seq!['\\', 'r']
    } else if c == '\t' {
        seq!['\\', 't']
    } else if 0x20 > c as int {
        seq!['\\', 'u', '0', '0', hex_digit(c as int / 16), hex_digit(c as int % 16)]
    } else {
        seq![c]
    }
}

/// How the characters of `s` are written inside a JSON string.
pub open spec fn escaped_all(s: Seq<char>) -> Seq<char>
    decreases s.len(),
{
    if s.len() == 0 {
        Seq::empty()
    } else {
        escaped(s[0]) + escaped_all(s.drop_first())
    }
}

/// The JSON string literal for `s`.
pub open spec fn json_string(s: Seq<char>) -> Seq<char> {
    seq!['"'] + (escaped_all(s) + seq!['"'])
}

/// Writes `s` as a JSON string literal with `serde_json::to_string`, which quotes it, escapes
/// quotes, backslashes and control characters, copies every other character, and does not fail
/// on a text.
#[verifier::external_body]
fn to_json(s: &str) -> (r: Result<String, serde_json::Error>)
    ensures
        r is Ok,
        r->Ok_0@ == json_string(s@),
{
    serde_json::to_string(s)
}

/// The JSON string literal for `s`.
pub fn json_text(s: &str) -> (r: String)
    ensures
        r@ == json_string(s@),
{
    to_json(s).unwrap()
}

/// Taking a common beginning off two equal texts leaves equal texts.
pub proof fn lemma_cut(p: Seq<char>, x: Seq<char>, y: Seq<char>)
    requires
        p + x == p + y,
    ensures
        x == y,
{
    assert((p + x).skip(p.len() as int) =~= x);
    assert((p + y).skip(p.len() as int) =~= y);
}

/// No escape is the beginning of another character's escape, and none begins with a quote.
proof fn lemma_escaped_apart(a: char, b: char, x: Seq<char>, y: Seq<char>)
    requires
        escaped(a) + x == escaped(b) + y,
    ensures
        a == b,
        x == y,
{
    let l = escaped(a) + x;
    let r = escaped(b) + y;
    assert(l[0] == escaped(a)[0]);
    assert(r[0] == escaped(b)[0]);
    if escaped(a).len() > 1 {
        assert(l[1] == escaped(a)[1]);
    }
    if escaped(b).len() > 1 {
        assert(r[1] == escaped(b)[1]);
    }
    if escaped(a).len() == 6 && escaped(b).len() == 6 {
        assert(l[4] == escaped(a)[4] && l[5] == escaped(a)[5]);
        assert(r[4] == escaped(b)[4] && r[5] == escaped(b)[5]);
    }
    assert(a == b);
    lemma_cut(escaped(a), x, y);
}

/// An escaped text that is followed by a quote can be read back in one way only.
proof fn lemma_escaped_all_apart(a: Seq<char>, b: Seq<char>, x: Seq<char>, y: Seq<char>)
    requires
        escaped_all(a) + (seq!['"'] + x) == escaped_all(b) + (seq!['"'] + y),
    ensures
        a == b,
        x == y,
    decreases a.len(),
{
    let l = escaped_all(a) + (seq!['"'] + x);
    let r = escaped_all(b) + (seq!['"'] + y);
    if a.len() == 0 && b.len() == 0 {
        assert(l =~= seq!['"'] + x);
        assert(r =~= seq!['"'] + y);
        lemma_cut(seq!['"'], x, y);
        assert(a =~= b);
    } else if a.len() == 0 {
        assert(l[0] == '"');
        assert(r[0] == escaped(b[0])[0]);
    } else if b.len() == 0 {
        assert(r[0] == '"');
        assert(l[0] == escaped(a[0])[0]);
    } else {
        let ta = escaped_all(a.drop_first()) + (seq!['"'] + x);
        let tb = escaped_all(b.drop_first()) + (seq!['"'] + y);
        assert(l =~= escaped(a[0]) + ta);
        assert(r =~= escaped(b[0]) + tb);
        lemma_escaped_apart(a[0], b[0], ta, tb);
        lemma_escaped_all_apart(a.drop_first(), b.drop_first(), x, y);
        assert(a =~= seq![a[0]] + a.drop_first());
        assert(b =~= seq![b[0]] + b.drop_first());
    }
}

/// A JSON string literal ends where its text ends: whatever follows, it can be read back in one
/// way only.
pub proof fn law_json_string_reads_back(a: Seq<char>, b: Seq<char>, x: Seq<char>, y: Seq<char>)
    requires
        json_string(a) + x == json_string(b) + y,
    ensures
        a == b,
        x == y,
{
    let q = seq!['"'];
    assert(json_string(a) + x =~= q + (escaped_all(a) + (q + x)));
    assert(json_string(b) + y =~= q + (escaped_all(b) + (q + y)));
    lemma_cut(q, escaped_all(a) + (q + x), escaped_all(b) + (q + y));
    lemma_escaped_all_apart(a, b, x, y);
}

} // verus!
