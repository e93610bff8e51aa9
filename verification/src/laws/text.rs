//! Laws of the text helpers.
use vstd::prelude::*;
use crate::json;
use crate::json::json_text;
use crate::span::Span;
use crate::text;
use crate::text::{
    chars_of, contains_char, contains_text, decimal_text, is_white_space, join_path, last_position,
    parse_u16, same_text, split, trim,
};

verus! {

/// Whether `s` is white space throughout.
pub open spec fn blank(s: Seq<char>) -> bool {
    forall|i: int| 0 <= i < s.len() ==> text::white_space(#[trigger] s[i])
}

/// Whether `s` is a text that neither begins nor ends in white space.
pub open spec fn bare(s: Seq<char>) -> bool {
    s.len() > 0 && !text::white_space(s[0]) && !text::white_space(s.last())
}

proof fn lemma_trim_exists(s: Seq<char>) -> (r: (int, int))
    ensures
        text::trim_bounds(s, r.0, r.1),
    decreases s.len(),
{
    if s.len() == 0 {
        (0, 0)
    } else if text::white_space(s.last()) {
        let d = s.drop_last();
        let (f, t) = lemma_trim_exists(d);
        assert forall|i: int| 0 <= i < f implies text::white_space(#[trigger] s[i]) by {
            assert(d[i] == s[i]);
        }
        assert forall|i: int| t <= i < s.len() implies text::white_space(#[trigger] s[i]) by {
            if i < d.len() {
                assert(d[i] == s[i]);
            }
        }
        (f, t)
    } else if text::white_space(s[0]) {
        let d = s.drop_first();
        let (f, t) = lemma_trim_exists(d);
        assert forall|i: int| 0 <= i < f + 1 implies text::white_space(#[trigger] s[i]) by {
            if i > 0 {
                assert(d[i - 1] == s[i]);
            }
        }
        assert forall|i: int| t + 1 <= i < s.len() implies text::white_space(#[trigger] s[i]) by {
            assert(d[i - 1] == s[i]);
        }
        (f + 1, t + 1)
    } else {
        (0, s.len() as int)
    }
}

/// What is left of a text that is trimmed of the white space around `bare` text.
pub proof fn lemma_trimmed(before: Seq<char>, kept: Seq<char>, after: Seq<char>)
    requires
        blank(before),
        bare(kept),
        blank(after),
    ensures
        text::trimmed(before + kept + after) == kept,
{
    let s = before + kept + after;
    let f = before.len() as int;
    let t = f + kept.len();
    assert forall|i: int| 0 <= i < f implies text::white_space(#[trigger] s[i]) by {
        assert(s[i] == before[i]);
    }
    assert forall|i: int| t <= i < s.len() implies text::white_space(#[trigger] s[i]) by {
        assert(s[i] == after[i - t]);
    }
    assert(s[f] == kept[0]);
    assert(s[t - 1] == kept.last());
    text::lemma_trim_unique(s, f, t);
    assert(s.subrange(f, t) =~= kept);
}

/// What is left of white space is nothing.
pub proof fn lemma_trimmed_blank(s: Seq<char>)
    requires
        blank(s),
    ensures
        text::trimmed(s).len() == 0,
{
    text::lemma_trim_unique(s, s.len() as int, s.len() as int);
}

/// Trimming takes off white space, all of it, and nothing else: the text is the trimmed one with
/// white space before and after it, and the trimmed one neither begins nor ends in any.
pub proof fn law_trim_takes_off_white_space_only(s: &str, r: &str) -> (cut: (Seq<char>, Seq<char>))
    requires
        call_ensures(trim, (s,), r),
    ensures
        s@ == cut.0 + r@ + cut.1,
        blank(cut.0),
        blank(cut.1),
        r@.len() == 0 || bare(r@),
{
    let (f, t) = lemma_trim_exists(s@);
    text::lemma_trim_unique(s@, f, t);
    lemma_trim_parts(s@, f, t);
    (s@.take(f), s@.skip(t))
}

proof fn lemma_trim_parts(s: Seq<char>, f: int, t: int)
    requires
        text::trim_bounds(s, f, t),
    ensures
        s == s.take(f) + s.subrange(f, t) + s.skip(t),
        blank(s.take(f)),
        blank(s.skip(t)),
        f == t || bare(s.subrange(f, t)),
{
    assert(s =~= s.take(f) + s.subrange(f, t) + s.skip(t));
    let before = s.take(f);
    let after = s.skip(t);
    assert forall|i: int| 0 <= i < before.len() implies text::white_space(#[trigger] before[i]) by {
        assert(before[i] == s[i]);
    }
    assert forall|i: int| 0 <= i < after.len() implies text::white_space(#[trigger] after[i]) by {
        assert(after[i] == s[t + i]);
    }
    if f < t {
        assert(s.subrange(f, t)[0] == s[f]);
        assert(s.subrange(f, t).last() == s[t - 1]);
    }
}

/// A text contains another exactly where it is that other with something before and after it.
pub proof fn law_contains_text_finds_every_place(
    hay: &str,
    needle: &str,
    r: bool,
    before: Seq<char>,
    after: Seq<char>,
)
    requires
        call_ensures(contains_text, (hay, needle), r),
    ensures
        hay@ == before + needle@ + after ==> r,
        r ==> exists|a: Seq<char>, b: Seq<char>| hay@ == #[trigger] (a + needle@ + b),
{
    if hay@ == before + needle@ + after {
        let at = before.len() as int;
        assert(hay@.subrange(at, at + needle@.len()) =~= needle@);
        assert(text::occurs_at(hay@, needle@, at));
    }
    if r {
        let at = choose|at: int| text::occurs_at(hay@, needle@, at);
        let a = hay@.take(at);
        let b = hay@.skip(at + needle@.len());
        assert(hay@ =~= a + needle@ + b);
    }
}

/// What each of the strings holds.
pub open spec fn views(v: Seq<String>) -> Seq<Seq<char>> {
    Seq::new(v.len(), |i: int| v[i]@)
}

/// Texts with `c` between each two of them.
pub open spec fn glued(pieces: Seq<Seq<char>>, c: char) -> Seq<char>
    decreases pieces.len(),
{
    if pieces.len() == 0 {
        Seq::empty()
    } else if pieces.len() == 1 {
        pieces[0]
    } else {
        glued(pieces.drop_last(), c).push(c) + pieces.last()
    }
}

proof fn lemma_split(s: Seq<char>, c: char)
    ensures
        text::split_on(s, c).len() > 0,
        glued(text::split_on(s, c), c) == s,
        forall|i: int|
            0 <= i < text::split_on(s, c).len() ==> !(#[trigger] text::split_on(s, c)[i]).contains(
                c,
            ),
    decreases s.len(),
{
    let all = text::split_on(s, c);
    if s.len() == 0 {
        assert(all[0] =~= s);
    } else {
        let d = s.drop_last();
        let before = text::split_on(d, c);
        lemma_split(d, c);
        if s.last() == c {
            assert(all.drop_last() =~= before);
            assert(glued(all, c) =~= s);
        } else {
            assert(all.drop_last() =~= before.drop_last());
            assert forall|i: int| 0 <= i < all.len() implies !(#[trigger] all[i]).contains(c) by {
                if i < all.len() - 1 {
                    assert(all[i] == before[i]);
                } else {
                    let piece = before[before.len() - 1];
                    assert(!piece.contains(c));
                    assert(all[i] == piece.push(s.last()));
                    if all[i].contains(c) {
                        let k = all[i].index_of(c);
                        assert(piece[k] == c);
                    }
                }
            }
            let x = s.last();
            assert(all.last() == before.last().push(x));
            if all.len() == 1 {
                assert(all[0] =~= d.push(x));
            } else {
                let rest = glued(before.drop_last(), c).push(c);
                assert(d == rest + before.last());
                assert(rest + before.last().push(x) =~= (rest + before.last()).push(x));
            }
            assert(d.push(x) =~= s);
        }
    }
}

/// Splitting loses nothing and leaves nothing unsplit: no piece holds the separator, and the
/// pieces with the separator between them are the text.
pub proof fn law_split_can_be_glued_again(s: &str, c: char, r: Vec<String>)
    requires
        call_ensures(split, (s, c), r),
    ensures
        r@.len() > 0,
        glued(views(r@), c) == s@,
        forall|i: int| 0 <= i < r@.len() ==> !(#[trigger] r@[i])@.contains(c),
{
    lemma_split(s@, c);
    assert(text::texts(r@) =~= views(r@));
    assert forall|i: int| 0 <= i < r@.len() implies !(#[trigger] r@[i])@.contains(c) by {
        assert(text::texts(r@)[i] == r@[i]@);
    }
}

/// One more piece at the end of a text is one more piece of its split.
pub proof fn lemma_split_push(s: Seq<char>, c: char, piece: Seq<char>)
    requires
        !piece.contains(c),
    ensures
        text::split_on(s.push(c) + piece, c) == text::split_on(s, c).push(piece),
    decreases piece.len(),
{
    let whole = s.push(c) + piece;
    if piece.len() == 0 {
        assert(whole =~= s.push(c));
        assert(s.push(c).drop_last() =~= s);
        assert(piece =~= Seq::<char>::empty());
    } else {
        let shorter = piece.drop_last();
        assert(!shorter.contains(c)) by {
            if shorter.contains(c) {
                let k = shorter.index_of(c);
                assert(piece[k] == c);
            }
        }
        assert(piece.last() != c) by {
            assert(piece[piece.len() - 1] == piece.last());
        }
        lemma_split_push(s, c, shorter);
        assert(whole.drop_last() =~= s.push(c) + shorter);
        let before = text::split_on(s, c).push(shorter);
        assert(before.drop_last() =~= text::split_on(s, c));
        assert(shorter.push(piece.last()) =~= piece);
    }
}

/// A text without the separator is one piece.
pub proof fn lemma_split_whole(s: Seq<char>, c: char)
    requires
        !s.contains(c),
    ensures
        text::split_on(s, c) == seq![s],
    decreases s.len(),
{
    if s.len() > 0 {
        let d = s.drop_last();
        assert(!d.contains(c)) by {
            if d.contains(c) {
                let k = d.index_of(c);
                assert(s[k] == c);
            }
        }
        assert(s[s.len() - 1] == s.last());
        lemma_split_whole(d, c);
        assert(d.push(s.last()) =~= s);
        assert(text::split_on(s, c) =~= seq![s]);
    } else {
        assert(s =~= Seq::<char>::empty());
        assert(text::split_on(s, c) =~= seq![s]);
    }
}

/// Decimal is positional: a number below ten is one digit, and ten times a number plus a digit is
/// that number's numeral with the digit behind it.
pub proof fn law_decimal_is_positional(m: u64, d: u64, n: u64, q: String, r: String)
    requires
        call_ensures(decimal_text, (m,), q),
        call_ensures(decimal_text, (n,), r),
        d < 10,
        n == 10 * m + d,
    ensures
        m == 0 ==> r@ == seq![('0' as u32 + d) as char],
        m > 0 ==> r@ == q@.push(('0' as u32 + d) as char),
{
    assert(n / 10 == m && n % 10 == d);
}

/// The 16-bit number that the digit `c` adds behind `v`, where there is one.
pub open spec fn digit_behind(v: nat, c: char) -> Option<u16> {
    if '0' <= c <= '9' && 10 * v + (c as nat - '0' as nat) <= 65535 {
        Some((10 * v + (c as nat - '0' as nat)) as u16)
    } else {
        None
    }
}

/// Reading a number is positional too: one character is read as the digit it is, with or without a
/// plus sign before it, and one more character behind a number multiplies it by ten and adds the
/// digit; anything else, and anything above 65535, is no number.
pub proof fn law_ports_are_read_digit_by_digit(
    s: &str,
    c: char,
    t: &str,
    before: Option<u16>,
    r: Option<u16>,
)
    requires
        call_ensures(parse_u16, (s,), before),
        call_ensures(parse_u16, (t,), r),
        t@ == s@.push(c),
    ensures
        s@.len() == 0 ==> before is None,
        s@.len() == 0 && c != '+' ==> r == digit_behind(0, c),
        s@ == seq!['+'] ==> before is None && r == digit_behind(0, c),
        s@.len() > 0 && s@ != seq!['+'] ==> r == match before {
            Some(v) => digit_behind(v as nat, c),
            None => None,
        },
{
    let a = text::without_plus(s@);
    let b = text::without_plus(t@);
    reveal_with_fuel(text::numeral_value, 2);
    if s@.len() > 0 {
        assert(t@[0] == s@[0]);
        assert(b =~= a.push(c));
    } else {
        assert(t@[0] == c);
        if c != '+' {
            assert(b =~= a.push(c));
        }
    }
    if b == a.push(c) {
        assert(b.drop_last() =~= a);
        assert(b.last() == c);
        assert(b[b.len() - 1] == c);
        assert(text::numeral(b) <==> (a.len() == 0 || text::numeral(a)) && '0' <= c <= '9') by {
            if text::numeral(b) {
                assert forall|i: int| 0 <= i < a.len() implies text::is_digit(#[trigger] a[i]) by {
                    assert(b[i] == a[i]);
                }
            }
            if (a.len() == 0 || text::numeral(a)) && '0' <= c <= '9' {
                assert forall|i: int| 0 <= i < b.len() implies text::is_digit(#[trigger] b[i]) by {
                    if i < a.len() {
                        assert(b[i] == a[i]);
                    }
                }
            }
        }
        if a.len() == 0 {
            assert(a =~= Seq::<char>::empty());
            assert(text::numeral_value(a) == 0);
            if s@.len() > 0 {
                assert(s@ =~= seq!['+']);
            }
        }
    }
}

/// Every 16-bit number is read back from its numeral.
pub proof fn law_every_port_is_read_back(n: u16, s: &str, r: Option<u16>)
    requires
        call_ensures(parse_u16, (s,), r),
        s@ == text::decimal(n as nat),
    ensures
        r == Some(n),
{
    text::law_decimal_reads_back(n as nat);
    assert(text::is_digit(s@[0]));
    assert(text::without_plus(s@) == s@);
}

/// A joined path begins with the whole directory and ends with the whole name; between them is
/// nothing where the directory is empty or ends in a slash, and else one slash.
pub proof fn law_join_keeps_both_parts(dir: &str, name: &str, r: String)
    requires
        call_ensures(join_path, (dir, name), r),
    ensures
        dir@.is_prefix_of(r@),
        name@.is_suffix_of(r@),
        dir@.len() == 0 || dir@.last() == '/' ==> r@.len() == dir@.len() + name@.len(),
        dir@.len() > 0 && dir@.last() != '/' ==> r@.len() == dir@.len() + 1 + name@.len()
            && r@[dir@.len() as int] == '/',
{
}

proof fn lemma_plain_is_copied(s: Seq<char>)
    requires
        forall|i: int| 0 <= i < s.len() ==> plain(#[trigger] s[i]),
    ensures
        json::escaped_all(s) == s,
    decreases s.len(),
{
    if s.len() > 0 {
        let d = s.drop_first();
        assert forall|i: int| 0 <= i < d.len() implies plain(#[trigger] d[i]) by {
            assert(d[i] == s[i + 1]);
        }
        lemma_plain_is_copied(d);
        assert(plain(s[0]));
        assert(json::escaped(s[0]) + d =~= s);
    } else {
        assert(json::escaped_all(s) =~= s);
    }
}

/// Whether JSON lets `c` stand for itself in a string.
pub open spec fn plain(c: char) -> bool {
    c != '"' && c != '\\' && !(0x20 > c as int)
}

/// A JSON text is quoted, copies what needs no escape, and is never the same for two texts.
pub proof fn law_json_text_is_quoted_and_faithful(a: &str, b: &str, x: String, y: String)
    requires
        call_ensures(json_text, (a,), x),
        call_ensures(json_text, (b,), y),
    ensures
        x@.len() >= 2 + a@.len(),
        x@[0] == '"',
        x@.last() == '"',
        (forall|i: int| 0 <= i < a@.len() ==> plain(#[trigger] a@[i])) ==> x@ == seq!['"'] + a@
            + seq!['"'],
        x@ == y@ ==> a@ == b@,
{
    lemma_escaped_len(a@);
    if forall|i: int| 0 <= i < a@.len() ==> plain(#[trigger] a@[i]) {
        lemma_plain_is_copied(a@);
        assert(x@ =~= seq!['"'] + a@ + seq!['"']);
    }
    if x@ == y@ {
        let none = Seq::<char>::empty();
        assert(x@ + none =~= y@ + none);
        json::law_json_string_reads_back(a@, b@, none, none);
    }
}

proof fn lemma_escaped_len(s: Seq<char>)
    ensures
        json::escaped_all(s).len() >= s.len(),
    decreases s.len(),
{
    if s.len() > 0 {
        lemma_escaped_len(s.drop_first());
    }
}

/// Lengths of time count whole nanoseconds: a second has a milliard of them and a millisecond a
/// million, and the seconds and the rest of a length make it up again.
pub proof fn law_spans_count_nanoseconds(
    secs: u64,
    a: Span,
    millis: u64,
    b: Span,
    whole: Span,
    s: u64,
    rest: u32,
)
    requires
        call_ensures(Span::from_secs, (secs,), a),
        call_ensures(Span::from_millis, (millis,), b),
        whole.nanos <= 18_446_744_073_709_551_615_999_999_999,
        call_ensures(Span::as_secs, (&whole,), s),
        call_ensures(Span::subsec_nanos, (&whole,), rest),
    ensures
        a.nanos == secs * 1_000_000_000,
        b.nanos == millis * 1_000_000,
        whole.nanos == s * 1_000_000_000 + rest,
        rest < 1_000_000_000,
{
}

/// White space is what Unicode says it is: the five controls from tab to carriage return, the
/// space, the next-line control, the no-break space, and the spaces and separators of the other
/// blocks; and no other character is.
pub proof fn law_white_space_is_unicodes(c: char, r: bool)
    requires
        call_ensures(is_white_space, (c,), r),
    ensures
        0x9 <= c as int <= 0xd || c as int == 0x20 || c as int == 0x85 || c as int == 0xa0 ==> r,
        0x2000 <= c as int <= 0x200a || c as int == 0x1680 || c as int == 0x3000 ==> r,
        c as int == 0x2028 || c as int == 0x2029 || c as int == 0x202f || c as int == 0x205f ==> r,
        r ==> 0x9 <= c as int <= 0xd || c as int == 0x20 || c as int == 0x85 || c as int == 0xa0
            || c as int == 0x1680 || 0x2000 <= c as int <= 0x200a || c as int == 0x2028 || c as int
            == 0x2029 || c as int == 0x202f || c as int == 0x205f || c as int == 0x3000,
{
}

/// Texts are compared and searched character by character, and the last place of a character is
/// the last.
pub proof fn law_texts_are_compared_and_searched_exactly(
    a: &str,
    b: &str,
    c: char,
    chars: Vec<char>,
    same: bool,
    held: bool,
    at: Option<usize>,
    k: int,
)
    requires
        call_ensures(chars_of, (a,), chars),
        call_ensures(same_text, (a, b), same),
        call_ensures(contains_char, (a, c), held),
        call_ensures(last_position, (a, c), at),
        0 <= k < a@.len(),
    ensures
        chars@.len() == a@.len(),
        chars@[k] == a@[k],
        same ==> a@.len() == b@.len() && a@[k] == b@[k],
        a@ == b@ ==> same,
        a@[k] == c ==> held && at is Some && at->0 >= k,
        held <==> at is Some,
        at is Some ==> at->0 < a@.len() && a@[at->0 as int] == c,
{
    if held {
        let i = a@.index_of(c);
        assert(a@[i] == c);
    }
    if at is Some {
        assert(a@.contains(a@[at->0 as int]));
    }
}

} // verus!
