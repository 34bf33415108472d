//! Plain text: trimming, lines, joining and decimal numerals.

use vstd::prelude::*;

verus! {

/// `String::push`: the character is appended at the end and nothing else changes.
pub assume_specification[ String::push ](s: &mut String, c: char)
    ensures
        final(s)@ == old(s)@.push(c),
;

/// The characters with the Unicode property `White_Space`.
pub open spec fn white_space(c: char) -> bool {
    ||| '\u{9}' <= c <= '\u{d}'
    ||| c == ' '
    ||| c == '\u{85}'
    ||| c == '\u{a0}'
    ||| c == '\u{1680}'
    ||| '\u{2000}' <= c <= '\u{200a}'
    ||| c == '\u{2028}'
    ||| c == '\u{2029}'
    ||| c == '\u{202f}'
    ||| c == '\u{205f}'
    ||| c == '\u{3000}'
}

/// `s` without the white space at its end.
pub open spec fn trim_end(s: Seq<char>) -> Seq<char>
    decreases s.len(),
{
    if s.len() > 0 && white_space(s.last()) {
        trim_end(s.drop_last())
    } else {
        s
    }
}

/// `s` without the white space at either end.
pub open spec fn trim(s: Seq<char>) -> Seq<char>
    decreases s.len(),
{
    if s.len() > 0 && white_space(s[0]) {
        trim(s.drop_first())
    } else {
        trim_end(s)
    }
}

/// `s` without the run of `c` at its end.
pub open spec fn trim_end_matches(s: Seq<char>, c: char) -> Seq<char>
    decreases s.len(),
{
    if s.len() > 0 && s.last() == c {
        trim_end_matches(s.drop_last(), c)
    } else {
        s
    }
}

/// The position of the first `c` in `s`, or the length of `s` when it holds none.
pub open spec fn first_of<T>(s: Seq<T>, c: T) -> nat
    decreases s.len(),
{
    if s.len() == 0 || s[0] == c {
        0
    } else {
        1 + first_of(s.drop_first(), c)
    }
}

/// `s` without one carriage return at its end.
pub open spec fn strip_return(s: Seq<char>) -> Seq<char> {
    if s.len() > 0 && s.last() == '\r' {
        s.drop_last()
    } else {
        s
    }
}

/// The lines of `s`: each ends at a line feed, which is dropped together with
/// a carriage return right before it; what follows the last line feed is a
/// line of its own unless it is empty.
pub open spec fn lines(s: Seq<char>) -> Seq<Seq<char>>
    decreases s.len(),
{
    let end = first_of(s, '\n') as int;
    if s.len() == 0 {
        seq![]
    } else if end >= s.len() {
        seq![s]
    } else {
        seq![strip_return(s.take(end))] + lines(s.skip(end + 1))
    }
}

/// The parts in order, with `separator` between neighbours.
pub open spec fn join(parts: Seq<Seq<char>>, separator: Seq<char>) -> Seq<char>
    decreases parts.len(),
{
    if parts.len() == 0 {
        seq![]
    } else if parts.len() == 1 {
        parts[0]
    } else {
        join(parts.drop_last(), separator) + separator + parts.last()
    }
}

/// The decimal digit for `d`.
pub open spec fn digit(d: nat) -> char {
    ('0' as u32 + d) as char
}

/// The decimal numeral of `n`, without leading zeros.
pub open spec fn decimal(n: nat) -> Seq<char>
    decreases n,
{
    if n < 10 {
        seq![digit(n)]
    } else {
        decimal(n / 10).push(digit(n % 10))
    }
}

/// `s` with zeros in front, up to `width` characters; unchanged when it is that long.
pub open spec fn zero_padded(s: Seq<char>, width: nat) -> Seq<char> {
    if s.len() >= width {
        s
    } else {
        Seq::new((width - s.len()) as nat, |i: int| '0') + s
    }
}

/// Whether `a` comes before `b`: at the first place where they differ its
/// character is the smaller one, or it ends there.
pub open spec fn before(a: Seq<char>, b: Seq<char>) -> bool
    decreases a.len(),
{
    if b.len() == 0 {
        false
    } else if a.len() == 0 {
        true
    } else if a[0] == b[0] {
        before(a.drop_first(), b.drop_first())
    } else {
        a[0] < b[0]
    }
}

/// The text in an optional string.
pub open spec fn opt(s: Option<String>) -> Option<Seq<char>> {
    match s {
        Some(s) => Some(s@),
        None => None,
    }
}

/// The texts of a sequence of strings.
pub open spec fn texts(s: Seq<String>) -> Seq<Seq<char>> {
    s.map_values(|t: String| t@)
}

pub proof fn lemma_first_of<T>(s: Seq<T>, c: T)
    ensures
        first_of(s, c) <= s.len(),
        first_of(s, c) < s.len() ==> s[first_of(s, c) as int] == c,
        forall|i: int| 0 <= i < first_of(s, c) ==> s[i] != c,
    decreases s.len(),
{
    if s.len() > 0 && s[0] != c {
        let rest = s.drop_first();
        lemma_first_of(rest, c);
        assert forall|i: int| 0 <= i < first_of(s, c) implies s[i] != c by {
            if i > 0 {
                assert(rest[i - 1] == s[i]);
            }
        }
        if first_of(s, c) < s.len() {
            assert(rest[first_of(rest, c) as int] == s[first_of(s, c) as int]);
        }
    }
}

/// A position that holds the first `c` is the one that [`first_of`] names.
pub proof fn lemma_first_of_is<T>(s: Seq<T>, c: T, at: int)
    requires
        0 <= at <= s.len(),
        at < s.len() ==> s[at] == c,
        forall|i: int| 0 <= i < at ==> s[i] != c,
    ensures
        first_of(s, c) == at,
{
    lemma_first_of(s, c);
}

/// No text comes before itself, and of two texts at most one before the other.
pub proof fn lemma_before_is_strict(a: Seq<char>, b: Seq<char>)
    ensures
        !before(a, a),
        before(a, b) ==> !before(b, a),
        before(a, b) ==> a != b,
    decreases a.len(),
{
    if a.len() > 0 && b.len() > 0 {
        lemma_before_is_strict(a.drop_first(), b.drop_first());
    } else if a.len() > 0 {
        lemma_before_is_strict(a.drop_first(), b);
    }
}

/// Texts of one length, with an order or else what follows them in order.
pub proof fn lemma_before_by_parts(a: Seq<char>, b: Seq<char>, s: Seq<char>, t: Seq<char>)
    requires
        a.len() == b.len(),
        before(a, b) || (a == b && before(s, t)),
    ensures
        before(a + s, b + t),
    decreases a.len(),
{
    if a.len() == 0 {
        assert(a + s =~= s);
        assert(b + t =~= t);
    } else {
        assert((a + s).drop_first() =~= a.drop_first() + s);
        assert((b + t).drop_first() =~= b.drop_first() + t);
        if a[0] == b[0] {
            lemma_before_by_parts(a.drop_first(), b.drop_first(), s, t);
        }
    }
}

/// The last line of a text whose last line is `b`.
pub proof fn lemma_last_line(a: Seq<char>, b: Seq<char>)
    requires
        b.len() > 0,
        !b.contains('\n'),
    ensures
        lines(b) == seq![b],
        lines(a + seq!['\n'] + b).len() > 0,
        lines(a + seq!['\n'] + b).last() == b,
    decreases a.len(),
{
    let s = a + seq!['\n'] + b;
    assert(forall|k: int| 0 <= k < b.len() ==> b[k] != '\n') by {
        assert forall|k: int| 0 <= k < b.len() implies b[k] != '\n' by {
            assert(b.contains(b[k]));
        }
    }
    lemma_first_of_is(b, '\n', b.len() as int);
    lemma_first_of(s, '\n');
    let end = first_of(s, '\n') as int;
    assert(s[a.len() as int] == '\n');
    assert(end <= a.len());
    if end == a.len() {
        assert(s.skip(end + 1) =~= b);
    } else {
        assert(s.skip(end + 1) =~= a.skip(end + 1) + seq!['\n'] + b);
        lemma_last_line(a.skip(end + 1), b);
    }
    assert(lines(s) == seq![strip_return(s.take(end))] + lines(s.skip(end + 1)));
    assert(lines(s).last() == lines(s.skip(end + 1)).last());
}

pub proof fn lemma_texts_push(strings: Seq<String>, s: String)
    ensures
        texts(strings.push(s)) == texts(strings).push(s@),
{
    assert(texts(strings.push(s)) =~= texts(strings).push(s@));
}

/// The characters of `s`.
pub fn chars_of(s: &str) -> (chars: Vec<char>)
    ensures
        chars@ == s@,
{
    let mut chars: Vec<char> = Vec::new();
    for c in it: s.chars()
        invariant
            it.seq() == s@,
            chars@ == s@.take(it.index()),
    {
        chars.push(c);
        proof {
            assert(s@.take(it.index() + 1) =~= s@.take(it.index()).push(c));
        }
    }
    assert(s@.take(s@.len() as int) =~= s@);
    chars
}

/// The text of a string as the `Debug` format of `str` shows it.
pub uninterp spec fn debug_text(s: Seq<char>) -> Seq<char>;

/// Formats `s` with `{:?}`. The result is a function of the characters of `s`
/// alone, named [`debug_text`]: the characters between double quotes, with
/// those escaped that the standard library escapes.
#[verifier::external_body]
pub(crate) fn quoted(s: &str) -> (shown: String)
    ensures
        shown@ == debug_text(s@),
{
    format!("{s:?}")
}

/// Whether the two texts are the same.
pub fn same(a: &str, b: &str) -> (equal: bool)
    ensures
        equal == (a@ == b@),
{
    a.to_owned() == b.to_owned()
}

/// Whether `c` has the Unicode property `White_Space`.
pub fn is_white_space(c: char) -> (yes: bool)
    ensures
        yes == white_space(c),
{
    ('\u{9}' <= c && c <= '\u{d}') || c == ' ' || c == '\u{85}' || c == '\u{a0}' || c == '\u{1680}'
        || ('\u{2000}' <= c && c <= '\u{200a}') || c == '\u{2028}' || c == '\u{2029}' || c
        == '\u{202f}' || c == '\u{205f}' || c == '\u{3000}'
}

/// `s` without the white space at its end.
pub fn trimmed_end(s: &str) -> (t: &str)
    ensures
        t@ == trim_end(s@),
{
    let chars = chars_of(s);
    let mut end: usize = chars.len();
    assert(s@.take(chars.len() as int) =~= s@);
    while end > 0 && is_white_space(chars[end - 1])
        invariant
            end <= chars.len(),
            chars@ == s@,
            trim_end(s@) == trim_end(s@.take(end as int)),
        decreases end,
    {
        assert(s@.take(end as int).drop_last() =~= s@.take(end - 1));
        end = end - 1;
    }
    assert(s@.subrange(0, end as int) =~= s@.take(end as int));
    s.substring_char(0, end)
}

/// `s` without the white space at either end.
pub fn trimmed(s: &str) -> (t: &str)
    ensures
        t@ == trim(s@),
{
    let chars = chars_of(s);
    let mut start: usize = 0;
    assert(s@.skip(0) =~= s@);
    while start < chars.len() && is_white_space(chars[start])
        invariant
            start <= chars.len(),
            chars@ == s@,
            trim(s@) == trim(s@.skip(start as int)),
        decreases chars.len() - start,
    {
        assert(s@.skip(start as int).drop_first() =~= s@.skip(start + 1));
        start = start + 1;
    }
    assert(s@.subrange(start as int, chars.len() as int) =~= s@.skip(start as int));
    trimmed_end(s.substring_char(start, chars.len()))
}

/// `s` without the run of `c` at its end.
pub fn trimmed_end_matches(s: &str, c: char) -> (t: &str)
    ensures
        t@ == trim_end_matches(s@, c),
{
    let chars = chars_of(s);
    let mut end: usize = chars.len();
    assert(s@.take(chars.len() as int) =~= s@);
    while end > 0 && chars[end - 1] == c
        invariant
            end <= chars.len(),
            chars@ == s@,
            trim_end_matches(s@, c) == trim_end_matches(s@.take(end as int), c),
        decreases end,
    {
        assert(s@.take(end as int).drop_last() =~= s@.take(end - 1));
        end = end - 1;
    }
    assert(s@.subrange(0, end as int) =~= s@.take(end as int));
    s.substring_char(0, end)
}

/// Whether nothing but white space stands in `s`.
pub fn is_blank(s: &str) -> (blank: bool)
    ensures
        blank == (trim(s@).len() == 0),
{
    trimmed(s).is_empty()
}

/// What follows `prefix` in `s`, when `s` starts with it.
pub fn strip_prefix<'a>(s: &'a str, prefix: &str) -> (rest: Option<&'a str>)
    ensures
        prefix@.is_prefix_of(s@) == rest is Some,
        rest matches Some(r) ==> s@ == prefix@ + r@,
{
    let n = prefix.unicode_len();
    let len = s.unicode_len();
    if n > len {
        return None;
    }
    let head = s.substring_char(0, n);
    assert(s@.take(n as int) =~= s@.subrange(0, n as int));
    if same(head, prefix) {
        let rest = s.substring_char(n, len);
        assert(s@ =~= prefix@ + rest@);
        Some(rest)
    } else {
        proof {
            if prefix@.is_prefix_of(s@) {
                assert(head@ =~= prefix@);
            }
        }
        None
    }
}

/// The numeral of `n` in base ten.
pub fn decimal_text(n: u64) -> (s: String)
    ensures
        s@ == decimal(n as nat),
    decreases n,
{
    let mut s: String = if n < 10 {
        String::new()
    } else {
        decimal_text(n / 10)
    };
    let d: u8 = (n % 10) as u8;
    let c: char = (48u8 + d) as char;
    s.push(c);
    s
}

/// The numeral of `n` in base ten, with zeros in front up to `width` characters.
pub fn padded_decimal_text(n: u64, width: usize) -> (s: String)
    ensures
        s@ == zero_padded(decimal(n as nat), width as nat),
{
    let digits = decimal_text(n);
    let len = digits.as_str().unicode_len();
    let mut s = String::new();
    let mut filled: usize = len;
    while filled < width
        invariant
            len <= filled,
            filled <= width || filled == len,
            s@ == Seq::new((filled - len) as nat, |i: int| '0'),
        decreases width - filled,
    {
        s.push('0');
        filled = filled + 1;
        assert(s@ =~= Seq::new((filled - len) as nat, |i: int| '0'));
    }
    s.append(digits.as_str());
    assert(s@ =~= zero_padded(decimal(n as nat), width as nat));
    s
}

/// `a` followed by `b`.
pub fn concat(a: &str, b: &str) -> (s: String)
    ensures
        s@ == a@ + b@,
{
    a.to_owned().concat(b)
}

/// The parts in order, with `separator` between neighbours.
pub fn joined(parts: &Vec<String>, separator: &str) -> (s: String)
    ensures
        s@ == join(texts(parts@), separator@),
{
    let mut s = String::new();
    for i in 0..parts.len()
        invariant
            s@ == join(texts(parts@).take(i as int), separator@),
    {
        let ghost done = texts(parts@).take(i as int);
        let ghost next = texts(parts@).take(i + 1);
        if i > 0 {
            s.append(separator);
        }
        s.append(parts[i].as_str());
        proof {
            assert(next.drop_last() =~= done);
            assert(next.last() == parts@[i as int]@);
            if i == 0 {
                assert(s@ =~= next[0]);
            }
        }
    }
    assert(texts(parts@).take(parts@.len() as int) =~= texts(parts@));
    s
}

/// The characters of `chars` from `from` up to `to`, as a string.
pub fn string_of(chars: &Vec<char>, from: usize, to: usize) -> (s: String)
    requires
        from <= to <= chars@.len(),
    ensures
        s@ == chars@.subrange(from as int, to as int),
{
    let mut s = String::new();
    let mut i: usize = from;
    while i < to
        invariant
            from <= i <= to <= chars@.len(),
            s@ == chars@.subrange(from as int, i as int),
        decreases to - i,
    {
        s.push(chars[i]);
        i = i + 1;
        assert(s@ =~= chars@.subrange(from as int, i as int));
    }
    s
}

/// The lines of `s`.
pub fn lines_of(s: &str) -> (found: Vec<String>)
    ensures
        texts(found@) == lines(s@),
{
    let chars = chars_of(s);
    let mut found: Vec<String> = Vec::new();
    let mut start: usize = 0;
    let mut i: usize = 0;
    proof {
        assert(s@.skip(0) =~= s@);
        assert(texts(found@) + lines(s@) =~= lines(s@));
    }
    while i < chars.len()
        invariant
            start <= i <= chars@.len(),
            chars@ == s@,
            forall|k: int| start <= k < i ==> s@[k] != '\n',
            lines(s@) == texts(found@) + lines(s@.skip(start as int)),
        decreases chars.len() - i,
    {
        if chars[i] == '\n' {
            let ghost rest = s@.skip(start as int);
            let ghost before = texts(found@);
            let end: usize = if i > start && chars[i - 1] == '\r' {
                i - 1
            } else {
                i
            };
            found.push(string_of(&chars, start, end));
            proof {
                lemma_first_of_is(rest, '\n', i - start);
                assert(rest.take(i - start) =~= s@.subrange(start as int, i as int));
                assert(strip_return(rest.take(i - start)) =~= s@.subrange(
                    start as int,
                    end as int,
                ));
                assert(rest.skip(i - start + 1) =~= s@.skip(i + 1));
                assert(texts(found@) =~= before.push(strip_return(rest.take(i - start))));
                assert(texts(found@) + lines(s@.skip(i + 1)) =~= before + lines(rest));
            }
            start = i + 1;
        }
        i = i + 1;
    }
    let ghost rest = s@.skip(start as int);
    let ghost before = texts(found@);
    if start < chars.len() {
        found.push(string_of(&chars, start, chars.len()));
        proof {
            lemma_first_of_is(rest, '\n', rest.len() as int);
            assert(rest =~= s@.subrange(start as int, chars@.len() as int));
            assert(texts(found@) =~= before + lines(rest));
        }
    } else {
        assert(before + lines(rest) =~= before);
    }
    found
}

/// White space, by code point.
pub proof fn law_white_space(c: char, yes: bool)
    requires
        call_ensures(is_white_space, (c,), yes),
    ensures
        yes == white_space(c),
        yes <==> {
            let n = c as u32;
            ||| 9 <= n <= 13
            ||| n == 32
            ||| n == 133
            ||| n == 160
            ||| n == 5760
            ||| 8192 <= n <= 8202
            ||| n == 8232
            ||| n == 8233
            ||| n == 8239
            ||| n == 8287
            ||| n == 12288
        },
{
}

/// Trimming takes off the white space at both ends and nothing else: what
/// stands between does not change, and white space inside it stays.
pub proof fn law_trim_keeps_what_stands_between(
    before: Seq<char>,
    kept: Seq<char>,
    after: Seq<char>,
)
    requires
        forall|i: int| 0 <= i < before.len() ==> white_space(#[trigger] before[i]),
        forall|i: int| 0 <= i < after.len() ==> white_space(#[trigger] after[i]),
        kept.len() > 0 ==> !white_space(kept[0]) && !white_space(kept.last()),
    ensures
        trim(before + kept + after) == kept,
    decreases before.len() + after.len(),
{
    let s = before + kept + after;
    if before.len() > 0 {
        assert(s[0] == before[0]);
        assert(s.drop_first() =~= before.drop_first() + kept + after);
        assert forall|i: int| 0 <= i < before.len() - 1 implies white_space(
            #[trigger] before.drop_first()[i],
        ) by {
            assert(before.drop_first()[i] == before[i + 1]);
        }
        law_trim_keeps_what_stands_between(before.drop_first(), kept, after);
    } else if kept.len() > 0 {
        assert(s[0] == kept[0]);
        lemma_trim_end_keeps(kept, after);
        assert(s =~= kept + after);
    } else {
        assert(s =~= after);
        if after.len() > 0 {
            let fewer = after.drop_first();
            assert forall|i: int| 0 <= i < fewer.len() implies white_space(#[trigger] fewer[i]) by {
                assert(fewer[i] == after[i + 1]);
            }
            law_trim_keeps_what_stands_between(before, kept, fewer);
            assert(before + kept + fewer =~= fewer);
        } else {
            assert(s =~= kept);
        }
    }
}

proof fn lemma_trim_end_keeps(kept: Seq<char>, after: Seq<char>)
    requires
        forall|i: int| 0 <= i < after.len() ==> white_space(#[trigger] after[i]),
        kept.len() > 0 ==> !white_space(kept.last()),
    ensures
        trim_end(kept + after) == kept,
    decreases after.len(),
{
    let s = kept + after;
    if after.len() > 0 {
        let fewer = after.drop_last();
        assert(s.last() == after[after.len() - 1]);
        assert(s.drop_last() =~= kept + fewer);
        lemma_trim_end_keeps(kept, fewer);
    } else {
        assert(s =~= kept);
    }
}

/// What [`trimmed`] and [`is_blank`] give, on a text by its parts.
pub proof fn law_trimmed(
    s: &str,
    before: Seq<char>,
    kept: Seq<char>,
    after: Seq<char>,
    t: &str,
    blank: bool,
)
    requires
        s@ == before + kept + after,
        forall|i: int| 0 <= i < before.len() ==> white_space(#[trigger] before[i]),
        forall|i: int| 0 <= i < after.len() ==> white_space(#[trigger] after[i]),
        kept.len() > 0 ==> !white_space(kept[0]) && !white_space(kept.last()),
        call_ensures(trimmed, (s,), t),
        call_ensures(is_blank, (s,), blank),
    ensures
        t@ == kept,
        blank <==> kept.len() == 0,
{
    law_trim_keeps_what_stands_between(before, kept, after);
}

/// Taking a run of `c` off the end takes all of it and nothing before it.
pub proof fn law_trim_end_matches(kept: Seq<char>, c: char, run: nat)
    requires
        kept.len() > 0 ==> kept.last() != c,
    ensures
        trim_end_matches(kept + Seq::new(run, |i: int| c), c) == kept,
    decreases run,
{
    let s = kept + Seq::new(run, |i: int| c);
    if run > 0 {
        let fewer = (run - 1) as nat;
        assert(s.drop_last() =~= kept + Seq::new(fewer, |i: int| c));
        law_trim_end_matches(kept, c, fewer);
    } else {
        assert(s =~= kept);
    }
}

/// Joining goes part by part: nothing is joined to nothing, one part stands
/// alone, and between two lists of parts stands one separator.
pub proof fn law_join(a: Seq<Seq<char>>, b: Seq<Seq<char>>, part: Seq<char>, separator: Seq<char>)
    ensures
        join(seq![], separator) == Seq::<char>::empty(),
        join(seq![part], separator) == part,
        a.len() > 0 && b.len() > 0 ==> join(a + b, separator) == join(a, separator) + separator
            + join(b, separator),
    decreases b.len(),
{
    if a.len() > 0 && b.len() > 0 {
        assert((a + b).drop_last() =~= a + b.drop_last());
        assert((a + b).last() == b.last());
        if b.len() == 1 {
            assert(a + b.drop_last() =~= a);
        } else {
            law_join(a, b.drop_last(), part, separator);
            assert(join(a + b, separator) =~= join(a, separator) + separator + join(b, separator));
        }
    }
}

/// The executable join is of the strings themselves, in their order.
pub proof fn law_joined(parts: &Vec<String>, separator: &str, s: String)
    requires
        call_ensures(joined, (parts, separator), s),
    ensures
        s@ == join(Seq::new(parts@.len(), |i: int| parts@[i]@), separator@),
{
    assert(texts(parts@) =~= Seq::new(parts@.len(), |i: int| parts@[i]@));
}

/// The number that a numeral in base ten stands for.
pub open spec fn numeral_value(s: Seq<char>) -> int
    decreases s.len(),
{
    if s.len() == 0 {
        0
    } else {
        10 * numeral_value(s.drop_last()) + (s.last() as int - '0' as int)
    }
}

proof fn lemma_decimal_value(n: nat)
    ensures
        numeral_value(decimal(n)) == n,
        decimal(n).len() > 0,
        forall|i: int| 0 <= i < decimal(n).len() ==> '0' <= #[trigger] decimal(n)[i] <= '9',
        decimal(n).len() > 1 ==> decimal(n)[0] != '0',
        n > 0 ==> decimal(n)[0] != '0',
    decreases n,
{
    reveal_with_fuel(numeral_value, 2);
    if n >= 10 {
        lemma_decimal_value(n / 10);
        let front = decimal(n / 10);
        assert(decimal(n).drop_last() =~= front);
        assert(decimal(n).last() == digit(n % 10));
        assert(decimal(n)[0] == front[0]);
        assert forall|i: int| 0 <= i < decimal(n).len() implies '0' <= #[trigger] decimal(n)[i]
            <= '9' by {
            if i < front.len() {
                assert(decimal(n)[i] == front[i]);
            }
        }
    } else {
        assert(decimal(n).drop_last() =~= seq![]);
    }
}

/// A decimal numeral reads back as its number, in digits alone and without a
/// zero in front.
pub proof fn law_decimal_reads_back(n: u64, s: String)
    requires
        call_ensures(decimal_text, (n,), s),
    ensures
        numeral_value(s@) == n,
        s@.len() > 0,
        forall|i: int| 0 <= i < s@.len() ==> '0' <= #[trigger] s@[i] <= '9',
        s@.len() > 1 ==> s@[0] != '0',
{
    lemma_decimal_value(n as nat);
}

/// Padding puts zeros in front of a numeral, as many as its width asks for, and
/// leaves the number what it is.
pub proof fn law_padding_keeps_the_number(n: u64, width: usize, s: String)
    requires
        call_ensures(padded_decimal_text, (n, width), s),
    ensures
        numeral_value(s@) == n,
        s@.len() >= width,
        s@.len() > width && s@.len() > 1 ==> s@[0] != '0',
{
    lemma_decimal_value(n as nat);
    lemma_padded_value(n as nat, width as nat);
}

/// Zeros in front of a numeral leave the number what it is.
pub proof fn lemma_padded_value(n: nat, width: nat)
    ensures
        numeral_value(zero_padded(decimal(n), width)) == n,
{
    lemma_decimal_value(n);
    let digits = decimal(n);
    if digits.len() < width {
        lemma_zeros_in_front((width - digits.len()) as nat, digits);
    }
}

proof fn lemma_zeros_in_front(count: nat, s: Seq<char>)
    ensures
        numeral_value(Seq::new(count, |i: int| '0') + s) == numeral_value(s),
    decreases count + s.len(),
{
    let zeros = Seq::new(count, |i: int| '0');
    if s.len() > 0 {
        lemma_zeros_in_front(count, s.drop_last());
        assert((zeros + s).drop_last() =~= zeros + s.drop_last());
    } else if count > 0 {
        assert((zeros + s).drop_last() =~= Seq::new((count - 1) as nat, |i: int| '0') + s);
        lemma_zeros_in_front((count - 1) as nat, s);
    } else {
        assert(zeros + s =~= s);
    }
}

/// Lines are read one by one: a line ends at its line feed, a carriage return
/// right before it belongs to the end, and what follows is read by itself.
pub proof fn law_lines(line: Seq<char>, rest: Seq<char>)
    requires
        !line.contains('\n'),
    ensures
        lines(seq![]) == Seq::<Seq<char>>::empty(),
        line.len() > 0 ==> lines(line) == seq![line],
        lines(line + seq!['\r', '\n'] + rest) == seq![line] + lines(rest),
        line.len() == 0 || line.last() != '\r' ==> lines(line + seq!['\n'] + rest) == seq![line]
            + lines(rest),
{
    assert forall|k: int| 0 <= k < line.len() implies line[k] != '\n' by {
        assert(line.contains(line[k]));
    }
    let n = line.len() as int;
    lemma_first_of_is(line, '\n', n);
    let s = line + seq!['\n'] + rest;
    lemma_first_of_is(s, '\n', n);
    assert(s.take(n) =~= line);
    assert(s.skip(n + 1) =~= rest);
    let t = line + seq!['\r', '\n'] + rest;
    lemma_first_of_is(t, '\n', n + 1);
    assert(t.take(n + 1) =~= line.push('\r'));
    assert(line.push('\r').drop_last() =~= line);
    assert(t.skip(n + 2) =~= rest);
}

/// The executable lines are those of the text itself.
pub proof fn law_lines_of(s: &str, found: Vec<String>)
    requires
        call_ensures(lines_of, (s,), found),
    ensures
        Seq::new(found@.len(), |i: int| found@[i]@) == lines(s@),
{
    assert(texts(found@) =~= Seq::new(found@.len(), |i: int| found@[i]@));
}

/// A text starts with a prefix exactly when something follows it there, and
/// that is what is left of the text.
pub proof fn law_strip_prefix(s: &str, prefix: &str, rest: Option<&str>, tail: Seq<char>)
    requires
        call_ensures(strip_prefix, (s, prefix), rest),
    ensures
        s@ == prefix@ + tail ==> (rest matches Some(r) && r@ == tail),
        rest matches Some(r) ==> s@ == prefix@ + r@,
{
    if s@ == prefix@ + tail {
        assert(prefix@.is_prefix_of(s@));
        assert(rest->0@ =~= s@.skip(prefix@.len() as int));
        assert(tail =~= s@.skip(prefix@.len() as int));
    }
}

/// Two texts are the same exactly when their characters are, and one after the
/// other they are their characters in that order.
pub proof fn law_same_and_concat(a: &str, b: &str, equal: bool, both: String)
    requires
        call_ensures(same, (a, b), equal),
        call_ensures(concat, (a, b), both),
    ensures
        equal <==> a@ == b@,
        both@ == a@ + b@,
{
}

/// A text is blank exactly when every character of it is white space.
pub proof fn lemma_blank(s: Seq<char>)
    ensures
        trim(s).len() == 0 <==> forall|i: int| 0 <= i < s.len() ==> white_space(#[trigger] s[i]),
    decreases s.len(),
{
    if s.len() > 0 && white_space(s[0]) {
        let rest = s.drop_first();
        lemma_blank(rest);
        if trim(s).len() == 0 {
            assert forall|i: int| 0 <= i < s.len() implies white_space(#[trigger] s[i]) by {
                if i > 0 {
                    assert(rest[i - 1] == s[i]);
                }
            }
        } else {
            assert(exists|i: int| 0 <= i < rest.len() && !white_space(#[trigger] rest[i]));
            let at = choose|i: int| 0 <= i < rest.len() && !white_space(#[trigger] rest[i]);
            assert(s[at + 1] == rest[at]);
        }
    } else {
        lemma_trim_end_keeps_the_front(s);
    }
}

proof fn lemma_trim_end_keeps_the_front(s: Seq<char>)
    ensures
        s.len() > 0 && !white_space(s[0]) ==> trim_end(s).len() > 0,
    decreases s.len(),
{
    if s.len() > 1 && white_space(s.last()) {
        assert(s.drop_last()[0] == s[0]);
        lemma_trim_end_keeps_the_front(s.drop_last());
    }
}

} // verus!
