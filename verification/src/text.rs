//! Character and string helpers shared by the rest of the library.

use vstd::prelude::*;
use vstd::string::*;

verus! {

/// Whether `c` has the Unicode property `White_Space`.
pub open spec fn is_space(c: char) -> bool {
    let n = c as u32;
    ||| 0x09 <= n <= 0x0D
    ||| n == 0x20
    ||| n == 0x85
    ||| n == 0xA0
    ||| n == 0x1680
    ||| 0x2000 <= n <= 0x200A
    ||| n == 0x2028
    ||| n == 0x2029
    ||| n == 0x202F
    ||| n == 0x205F
    ||| n == 0x3000
}

/// Every character of `s` is white space.
pub open spec fn all_space(s: Seq<char>) -> bool {
    forall|i: int| 0 <= i < s.len() ==> is_space(#[trigger] s[i])
}

/// The number of white-space characters that `s` starts with.
pub open spec fn leading_spaces(s: Seq<char>) -> nat
    decreases s.len(),
{
    if s.len() == 0 || !is_space(s[0]) {
        0
    } else {
        1 + leading_spaces(s.drop_first())
    }
}

/// The number of white-space characters that `s` ends with.
pub open spec fn trailing_spaces(s: Seq<char>) -> nat
    decreases s.len(),
{
    if s.len() == 0 || !is_space(s.last()) {
        0
    } else {
        1 + trailing_spaces(s.drop_last())
    }
}

/// `s` without the white space at its two ends.
pub open spec fn trimmed(s: Seq<char>) -> Seq<char> {
    if leading_spaces(s) == s.len() {
        Seq::empty()
    } else {
        s.subrange(leading_spaces(s) as int, s.len() - trailing_spaces(s))
    }
}

/// Tests one character for the property `White_Space`.
pub fn is_whitespace(c: char) -> (b: bool)
    ensures
        b == is_space(c),
{
    let n: u32 = c as u32;
    (0x09 <= n && n <= 0x0D) || n == 0x20 || n == 0x85 || n == 0xA0 || n == 0x1680 || (0x2000 <= n
        && n <= 0x200A) || n == 0x2028 || n == 0x2029 || n == 0x202F || n == 0x205F || n == 0x3000
}

/// The first `k` characters of `s` are white space and the next one, if
/// there is one, is not: then `s` starts with exactly `k` of them.
pub proof fn lemma_leading_spaces(s: Seq<char>, k: int)
    requires
        0 <= k <= s.len(),
        forall|i: int| 0 <= i < k ==> is_space(#[trigger] s[i]),
        k < s.len() ==> !is_space(s[k]),
    ensures
        leading_spaces(s) == k,
    decreases k,
{
    if k > 0 {
        let rest = s.drop_first();
        assert forall|i: int| 0 <= i < k - 1 implies is_space(#[trigger] rest[i]) by {
            assert(rest[i] == s[i + 1]);
        }
        if k - 1 < rest.len() {
            assert(rest[k - 1] == s[k]);
        }
        lemma_leading_spaces(rest, k - 1);
    }
}

/// The last `k` characters of `s` are white space and the one before them,
/// if there is one, is not: then `s` ends with exactly `k` of them.
pub proof fn lemma_trailing_spaces(s: Seq<char>, k: int)
    requires
        0 <= k <= s.len(),
        forall|i: int| s.len() - k <= i < s.len() ==> is_space(#[trigger] s[i]),
        k < s.len() ==> !is_space(s[s.len() - k - 1]),
    ensures
        trailing_spaces(s) == k,
    decreases k,
{
    if k > 0 {
        let rest = s.drop_last();
        assert forall|i: int| rest.len() - (k - 1) <= i < rest.len() implies is_space(
            #[trigger] rest[i],
        ) by {
            assert(rest[i] == s[i]);
        }
        if k - 1 < rest.len() {
            assert(rest[rest.len() - (k - 1) - 1] == s[s.len() - k - 1]);
        }
        lemma_trailing_spaces(rest, k - 1);
    }
}

/// What the count of leading white space says of `s`: that many characters
/// at its start are white space, and the next one, if there is one, is not.
pub proof fn lemma_leading_spaces_counted(s: Seq<char>)
    ensures
        leading_spaces(s) <= s.len(),
        forall|i: int| 0 <= i < leading_spaces(s) ==> is_space(#[trigger] s[i]),
        leading_spaces(s) < s.len() ==> !is_space(s[leading_spaces(s) as int]),
    decreases s.len(),
{
    if s.len() > 0 && is_space(s[0]) {
        let rest = s.drop_first();
        lemma_leading_spaces_counted(rest);
        assert forall|i: int| 0 <= i < leading_spaces(s) implies is_space(#[trigger] s[i]) by {
            if i > 0 {
                assert(s[i] == rest[i - 1]);
            }
        }
        if leading_spaces(s) < s.len() {
            assert(s[leading_spaces(s) as int] == rest[leading_spaces(rest) as int]);
        }
    }
}

/// What the count of trailing white space says of `s`: that many
/// characters at its end are white space, and the one before them, if there
/// is one, is not.
pub proof fn lemma_trailing_spaces_counted(s: Seq<char>)
    ensures
        trailing_spaces(s) <= s.len(),
        forall|i: int| s.len() - trailing_spaces(s) <= i < s.len() ==> is_space(#[trigger] s[i]),
        trailing_spaces(s) < s.len() ==> !is_space(s[s.len() - trailing_spaces(s) - 1]),
    decreases s.len(),
{
    if s.len() > 0 && is_space(s.last()) {
        let rest = s.drop_last();
        lemma_trailing_spaces_counted(rest);
        assert forall|i: int| s.len() - trailing_spaces(s) <= i < s.len() implies is_space(
            #[trigger] s[i],
        ) by {
            if i < s.len() - 1 {
                assert(s[i] == rest[i]);
            }
        }
        if trailing_spaces(s) < s.len() {
            assert(s[s.len() - trailing_spaces(s) - 1] == rest[rest.len() - trailing_spaces(rest)
                - 1]);
        }
    }
}

/// A text is clean if it neither starts nor ends with white space.
pub open spec fn is_clean(s: Seq<char>) -> bool {
    s.len() > 0 ==> !is_space(s.first()) && !is_space(s.last())
}

/// A trimmed text is clean, and it is empty exactly if the text was all
/// white space.
pub proof fn lemma_trimmed_is_clean(s: Seq<char>)
    ensures
        is_clean(trimmed(s)),
        trimmed(s).len() == 0 <==> all_space(s),
{
    lemma_leading_spaces_counted(s);
    lemma_trailing_spaces_counted(s);
    let a = leading_spaces(s) as int;
    let b = s.len() - trailing_spaces(s);
    if a < s.len() {
        // The first character that is no white space stands before the
        // trailing white space.
        assert(a < b) by {
            if a >= b {
                assert(is_space(s[a]));
            }
        }
        let t = trimmed(s);
        assert(t.first() == s[a]);
        assert(t.last() == s[b - 1]);
        assert(!all_space(s)) by {
            assert(!is_space(s[a]));
        }
    } else {
        assert(all_space(s));
    }
}

/// Trimming a clean text changes nothing.
pub proof fn lemma_trimmed_of_clean(s: Seq<char>)
    requires
        is_clean(s),
    ensures
        trimmed(s) == s,
{
    if s.len() > 0 {
        lemma_leading_spaces(s, 0);
        lemma_trailing_spaces(s, 0);
        assert(s.subrange(0, s.len() as int) =~= s);
    } else {
        assert(trimmed(s) =~= s);
    }
}

/// Trimming twice is trimming once.
pub proof fn lemma_trimmed_twice(s: Seq<char>)
    ensures
        trimmed(trimmed(s)) == trimmed(s),
{
    lemma_trimmed_is_clean(s);
    lemma_trimmed_of_clean(trimmed(s));
}

/// A clean text with a line feed behind it trims to the text.
pub proof fn lemma_trimmed_line(s: Seq<char>)
    requires
        is_clean(s),
    ensures
        trimmed(s + "\n"@) == s,
{
    reveal_strlit("\n");
    let line = s + "\n"@;
    assert(line.len() == s.len() + 1);
    assert(line.last() == '\n');
    assert(is_space('\n'));
    if s.len() == 0 {
        lemma_leading_spaces(line, 1);
        assert(trimmed(line) =~= s);
    } else {
        assert(line[0] == s.first());
        assert(line[line.len() - 2] == s.last());
        lemma_leading_spaces(line, 0);
        lemma_trailing_spaces(line, 1);
        assert(line.subrange(0, line.len() - 1) =~= s);
    }
}

/// Removes the white space at both ends of `s`.
pub fn trim<'a>(s: &'a str) -> (t: &'a str)
    ensures
        t@ == trimmed(s@),
{
    let n = s.unicode_len();
    let mut first: usize = 0;
    let mut end: usize = 0;
    let mut i: usize = 0;
    for c in it: s.chars()
        invariant
            i == it.index(),
            it.seq() == s@,
            n == s@.len(),
            first <= i,
            end <= i,
            forall|j: int| 0 <= j < first ==> is_space(#[trigger] s@[j]),
            first < i ==> !is_space(s@[first as int]),
            forall|j: int| end <= j < i ==> is_space(#[trigger] s@[j]),
            end > 0 ==> !is_space(s@[end - 1]),
            first < i ==> first < end,
            first == i ==> end == 0,
    {
        if is_whitespace(c) {
            if first == i {
                first = i + 1;
            }
        } else {
            end = i + 1;
        }
        i = i + 1;
    }
    proof {
        lemma_leading_spaces(s@, first as int);
        lemma_trailing_spaces(s@, n - end);
    }
    if first >= end {
        proof {
            reveal_strlit("");
        }
        ""
    } else {
        s.substring_char(first, end)
    }
}

/// The number of characters of `s` that stand before the first `stop`, or
/// the length of `s` if it holds none.
pub open spec fn until(s: Seq<char>, stop: char) -> nat
    decreases s.len(),
{
    if s.len() == 0 || s[0] == stop {
        0
    } else {
        1 + until(s.drop_first(), stop)
    }
}

/// The part of `s` before its first dot: a host name without its domain.
pub open spec fn short_name(s: Seq<char>) -> Seq<char> {
    s.subrange(0, until(s, '.') as int)
}

/// The first line of `s` without its line end (a line feed, or a carriage
/// return and a line feed). An empty text has no line.
pub open spec fn first_line(s: Seq<char>) -> Option<Seq<char>> {
    let k = until(s, '\n') as int;
    if s.len() == 0 {
        None
    } else if 0 < k < s.len() && s[k - 1] == '\r' {
        Some(s.subrange(0, k - 1))
    } else {
        Some(s.subrange(0, k))
    }
}

/// No `stop` stands among the first `k` characters of `s`, and the next one,
/// if there is one, is a `stop`: then `k` characters stand before the first.
pub proof fn lemma_until(s: Seq<char>, stop: char, k: int)
    requires
        0 <= k <= s.len(),
        forall|i: int| 0 <= i < k ==> #[trigger] s[i] != stop,
        k < s.len() ==> s[k] == stop,
    ensures
        until(s, stop) == k,
    decreases k,
{
    if k > 0 {
        let rest = s.drop_first();
        assert forall|i: int| 0 <= i < k - 1 implies #[trigger] rest[i] != stop by {
            assert(rest[i] == s[i + 1]);
        }
        if k - 1 < rest.len() {
            assert(rest[k - 1] == s[k]);
        }
        lemma_until(rest, stop, k - 1);
    }
}

/// Counts the characters of `s` before the first `stop`.
pub fn find(s: &str, stop: char) -> (k: usize)
    ensures
        k == until(s@, stop),
        k <= s@.len(),
{
    let n = s.unicode_len();
    let mut k: usize = 0;
    let mut found = false;
    for c in it: s.chars()
        invariant
            it.seq() == s@,
            n == s@.len(),
            k <= it.index(),
            !found ==> k == it.index(),
            found ==> k < it.index() && s@[k as int] == stop,
            forall|j: int| 0 <= j < k ==> #[trigger] s@[j] != stop,
    {
        if !found {
            if c == stop {
                found = true;
            } else {
                k = k + 1;
            }
        }
    }
    proof {
        lemma_until(s@, stop, k as int);
    }
    k
}

/// The part of `name` before its first dot.
pub fn shorten<'a>(name: &'a str) -> (short: &'a str)
    ensures
        short@ == short_name(name@),
{
    let k = find(name, '.');
    name.substring_char(0, k)
}

/// The first line of `text`, if it has one.
pub fn head_line<'a>(text: &'a str) -> (line: Option<&'a str>)
    ensures
        line.deep_view() == first_line(text@),
{
    let n = text.unicode_len();
    if n == 0 {
        return None;
    }
    let k = find(text, '\n');
    if 0 < k && k < n && text.get_char(k - 1) == '\r' {
        Some(text.substring_char(0, k - 1))
    } else {
        Some(text.substring_char(0, k))
    }
}

/// The text that `String::from_utf8_lossy` makes of a sequence of bytes:
/// the text that they encode, with the replacement character in place of
/// what is not UTF-8.
pub uninterp spec fn utf8_lossy(bytes: Seq<u8>) -> Seq<char>;

/// Decodes bytes with `String::from_utf8_lossy`. The result is a function of
/// the bytes alone, and that is all that is claimed of it.
#[verifier::external_body]
pub(crate) fn decode_lossy(bytes: &Vec<u8>) -> (text: String)
    ensures
        text@ == utf8_lossy(bytes@),
{
    String::from_utf8_lossy(bytes).into_owned()
}

/// A copy of `bytes`.
pub fn copy_bytes(bytes: &Vec<u8>) -> (copy: Vec<u8>)
    ensures
        copy@ == bytes@,
{
    let mut copy: Vec<u8> = Vec::new();
    let mut i: usize = 0;
    while i < bytes.len()
        invariant
            i <= bytes.len(),
            copy@ == bytes@.subrange(0, i as int),
        decreases bytes.len() - i,
    {
        copy.push(bytes[i]);
        i = i + 1;
        assert(copy@ =~= bytes@.subrange(0, i as int));
    }
    assert(bytes@.subrange(0, bytes.len() as int) =~= bytes@);
    copy
}

/// The path `path` in double quotes, as the `Debug` form of
/// `std::path::Path` gives it: with a backslash before each quote and
/// backslash in it, and with escapes in place of the characters that cannot
/// be printed.
pub uninterp spec fn debug_quoted(path: Seq<char>) -> Seq<char>;

/// Formats a path with `{:?}`, the `Debug` form of `std::path::Path`. The
/// result is a function of the path alone, and that is all that is claimed
/// of it.
#[verifier::external_body]
pub(crate) fn quote(path: &str) -> (quoted: String)
    ensures
        quoted@ == debug_quoted(path@),
{
    format!("{:?}", std::path::Path::new(path))
}

/// Tests whether a string holds exactly the text `other`.
pub fn same_text(value: &String, other: &str) -> (same: bool)
    ensures
        same == (value@ == other@),
{
    let other = String::from_str(other);
    *value == other
}

/// `a` followed by `b`.
pub fn text2(a: &str, b: &str) -> (t: String)
    ensures
        t@ == a@ + b@,
{
    let mut t = String::from_str(a);
    t.append(b);
    t
}

/// `a`, `b` and `c` in a row.
pub fn text3(a: &str, b: &str, c: &str) -> (t: String)
    ensures
        t@ == a@ + b@ + c@,
{
    let mut t = text2(a, b);
    t.append(c);
    t
}

/// `a`, `b`, `c` and `d` in a row.
pub fn text4(a: &str, b: &str, c: &str, d: &str) -> (t: String)
    ensures
        t@ == a@ + b@ + c@ + d@,
{
    let mut t = text3(a, b, c);
    t.append(d);
    t
}

/// `a`, `b`, `c`, `d` and `e` in a row.
pub fn text5(a: &str, b: &str, c: &str, d: &str, e: &str) -> (t: String)
    ensures
        t@ == a@ + b@ + c@ + d@ + e@,
{
    let mut t = text4(a, b, c, d);
    t.append(e);
    t
}

} // verus!
