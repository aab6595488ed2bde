//! Text as sequences of characters: trimming, lines, joining, decimal numbers
//! and truncation, each stated over `Seq<char>`.

use vstd::prelude::*;
use vstd::slice::*;
use vstd::string::*;
use vstd::utf8::*;

verus! {

// ---------------------------------------------------------------------------
// What the functions below compute
// ---------------------------------------------------------------------------

/// The characters with the Unicode `White_Space` property.
pub open spec fn white(c: char) -> bool {
    ||| '\u{9}' <= c <= '\u{d}'
    ||| c == '\u{20}'
    ||| c == '\u{85}'
    ||| c == '\u{a0}'
    ||| c == '\u{1680}'
    ||| '\u{2000}' <= c <= '\u{200a}'
    ||| c == '\u{2028}'
    ||| c == '\u{2029}'
    ||| c == '\u{202f}'
    ||| c == '\u{205f}'
    ||| c == '\u{3000}'
}

/// The number of characters before the first one that satisfies `stop`, which
/// is the length of `s` when none does.
pub open spec fn until(s: Seq<char>, stop: spec_fn(char) -> bool) -> nat
    decreases s.len(),
{
    if s.len() == 0 || stop(s[0]) {
        0
    } else {
        1 + until(s.drop_first(), stop)
    }
}

/// `s` without its leading white space.
pub open spec fn trim_start(s: Seq<char>) -> Seq<char> {
    s.skip(until(s, |c: char| !white(c)) as int)
}

/// `s` without the trailing characters that satisfy `drop`.
pub open spec fn trim_end_while(s: Seq<char>, drop: spec_fn(char) -> bool) -> Seq<char>
    decreases s.len(),
{
    if s.len() == 0 || !drop(s.last()) {
        s
    } else {
        trim_end_while(s.drop_last(), drop)
    }
}

/// `s` without the white space at either end.
pub open spec fn trim(s: Seq<char>) -> Seq<char> {
    trim_end_while(trim_start(s), |c: char| white(c))
}

/// A line without the carriage return that belongs to its line ending.
pub open spec fn without_cr(line: Seq<char>) -> Seq<char> {
    if line.len() > 0 && line.last() == '\r' {
        line.drop_last()
    } else {
        line
    }
}

/// The lines of `s`. A line ends with `\n` or `\r\n`; the ending of the last
/// line is optional.
pub open spec fn lines(s: Seq<char>) -> Seq<Seq<char>>
    decreases s.len(),
{
    let n = until(s, |c: char| c == '\n');
    if s.len() == 0 {
        Seq::empty()
    } else if n >= s.len() {
        seq![s]
    } else {
        seq![without_cr(s.take(n as int))] + lines(s.skip(n as int + 1))
    }
}

/// `parts` in order, with `separator` between neighbours.
pub open spec fn join(parts: Seq<Seq<char>>, separator: Seq<char>) -> Seq<char>
    decreases parts.len(),
{
    if parts.len() == 0 {
        Seq::empty()
    } else if parts.len() == 1 {
        parts[0]
    } else {
        join(parts.drop_last(), separator) + separator + parts.last()
    }
}

/// `c` with the upper case letters of ASCII mapped to lower case.
pub open spec fn ascii_lower_char(c: char) -> char {
    if 'A' <= c <= 'Z' {
        (c as u32 + 32) as char
    } else {
        c
    }
}

/// `s` with the upper case letters of ASCII mapped to lower case.
pub open spec fn ascii_lower(s: Seq<char>) -> Seq<char> {
    s.map_values(|c: char| ascii_lower_char(c))
}

/// The character that stands for the digit `d`.
pub open spec fn digit(d: nat) -> char {
    (48 + d) as char
}

/// `n` in decimal.
pub open spec fn decimal(n: nat) -> Seq<char>
    decreases n,
{
    if n < 10 {
        seq![digit(n)]
    } else {
        decimal(n / 10).push(digit(n % 10))
    }
}

/// `n` in decimal, with a sign where it is negative.
pub open spec fn signed(n: int) -> Seq<char> {
    if n < 0 {
        "-"@ + decimal((-n) as nat)
    } else {
        decimal(n as nat)
    }
}

/// The characters `0` to `9`.
pub open spec fn is_digit(c: char) -> bool {
    '0' <= c <= '9'
}

/// The number that a sequence of digits stands for.
pub open spec fn digits_value(s: Seq<char>) -> nat
    decreases s.len(),
{
    if s.len() == 0 {
        0
    } else {
        digits_value(s.drop_last()) * 10 + (s.last() as u32 - 48) as nat
    }
}

/// The digits of a decimal number: what follows the plus sign that may lead it.
pub open spec fn after_plus(s: Seq<char>) -> Seq<char> {
    if s.len() > 0 && s[0] == '+' {
        s.drop_first()
    } else {
        s
    }
}

/// The number below two to the power of 64 that `s` spells in decimal, with or
/// without a leading plus sign.
pub open spec fn number_of(s: Seq<char>) -> Option<nat> {
    let digits = after_plus(s);
    if digits.len() > 0 && (forall|i: int| 0 <= i < digits.len() ==> is_digit(#[trigger] digits[i]))
        && digits_value(digits) <= u64::MAX {
        Some(digits_value(digits))
    } else {
        None
    }
}

/// The length of `s` in bytes of UTF-8.
pub open spec fn byte_len(s: Seq<char>) -> nat {
    encode_utf8(s).len()
}

/// The number of leading characters of `s` that fit in `max` bytes of UTF-8.
pub open spec fn fit_len(s: Seq<char>, max: nat) -> nat
    decreases s.len(),
{
    if s.len() == 0 || encode_scalar(s[0] as u32).len() > max {
        0
    } else {
        1 + fit_len(s.drop_first(), (max - encode_scalar(s[0] as u32).len()) as nat)
    }
}

/// The longest prefix of `s` that fits in `max` bytes of UTF-8.
pub open spec fn fitting(s: Seq<char>, max: nat) -> Seq<char> {
    s.take(fit_len(s, max) as int)
}

/// The contents of each string in order.
pub open spec fn texts(strings: Seq<String>) -> Seq<Seq<char>> {
    strings.map_values(|s: String| s@)
}

/// The contents of an optional string.
pub open spec fn opt_text(s: Option<String>) -> Option<Seq<char>> {
    match s {
        Some(s) => Some(s@),
        None => None,
    }
}

// ---------------------------------------------------------------------------
// Lemmas
// ---------------------------------------------------------------------------

/// `until` is the only position with these properties.
pub proof fn lemma_until(s: Seq<char>, stop: spec_fn(char) -> bool, k: nat)
    requires
        k <= s.len(),
        forall|i: int| 0 <= i < k ==> !stop(#[trigger] s[i]),
        k < s.len() ==> stop(s[k as int]),
    ensures
        until(s, stop) == k,
    decreases s.len(),
{
    if k > 0 {
        let rest = s.drop_first();
        assert forall|i: int| 0 <= i < k - 1 implies !stop(#[trigger] rest[i]) by {
            assert(rest[i] == s[i + 1]);
        }
        assert(!stop(s[0]));
        lemma_until(rest, stop, (k - 1) as nat);
    }
}

/// What `until` finds.
pub proof fn lemma_until_bounds(s: Seq<char>, stop: spec_fn(char) -> bool)
    ensures
        until(s, stop) <= s.len(),
        forall|i: int| 0 <= i < until(s, stop) ==> !stop(#[trigger] s[i]),
        until(s, stop) < s.len() ==> stop(s[until(s, stop) as int]),
    decreases s.len(),
{
    if s.len() > 0 && !stop(s[0]) {
        let rest = s.drop_first();
        lemma_until_bounds(rest, stop);
        assert forall|i: int| 0 <= i < until(s, stop) implies !stop(#[trigger] s[i]) by {
            if i > 0 {
                assert(s[i] == rest[i - 1]);
            }
        }
    }
}

/// Trailing characters are dropped up to the last one that stays.
pub(crate) proof fn lemma_trim_end(s: Seq<char>, drop: spec_fn(char) -> bool, k: nat)
    requires
        k <= s.len(),
        forall|i: int| k <= i < s.len() ==> drop(#[trigger] s[i]),
        k > 0 ==> !drop(s[k - 1]),
    ensures
        trim_end_while(s, drop) == s.take(k as int),
    decreases s.len(),
{
    if k < s.len() {
        assert(drop(s[s.len() - 1]));
        lemma_trim_end(s.drop_last(), drop, k);
        assert(s.drop_last().take(k as int) =~= s.take(k as int));
    } else {
        assert(s.take(k as int) =~= s);
    }
}

/// Equal encodings come from equal texts.
pub proof fn lemma_encode_injective(a: Seq<char>, b: Seq<char>)
    requires
        encode_utf8(a) == encode_utf8(b),
    ensures
        a == b,
{
    encode_utf8_decode_utf8(a);
    encode_utf8_decode_utf8(b);
}

/// The last character boundary within `max` bytes ends the longest prefix that
/// fits.
proof fn lemma_fit(s: Seq<char>, max: int, end: int)
    requires
        0 <= end <= max < byte_len(s),
        is_char_boundary(encode_utf8(s), end),
        forall|k: int| end < k <= max ==> !#[trigger] is_char_boundary(encode_utf8(s), k),
    ensures
        encode_utf8(s).subrange(0, end) == encode_utf8(fitting(s, max as nat)),
    decreases s.len(),
{
    let bytes = encode_utf8(s);
    encode_utf8_valid_utf8(s);
    encode_utf8_first_scalar(s);
    let head = encode_scalar(s[0] as u32);
    let width = head.len() as int;
    let rest = s.drop_first();
    encode_utf8_valid_utf8(rest);
    assert(bytes == head + encode_utf8(rest));
    assert(length_of_first_scalar(bytes) == width);
    assert(pop_first_scalar(bytes) =~= encode_utf8(rest));
    is_char_boundary_start_end_of_seq(encode_utf8(rest));
    assert(is_char_boundary(bytes, width));
    if width > max {
        if end > 0 {
            assert(!is_char_boundary(encode_utf8(rest), end - width));
        }
        assert(fitting(s, max as nat) =~= Seq::empty());
        assert(bytes.subrange(0, 0) =~= Seq::empty());
    } else {
        assert(end >= width);
        assert(is_char_boundary(encode_utf8(rest), end - width));
        assert forall|k: int| end - width < k <= max - width implies !#[trigger] is_char_boundary(
            encode_utf8(rest),
            k,
        ) by {
            assert(!is_char_boundary(bytes, k + width));
        }
        lemma_fit(rest, max - width, end - width);
        let tail = fitting(rest, (max - width) as nat);
        lemma_fit_len(rest, (max - width) as nat);
        assert(fitting(s, max as nat) =~= seq![s[0]] + tail);
        assert(fitting(s, max as nat).drop_first() =~= tail);
        assert(bytes.subrange(0, end) =~= head + encode_utf8(rest).subrange(0, end - width));
    }
}

/// A prefix that fits is no longer than the text.
proof fn lemma_fit_len(s: Seq<char>, max: nat)
    ensures
        fit_len(s, max) <= s.len(),
    decreases s.len(),
{
    if s.len() > 0 && encode_scalar(s[0] as u32).len() <= max {
        lemma_fit_len(s.drop_first(), (max - encode_scalar(s[0] as u32).len()) as nat);
    }
}

/// The prefix that fits in `max` bytes is a prefix of the text, takes at most
/// `max` bytes, and no longer prefix does.
pub proof fn law_fitting_is_the_longest_prefix(s: Seq<char>, max: nat)
    ensures
        fitting(s, max).is_prefix_of(s),
        byte_len(fitting(s, max)) <= max,
        forall|k: int|
            fitting(s, max).len() < k <= s.len() ==> byte_len(#[trigger] s.take(k)) > max,
    decreases s.len(),
{
    lemma_fit_len(s, max);
    if s.len() == 0 {
        assert(fitting(s, max) =~= Seq::empty());
    } else {
        let width = encode_scalar(s[0] as u32).len();
        let rest = s.drop_first();
        assert forall|k: int| 0 < k <= s.len() implies byte_len(#[trigger] s.take(k)) == width
            + byte_len(rest.take(k - 1)) by {
            assert(s.take(k).drop_first() =~= rest.take(k - 1));
        }
        if width > max {
            assert(fitting(s, max) =~= Seq::empty());
        } else {
            law_fitting_is_the_longest_prefix(rest, (max - width) as nat);
            lemma_fit_len(rest, (max - width) as nat);
            let n = fit_len(s, max) as int;
            assert(s.take(n).drop_first() =~= rest.take(n - 1));
        }
    }
}

// ---------------------------------------------------------------------------
// The functions
// ---------------------------------------------------------------------------

/// `String::push`: adds one character at the end.
pub assume_specification[ String::push ](s: &mut String, c: char)
    ensures
        final(s)@ == old(s)@.push(c),
;

/// What the `Debug` formatting of a string slice writes: the text in double
/// quotes, with the characters escaped that `str::escape_debug` escapes.
pub uninterp spec fn debug_text(s: Seq<char>) -> Seq<char>;

/// `s` as the standard library's `Debug` formatting of `str` writes it.
#[verifier::external_body]
pub(crate) fn quoted(s: &str) -> (out: String)
    ensures
        out@ == debug_text(s@),
{
    format!("{:?}", s)
}

/// The text that `String::from_utf8_lossy` reads out of bytes.
pub uninterp spec fn lossy_text(bytes: Seq<u8>) -> Seq<char>;

/// `String::from_utf8_lossy`: bytes that are valid UTF-8 are decoded as they
/// are; in others each invalid part is replaced.
#[verifier::external_body]
pub(crate) fn lossy(bytes: &[u8]) -> (out: String)
    ensures
        out@ == lossy_text(bytes@),
        valid_utf8(bytes@) ==> out@ == decode_utf8(bytes@),
{
    String::from_utf8_lossy(bytes).into_owned()
}

/// `String::from_utf8`: the text that the bytes encode, if they are valid UTF-8.
#[verifier::external_body]
pub(crate) fn checked_text(bytes: Vec<u8>) -> (out: Option<String>)
    ensures
        match out {
            Some(text) => valid_utf8(bytes@) && text@ == decode_utf8(bytes@),
            None => !valid_utf8(bytes@),
        },
{
    String::from_utf8(bytes).ok()
}

/// The characters of a string.
pub fn chars_of(s: &str) -> (out: Vec<char>)
    ensures
        out@ == s@,
{
    let mut out: Vec<char> = Vec::new();
    for c in it: s.chars()
        invariant
            out@ =~= it.seq().take(it.index() as int),
            it.seq() == s@,
    {
        out.push(c);
    }
    out
}

/// The string with these characters.
pub fn string_of(chars: &[char]) -> (out: String)
    ensures
        out@ == chars@,
{
    let mut out: String = String::new();
    let mut i: usize = 0;
    while i < chars.len()
        invariant
            i <= chars.len(),
            out@ =~= chars@.take(i as int),
        decreases chars.len() - i,
    {
        out.push(chars[i]);
        i = i + 1;
    }
    out
}

/// Whether two strings hold the same text.
pub fn same(a: &str, b: &str) -> (eq: bool)
    ensures
        eq == (a@ == b@),
{
    let x = a.as_bytes();
    let y = b.as_bytes();
    if x.len() != y.len() {
        return false;
    }
    let mut i: usize = 0;
    while i < x.len()
        invariant
            i <= x.len(),
            x@.len() == y@.len(),
            forall|k: int| 0 <= k < i ==> x@[k] == y@[k],
            x@ == encode_utf8(a@),
            y@ == encode_utf8(b@),
        decreases x.len() - i,
    {
        if x[i] != y[i] {
            return false;
        }
        i = i + 1;
    }
    proof {
        assert(x@ =~= y@);
        lemma_encode_injective(a@, b@);
    }
    true
}

/// The length of a string in bytes.
pub fn len_of(s: &str) -> (len: usize)
    ensures
        len == byte_len(s@),
{
    s.as_bytes().len()
}

/// Whether `name` is among `strings`.
pub fn contains_text(strings: &Vec<String>, name: &str) -> (found: bool)
    ensures
        found == texts(strings@).contains(name@),
{
    let mut i: usize = 0;
    while i < strings.len()
        invariant
            i <= strings.len(),
            forall|k: int| 0 <= k < i ==> #[trigger] texts(strings@)[k] != name@,
        decreases strings.len() - i,
    {
        if same(strings[i].as_str(), name) {
            assert(texts(strings@)[i as int] == name@);
            return true;
        }
        i = i + 1;
    }
    false
}

/// Whether a character is white space.
pub fn is_white(c: char) -> (yes: bool)
    ensures
        yes == white(c),
{
    ('\u{9}' <= c && c <= '\u{d}') || c == '\u{20}' || c == '\u{85}' || c == '\u{a0}' || c
        == '\u{1680}' || ('\u{2000}' <= c && c <= '\u{200a}') || c == '\u{2028}' || c == '\u{2029}'
        || c == '\u{202f}' || c == '\u{205f}' || c == '\u{3000}'
}

/// The part of `chars` between the white space at either end.
pub fn trimmed<'a>(chars: &'a [char]) -> (out: &'a [char])
    ensures
        out@ == trim(chars@),
{
    let mut start: usize = 0;
    while start < chars.len() && is_white(chars[start])
        invariant
            start <= chars.len(),
            forall|k: int| 0 <= k < start ==> white(#[trigger] chars@[k]),
        decreases chars.len() - start,
    {
        start = start + 1;
    }
    proof {
        lemma_until(chars@, |c: char| !white(c), start as nat);
    }
    let ghost rest = chars@.skip(start as int);
    let mut end: usize = chars.len();
    while end > start && is_white(chars[end - 1])
        invariant
            start <= end <= chars.len(),
            forall|k: int| end <= k < chars@.len() ==> white(#[trigger] chars@[k]),
        decreases end,
    {
        end = end - 1;
    }
    proof {
        lemma_trim_end(rest, |c: char| white(c), (end - start) as nat);
        assert(rest.take(end - start) =~= chars@.subrange(start as int, end as int));
    }
    slice_subrange(chars, start, end)
}

/// `s` without the white space at either end.
pub fn trim_text(s: &str) -> (out: String)
    ensures
        out@ == trim(s@),
{
    let chars = chars_of(s);
    string_of(trimmed(chars.as_slice()))
}

/// Whether `s` is nothing but white space.
pub fn is_blank(s: &str) -> (blank: bool)
    ensures
        blank == (trim(s@).len() == 0),
{
    let chars = chars_of(s);
    trimmed(chars.as_slice()).len() == 0
}

/// `s` without the slashes at its end.
pub fn trim_slashes(s: &str) -> (out: String)
    ensures
        out@ == trim_end_while(s@, |c: char| c == '/'),
{
    let chars = chars_of(s);
    let mut end: usize = chars.len();
    while end > 0 && chars[end - 1] == '/'
        invariant
            end <= chars.len(),
            forall|k: int| end <= k < chars@.len() ==> #[trigger] chars@[k] == '/',
        decreases end,
    {
        end = end - 1;
    }
    proof {
        lemma_trim_end(s@, |c: char| c == '/', end as nat);
        assert(chars@.subrange(0, end as int) =~= s@.take(end as int));
    }
    string_of(slice_subrange(chars.as_slice(), 0, end))
}

/// `s` in lower case, as far as ASCII goes.
pub fn lowered(chars: &[char]) -> (out: Vec<char>)
    ensures
        out@ == ascii_lower(chars@),
{
    let mut out: Vec<char> = Vec::new();
    let mut i: usize = 0;
    while i < chars.len()
        invariant
            i <= chars.len(),
            out@ =~= ascii_lower(chars@).take(i as int),
        decreases chars.len() - i,
    {
        let c: char = chars[i];
        if 'A' <= c && c <= 'Z' {
            out.push((c as u8 + 32) as char);
        } else {
            out.push(c);
        }
        i = i + 1;
    }
    out
}

/// Whether `chars` begins with `prefix`.
pub fn begins_with(chars: &[char], prefix: &[char]) -> (yes: bool)
    ensures
        yes == prefix@.is_prefix_of(chars@),
{
    if prefix.len() > chars.len() {
        return false;
    }
    let mut i: usize = 0;
    while i < prefix.len()
        invariant
            i <= prefix.len() <= chars.len(),
            forall|k: int| 0 <= k < i ==> #[trigger] prefix@[k] == chars@[k],
        decreases prefix.len() - i,
    {
        if prefix[i] != chars[i] {
            assert(prefix@[i as int] != chars@.subrange(0, prefix@.len() as int)[i as int]);
            return false;
        }
        i = i + 1;
    }
    true
}

/// Whether `chars` ends with `suffix`.
pub fn finishes_with(chars: &[char], suffix: &[char]) -> (yes: bool)
    ensures
        yes == suffix@.is_suffix_of(chars@),
{
    if suffix.len() > chars.len() {
        return false;
    }
    let from: usize = chars.len() - suffix.len();
    let tail = slice_subrange(chars, from, chars.len());
    proof {
        assert(tail@.subrange(0, suffix@.len() as int) =~= tail@);
    }
    begins_with(tail, suffix)
}

/// The position of the first line feed, or the length.
fn line_feed(chars: &[char]) -> (at: usize)
    ensures
        at == until(chars@, |c: char| c == '\n'),
        at <= chars@.len(),
{
    let mut i: usize = 0;
    while i < chars.len() && chars[i] != '\n'
        invariant
            i <= chars.len(),
            forall|k: int| 0 <= k < i ==> #[trigger] chars@[k] != '\n',
        decreases chars.len() - i,
    {
        i = i + 1;
    }
    proof {
        lemma_until(chars@, |c: char| c == '\n', i as nat);
    }
    i
}

/// The position of the first white space, or the length.
pub fn first_white(chars: &[char]) -> (at: usize)
    ensures
        at == until(chars@, |c: char| white(c)),
        at <= chars@.len(),
{
    let mut i: usize = 0;
    while i < chars.len() && !is_white(chars[i])
        invariant
            i <= chars.len(),
            forall|k: int| 0 <= k < i ==> !white(#[trigger] chars@[k]),
        decreases chars.len() - i,
    {
        i = i + 1;
    }
    proof {
        lemma_until(chars@, |c: char| white(c), i as nat);
    }
    i
}

/// The lines of a text.
pub fn lines_of<'a>(chars: &'a [char]) -> (out: Vec<&'a [char]>)
    ensures
        out@.map_values(|line: &[char]| line@) == lines(chars@),
{
    let mut out: Vec<&'a [char]> = Vec::new();
    let mut rest: &'a [char] = chars;
    while rest.len() > 0
        invariant
            out@.map_values(|line: &[char]| line@) + lines(rest@) == lines(chars@),
        decreases rest.len(),
    {
        let ghost before = out@;
        let n: usize = line_feed(rest);
        if n >= rest.len() {
            out.push(rest);
            let ghost last = rest@;
            rest = slice_subrange(rest, rest.len(), rest.len());
            proof {
                assert(lines(rest@) =~= Seq::empty());
                assert(out@.map_values(|line: &[char]| line@) =~= before.map_values(
                    |line: &[char]| line@,
                ) + seq![last]);
            }
        } else {
            let end: usize = if n > 0 && rest[n - 1] == '\r' {
                n - 1
            } else {
                n
            };
            let line = slice_subrange(rest, 0, end);
            out.push(line);
            proof {
                assert(rest@.take(n as int).len() == n);
                assert(line@ =~= without_cr(rest@.take(n as int)));
                assert(rest@.subrange(n + 1, rest@.len() as int) =~= rest@.skip(n + 1));
                assert(out@.map_values(|line: &[char]| line@) =~= before.map_values(
                    |line: &[char]| line@,
                ) + seq![line@]);
            }
            rest = slice_subrange(rest, n + 1, rest.len());
        }
    }
    proof {
        assert(lines(rest@) =~= Seq::empty());
        assert(out@.map_values(|line: &[char]| line@) + Seq::<Seq<char>>::empty() =~= out@.map_values(
            |line: &[char]| line@,
        ));
    }
    out
}

/// `parts` in order, with `separator` between neighbours.
pub fn joined(parts: &Vec<String>, separator: &str) -> (out: String)
    ensures
        out@ == join(texts(parts@), separator@),
{
    let mut out: String = String::new();
    let mut i: usize = 0;
    while i < parts.len()
        invariant
            i <= parts.len(),
            out@ == join(texts(parts@).take(i as int), separator@),
        decreases parts.len() - i,
    {
        let ghost shown = texts(parts@);
        proof {
            assert(shown.take(i + 1).drop_last() =~= shown.take(i as int));
        }
        if i > 0 {
            out.append(separator);
            out.append(parts[i].as_str());
        } else {
            out.append(parts[i].as_str());
            assert(out@ =~= shown[0]);
        }
        i = i + 1;
    }
    proof {
        assert(texts(parts@).take(parts@.len() as int) =~= texts(parts@));
    }
    out
}

/// Adds `n` in decimal at the end of `out`.
pub fn push_decimal(out: &mut String, n: u128)
    ensures
        final(out)@ == old(out)@ + decimal(n as nat),
    decreases n,
{
    let ghost before = out@;
    if n >= 10 {
        push_decimal(out, n / 10);
    }
    let d: u8 = (n % 10) as u8;
    out.push((48u8 + d) as char);
    proof {
        assert(out@ =~= before + decimal(n as nat));
    }
}

/// Adds `n` in decimal at the end of `out`, with a sign where it is negative.
pub fn push_signed(out: &mut String, n: i32)
    ensures
        final(out)@ == old(out)@ + signed(n as int),
{
    let ghost before = out@;
    if n < 0 {
        out.append("-");
        push_decimal(out, (-(n as i64)) as u128);
        proof {
            assert(out@ =~= before + signed(n as int));
        }
    } else {
        push_decimal(out, n as u128);
    }
}

/// The number that a text spells in decimal, if it fits in 64 bits.
pub fn parse_number(s: &str) -> (number: Option<u64>)
    ensures
        match number {
            Some(n) => number_of(s@) == Some(n as nat),
            None => number_of(s@) is None,
        },
{
    let chars = chars_of(s);
    let from: usize = if chars.len() > 0 && chars[0] == '+' {
        1
    } else {
        0
    };
    let digits = slice_subrange(chars.as_slice(), from, chars.len());
    proof {
        assert(digits@ =~= after_plus(s@));
    }
    if digits.len() == 0 {
        return None;
    }
    let mut value: u64 = 0;
    let mut overflow: bool = false;
    let mut i: usize = 0;
    while i < digits.len()
        invariant
            i <= digits.len(),
            digits@ == after_plus(s@),
            forall|k: int| 0 <= k < i ==> is_digit(#[trigger] digits@[k]),
            !overflow ==> value == digits_value(digits@.take(i as int)),
            overflow ==> digits_value(digits@.take(i as int)) > u64::MAX,
        decreases digits.len() - i,
    {
        let c: char = digits[i];
        if !('0' <= c && c <= '9') {
            assert(!is_digit(after_plus(s@)[i as int]));
            return None;
        }
        let d: u64 = (c as u32 - 48) as u64;
        proof {
            assert(digits@.take(i + 1).drop_last() =~= digits@.take(i as int));
        }
        if !overflow {
            if value > u64::MAX / 10 || value * 10 > u64::MAX - d {
                overflow = true;
            } else {
                value = value * 10 + d;
            }
        }
        i = i + 1;
    }
    proof {
        assert(digits@.take(digits@.len() as int) =~= digits@);
    }
    if overflow {
        None
    } else {
        Some(value)
    }
}

/// The longest prefix of `s` that fits in `max` bytes.
pub fn fitting_prefix<'a>(s: &'a str, max: usize) -> (out: &'a str)
    requires
        max < byte_len(s@),
    ensures
        out@ == fitting(s@, max as nat),
{
    let mut end: usize = max;
    proof {
        encode_utf8_valid_utf8(s@);
        is_char_boundary_start_end_of_seq(encode_utf8(s@));
    }
    while end > 0 && !s.is_char_boundary(end)
        invariant
            end <= max < byte_len(s@),
            is_char_boundary(encode_utf8(s@), 0),
            forall|k: int| end < k <= max ==> !#[trigger] is_char_boundary(encode_utf8(s@), k),
        decreases end,
    {
        end = end - 1;
    }
    let parts = s.split_at(end);
    proof {
        lemma_fit(s@, max as int, end as int);
        lemma_encode_injective(parts.0@, fitting(s@, max as nat));
    }
    parts.0
}

} // verus!
