//! What holds of every text that the library trims, splits, joins, cuts, writes
//! or reads.

use vstd::prelude::*;

use crate::agent::clipped;
use crate::llm::shortened;
use crate::text::{
    after_plus, ascii_lower, byte_len, decimal, digits_value, fitting, is_digit, join, law_fitting_is_the_longest_prefix,
    lemma_until, lemma_until_bounds, lines, number_of, signed, trim, trim_end_while, trim_start, until, white,
};

verus! {

// ---------------------------------------------------------------------------
// Selections
// ---------------------------------------------------------------------------

/// Whether `at` lists the places of all items that satisfy `wanted`, each once,
/// in order.
pub open spec fn places<A>(all: Seq<A>, wanted: spec_fn(A) -> bool, at: Seq<int>) -> bool {
    &&& forall|k: int| 0 <= k < at.len() ==> 0 <= #[trigger] at[k] < all.len() && wanted(all[at[k]])
    &&& forall|k: int, l: int| 0 <= k < l < at.len() ==> #[trigger] at[k] < #[trigger] at[l]
    &&& forall|i: int|
        0 <= i < all.len() && wanted(#[trigger] all[i]) ==> exists|k: int|
            0 <= k < at.len() && #[trigger] at[k] == i
}

/// One more item that is wanted has one more place, at the end.
pub proof fn lemma_places_push<A>(all: Seq<A>, wanted: spec_fn(A) -> bool, at: Seq<int>)
    requires
        all.len() > 0,
        places(all.drop_last(), wanted, at),
    ensures
        wanted(all.last()) ==> places(all, wanted, at.push(all.len() - 1)),
        !wanted(all.last()) ==> places(all, wanted, at),
{
    let rest = all.drop_last();
    let last = all.len() - 1;
    if wanted(all.last()) {
        let more = at.push(last);
        assert forall|i: int| 0 <= i < all.len() && wanted(#[trigger] all[i]) implies exists|k: int|
            0 <= k < more.len() && #[trigger] more[k] == i by {
            if i < last {
                assert(rest[i] == all[i]);
                let k = choose|k: int| 0 <= k < at.len() && #[trigger] at[k] == i;
                assert(more[k] == i);
            } else {
                assert(more[at.len() as int] == i);
            }
        }
        assert forall|k: int| 0 <= k < more.len() implies 0 <= #[trigger] more[k] < all.len()
            && wanted(all[more[k]]) by {
            if k < at.len() {
                assert(0 <= at[k] < rest.len() && wanted(rest[at[k]]));
            }
        }
        assert forall|k: int, l: int| 0 <= k < l < more.len() implies #[trigger] more[k]
            < #[trigger] more[l] by {
            assert(0 <= at[k] < rest.len());
            if l < at.len() {
                assert(at[k] < at[l]);
            }
        }
    } else {
        assert forall|i: int| 0 <= i < all.len() && wanted(#[trigger] all[i]) implies exists|k: int|
            0 <= k < at.len() && #[trigger] at[k] == i by {
            assert(rest[i] == all[i]);
        }
        assert forall|k: int| 0 <= k < at.len() implies 0 <= #[trigger] at[k] < all.len() && wanted(
            all[at[k]],
        ) by {
            assert(0 <= at[k] < rest.len() && wanted(rest[at[k]]));
        }
    }
}

// ---------------------------------------------------------------------------
// White space
// ---------------------------------------------------------------------------

/// Trimming cuts white space off both ends, all of it, and nothing else: what
/// stays is a stretch of the text that neither begins nor ends with white space,
/// and what goes on either side is white space alone.
pub proof fn law_trim_cuts_white_space_alone(s: Seq<char>)
    ensures
        exists|from: int, to: int|
            {
                &&& 0 <= from <= to <= s.len()
                &&& trim(s) == #[trigger] s.subrange(from, to)
                &&& forall|i: int| 0 <= i < from ==> white(#[trigger] s[i])
                &&& forall|i: int| to <= i < s.len() ==> white(#[trigger] s[i])
                &&& from < to ==> !white(s[from]) && !white(s[to - 1])
            },
{
    let from = until(s, |c: char| !white(c)) as int;
    lemma_until_bounds(s, |c: char| !white(c));
    let tail = trim_start(s);
    law_trim_end_cuts_what_is_dropped(tail, |c: char| white(c));
    let n = trim(s).len();
    let to = from + n;
    assert(trim(s) =~= s.subrange(from, to));
    assert forall|i: int| to <= i < s.len() implies white(#[trigger] s[i]) by {
        assert(tail[i - from] == s[i]);
    }
    if from < to {
        assert(tail[0] == s[from]);
        assert(trim(s).last() == s[to - 1]);
    }
    assert(0 <= from <= to <= s.len() && trim(s) == s.subrange(from, to));
}

/// What is left of a text without its last characters of a kind is a beginning
/// of the text that does not end with such a character; what goes is of that
/// kind alone.
pub proof fn law_trim_end_cuts_what_is_dropped(s: Seq<char>, drop: spec_fn(char) -> bool)
    ensures
        trim_end_while(s, drop).len() <= s.len(),
        trim_end_while(s, drop) == s.take(trim_end_while(s, drop).len() as int),
        trim_end_while(s, drop).len() > 0 ==> !drop(trim_end_while(s, drop).last()),
        forall|i: int| trim_end_while(s, drop).len() <= i < s.len() ==> drop(#[trigger] s[i]),
    decreases s.len(),
{
    if s.len() == 0 || !drop(s.last()) {
        assert(s.take(s.len() as int) =~= s);
    } else {
        let rest = s.drop_last();
        law_trim_end_cuts_what_is_dropped(rest, drop);
        let kept = trim_end_while(s, drop);
        assert(kept =~= s.take(kept.len() as int));
        assert forall|i: int| kept.len() <= i < s.len() implies drop(#[trigger] s[i]) by {
            if i < rest.len() {
                assert(rest[i] == s[i]);
            }
        }
    }
}

/// A text with neither white space at its beginning nor at its end is not
/// changed by trimming.
pub proof fn law_trimmed_text_stays(s: Seq<char>)
    requires
        s.len() > 0 ==> !white(s[0]) && !white(s.last()),
    ensures
        trim(s) == s,
{
    if s.len() > 0 {
        lemma_until(s, |c: char| !white(c), 0);
        assert(s.skip(0) =~= s);
    } else {
        assert(trim_start(s) =~= s);
    }
}

/// Trimming a trimmed text changes nothing.
pub proof fn law_trim_is_idempotent(s: Seq<char>)
    ensures
        trim(trim(s)) == trim(s),
{
    law_trim_cuts_white_space_alone(s);
    law_trimmed_text_stays(trim(s));
}

/// A text is blank exactly when it is white space alone.
pub proof fn law_blank_is_white_space_alone(s: Seq<char>)
    ensures
        trim(s).len() == 0 <==> forall|i: int| 0 <= i < s.len() ==> white(#[trigger] s[i]),
{
    law_trim_cuts_white_space_alone(s);
    let (from, to) = choose|from: int, to: int|
        {
            &&& 0 <= from <= to <= s.len()
            &&& trim(s) == #[trigger] s.subrange(from, to)
            &&& forall|i: int| 0 <= i < from ==> white(#[trigger] s[i])
            &&& forall|i: int| to <= i < s.len() ==> white(#[trigger] s[i])
            &&& from < to ==> !white(s[from]) && !white(s[to - 1])
        };
    if trim(s).len() > 0 {
        assert(!white(s[from]));
    }
}

// ---------------------------------------------------------------------------
// Lines and parts
// ---------------------------------------------------------------------------

/// Joining puts the separator between neighbours, and nowhere else: nothing
/// joined is nothing, one part joined is that part, and one more part comes
/// behind one more separator.
pub proof fn law_join_separates_neighbours(
    parts: Seq<Seq<char>>,
    part: Seq<char>,
    separator: Seq<char>,
)
    ensures
        join(Seq::empty(), separator) == Seq::<char>::empty(),
        join(seq![part], separator) == part,
        parts.len() > 0 ==> join(parts.push(part), separator) == join(parts, separator) + separator
            + part,
{
    assert(parts.push(part).drop_last() =~= parts);
}

/// A text without carriage returns is its lines with a line feed after each,
/// but for the last, which may do without.
pub proof fn law_lines_make_up_the_text(s: Seq<char>)
    requires
        forall|i: int| 0 <= i < s.len() ==> #[trigger] s[i] != '\r',
    ensures
        s.len() == 0 ==> lines(s).len() == 0,
        s.len() > 0 ==> {
            &&& lines(s).len() > 0
            &&& join(lines(s), seq!['\n']) == s || join(lines(s), seq!['\n']) + seq!['\n'] == s
        },
    decreases s.len(),
{
    let n = until(s, |c: char| c == '\n');
    lemma_until_bounds(s, |c: char| c == '\n');
    if s.len() == 0 {
    } else if n >= s.len() {
        law_join_separates_neighbours(Seq::empty(), s, seq!['\n']);
    } else {
        let head = s.take(n as int);
        let tail = s.skip(n as int + 1);
        assert(head.len() > 0 ==> head.last() == s[n - 1]);
        assert forall|i: int| 0 <= i < tail.len() implies #[trigger] tail[i] != '\r' by {
            assert(tail[i] == s[i + n + 1]);
        }
        law_lines_make_up_the_text(tail);
        assert(s =~= head + seq!['\n'] + tail);
        if tail.len() == 0 {
            assert(lines(s) =~= seq![head]);
            law_join_separates_neighbours(Seq::empty(), head, seq!['\n']);
            assert(head + seq!['\n'] =~= s);
        } else {
            lemma_join_front(head, lines(tail), seq!['\n']);
            assert(lines(s) =~= seq![head] + lines(tail));
            if join(lines(tail), seq!['\n']) == tail {
                assert(head + seq!['\n'] + tail =~= s);
            } else {
                assert(head + seq!['\n'] + join(lines(tail), seq!['\n']) + seq!['\n'] =~= s);
            }
        }
    }
}

proof fn lemma_join_front(part: Seq<char>, parts: Seq<Seq<char>>, separator: Seq<char>)
    requires
        parts.len() > 0,
    ensures
        join(seq![part] + parts, separator) == part + separator + join(parts, separator),
    decreases parts.len(),
{
    let all = seq![part] + parts;
    if parts.len() == 1 {
        assert(all.drop_last() =~= seq![part]);
        law_join_separates_neighbours(Seq::empty(), part, separator);
        assert(all.last() == parts[0]);
        assert(join(all, separator) =~= part + separator + parts[0]);
    } else {
        assert(all.drop_last() =~= seq![part] + parts.drop_last());
        lemma_join_front(part, parts.drop_last(), separator);
        assert(all.last() == parts.last());
        assert(join(all, separator) =~= part + separator + join(parts, separator));
    }
}

/// No line holds a line feed.
pub proof fn law_lines_hold_no_line_feed(s: Seq<char>)
    ensures
        forall|k: int, i: int|
            0 <= k < lines(s).len() && 0 <= i < lines(s)[k].len() ==> #[trigger] lines(s)[k][i] != '\n',
    decreases s.len(),
{
    let n = until(s, |c: char| c == '\n');
    lemma_until_bounds(s, |c: char| c == '\n');
    if s.len() == 0 {
    } else if n >= s.len() {
        assert(lines(s) =~= seq![s]);
    } else {
        let tail = s.skip(n as int + 1);
        law_lines_hold_no_line_feed(tail);
        assert forall|k: int, i: int|
            0 <= k < lines(s).len() && 0 <= i < lines(s)[k].len() implies #[trigger] lines(s)[k][i]
            != '\n' by {
            if k > 0 {
                assert(lines(s)[k] == lines(tail)[k - 1]);
                assert(lines(tail)[k - 1][i] != '\n');
            } else {
                assert(lines(s)[0][i] == s[i]);
            }
        }
    }
}

/// A line feed ends a line, and with it goes a carriage return before it; the
/// rest of the text has the rest of the lines.
pub proof fn law_a_line_feed_ends_a_line(line: Seq<char>, rest: Seq<char>)
    requires
        forall|i: int| 0 <= i < line.len() ==> #[trigger] line[i] != '\n',
    ensures
        lines(line + seq!['\n'] + rest) == seq![
            if line.len() > 0 && line.last() == '\r' {
                line.drop_last()
            } else {
                line
            },
        ] + lines(rest),
        line.len() > 0 ==> lines(line) == seq![line],
{
    let s = line + seq!['\n'] + rest;
    assert forall|i: int| 0 <= i < line.len() implies #[trigger] s[i] != '\n' by {
        assert(s[i] == line[i]);
    }
    lemma_until(s, |c: char| c == '\n', line.len());
    assert(s.take(line.len() as int) =~= line);
    assert(s.skip(line.len() as int + 1) =~= rest);
    lemma_until(line, |c: char| c == '\n', line.len());
}

// ---------------------------------------------------------------------------
// Numbers
// ---------------------------------------------------------------------------

/// One more digit multiplies a number by ten and adds the digit.
pub proof fn law_digits_count_by_ten(s: Seq<char>, c: char)
    ensures
        digits_value(Seq::empty()) == 0,
        is_digit(c) ==> digits_value(s.push(c)) == 10 * digits_value(s) + (c as u32 - '0' as u32),
{
    assert(s.push(c).drop_last() =~= s);
}

/// A number is written in digits alone, without a leading zero, and the digits
/// stand for the number.
pub proof fn law_decimal_spells_the_number(n: nat)
    ensures
        decimal(n).len() > 0,
        forall|i: int| 0 <= i < decimal(n).len() ==> '0' <= #[trigger] decimal(n)[i] <= '9',
        decimal(n).len() > 1 ==> decimal(n)[0] != '0',
        digits_value(decimal(n)) == n,
    decreases n,
{
    if n < 10 {
        let s = decimal(n);
        assert(s.drop_last() =~= Seq::empty());
        assert(digits_value(Seq::empty()) == 0);
    } else {
        law_decimal_spells_the_number(n / 10);
        let s = decimal(n);
        assert(s.drop_last() =~= decimal(n / 10));
        assert(s[0] == decimal(n / 10)[0]);
        if n / 10 < 10 {
            assert(decimal(n / 10)[0] != '0');
        } else {
            law_decimal_spells_the_number(n / 100);
            assert(decimal(n / 10).len() == decimal(n / 100).len() + 1);
        }
    }
}

/// Different numbers are written differently.
pub proof fn law_decimal_is_injective(n: nat, other: nat)
    requires
        decimal(n) == decimal(other),
    ensures
        n == other,
{
    law_decimal_spells_the_number(n);
    law_decimal_spells_the_number(other);
}

/// A negative number is written with a sign before its size, and any other
/// number without.
pub proof fn law_signed_marks_negative_numbers(n: int)
    ensures
        n >= 0 ==> signed(n) == decimal(n as nat),
        n < 0 ==> signed(n) == seq!['-'] + decimal((-n) as nat),
{
    reveal_strlit("-");
    assert("-"@ =~= seq!['-']);
}

/// A number that is written can be read, with or without a plus sign, if it fits
/// in 64 bits; a larger one cannot.
pub proof fn law_written_numbers_are_read(n: nat)
    ensures
        n <= 0xffff_ffff_ffff_ffff ==> number_of(decimal(n)) == Some(n) && number_of(
            seq!['+'] + decimal(n),
        ) == Some(n),
        n > 0xffff_ffff_ffff_ffff ==> number_of(decimal(n)) is None,
{
    law_decimal_spells_the_number(n);
    let s = decimal(n);
    assert('0' <= s[0] <= '9');
    assert(after_plus(s) == s);
    assert(after_plus(seq!['+'] + s) =~= s);
}

/// What is read as a number is digits alone, at least one, after a plus sign or
/// none, and is what the digits stand for.
pub proof fn law_read_numbers_are_digits(s: Seq<char>)
    ensures
        number_of(s) matches Some(n) ==> {
            let digits = if s.len() > 0 && s[0] == '+' {
                s.skip(1)
            } else {
                s
            };
            &&& digits.len() > 0
            &&& forall|i: int| 0 <= i < digits.len() ==> '0' <= #[trigger] digits[i] <= '9'
            &&& n == digits_value(digits)
        },
{
    if s.len() > 0 && s[0] == '+' {
        assert(s.skip(1) =~= s.drop_first());
    }
}

/// Lowering a text maps the capital letters of ASCII to their small ones, and
/// leaves every other character as it is.
pub proof fn law_lowering_touches_capitals_alone(s: Seq<char>)
    ensures
        ascii_lower(s).len() == s.len(),
        forall|i: int|
            0 <= i < s.len() ==> {
                &&& 'A' <= #[trigger] s[i] <= 'Z' ==> ascii_lower(s)[i] as u32 == s[i] as u32 + 32
                &&& !('A' <= s[i] <= 'Z') ==> ascii_lower(s)[i] == s[i]
            },
        ascii_lower(ascii_lower(s)) == ascii_lower(s),
{
    assert(ascii_lower(ascii_lower(s)) =~= ascii_lower(s));
}

// ---------------------------------------------------------------------------
// Cuts
// ---------------------------------------------------------------------------

/// The length of a text in bytes is that of its UTF-8.
pub proof fn law_bytes_are_counted_in_utf8(s: Seq<char>)
    ensures
        byte_len(s) == vstd::utf8::encode_utf8(s).len(),
{
}

/// A text within the limit is kept whole. A longer one is cut after the longest
/// beginning that fits, with a note of how many bytes are gone.
pub proof fn law_clipping_keeps_what_fits(s: Seq<char>, max: nat)
    ensures
        byte_len(s) <= max ==> clipped(s, max) == s,
        byte_len(s) > max ==> exists|k: int|
            {
                &&& 0 <= k < s.len()
                &&& byte_len(#[trigger] s.take(k)) <= max
                &&& byte_len(s.take(k + 1)) > max
                &&& clipped(s, max) == s.take(k) + "… ["@ + decimal(
                    (byte_len(s) - byte_len(s.take(k))) as nat,
                ) + " bytes truncated]"@
            },
{
    if byte_len(s) > max {
        lemma_cut(s, max);
    }
}

/// A text within the limit is kept whole. A longer one is cut after the longest
/// beginning that fits, with a mark.
pub proof fn law_shortening_keeps_what_fits(s: Seq<char>, max: nat)
    ensures
        byte_len(s) <= max ==> shortened(s, max) == s,
        byte_len(s) > max ==> exists|k: int|
            {
                &&& 0 <= k < s.len()
                &&& byte_len(#[trigger] s.take(k)) <= max
                &&& byte_len(s.take(k + 1)) > max
                &&& shortened(s, max) == s.take(k) + "…"@
            },
{
    if byte_len(s) > max {
        lemma_cut(s, max);
    }
}

proof fn lemma_cut(s: Seq<char>, max: nat)
    requires
        byte_len(s) > max,
    ensures
        ({
            let k = fitting(s, max).len() as int;
            &&& 0 <= k < s.len()
            &&& fitting(s, max) == s.take(k)
            &&& byte_len(s.take(k)) <= max
            &&& byte_len(s.take(k + 1)) > max
        }),
{
    law_fitting_is_the_longest_prefix(s, max);
    let k = fitting(s, max).len() as int;
    assert(fitting(s, max) =~= s.take(k));
    if k == s.len() {
        assert(s.take(k) =~= s);
    }
}

} // verus!
