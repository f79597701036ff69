//! What texts and numerals must satisfy, whatever way they are made.
use vstd::arithmetic::power::pow;
use vstd::prelude::*;
use crate::command::{failure_text, Finished};
use crate::paths::below;
use crate::text::{
    ascii_lower, before, blank, decimal, exit_text, find_from, find_is_first, hex, joined, lines,
    occurs, occurs_at, same_ignoring_case, signed_decimal, trim, white_space,
};

verus! {

// ---------------------------------------------------------------------------------------------
// Parts of texts

/// The text begins with the other.
pub open spec fn begins(s: Seq<char>, part: Seq<char>) -> bool {
    part.len() <= s.len() && s.take(part.len() as int) == part
}

/// The text ends with the other.
pub open spec fn ends(s: Seq<char>, part: Seq<char>) -> bool {
    part.len() <= s.len() && s.skip(s.len() - part.len()) == part
}

/// What stands in a text stands in every text that goes on from it.
pub broadcast proof fn occurs_in_more(a: Seq<char>, b: Seq<char>, part: Seq<char>)
    requires
        occurs(a, part),
    ensures
        #[trigger] occurs(a + b, part),
{
    let i = choose|i: int| occurs_at(a, part, i);
    assert((a + b).subrange(i, i + part.len()) =~= part);
    assert(occurs_at(a + b, part, i));
}

/// What stands in a text stands in every text that ends with it.
pub broadcast proof fn occurs_behind(a: Seq<char>, b: Seq<char>, part: Seq<char>)
    requires
        occurs(b, part),
    ensures
        #[trigger] occurs(a + b, part),
{
    let i = choose|i: int| occurs_at(b, part, i);
    assert((a + b).subrange(a.len() + i, a.len() + i + part.len()) =~= part);
    assert(occurs_at(a + b, part, a.len() + i));
}

/// What is put behind a text stands in it.
pub proof fn occurs_at_the_end(a: Seq<char>, part: Seq<char>)
    ensures
        occurs(a + part, part),
{
    assert((a + part).subrange(a.len() as int, (a.len() + part.len()) as int) =~= part);
    assert(occurs_at(a + part, part, a.len() as int));
}

/// What is put behind a text piece by piece stands in it as a whole.
pub proof fn pieces_occur(
    a: Seq<char>,
    b: Seq<char>,
    c: Seq<char>,
    d: Seq<char>,
    e: Seq<char>,
    f: Seq<char>,
)
    ensures
        occurs(a + b + c, b + c),
        occurs(a + b + c + d, b + c + d),
        occurs(a + b + c + d + e, b + c + d + e),
        occurs(a + b + c + d + e + f, b + c + d + e + f),
{
    assert(b.skip(0) =~= b);
    end_of_more(a, b, b);
    end_goes_on(a + b, c, b);
    end_goes_on(a + b + c, d, b + c);
    end_goes_on(a + b + c + d, e, b + c + d);
    end_goes_on(a + b + c + d + e, f, b + c + d + e);
    end_occurs(a + b + c, b + c);
    end_occurs(a + b + c + d, b + c + d);
    end_occurs(a + b + c + d + e, b + c + d + e);
    end_occurs(a + b + c + d + e + f, b + c + d + e + f);
}

/// What a text ends with stands in it.
pub proof fn end_occurs(s: Seq<char>, part: Seq<char>)
    requires
        ends(s, part),
    ensures
        occurs(s, part),
{
    let i = s.len() - part.len();
    assert(s.subrange(i, i + part.len()) =~= s.skip(i));
    assert(occurs_at(s, part, i));
}

/// A text that goes on ends with what it goes on by, behind what it ended with.
pub proof fn end_goes_on(a: Seq<char>, b: Seq<char>, part: Seq<char>)
    requires
        ends(a, part),
    ensures
        ends(a + b, part + b),
{
    assert((a + b).skip((a + b).len() - (part + b).len()) =~= part + b);
}

/// A text that goes on ends as what it goes on by does.
pub proof fn end_of_more(a: Seq<char>, b: Seq<char>, part: Seq<char>)
    requires
        ends(b, part),
    ensures
        ends(a + b, part),
{
    assert((a + b).skip((a + b).len() - part.len()) =~= part);
}

/// A text that goes on begins as before.
pub broadcast proof fn begin_stays(a: Seq<char>, b: Seq<char>, part: Seq<char>)
    requires
        begins(a, part),
    ensures
        #[trigger] begins(a + b, part),
{
    assert((a + b).take(part.len() as int) =~= part);
}

// ---------------------------------------------------------------------------------------------
// White space

/// Trimming takes nothing but white space off the two ends, and all of it.
#[verifier::rlimit(40)]
pub proof fn trimming_takes_off_the_ends(s: Seq<char>) -> (bounds: (int, int))
    ensures
        0 <= bounds.0 <= bounds.1 <= s.len(),
        trim(s) == s.subrange(bounds.0, bounds.1),
        forall|k: int| 0 <= k < bounds.0 ==> white_space(#[trigger] s[k]),
        forall|k: int| bounds.1 <= k < s.len() ==> white_space(#[trigger] s[k]),
        trim(s).len() > 0 ==> !white_space(trim(s).first()) && !white_space(trim(s).last()),
        trim(s).len() == 0 <==> forall|k: int| 0 <= k < s.len() ==> white_space(#[trigger] s[k]),
    decreases s.len(),
{
    if s.len() == 0 {
        assert(s =~= s.subrange(0, 0));
        (0, 0)
    } else if white_space(s.first()) {
        let rest = s.drop_first();
        let (i, j) = trimming_takes_off_the_ends(rest);
        assert(rest.subrange(i, j) =~= s.subrange(i + 1, j + 1));
        assert forall|k: int| 0 <= k < i + 1 implies white_space(#[trigger] s[k]) by {
            if k > 0 {
                assert(white_space(rest[k - 1]));
            }
        }
        assert forall|k: int| j + 1 <= k < s.len() implies white_space(#[trigger] s[k]) by {
            assert(white_space(rest[k - 1]));
        }
        if trim(s).len() == 0 {
            assert forall|k: int| 0 <= k < s.len() implies white_space(#[trigger] s[k]) by {
                if k > 0 {
                    assert(white_space(rest[k - 1]));
                }
            }
        } else {
            assert(s[i + 1] == trim(s).first());
        }
        (i + 1, j + 1)
    } else if white_space(s.last()) {
        let rest = s.drop_last();
        let (i, j) = trimming_takes_off_the_ends(rest);
        assert(rest.subrange(i, j) =~= s.subrange(i, j));
        assert forall|k: int| 0 <= k < i implies white_space(#[trigger] s[k]) by {
            assert(white_space(rest[k]));
        }
        assert forall|k: int| j <= k < s.len() implies white_space(#[trigger] s[k]) by {
            if k < rest.len() {
                assert(white_space(rest[k]));
            }
        }
        assert(!white_space(s[0]));
        assert(rest.len() > 0);
        assert(rest[0] == s[0]);
        (i, j)
    } else {
        assert(s =~= s.subrange(0, s.len() as int));
        assert(!white_space(s[0]));
        (0, s.len() as int)
    }
}

/// A text is blank exactly when it holds no character but white space.
pub proof fn blank_texts_hold_nothing(s: Seq<char>)
    ensures
        blank(s) <==> forall|k: int| 0 <= k < s.len() ==> white_space(#[trigger] s[k]),
        s.len() == 0 ==> blank(s),
{
}

/// The text holds more than white space.
pub open spec fn says_something(text: Seq<char>) -> bool {
    exists|k: int| 0 <= k < text.len() && !white_space(#[trigger] text[k])
}

/// A text is there that holds more than white space.
pub open spec fn says(value: Option<Seq<char>>) -> bool {
    value is Some && says_something(value->0)
}

/// The arguments give an option a value.
pub open spec fn gives(
    arguments: Seq<Seq<char>>,
    option: Seq<char>,
    value: Seq<char>,
) -> bool {
    exists|i: int|
        0 <= i && i + 1 < arguments.len() && #[trigger] arguments[i] == option && arguments[i + 1]
            == value
}

// ---------------------------------------------------------------------------------------------
// Numerals

/// The number that a digit stands for.
pub open spec fn digit_value(c: char) -> int {
    if '0' <= c <= '9' {
        c as u32 - 48
    } else {
        c as u32 - 87
    }
}

/// The number that digits stand for.
pub open spec fn numeral_value(digits: Seq<char>, base: int) -> int
    decreases digits.len(),
{
    if digits.len() == 0 {
        0
    } else {
        numeral_value(digits.drop_last(), base) * base + digit_value(digits.last())
    }
}

/// A decimal numeral is read back as its number, and has no zeros in front.
pub proof fn decimals_are_read_back(n: nat)
    ensures
        numeral_value(decimal(n), 10) == n,
        decimal(n).len() > 0,
        forall|i: int| 0 <= i < decimal(n).len() ==> '0' <= #[trigger] decimal(n)[i] <= '9',
        n > 0 ==> decimal(n)[0] != '0',
    decreases n,
{
    if n < 10 {
        assert(decimal(n).drop_last() =~= Seq::<char>::empty());
        reveal_with_fuel(numeral_value, 2);
    } else {
        decimals_are_read_back(n / 10);
        let front = decimal(n / 10);
        assert(decimal(n).drop_last() =~= front);
        assert(decimal(n)[0] == front[0]);
    }
}

/// A signed numeral is read back as its number.
pub proof fn signed_decimals_are_read_back(n: int)
    ensures
        n >= 0 ==> numeral_value(signed_decimal(n), 10) == n && signed_decimal(n)[0] != '-',
        n < 0 ==> signed_decimal(n)[0] == '-' && numeral_value(signed_decimal(n).drop_first(), 10)
            == -n,
{
    decimals_are_read_back(if n < 0 {
        (-n) as nat
    } else {
        n as nat
    });
    if n < 0 {
        assert(signed_decimal(n).drop_first() =~= decimal((-n) as nat));
    }
}

/// A hexadecimal numeral has its width, in lower case, and is read back as the number as far as the
/// width goes.
pub proof fn hexadecimals_are_read_back(n: nat, width: nat)
    ensures
        hex(n, width).len() == width,
        numeral_value(hex(n, width), 16) == n as int % pow(16, width),
        forall|i: int|
            0 <= i < width ==> '0' <= #[trigger] hex(n, width)[i] <= '9' || 'a' <= hex(n, width)[i]
                <= 'f',
    decreases width,
{
    if width == 0 {
        vstd::arithmetic::power::lemma_pow0(16);
    } else {
        let less = (width - 1) as nat;
        hexadecimals_are_read_back(n / 16, less);
        let front = hex(n / 16, less);
        assert(hex(n, width).drop_last() =~= front);
        vstd::arithmetic::power::lemma_pow_positive(16, less);
        vstd::arithmetic::power::lemma_pow_adds(16, 1, less);
        vstd::arithmetic::power::lemma_pow1(16);
        vstd::arithmetic::div_mod::lemma_mod_breakdown(n as int, 16, pow(16, less));
    }
}

/// An exit status tells the code that there was, or that there was none.
pub proof fn exit_statuses_tell_their_code(status: Option<i32>)
    ensures
        status matches Some(code) ==> code >= 0 ==> numeral_value(exit_text(status), 10) == code,
        status matches Some(code) ==> code < 0 ==> exit_text(status)[0] == '-' && numeral_value(
            exit_text(status).drop_first(),
            10,
        ) == -code,
        status is None ==> exit_text(status) == "signal"@,
{
    if let Some(code) = status {
        signed_decimals_are_read_back(code as int);
    }
}

// ---------------------------------------------------------------------------------------------
// Lists, orders and lines

/// Joining one more part puts the separator and the part behind what was joined.
pub proof fn joining_one_more(parts: Seq<Seq<char>>, last: Seq<char>, separator: Seq<char>)
    ensures
        joined(Seq::empty(), separator) == Seq::<char>::empty(),
        joined(seq![last], separator) == last,
        parts.len() > 0 ==> joined(parts.push(last), separator) == joined(parts, separator)
            + separator + last,
{
    assert(parts.push(last).drop_last() =~= parts);
}

/// One text comes before another exactly when it has the smaller character where they first differ,
/// or ends there.
pub proof fn order_is_by_the_first_difference(a: Seq<char>, b: Seq<char>, k: int)
    requires
        0 <= k <= a.len(),
        k <= b.len(),
        a.take(k) == b.take(k),
        k < a.len() && k < b.len() ==> a[k] != b[k],
    ensures
        before(a, b) <==> k < b.len() && (k == a.len() || a[k] < b[k]),
    decreases k,
{
    if k > 0 {
        assert(a.take(k)[0] == a[0]);
        assert(b.take(k)[0] == b[0]);
        assert(a.drop_first().take(k - 1) =~= a.take(k).drop_first());
        assert(b.drop_first().take(k - 1) =~= b.take(k).drop_first());
        if k < a.len() && k < b.len() {
            assert(a.drop_first()[k - 1] == a[k]);
            assert(b.drop_first()[k - 1] == b[k]);
        }
        order_is_by_the_first_difference(a.drop_first(), b.drop_first(), k - 1);
    }
}

/// A text is cut into lines at its line feeds, and a carriage return before one is not part of the
/// line.
pub proof fn lines_end_at_line_feeds(first: Seq<char>, rest: Seq<char>)
    requires
        forall|i: int| 0 <= i < first.len() ==> #[trigger] first[i] != '\n',
    ensures
        lines(first.push('\n') + rest) == seq![
            if first.len() > 0 && first.last() == '\r' {
                first.drop_last()
            } else {
                first
            },
        ] + lines(rest),
        first.len() > 0 ==> lines(first) == seq![first],
        lines(Seq::empty()) == Seq::<Seq<char>>::empty(),
{
    let feed = seq!['\n'];
    let s = first.push('\n') + rest;
    let n = first.len() as int;
    find_is_first(s, feed, 0);
    assert(s.subrange(n, n + 1) =~= feed);
    assert(occurs_at(s, feed, n));
    match find_from(s, feed, 0) {
        Some(k) => {
            assert(s.subrange(k, k + 1)[0] == '\n');
            assert(s[k] == '\n');
            if k < n {
                assert(first[k] == '\n');
            }
        },
        None => {},
    }
    assert(s.take(n) =~= first);
    assert(s.skip(n + 1) =~= rest);
    find_is_first(first, feed, 0);
    match find_from(first, feed, 0) {
        Some(k) => {
            assert(first.subrange(k, k + 1)[0] == '\n');
            assert(first[k] == '\n');
        },
        None => {},
    }
}

/// Texts that are the same but for case have the same length, and in each place the same character
/// or the two cases of one ASCII letter.
pub proof fn case_is_that_of_ascii_letters(a: Seq<char>, b: Seq<char>)
    ensures
        same_ignoring_case(a, b) <==> a.len() == b.len() && forall|i: int|
            0 <= i < a.len() ==> #[trigger] a[i] == b[i] || 'A' <= a[i] <= 'Z' && b[i] as u32
                == a[i] as u32 + 32 || 'A' <= b[i] <= 'Z' && a[i] as u32 == b[i] as u32 + 32,
{
    assert forall|c: char, d: char|
        (#[trigger] ascii_lower(c) == #[trigger] ascii_lower(d)) == (c == d || 'A' <= c <= 'Z' && d
            as u32 == c as u32 + 32 || 'A' <= d <= 'Z' && c as u32 == d as u32 + 32) by {
    }
    if same_ignoring_case(a, b) {
        assert forall|i: int| 0 <= i < a.len() implies #[trigger] a[i] == b[i] || 'A' <= a[i]
            <= 'Z' && b[i] as u32 == a[i] as u32 + 32 || 'A' <= b[i] <= 'Z' && a[i] as u32 == b[i]
            as u32 + 32 by {
            assert(ascii_lower(a[i]) == ascii_lower(b[i]));
        }
    }
}

/// A path below a base begins with the base and ends with what is below it, with one slash between
/// the two; below no base it is what it was.
pub proof fn paths_below_keep_both_parts(base: Seq<char>, relative: Seq<char>)
    ensures
        begins(below(base, relative), base),
        ends(below(base, relative), relative),
        base.len() == 0 ==> below(base, relative) == relative,
        base.len() > 0 && base.last() == '/' ==> below(base, relative).len() == base.len()
            + relative.len(),
        base.len() > 0 && base.last() != '/' ==> below(base, relative).len() == base.len()
            + relative.len() + 1 && below(base, relative)[base.len() as int] == '/',
{
    reveal_strlit("/");
    let path = below(base, relative);
    assert(path.take(base.len() as int) =~= base);
    assert(path.skip(path.len() - relative.len()) =~= relative);
    if base.len() == 0 {
        assert(path =~= relative);
    }
}

/// A failed command is explained by what it wrote, and where it wrote nothing by its status.
pub proof fn failures_are_explained(output: Finished, otherwise: Seq<char>)
    ensures
        !blank(output.stderr@) ==> failure_text(output, otherwise) == trim(output.stderr@),
        blank(output.stderr@) ==> begins(failure_text(output, otherwise), otherwise) && ends(
            failure_text(output, otherwise),
            output.status@,
        ) && failure_text(output, otherwise).len() == otherwise.len() + output.status@.len(),
{
    let bounds = trimming_takes_off_the_ends(output.stderr@);
    let text = otherwise + output.status@;
    assert(text.take(otherwise.len() as int) =~= otherwise);
    assert(text.skip(text.len() - output.status@.len()) =~= output.status@);
}

} // verus!
