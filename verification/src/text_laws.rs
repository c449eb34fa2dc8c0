//! What the small questions about text mean, told by the characters.

use vstd::prelude::*;

use crate::text::{
    blanks, decimal, lines_of, replaced, sorts_before, stands_at, trimmed, until, until_unique,
    whitespace,
};

verus! {

/// White space is the tab and the four characters behind it, the space, and
/// the spaces and line ends beyond ASCII; no other character is.
pub proof fn whitespace_law(c: char)
    ensures
        whitespace(c) <==> c == '\t' || c == '\n' || c == '\u{b}' || c == '\u{c}' || c == '\r' || c
            == ' ' || c == '\u{85}' || c == '\u{a0}' || c == '\u{1680}' || '\u{2000}' <= c
            <= '\u{200a}' || c == '\u{2028}' || c == '\u{2029}' || c == '\u{202f}' || c == '\u{205f}'
            || c == '\u{3000}',
{
}

/// What is left of a text without the whitespace at its ends is a stretch of
/// it; all that went is whitespace, and what is left has none at its ends.
pub proof fn trimmed_law(text: Seq<char>) -> (from: int)
    ensures
        0 <= from <= from + trimmed(text).len() <= text.len(),
        trimmed(text) == text.subrange(from, from + trimmed(text).len()),
        forall|i: int| 0 <= i < from ==> whitespace(#[trigger] text[i]),
        forall|i: int| from + trimmed(text).len() <= i < text.len() ==> whitespace(
            #[trigger] text[i],
        ),
        trimmed(text).len() > 0 ==> !whitespace(trimmed(text)[0]) && !whitespace(
            trimmed(text)[trimmed(text).len() - 1],
        ),
    decreases text.len(),
{
    if text.len() == 0 {
        assert(text.subrange(0, 0) =~= text);
        0
    } else if whitespace(text.first()) {
        let rest = text.drop_first();
        let at = trimmed_law(rest);
        let n = trimmed(text).len() as int;
        assert(rest.subrange(at, at + n) =~= text.subrange(at + 1, at + 1 + n));
        assert forall|i: int| 0 <= i < at + 1 implies whitespace(#[trigger] text[i]) by {
            if i > 0 {
                assert(text[i] == rest[i - 1]);
            }
        }
        assert forall|i: int| at + 1 + n <= i < text.len() implies whitespace(#[trigger] text[i]) by {
            assert(text[i] == rest[i - 1]);
        }
        at + 1
    } else if whitespace(text.last()) {
        let rest = text.drop_last();
        let at = trimmed_law(rest);
        let n = trimmed(text).len() as int;
        assert(rest.subrange(at, at + n) =~= text.subrange(at, at + n));
        assert forall|i: int| 0 <= i < at implies whitespace(#[trigger] text[i]) by {
            assert(text[i] == rest[i]);
        }
        assert forall|i: int| at + n <= i < text.len() implies whitespace(#[trigger] text[i]) by {
            if i < rest.len() {
                assert(text[i] == rest[i]);
            }
        }
        at
    } else {
        assert(text.subrange(0, text.len() as int) =~= text);
        0
    }
}

/// A stretch of a text with nothing but whitespace around it, and none at
/// its own ends, is what is left of it.
pub proof fn trimmed_is(text: Seq<char>, from: int, to: int)
    requires
        0 <= from <= to <= text.len(),
        forall|i: int| 0 <= i < from ==> whitespace(#[trigger] text[i]),
        forall|i: int| to <= i < text.len() ==> whitespace(#[trigger] text[i]),
        from < to ==> !whitespace(text[from]) && !whitespace(text[to - 1]),
    ensures
        trimmed(text) == text.subrange(from, to),
{
    let at = trimmed_law(text);
    let end = at + trimmed(text).len();
    if from < to {
        if at == end {
            assert(whitespace(text[from]));
        }
        if at < from {
            assert(whitespace(text[at]));
        }
        if from < at {
            assert(whitespace(text[from]));
        }
        if end < to {
            assert(whitespace(text[to - 1]));
        }
        if to < end {
            assert(whitespace(text[end - 1]));
        }
    } else {
        if at < end {
            if at < from {
                assert(whitespace(text[at]));
            } else {
                assert(whitespace(text[at]));
            }
        }
        assert(trimmed(text) =~= text.subrange(from, to));
    }
}

/// The lines of a text: a line that a line feed ends, without a carriage
/// return before that, and then the lines of the rest; a last line without
/// an end as it is; and none of no text.
pub proof fn lines_law(line: Seq<char>, rest: Seq<char>)
    requires
        !line.contains('\n'),
    ensures
        lines_of(Seq::empty()).len() == 0,
        line.len() > 0 ==> lines_of(line) == seq![line],
        line.len() > 0 && line.last() == '\r' ==> lines_of(line + seq!['\n'] + rest) == seq![
            line.drop_last(),
        ] + lines_of(rest),
        line.len() == 0 || line.last() != '\r' ==> lines_of(line + seq!['\n'] + rest) == seq![line]
            + lines_of(rest),
{
    let all = line + seq!['\n'] + rest;
    let n = line.len() as int;
    assert forall|i: int| 0 <= i < n implies line[i] != '\n' by {
        assert(line.contains(line[i]));
    }
    until_unique(line, '\n', n);
    until_unique(all, '\n', n);
    assert(all.take(n) =~= line);
    assert(all.skip(n + 1) =~= rest);
}

/// One text sorts before another when they agree up to a place where the
/// first has ended and the second has not, or where the first has the lower
/// character.
pub proof fn sorts_before_law(a: Seq<char>, b: Seq<char>, k: int)
    requires
        0 <= k <= a.len(),
        k <= b.len(),
        forall|i: int| 0 <= i < k ==> a[i] == b[i],
    ensures
        k == a.len() && k < b.len() ==> sorts_before(a, b),
        k == b.len() ==> !sorts_before(a, b),
        k < a.len() && k < b.len() && a[k] != b[k] ==> (sorts_before(a, b) <==> (a[k] as int) < (
        b[k] as int)),
    decreases k,
{
    if k > 0 {
        let x = a.drop_first();
        let y = b.drop_first();
        assert forall|i: int| 0 <= i < k - 1 implies x[i] == y[i] by {
            assert(x[i] == a[i + 1] && y[i] == b[i + 1]);
        }
        sorts_before_law(x, y, k - 1);
        assert(a[0] == b[0]);
    }
}

/// Replacing puts the new text where the part stood at the front, and goes
/// on behind it; elsewhere it keeps the first character.
pub proof fn replaced_law(text: Seq<char>, part: Seq<char>, with: Seq<char>, c: char)
    requires
        part.len() > 0,
    ensures
        replaced(Seq::empty(), part, with).len() == 0,
        replaced(part + text, part, with) == with + replaced(text, part, with),
        !stands_at(seq![c] + text, 0, part) ==> replaced(seq![c] + text, part, with) == seq![c]
            + replaced(text, part, with),
{
    let all = part + text;
    assert(all.subrange(0, part.len() as int) =~= part);
    assert(all.skip(part.len() as int) =~= text);
    let one = seq![c] + text;
    assert(one.skip(1) =~= text);
}

/// A run of spaces is that many spaces.
pub proof fn blanks_law(n: nat, i: int)
    ensures
        blanks(n).len() == n,
        0 <= i < n ==> blanks(n)[i] == ' ',
{
}

/// Where the first of a character stands, or the length when there is none.
pub proof fn until_law(text: Seq<char>, c: char, n: int)
    requires
        0 <= n <= text.len(),
        forall|i: int| 0 <= i < n ==> text[i] != c,
        n < text.len() ==> text[n] == c,
    ensures
        until(text, c) == n,
{
    until_unique(text, c, n);
}

/// The number that digits stand for.
pub open spec fn number_of(digits: Seq<char>) -> nat
    decreases digits.len(),
{
    if digits.len() == 0 {
        0
    } else {
        10 * number_of(digits.drop_last()) + (digits.last() as nat - '0' as nat) as nat
    }
}

/// A number is written with digits alone, the first of which is no zero but
/// for zero itself, and reading them gives the number back.
pub proof fn decimal_law(n: nat)
    ensures
        decimal(n).len() > 0,
        forall|i: int| 0 <= i < decimal(n).len() ==> '0' <= #[trigger] decimal(n)[i] <= '9',
        n > 0 ==> decimal(n)[0] != '0',
        number_of(decimal(n)) == n,
    decreases n,
{
    let last = (n % 10 + 48) as char;
    assert(last as nat == n % 10 + 48);
    if n < 10 {
        reveal_with_fuel(number_of, 2);
        assert(decimal(n).drop_last() =~= Seq::<char>::empty());
    } else {
        decimal_law(n / 10);
        assert(decimal(n).drop_last() =~= decimal(n / 10));
        assert(decimal(n)[0] == decimal(n / 10)[0]);
        assert(decimal(n).last() == last);
    }
}

} // verus!
