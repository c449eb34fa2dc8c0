//! Small questions about text, each with the sequence of characters it
//! means.

use vstd::prelude::*;
use vstd::string::*;

verus! {

/// `String::push`: the text grows by one character at its end.
pub assume_specification[ String::push ](s: &mut String, c: char)
    ensures
        final(s)@ == old(s)@.push(c),
;

/// What `str::to_lowercase` makes of a text: the lowercase of every
/// character, as Unicode defines it.
pub uninterp spec fn lowercase(text: Seq<char>) -> Seq<char>;

/// `str::to_lowercase`: the result is a function of the text alone.
#[verifier::external_body]
pub(crate) fn to_lowercase(text: &str) -> (lower: String)
    ensures
        lower@ == lowercase(text@),
{
    text.to_lowercase()
}

/// What `String::from_utf8_lossy` reads from bytes.
pub uninterp spec fn utf8_lossy(bytes: Seq<u8>) -> Seq<char>;

/// `String::from_utf8_lossy`: the result is a function of the bytes alone,
/// and bytes that are UTF-8 come back as the text they encode.
#[verifier::external_body]
pub(crate) fn from_utf8_lossy(bytes: &[u8]) -> (text: String)
    ensures
        text@ == utf8_lossy(bytes@),
        vstd::utf8::valid_utf8(bytes@) ==> vstd::utf8::encode_utf8(text@) == bytes@,
{
    String::from_utf8_lossy(bytes).to_string()
}

/// Whether a character has Unicode's White_Space property.
pub open spec fn whitespace(c: char) -> bool {
    let n = c as u32;
    ||| 0x9 <= n <= 0xd
    ||| n == 0x20
    ||| n == 0x85
    ||| n == 0xa0
    ||| n == 0x1680
    ||| 0x2000 <= n <= 0x200a
    ||| n == 0x2028
    ||| n == 0x2029
    ||| n == 0x202f
    ||| n == 0x205f
    ||| n == 0x3000
}

/// The number of a character.
fn number(c: char) -> (n: u32)
    ensures
        n == c as int,
{
    c as u32
}

/// Whether a character has Unicode's White_Space property.
pub fn is_whitespace(c: char) -> (white: bool)
    ensures
        white == whitespace(c),
{
    let n = number(c);
    (0x9 <= n && n <= 0xd) || n == 0x20 || n == 0x85 || n == 0xa0 || n == 0x1680 || (0x2000 <= n
        && n <= 0x200a) || n == 0x2028 || n == 0x2029 || n == 0x202f || n == 0x205f || n == 0x3000
}

/// The characters of a text, in a vector.
pub fn chars_of(text: &str) -> (chars: Vec<char>)
    ensures
        chars@ == text@,
{
    let mut chars: Vec<char> = Vec::new();
    for c in it: text.chars()
        invariant
            chars@ == text@.take(it.index() as int),
            it.seq() == text@,
    {
        chars.push(c);
        assert(text@.take(it.index() as int).push(c) =~= text@.take(it.index() + 1));
    }
    assert(text@.take(text@.len() as int) =~= text@);
    chars
}

/// The characters from `from` up to, not including, `to`, as a text.
pub fn text_of(chars: &Vec<char>, from: usize, to: usize) -> (text: String)
    requires
        from <= to <= chars@.len(),
    ensures
        text@ == chars@.subrange(from as int, to as int),
{
    let mut text = String::new();
    let mut k: usize = from;
    while k < to
        invariant
            from <= k <= to <= chars@.len(),
            text@ == chars@.subrange(from as int, k as int),
        decreases to - k,
    {
        text.push(chars[k]);
        assert(chars@.subrange(from as int, k as int).push(chars@[k as int])
            =~= chars@.subrange(from as int, k + 1));
        k = k + 1;
    }
    text
}

/// Whether two texts are the same.
pub fn same(a: &str, b: &str) -> (equal: bool)
    ensures
        equal == (a@ == b@),
{
    let x = a.to_string();
    let y = b.to_string();
    x == y
}

/// What is left of `a` when `b` is taken away, nothing at least.
pub open spec fn less(a: nat, b: nat) -> nat {
    if a < b {
        0
    } else {
        (a - b) as nat
    }
}

/// A run of `n` spaces.
pub open spec fn blanks(n: nat) -> Seq<char> {
    Seq::new(n, |i: int| ' ')
}

/// A run of `n` spaces.
pub fn spaces(n: usize) -> (run: String)
    ensures
        run@ == blanks(n as nat),
{
    let mut run = String::new();
    let mut k: usize = 0;
    while k < n
        invariant
            k <= n,
            run@ == blanks(k as nat),
        decreases n - k,
    {
        run.push(' ');
        assert(blanks(k as nat).push(' ') =~= blanks((k + 1) as nat));
        k = k + 1;
    }
    run
}

/// The decimal digit of a number below ten.
pub open spec fn digit(n: nat) -> char {
    (n + 48) as char
}

/// A number in decimal, without leading zeros.
pub open spec fn decimal(n: nat) -> Seq<char>
    decreases n,
{
    if n < 10 {
        seq![digit(n)]
    } else {
        decimal(n / 10).push(digit(n % 10))
    }
}

/// How many characters stand before the first `c`: all of them when there
/// is none.
pub open spec fn until(text: Seq<char>, c: char) -> nat
    decreases text.len(),
{
    if text.len() == 0 || text[0] == c {
        0
    } else {
        1 + until(text.drop_first(), c)
    }
}

/// `until` finds the first `c`, and nothing before it.
pub proof fn until_is_first(text: Seq<char>, c: char)
    ensures
        until(text, c) <= text.len(),
        until(text, c) < text.len() ==> text[until(text, c) as int] == c,
        forall|i: int| 0 <= i < until(text, c) ==> text[i] != c,
    decreases text.len(),
{
    if text.len() > 0 && text[0] != c {
        until_is_first(text.drop_first(), c);
        assert forall|i: int| 0 <= i < until(text, c) implies text[i] != c by {
            if i > 0 {
                assert(text.drop_first()[i - 1] == text[i]);
            }
        }
    }
}

/// Whatever has no `c` before `n` and a `c` at `n`, or ends at `n`, is
/// what `until` counts.
pub proof fn until_unique(text: Seq<char>, c: char, n: int)
    requires
        0 <= n <= text.len(),
        forall|i: int| 0 <= i < n ==> text[i] != c,
        n < text.len() ==> text[n] == c,
    ensures
        until(text, c) == n,
{
    until_is_first(text, c);
    if until(text, c) < n {
        assert(text[until(text, c) as int] != c);
    }
}

/// Where the first `c` stands from `from` on, or the length.
pub fn find_char(chars: &Vec<char>, from: usize, c: char) -> (at: usize)
    requires
        from <= chars@.len(),
    ensures
        from <= at <= chars@.len(),
        at - from == until(chars@.skip(from as int), c),
{
    let mut k: usize = from;
    while k < chars.len() && chars[k] != c
        invariant
            from <= k <= chars@.len(),
            forall|i: int| from <= i < k ==> chars@[i] != c,
        decreases chars@.len() - k,
    {
        k = k + 1;
    }
    proof {
        until_unique(chars@.skip(from as int), c, k - from);
    }
    k
}

/// A text without the whitespace at its two ends.
pub open spec fn trimmed(text: Seq<char>) -> Seq<char>
    decreases text.len(),
{
    if text.len() == 0 {
        text
    } else if whitespace(text.first()) {
        trimmed(text.drop_first())
    } else if whitespace(text.last()) {
        trimmed(text.drop_last())
    } else {
        text
    }
}

/// A text without the whitespace at its two ends.
pub fn trim(text: &str) -> (core: String)
    ensures
        core@ == trimmed(text@),
{
    let chars = chars_of(text);
    let mut from: usize = 0;
    let mut to: usize = chars.len();
    assert(chars@.subrange(0, to as int) =~= text@);
    while from < to && is_whitespace(chars[from])
        invariant
            from <= to == chars@.len(),
            trimmed(chars@.subrange(from as int, to as int)) == trimmed(text@),
        ensures
            from <= to == chars@.len(),
            trimmed(chars@.subrange(from as int, to as int)) == trimmed(text@),
            from < to ==> !whitespace(chars@[from as int]),
        decreases to - from,
    {
        assert(chars@.subrange(from as int, to as int).drop_first() =~= chars@.subrange(
            from + 1,
            to as int,
        ));
        from = from + 1;
    }
    while from < to && is_whitespace(chars[to - 1])
        invariant
            from <= to <= chars@.len(),
            trimmed(chars@.subrange(from as int, to as int)) == trimmed(text@),
            from < to ==> !whitespace(chars@[from as int]),
        ensures
            from <= to <= chars@.len(),
            trimmed(chars@.subrange(from as int, to as int)) == trimmed(text@),
            from < to ==> !whitespace(chars@[from as int]),
            from < to ==> !whitespace(chars@[to - 1]),
        decreases to - from,
    {
        assert(chars@.subrange(from as int, to as int).drop_last() =~= chars@.subrange(
            from as int,
            to - 1,
        ));
        to = to - 1;
    }
    text_of(&chars, from, to)
}

/// A line that a line feed ended, without the carriage return that may
/// stand before it.
pub open spec fn without_return(line: Seq<char>) -> Seq<char> {
    if line.len() > 0 && line.last() == '\r' {
        line.drop_last()
    } else {
        line
    }
}

/// The lines of a text: each ends with a line feed, or with a carriage
/// return and a line feed, neither part of it; the last line may end with
/// the text.
pub open spec fn lines_of(text: Seq<char>) -> Seq<Seq<char>>
    decreases text.len(),
{
    let end = until(text, '\n');
    if text.len() == 0 {
        seq![]
    } else if end >= text.len() {
        seq![text]
    } else {
        seq![without_return(text.take(end as int))] + lines_of(text.skip(end as int + 1))
    }
}

/// The lines of a text.
pub fn lines(text: &str) -> (found: Vec<String>)
    ensures
        found.deep_view() == lines_of(text@),
{
    let chars = chars_of(text);
    let mut found: Vec<String> = Vec::new();
    let mut from: usize = 0;
    assert(chars@.skip(0) =~= text@);
    assert(found.deep_view() =~= Seq::<Seq<char>>::empty());
    assert(found.deep_view() + lines_of(text@) =~= lines_of(text@));
    while from < chars.len()
        invariant
            from <= chars@.len(),
            found.deep_view() + lines_of(chars@.skip(from as int)) == lines_of(text@),
        decreases chars@.len() - from,
    {
        let end = find_char(&chars, from, '\n');
        let ghost rest = chars@.skip(from as int);
        let ghost before = found.deep_view();
        if end == chars.len() {
            let line = text_of(&chars, from, end);
            assert(line@ =~= rest);
            found.push(line);
            from = end;
            assert(chars@.skip(from as int).len() == 0);
            assert(found.deep_view() =~= before + seq![rest]);
            assert(found.deep_view() + lines_of(chars@.skip(from as int)) =~= before + seq![rest]);
        } else {
            let stop = if end > from && chars[end - 1] == '\r' {
                end - 1
            } else {
                end
            };
            let line = text_of(&chars, from, stop);
            assert(line@ =~= without_return(rest.take(end - from)));
            found.push(line);
            assert(rest.skip(end - from + 1) =~= chars@.skip(end + 1));
            assert(found.deep_view() =~= before + seq![line@]);
            assert(found.deep_view() + lines_of(chars@.skip(end + 1)) =~= before + (seq![line@]
                + lines_of(chars@.skip(end + 1))));
            from = end + 1;
        }
    }
    assert(found.deep_view() + lines_of(chars@.skip(from as int)) =~= found.deep_view());
    found
}

/// Where the text after the last `": "` starts, among the first `n`
/// characters: at the start when there is none.
pub open spec fn after_colon(text: Seq<char>, n: nat) -> nat
    decreases n,
{
    if n < 2 {
        0
    } else if text[n - 2] == ':' && text[n - 1] == ' ' {
        n
    } else {
        after_colon(text, (n - 1) as nat)
    }
}

/// What stands after the last `": "`, or all of a text without one.
pub open spec fn shortened(text: Seq<char>) -> Seq<char> {
    text.skip(after_colon(text, text.len()) as int)
}

/// Where `after_colon` stands there is a `": "` before it, unless it is the
/// start, and none after it.
proof fn after_colon_is_last(text: Seq<char>, n: nat)
    requires
        n <= text.len(),
    ensures
        after_colon(text, n) <= n,
        after_colon(text, n) > 0 ==> after_colon(text, n) >= 2 && text[after_colon(text, n) - 2]
            == ':' && text[after_colon(text, n) - 1] == ' ',
        forall|i: int|
            after_colon(text, n) <= i < n - 1 && #[trigger] text[i] == ':' ==> text[i + 1] != ' ',
    decreases n,
{
    if n >= 2 && !(text[n - 2] == ':' && text[n - 1] == ' ') {
        after_colon_is_last(text, (n - 1) as nat);
    }
}

/// A text without a `": "` is short already.
proof fn short_already(text: Seq<char>, n: nat)
    requires
        n <= text.len(),
        forall|i: int| 0 <= i < n - 1 && #[trigger] text[i] == ':' ==> text[i + 1] != ' ',
    ensures
        after_colon(text, n) == 0,
    decreases n,
{
    if n >= 2 {
        assert(!(text[n - 2] == ':' && text[n - 1] == ' '));
        short_already(text, (n - 1) as nat);
    }
}

/// What is left of a text is its end, from its start or from behind a
/// `": "`; it holds no `": "`, and to shorten it again changes nothing.
pub proof fn shortened_law(text: Seq<char>)
    ensures
        shortened(text).is_suffix_of(text),
        shortened(text).len() < text.len() ==> {
            let at = text.len() - shortened(text).len();
            at >= 2 && text[at - 2] == ':' && text[at - 1] == ' '
        },
        forall|i: int|
            0 <= i < shortened(text).len() - 1 && #[trigger] shortened(text)[i] == ':'
                ==> shortened(text)[i + 1] != ' ',
        shortened(shortened(text)) == shortened(text),
{
    let short = shortened(text);
    let at = after_colon(text, text.len()) as int;
    after_colon_is_last(text, text.len());
    assert forall|i: int| 0 <= i < short.len() - 1 && #[trigger] short[i] == ':' implies short[i
        + 1] != ' ' by {
        assert(text[at + i] == ':');
    }
    short_already(short, short.len());
    assert(short.skip(0) =~= short);
    assert(text.subrange(at, text.len() as int) =~= short);
}

/// What stands after the last `": "`, or all of a text without one.
pub fn last_part(text: &str) -> (part: String)
    ensures
        part@ == shortened(text@),
{
    let chars = chars_of(text);
    let mut n: usize = chars.len();
    while n >= 2 && !(chars[n - 2] == ':' && chars[n - 1] == ' ')
        invariant
            n <= chars@.len(),
            chars@ == text@,
            after_colon(text@, n as nat) == after_colon(text@, text@.len()),
        decreases n,
    {
        n = n - 1;
    }
    let from = if n >= 2 {
        n
    } else {
        0
    };
    let part = text_of(&chars, from, chars.len());
    assert(part@ =~= text@.skip(from as int));
    part
}

/// A text without the characters `c` at its end.
pub open spec fn without_end(text: Seq<char>, c: char) -> Seq<char>
    decreases text.len(),
{
    if text.len() > 0 && text.last() == c {
        without_end(text.drop_last(), c)
    } else {
        text
    }
}

/// A text without the characters `c` at its end.
pub fn trim_end_char(text: &str, c: char) -> (short: String)
    ensures
        short@ == without_end(text@, c),
{
    let chars = chars_of(text);
    let mut to: usize = chars.len();
    assert(chars@.take(to as int) =~= text@);
    while to > 0 && chars[to - 1] == c
        invariant
            to <= chars@.len(),
            without_end(chars@.take(to as int), c) == without_end(text@, c),
        decreases to,
    {
        assert(chars@.take(to as int).drop_last() =~= chars@.take(to - 1));
        to = to - 1;
    }
    let short = text_of(&chars, 0, to);
    assert(short@ =~= chars@.take(to as int));
    short
}

/// Whether `part` stands in `text` at `at`.
pub open spec fn stands_at(text: Seq<char>, at: int, part: Seq<char>) -> bool {
    0 <= at && at + part.len() <= text.len() && text.subrange(at, at + part.len()) == part
}

/// Whether `part` stands in `text` at `at`.
pub fn is_at(text: &Vec<char>, at: usize, part: &Vec<char>) -> (here: bool)
    requires
        at <= text@.len(),
    ensures
        here == stands_at(text@, at as int, part@),
{
    if part.len() > text.len() - at {
        return false;
    }
    let mut k: usize = 0;
    while k < part.len()
        invariant
            k <= part@.len(),
            at + part@.len() <= text.len(),
            forall|i: int| 0 <= i < k ==> text@[at + i] == part@[i],
        decreases part@.len() - k,
    {
        if text[at + k] != part[k] {
            assert(text@.subrange(at as int, at + part@.len())[k as int] != part@[k as int]);
            return false;
        }
        k = k + 1;
    }
    assert(text@.subrange(at as int, at + part@.len()) =~= part@);
    true
}

/// A text without the copies of `part` at its end.
pub open spec fn without_end_part(text: Seq<char>, part: Seq<char>) -> Seq<char>
    decreases text.len(),
{
    if part.len() > 0 && stands_at(text, text.len() - part.len(), part) {
        without_end_part(text.take(text.len() - part.len()), part)
    } else {
        text
    }
}

/// A text without the copies of `part` at its end.
pub fn trim_end_part(text: &str, part: &str) -> (short: String)
    ensures
        short@ == without_end_part(text@, part@),
{
    let chars = chars_of(text);
    let piece = chars_of(part);
    let mut to: usize = chars.len();
    let mut more = true;
    assert(chars@.take(to as int) =~= text@);
    while more
        invariant
            to <= chars@.len(),
            chars@ == text@,
            piece@ == part@,
            without_end_part(chars@.take(to as int), part@) == without_end_part(text@, part@),
            !more ==> without_end_part(chars@.take(to as int), part@) == chars@.take(to as int),
        decreases to, if more { 1int } else { 0 },
    {
        let size = piece.len();
        let ghost here = chars@.take(to as int);
        if size > 0 && size <= to && is_at(&chars, to - size, &piece) {
            assert(here.subrange(to - size, to as int) =~= chars@.subrange(to - size, to as int));
            assert(here.take(to - size) =~= chars@.take(to - size));
            to = to - size;
        } else {
            assert(size <= to ==> here.subrange(to - size, to as int) =~= chars@.subrange(
                to - size,
                to as int,
            ));
            more = false;
        }
    }
    let short = text_of(&chars, 0, to);
    assert(short@ =~= chars@.take(to as int));
    short
}

/// A text with every copy of `part`, taken from the left, turned into
/// `with`. An empty part stands nowhere.
pub open spec fn replaced(text: Seq<char>, part: Seq<char>, with: Seq<char>) -> Seq<char>
    decreases text.len(),
{
    if text.len() == 0 {
        text
    } else if part.len() > 0 && stands_at(text, 0, part) {
        with + replaced(text.skip(part.len() as int), part, with)
    } else {
        seq![text[0]] + replaced(text.skip(1), part, with)
    }
}

/// A text with every copy of `part`, taken from the left, turned into
/// `with`.
pub fn replace(text: &str, part: &str, with: &str) -> (new: String)
    ensures
        new@ == replaced(text@, part@, with@),
{
    let chars = chars_of(text);
    let piece = chars_of(part);
    let mut new = String::new();
    let mut k: usize = 0;
    assert(chars@.skip(0) =~= text@);
    assert(new@ + replaced(text@, part@, with@) =~= replaced(text@, part@, with@));
    while k < chars.len()
        invariant
            k <= chars@.len(),
            piece@ == part@,
            new@ + replaced(chars@.skip(k as int), part@, with@) == replaced(text@, part@, with@),
        decreases chars@.len() - k,
    {
        let ghost rest = chars@.skip(k as int);
        let ghost before = new@;
        assert(k + part@.len() <= chars@.len() ==> rest.subrange(0, part@.len() as int)
            =~= chars@.subrange(k as int, k + part@.len()));
        if piece.len() > 0 && is_at(&chars, k, &piece) {
            new.append(with);
            assert(rest.skip(part@.len() as int) =~= chars@.skip(k + part@.len()));
            assert(new@ + replaced(chars@.skip(k + part@.len()), part@, with@) =~= before + (with@
                + replaced(chars@.skip(k + part@.len()), part@, with@)));
            k = k + piece.len();
        } else {
            new.push(chars[k]);
            assert(rest.skip(1) =~= chars@.skip(k + 1));
            assert(new@ + replaced(chars@.skip(k + 1), part@, with@) =~= before + (seq![rest[0]]
                + replaced(chars@.skip(k + 1), part@, with@)));
            k = k + 1;
        }
    }
    assert(new@ + replaced(chars@.skip(k as int), part@, with@) =~= new@);
    new
}

/// Whether a text sorts strictly before another: by the first character
/// in which they differ, or by being the beginning of the other.
pub open spec fn sorts_before(a: Seq<char>, b: Seq<char>) -> bool
    decreases a.len(),
{
    if b.len() == 0 {
        false
    } else if a.len() == 0 {
        true
    } else if a[0] != b[0] {
        (a[0] as int) < (b[0] as int)
    } else {
        sorts_before(a.drop_first(), b.drop_first())
    }
}

/// Whether a text sorts strictly before another.
pub fn comes_before(a: &str, b: &str) -> (before: bool)
    ensures
        before == sorts_before(a@, b@),
{
    let x = chars_of(a);
    let y = chars_of(b);
    let mut k: usize = 0;
    assert(x@.skip(0) =~= a@);
    assert(y@.skip(0) =~= b@);
    while k < x.len() && k < y.len()
        invariant
            k <= x@.len(),
            k <= y@.len(),
            sorts_before(x@.skip(k as int), y@.skip(k as int)) == sorts_before(a@, b@),
        decreases x@.len() - k,
    {
        if x[k] != y[k] {
            return number(x[k]) < number(y[k]);
        }
        assert(x@.skip(k as int).drop_first() =~= x@.skip(k + 1));
        assert(y@.skip(k as int).drop_first() =~= y@.skip(k + 1));
        k = k + 1;
    }
    k < y.len()
}

/// No text sorts before itself.
pub proof fn sorts_before_irreflexive(a: Seq<char>)
    ensures
        !sorts_before(a, a),
    decreases a.len(),
{
    if a.len() > 0 {
        sorts_before_irreflexive(a.drop_first());
    }
}

/// What sorts before a text sorts before all that the text sorts before.
pub proof fn sorts_before_transitive(a: Seq<char>, b: Seq<char>, c: Seq<char>)
    requires
        sorts_before(a, b),
        sorts_before(b, c),
    ensures
        sorts_before(a, c),
    decreases a.len(),
{
    if a.len() > 0 && a[0] == b[0] && b[0] == c[0] {
        sorts_before_transitive(a.drop_first(), b.drop_first(), c.drop_first());
    }
}

/// Of two different texts one sorts before the other.
pub proof fn sorts_before_total(a: Seq<char>, b: Seq<char>)
    ensures
        a == b || sorts_before(a, b) || sorts_before(b, a),
    decreases a.len(),
{
    if a.len() > 0 && b.len() > 0 && a[0] == b[0] {
        sorts_before_total(a.drop_first(), b.drop_first());
        if a.drop_first() == b.drop_first() {
            assert(a =~= seq![a[0]] + a.drop_first());
            assert(b =~= seq![b[0]] + b.drop_first());
        }
    } else if a.len() == 0 && b.len() == 0 {
        assert(a =~= b);
    }
}

/// Whether a text is on a list.
pub fn holds(list: &Vec<String>, name: &str) -> (there: bool)
    ensures
        there == list.deep_view().contains(name@),
{
    let ghost all = list.deep_view();
    let mut k: usize = 0;
    while k < list.len()
        invariant
            k <= list@.len(),
            all == list.deep_view(),
            forall|i: int| 0 <= i < k ==> #[trigger] all[i] != name@,
        decreases list@.len() - k,
    {
        if same(list[k].as_str(), name) {
            assert(all[k as int] == name@);
            return true;
        }
        assert(all[k as int] != name@);
        k = k + 1;
    }
    false
}

} // verus!
