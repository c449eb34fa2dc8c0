//! How the width of a text comes from that of its parts: control sequences
//! take no cells, and what follows a whole glyph is counted on its own.

use vstd::prelude::*;

use crate::term::{
    attribute, attributes, cells, colour, continues, display_cells, last_cells, letter, listed,
    moved, painted, pending, place_after, place_next, plain, reset, tidy, visible, Place, Rgb, ESC,
    JOINER, SELECTOR,
};
use crate::text::{blanks, decimal, digit, replaced, stands_at};

verus! {

/// A text without control sequences is seen as it is.
pub proof fn plain_visible(text: Seq<char>)
    requires
        plain(text),
    ensures
        clean(text),
        wordless(text),
        visible(text) == text,
        display_cells(text) == cells(text),
    decreases text.len(),
{
    assert forall|i: int| 0 <= i < text.len() - 1 && #[trigger] text[i] == ESC implies text[i + 1]
        != ']' by {
        assert(text.contains(text[i]));
    }
    if text.len() > 0 {
        let short = text.drop_last();
        assert(text.contains(text[text.len() - 1]));
        assert(plain(short)) by {
            if short.contains(ESC) {
                let i = choose|i: int| 0 <= i < short.len() && short[i] == ESC;
                assert(text[i] == ESC);
            }
        }
        plain_visible(short);
        assert(short.push(text.last()) =~= text);
    }
}

/// Whether a text is read as it is alone after it: its sequences are
/// complete, and none leaves a mark on the next control string.
pub open spec fn clean(text: Seq<char>) -> bool {
    place_after(text) == (Place::Text { kept: false })
}

/// After such a text the next one is read as it is alone.
pub proof fn visible_joined(a: Seq<char>, b: Seq<char>)
    requires
        clean(a),
    ensures
        place_after(a + b) == place_after(b),
        visible(a + b) == visible(a) + visible(b),
    decreases b.len(),
{
    if b.len() == 0 {
        assert(a + b =~= a);
        assert(visible(a) + visible(b) =~= visible(a));
    } else {
        visible_joined(a, b.drop_last());
        assert((a + b).drop_last() =~= a + b.drop_last());
        assert(visible(a + b) =~= visible(a) + visible(b));
    }
}

/// Whether a text starts no control string.
pub open spec fn wordless(text: Seq<char>) -> bool {
    forall|i: int| 0 <= i < text.len() - 1 && #[trigger] text[i] == ESC ==> text[i + 1] != ']'
}

/// The place after a text that is read at another place than the start,
/// when it starts no control string.
pub open spec fn with_kept(place: Place, kept: bool) -> Place {
    match place {
        Place::Text { .. } => Place::Text { kept },
        Place::Escape { .. } => Place::Escape { kept },
        Place::Codes { .. } => Place::Codes { kept },
        other => other,
    }
}

/// After a text whose sequences are complete one that starts no control
/// string is read as it is alone.
pub proof fn visible_followed(a: Seq<char>, b: Seq<char>)
    requires
        tidy(a),
        wordless(b),
    ensures
        !(place_after(b) is Words) && !(place_after(b) is WordsEnd),
        place_after(a + b) == with_kept(place_after(b), place_after(a)->Text_kept),
        visible(a + b) == visible(a) + visible(b),
    decreases b.len(),
{
    if b.len() == 0 {
        assert(a + b =~= a);
        assert(visible(a) + visible(b) =~= visible(a));
    } else {
        let short = b.drop_last();
        assert forall|i: int| 0 <= i < short.len() - 1 && #[trigger] short[i] == ESC implies short[i
            + 1] != ']' by {
            assert(b[i] == ESC);
        }
        visible_followed(a, short);
        assert((a + b).drop_last() =~= a + short);
        if place_after(short) is Escape {
            let last = short.len() - 1;
            assert(short[last] == ESC);
            assert(b[last] == ESC);
            assert(b[last + 1] == b.last());
        }
        assert(visible(a + b) =~= visible(a) + visible(b));
    }
}

/// Two texts that are read alike so far are read alike with the same text
/// after them.
proof fn read_alike(a: Seq<char>, b: Seq<char>, rest: Seq<char>)
    requires
        place_after(a) == place_after(b),
        visible(a) == visible(b),
    ensures
        place_after(a + rest) == place_after(b + rest),
        visible(a + rest) == visible(b + rest),
    decreases rest.len(),
{
    if rest.len() == 0 {
        assert(a + rest =~= a);
        assert(b + rest =~= b);
    } else {
        read_alike(a, b, rest.drop_last());
        assert((a + rest).drop_last() =~= a + rest.drop_last());
        assert((b + rest).drop_last() =~= b + rest.drop_last());
    }
}

/// Whether a text holds nothing but what stands in a sequence before its
/// letter.
pub open spec fn numeric(text: Seq<char>) -> bool {
    forall|i: int| 0 <= i < text.len() ==> '0' <= #[trigger] text[i] <= '9' || text[i] == ';'
}

/// A number in decimal is numeric.
proof fn decimal_numeric(n: nat)
    ensures
        numeric(decimal(n)),
    decreases n,
{
    assert(forall|d: nat| d < 10 ==> '0' <= #[trigger] digit(d) <= '9');
    if n >= 10 {
        decimal_numeric(n / 10);
    }
}

/// The codes of attributes are numeric.
proof fn attributes_numeric(letters: Seq<char>)
    ensures
        forall|i: int|
            0 <= i < attributes(letters).len() ==> numeric(#[trigger] attributes(letters)[i]),
    decreases letters.len(),
{
    if letters.len() > 0 {
        let before = attributes(letters.drop_last());
        let last = attribute(letters.last());
        attributes_numeric(letters.drop_last());
        assert forall|i: int| 0 <= i < attributes(letters).len() implies numeric(
            #[trigger] attributes(letters)[i],
        ) by {
            if i < before.len() {
                assert(attributes(letters)[i] == before[i]);
            } else {
                assert(attributes(letters)[i] == last[i - before.len()]);
            }
        }
    }
}

/// The code of a colour is numeric.
proof fn colour_numeric(ground: Seq<char>, rgb: Option<Rgb>)
    requires
        numeric(ground),
    ensures
        forall|i: int|
            0 <= i < colour(ground, rgb).len() ==> numeric(#[trigger] colour(ground, rgb)[i]),
{
    match rgb {
        Some((r, g, b)) => {
            decimal_numeric(r as nat);
            decimal_numeric(g as nat);
            decimal_numeric(b as nat);
        },
        None => {},
    }
}

/// A list of numeric codes is numeric.
proof fn listed_numeric(codes: Seq<Seq<char>>)
    requires
        forall|i: int| 0 <= i < codes.len() ==> numeric(#[trigger] codes[i]),
    ensures
        numeric(listed(codes)),
    decreases codes.len(),
{
    if codes.len() > 1 {
        let short = codes.drop_last();
        assert forall|i: int| 0 <= i < short.len() implies numeric(#[trigger] short[i]) by {
            assert(short[i] == codes[i]);
        }
        listed_numeric(short);
        assert(numeric(codes[codes.len() - 1]));
    } else if codes.len() == 1 {
        assert(numeric(codes[0]));
    }
}

/// Wherever a sequence stands open, what is numeric leaves it open.
proof fn sequence_open(inside: Seq<char>)
    requires
        numeric(inside),
    ensures
        place_after(seq![ESC, '['] + inside) == (Place::Codes { kept: false }),
        visible(seq![ESC, '['] + inside) == Seq::<char>::empty(),
    decreases inside.len(),
{
    let start = seq![ESC, '['];
    if inside.len() == 0 {
        assert(start + inside =~= start);
        assert(start.drop_last() =~= seq![ESC]);
        assert(seq![ESC].drop_last() =~= Seq::<char>::empty());
        assert(visible(Seq::<char>::empty()) =~= Seq::<char>::empty());
        assert(place_after(Seq::<char>::empty()) == (Place::Text { kept: false }));
        assert(place_after(seq![ESC]) == (Place::Escape { kept: false }));
        assert(visible(seq![ESC]) =~= Seq::<char>::empty());
        assert(visible(start) =~= Seq::<char>::empty());
    } else {
        let short = inside.drop_last();
        assert forall|i: int| 0 <= i < short.len() implies '0' <= #[trigger] short[i] <= '9'
            || short[i] == ';' by {
            assert(short[i] == inside[i]);
        }
        sequence_open(short);
        assert((start + inside).drop_last() =~= start + short);
        let c = inside[inside.len() - 1];
        assert((start + inside).last() == c);
        assert(!letter(c));
    }
}

/// Whether a text is complete sequences of codes, of which nothing is seen.
pub open spec fn unseen(text: Seq<char>) -> bool {
    clean(text) && wordless(text) && visible(text) == Seq::<char>::empty()
}

/// A sequence with its letter is complete, and nothing of it is seen.
pub proof fn sequence_unseen(inside: Seq<char>, end: char)
    requires
        numeric(inside),
        letter(end),
    ensures
        unseen(seq![ESC, '['] + inside + seq![end]),
{
    let all = seq![ESC, '['] + inside + seq![end];
    sequence_open(inside);
    assert(all.drop_last() =~= seq![ESC, '['] + inside);
    assert(all.last() == end);
    assert forall|i: int| 0 <= i < all.len() - 1 && #[trigger] all[i] == ESC implies all[i + 1]
        != ']' by {
        if i >= 2 {
            assert(all[i] == inside[i - 2]);
        }
    }
}

/// The reset sequence is complete and unseen.
pub proof fn reset_unseen()
    ensures
        unseen(reset()),
{
    sequence_unseen(seq!['0'], 'm');
    assert(seq![ESC, '['] + seq!['0'] + seq!['m'] =~= reset());
}

/// The sequence that moves the cursor is complete and unseen.
pub proof fn moved_unseen(col: nat, row: nat)
    ensures
        unseen(moved(col, row)),
{
    let inside = decimal(row) + seq![';'] + decimal(col);
    decimal_numeric(row);
    decimal_numeric(col);
    sequence_unseen(inside, 'H');
    assert(seq![ESC, '['] + inside + seq!['H'] =~= moved(col, row));
}

/// The sequence that sets colours is complete and unseen.
pub proof fn colours_unseen(codes: Seq<Seq<char>>)
    requires
        forall|i: int| 0 <= i < codes.len() ==> numeric(#[trigger] codes[i]),
    ensures
        unseen(seq![ESC, '['] + listed(codes) + seq!['m']),
{
    listed_numeric(codes);
    sequence_unseen(listed(codes), 'm');
}

/// The sequence before a text in its colours, or nothing.
pub open spec fn opening(fg: Option<Rgb>, bg: Option<Rgb>, letters: Seq<char>) -> Seq<char> {
    let codes = attributes(letters) + colour(seq!['3', '8', ';', '2'], fg) + colour(
        seq!['4', '8', ';', '2'],
        bg,
    );
    if codes.len() == 0 {
        seq![]
    } else {
        seq![ESC, '['] + listed(codes) + seq!['m']
    }
}

/// The sequence after a text in its colours, or nothing.
pub open spec fn closing(fg: Option<Rgb>, bg: Option<Rgb>, letters: Seq<char>) -> Seq<char> {
    if opening(fg, bg, letters).len() == 0 {
        seq![]
    } else {
        reset()
    }
}

/// A text in its colours is the text between two sequences of which nothing
/// is seen.
proof fn painted_parts(text: Seq<char>, fg: Option<Rgb>, bg: Option<Rgb>, letters: Seq<char>)
    ensures
        painted(text, fg, bg, letters) == opening(fg, bg, letters) + text + closing(
            fg,
            bg,
            letters,
        ),
        unseen(opening(fg, bg, letters)),
        unseen(closing(fg, bg, letters)),
{
    let a = attributes(letters);
    let f = colour(seq!['3', '8', ';', '2'], fg);
    let b = colour(seq!['4', '8', ';', '2'], bg);
    let codes = a + f + b;
    attributes_numeric(letters);
    colour_numeric(seq!['3', '8', ';', '2'], fg);
    colour_numeric(seq!['4', '8', ';', '2'], bg);
    assert forall|i: int| 0 <= i < codes.len() implies numeric(#[trigger] codes[i]) by {
        if i < a.len() {
            assert(codes[i] == a[i]);
        } else if i < a.len() + f.len() {
            assert(codes[i] == f[i - a.len()]);
        } else {
            assert(codes[i] == b[i - a.len() - f.len()]);
        }
    }
    reset_unseen();
    if codes.len() > 0 {
        colours_unseen(codes);
    } else {
        let none = Seq::<char>::empty();
        assert(visible(none) =~= none);
        assert(unseen(none));
        assert(none + text + none =~= text);
    }
}

/// A text in its colours is seen as it is without them.
pub proof fn painted_visible(
    text: Seq<char>,
    fg: Option<Rgb>,
    bg: Option<Rgb>,
    letters: Seq<char>,
)
    requires
        tidy(text),
    ensures
        place_after(painted(text, fg, bg, letters)) == place_after(text),
        visible(painted(text, fg, bg, letters)) == visible(text),
{
    let open = opening(fg, bg, letters);
    let close = closing(fg, bg, letters);
    painted_parts(text, fg, bg, letters);
    visible_joined(open, text);
    visible_followed(open + text, close);
    assert(visible(open) + visible(text) + visible(close) =~= visible(text));
}

/// A text without control sequences is seen in its colours as it is, behind
/// whatever has its sequences complete.
pub proof fn painted_followed(
    before: Seq<char>,
    text: Seq<char>,
    fg: Option<Rgb>,
    bg: Option<Rgb>,
    letters: Seq<char>,
)
    requires
        tidy(before),
        plain(text),
    ensures
        tidy(before + painted(text, fg, bg, letters)),
        visible(before + painted(text, fg, bg, letters)) == visible(before) + text,
{
    let open = opening(fg, bg, letters);
    let close = closing(fg, bg, letters);
    painted_parts(text, fg, bg, letters);
    plain_visible(text);
    visible_followed(before, open);
    visible_followed(before + open, text);
    visible_followed(before + open + text, close);
    assert(before + painted(text, fg, bg, letters) =~= before + open + text + close);
    assert(visible(before) + visible(open) + visible(text) + visible(close) =~= visible(before)
        + text);
}

/// After a reset, wherever it stands, a sequence more is unseen.
proof fn after_reset(before: Seq<char>, more: Seq<char>)
    requires
        unseen(more),
    ensures
        place_after(before + (reset() + more)) == place_after(before + reset()),
        visible(before + (reset() + more)) == visible(before + reset()),
{
    let all = before + reset();
    let a = before.push(ESC);
    let b = a.push('[');
    let c = b.push('0');
    assert(all =~= c.push('m'));
    assert(a.drop_last() =~= before && b.drop_last() =~= a && c.drop_last() =~= b);
    assert(all.drop_last() =~= c);
    assert(place_after(a) == place_next(place_after(before), ESC));
    assert(place_after(b) == place_next(place_after(a), '['));
    assert(place_after(c) == place_next(place_after(b), '0'));
    assert(place_after(all) == place_next(place_after(c), 'm'));
    assert(before + (reset() + more) =~= all + more);
    visible_followed(all, more);
    assert(visible(all) + visible(more) =~= visible(all));
}

/// Putting a sequence behind every reset changes nothing that is seen.
proof fn resets_replaced(before: Seq<char>, text: Seq<char>, more: Seq<char>)
    requires
        unseen(more),
    ensures
        place_after(before + replaced(text, reset(), reset() + more)) == place_after(before + text),
        visible(before + replaced(text, reset(), reset() + more)) == visible(before + text),
    decreases text.len(),
{
    let with = reset() + more;
    if text.len() > 0 {
        if stands_at(text, 0, reset()) {
            let rest = text.skip(4);
            let new = replaced(rest, reset(), with);
            assert(text =~= reset() + rest);
            resets_replaced(before + with, rest, more);
            after_reset(before, more);
            read_alike(before + with, before + reset(), rest);
            assert(before + replaced(text, reset(), with) =~= (before + with) + new);
            assert(before + text =~= (before + reset()) + rest);
        } else {
            let first = before.push(text[0]);
            let rest = text.skip(1);
            resets_replaced(first, rest, more);
            assert(before + replaced(text, reset(), with) =~= first + replaced(
                rest,
                reset(),
                with,
            ));
            assert(before + text =~= first + rest);
        }
    }
}

/// Putting a sequence behind every reset changes nothing that is seen.
pub proof fn replaced_visible(text: Seq<char>, more: Seq<char>)
    requires
        unseen(more),
    ensures
        place_after(replaced(text, reset(), reset() + more)) == place_after(text),
        visible(replaced(text, reset(), reset() + more)) == visible(text),
{
    let none = Seq::<char>::empty();
    resets_replaced(none, text, more);
    assert(none + text =~= text);
    let new = replaced(text, reset(), reset() + more);
    assert(none + new =~= new);
}

/// Whether a character starts a glyph wherever it does not follow a joiner.
pub open spec fn starts_glyph(c: char) -> bool {
    c != SELECTOR && c != JOINER
}

/// Behind whole glyphs a text is counted as it is alone, when it starts
/// with a glyph of its own.
pub proof fn cells_joined(a: Seq<char>, b: Seq<char>)
    requires
        !pending(a),
        b.len() > 0,
        starts_glyph(b[0]),
    ensures
        cells(a + b) == cells(a) + cells(b),
        pending(a + b) == pending(b),
        last_cells(a + b) == last_cells(b),
    decreases b.len(),
{
    let short = b.drop_last();
    assert((a + b).drop_last() =~= a + short);
    assert((a + b).last() == b.last());
    if b.len() == 1 {
        assert(a + short =~= a);
        assert(short =~= Seq::<char>::empty());
        assert(!pending(short));
        assert(cells(short) == 0);
    } else {
        assert(short[0] == b[0]);
        cells_joined(a, short);
        assert(continues(a + short, b.last()) == continues(short, b.last()));
    }
}

/// Whether a text holds printable characters of ASCII alone.
pub open spec fn printable(text: Seq<char>) -> bool {
    forall|i: int| 0 <= i < text.len() ==> ' ' <= #[trigger] text[i] <= '~'
}

/// A printable text takes a cell for each character.
pub proof fn printable_cells(text: Seq<char>)
    requires
        printable(text),
    ensures
        plain(text),
        cells(text) == text.len(),
        !pending(text),
    decreases text.len(),
{
    assert(plain(text)) by {
        if text.contains(ESC) {
            let i = choose|i: int| 0 <= i < text.len() && text[i] == ESC;
            assert(' ' <= text[i]);
        }
    }
    if text.len() > 0 {
        let short = text.drop_last();
        assert forall|i: int| 0 <= i < short.len() implies ' ' <= #[trigger] short[i] <= '~' by {
            assert(short[i] == text[i]);
        }
        printable_cells(short);
        assert(' ' <= text[text.len() - 1] <= '~');
    }
}

/// Spaces behind a text take a cell each, but for the first one behind a
/// joiner, which takes none.
pub proof fn blanks_cells(text: Seq<char>, n: nat)
    ensures
        cells(text + blanks(n)) == if pending(text) && n > 0 {
            cells(text) + n - 1
        } else {
            (cells(text) + n) as int
        },
        n > 0 ==> !pending(text + blanks(n)),
        plain(blanks(n)),
{
    printable_cells(blanks(n));
    if n == 0 {
        assert(text + blanks(n) =~= text);
    } else if pending(text) {
        let m = (n - 1) as nat;
        let first = text.push(' ');
        assert(first.drop_last() =~= text);
        assert(!pending(first));
        printable_cells(blanks(m));
        if m == 0 {
            assert(text + blanks(n) =~= first);
        } else {
            cells_joined(first, blanks(m));
            assert(text + blanks(n) =~= first + blanks(m));
        }
    } else {
        cells_joined(text, blanks(n));
    }
}

/// Spaces behind a text whose sequences are complete take a cell each, but
/// for the first one behind a joiner, which takes none.
pub proof fn padded_cells(text: Seq<char>, n: nat)
    requires
        tidy(text),
    ensures
        tidy(text + blanks(n)),
        visible(text + blanks(n)) == visible(text) + blanks(n),
        display_cells(text + blanks(n)) == if pending(visible(text)) && n > 0 {
            display_cells(text) + n - 1
        } else {
            (display_cells(text) + n) as int
        },
{
    blanks_cells(visible(text), n);
    plain_visible(blanks(n));
    visible_followed(text, blanks(n));
}

} // verus!
