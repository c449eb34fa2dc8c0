//! Text cut and padded to a number of cells. Cells, not characters, since
//! a network name may hold an emoji.

use vstd::prelude::*;
use vstd::string::*;

use crate::term::{
    cells, continues, display_cells, display_width, fed, pending, plain, tidy, visible, ESC, MARK,
};
use crate::text::{blanks, chars_of, less, spaces, text_of};
use crate::width::{padded_cells, plain_visible};

verus! {

/// How many characters fit in `max` cells, given that the first `n` do.
pub open spec fn fitting(text: Seq<char>, max: nat, n: nat) -> nat
    decreases text.len() - n,
{
    if n >= text.len() || cells(text.take(n as int + 1)) > max {
        n
    } else {
        fitting(text, max, n + 1)
    }
}

/// Whether no glyph is cut in two between the first `n` characters and the
/// rest.
pub open spec fn between_glyphs(text: Seq<char>, n: nat) -> bool {
    n == 0 || n >= text.len() || !continues(text.take(n as int), text[n as int])
}

/// The last place up to `n` that is between glyphs.
pub open spec fn glyph_start(text: Seq<char>, n: nat) -> nat
    decreases n,
{
    if between_glyphs(text, n) {
        n
    } else {
        glyph_start(text, (n - 1) as nat)
    }
}

/// The first `max` cells of a text, never cutting a glyph in two.
pub open spec fn first_cells(text: Seq<char>, max: nat) -> Seq<char> {
    text.take(glyph_start(text, fitting(text, max, 0)) as int)
}

/// More characters never take fewer cells.
proof fn cells_grow(text: Seq<char>, m: int, n: int)
    requires
        0 <= m <= n <= text.len(),
    ensures
        cells(text.take(m)) <= cells(text.take(n)),
    decreases n,
{
    if m < n {
        assert(text.take(n).drop_last() =~= text.take(n - 1));
        cells_grow(text, m, n - 1);
    }
}

/// What `fitting` counts fits, and one character more would not.
proof fn fitting_fits(text: Seq<char>, max: nat, n: nat)
    requires
        n <= text.len(),
        cells(text.take(n as int)) <= max,
    ensures
        n <= fitting(text, max, n) <= text.len(),
        cells(text.take(fitting(text, max, n) as int)) <= max,
        fitting(text, max, n) < text.len() ==> cells(
            text.take(fitting(text, max, n) as int + 1),
        ) > max,
    decreases text.len() - n,
{
    if n < text.len() && cells(text.take(n as int + 1)) <= max {
        fitting_fits(text, max, n + 1);
    }
}

/// `glyph_start` goes back no further than to the nearest place between
/// glyphs.
proof fn glyph_start_is_last(text: Seq<char>, n: nat)
    ensures
        glyph_start(text, n) <= n,
        between_glyphs(text, glyph_start(text, n)),
        forall|k: nat| glyph_start(text, n) < k <= n ==> !between_glyphs(text, k),
    decreases n,
{
    if !between_glyphs(text, n) {
        glyph_start_is_last(text, (n - 1) as nat);
    }
}

/// The first cells of a text are its beginning, fit, cut no glyph in two,
/// and are as much as can be had: the beginning up to any later place
/// between glyphs does not fit.
pub proof fn first_cells_law(text: Seq<char>, max: nat)
    ensures
        first_cells(text, max).is_prefix_of(text),
        cells(first_cells(text, max)) <= max,
        between_glyphs(text, first_cells(text, max).len()),
        forall|n: nat|
            first_cells(text, max).len() < n <= text.len() && between_glyphs(text, n)
                ==> #[trigger] cells(text.take(n as int)) > max,
{
    assert(text.take(0).len() == 0);
    fitting_fits(text, max, 0);
    let n = fitting(text, max, 0);
    glyph_start_is_last(text, n);
    let k = glyph_start(text, n);
    cells_grow(text, k as int, n as int);
    assert forall|m: nat| k < m <= text.len() && between_glyphs(text, m) implies #[trigger] cells(
        text.take(m as int),
    ) > max by {
        assert(n < m);
        cells_grow(text, n as int + 1, m as int);
    }
}

/// The first `max` cells of a text, never cutting a glyph in two.
pub fn take_cells(text: &str, max: usize) -> (out: String)
    ensures
        out@ == first_cells(text@, max as nat),
{
    let chars = chars_of(text);
    let mut walker = crust::WidthWalker::new();
    let mut width: usize = 0;
    let mut start: usize = 0;
    let mut n: usize = 0;
    assert(chars@.take(0) =~= Seq::<char>::empty());
    while n < chars.len()
        invariant
            n <= chars@.len(),
            chars@ == text@,
            fed(walker) == chars@.take(n as int),
            width == cells(chars@.take(n as int)),
            width <= max,
            fitting(text@, max as nat, 0) == fitting(text@, max as nat, n as nat),
            start <= n,
            n > 0 ==> start < n && start == glyph_start(text@, (n - 1) as nat),
        decreases chars@.len() - n,
    {
        let c = chars[n];
        let joins = walker.is_continuation(c);
        let added = walker.push(c);
        assert(chars@.take(n as int).push(c) =~= chars@.take(n + 1));
        assert(chars@.take(n + 1).drop_last() =~= chars@.take(n as int));
        if added > max - width {
            let end = if joins {
                start
            } else {
                n
            };
            let out = text_of(&chars, 0, end);
            assert(out@ =~= text@.take(end as int));
            return out;
        }
        if !joins {
            start = n;
        }
        width = width + added;
        n = n + 1;
    }
    let out = text_of(&chars, 0, chars.len());
    assert(out@ =~= text@.take(text@.len() as int));
    out
}

/// A text cut with a mark when it is too long for `width` cells.
pub open spec fn cut_to(text: Seq<char>, width: nat) -> Seq<char> {
    if display_cells(text) <= width {
        text
    } else if width == 0 {
        seq![]
    } else {
        first_cells(text, (width - 1) as nat).push(MARK)
    }
}

/// A text in exactly `width` cells: cut with a mark when too long, padded
/// when short. Where one space more makes up for one that took no cell, it
/// is there.
pub open spec fn fitted(text: Seq<char>, width: nat) -> Seq<char> {
    let core = cut_to(text, width);
    let out = core + blanks(less(width, display_cells(core)));
    if display_cells(out) < width && display_cells(out.push(' ')) == width {
        out.push(' ')
    } else {
        out
    }
}

/// A text without control sequences is always its column wide, and so is
/// one that fits and whose control sequences are complete. Of a text that
/// is cut the same holds when the cut leaves its sequences complete.
pub proof fn fit_law(text: Seq<char>, width: nat)
    ensures
        plain(text) ==> display_cells(fitted(text, width)) == width,
        tidy(text) && display_cells(text) <= width ==> display_cells(fitted(text, width)) == width,
        display_cells(cut_to(text, width)) <= width && (tidy(cut_to(text, width)) || display_cells(
            cut_to(text, width),
        ) == width) ==> display_cells(fitted(text, width)) == width,
{
    let core = cut_to(text, width);
    let pad = less(width, display_cells(core));
    assert(core + blanks(0) =~= core);
    if tidy(core) && display_cells(core) <= width {
        let out = core + blanks(pad);
        padded_cells(core, pad);
        padded_cells(core, pad + 1);
        assert(out.push(' ') =~= core + blanks(pad + 1));
    }
    if plain(text) {
        plain_visible(text);
        if display_cells(text) > width && width > 0 {
            let first = first_cells(text, (width - 1) as nat);
            first_cells_law(text, (width - 1) as nat);
            assert(core.drop_last() =~= first);
            assert(plain(core)) by {
                if core.contains(ESC) {
                    let i = choose|i: int| 0 <= i < core.len() && core[i] == ESC;
                    assert(text[i] == ESC);
                }
            }
            plain_visible(core);
        } else if display_cells(text) > width {
            assert(core.len() == 0);
            assert(plain(core));
            plain_visible(core);
        }
    }
}

/// The first cells of a text end where a glyph ends, and no longer beginning
/// that ends so fits.
pub proof fn first_cells_whole_law(text: Seq<char>, max: nat, n: int)
    ensures
        ({
            let k = first_cells(text, max).len() as int;
            &&& k <= text.len()
            &&& first_cells(text, max) == text.take(k)
            &&& cells(text.take(k)) <= max
            &&& 0 < k < text.len() ==> !continues(text.take(k), text[k])
            &&& k < n < text.len() && !continues(text.take(n), text[n]) ==> cells(text.take(n))
                > max
            &&& k < text.len() ==> cells(text) > max
        }),
{
    first_cells_law(text, max);
    let k = first_cells(text, max).len() as int;
    assert(first_cells(text, max) =~= text.take(k));
    assert(text.take(text.len() as int) =~= text);
    if k < n < text.len() && !continues(text.take(n), text[n]) {
        assert(between_glyphs(text, n as nat));
        assert(cells(text.take(n as nat as int)) > max);
    }
    if k < text.len() {
        assert(between_glyphs(text, text.len()));
        assert(cells(text.take(text.len() as int)) > max);
    }
}

/// A text that fits stands in its column as it is, with nothing but spaces
/// behind it; of one that is too long its first cells stand there, as many
/// as leave room for the mark, with the mark and spaces behind them.
pub proof fn fit_content_law(text: Seq<char>, width: nat, i: int)
    ensures
        display_cells(text) <= width ==> {
            &&& text.len() <= fitted(text, width).len()
            &&& text == fitted(text, width).take(text.len() as int)
            &&& text.len() <= i < fitted(text, width).len() ==> fitted(text, width)[i] == ' '
            &&& fitted(text, width).len() - text.len() == width - display_cells(text) || fitted(
                text,
                width,
            ).len() - text.len() == width - display_cells(text) + 1
        },
        display_cells(text) > width > 0 ==> {
            let first = first_cells(text, (width - 1) as nat);
            &&& first.len() < fitted(text, width).len()
            &&& first == fitted(text, width).take(first.len() as int)
            &&& fitted(text, width)[first.len() as int] == '\u{2026}'
            &&& first.len() < i < fitted(text, width).len() ==> fitted(text, width)[i] == ' '
        },
        display_cells(text) > width && width == 0 ==> fitted(text, width).len() == 0,
{
    let core = cut_to(text, width);
    let out = fitted(text, width);
    let pad = less(width, display_cells(core));
    let plainly = core + blanks(pad);
    assert(plainly.take(core.len() as int) =~= core);
    assert(plainly.push(' ').take(core.len() as int) =~= core);
    if display_cells(text) <= width {
        assert(out.take(text.len() as int) =~= text);
    } else if width > 0 {
        let first = first_cells(text, (width - 1) as nat);
        assert(core.take(first.len() as int) =~= first);
        assert(out.take(first.len() as int) =~= first);
    } else {
        assert(core.len() == 0);
        plain_visible(core);
        assert(display_cells(plainly) == 0) by {
            assert(plainly =~= core);
        }
    }
}

/// A text that fills its column is left as it is. One that is short has as
/// many spaces behind it as cells are left, and one more exactly when a
/// joiner at its end swallows the first.
pub proof fn fit_short_law(text: Seq<char>, width: nat)
    requires
        tidy(text),
    ensures
        display_cells(text) == width ==> fitted(text, width) == text,
        display_cells(text) < width && !pending(visible(text)) ==> fitted(text, width) == text
            + blanks((width - display_cells(text)) as nat),
        display_cells(text) < width && pending(visible(text)) ==> fitted(text, width) == text
            + blanks((width - display_cells(text) + 1) as nat),
{
    if display_cells(text) <= width {
        let pad = less(width, display_cells(text));
        let out = text + blanks(pad);
        padded_cells(text, pad);
        padded_cells(text, pad + 1);
        assert(out.push(' ') =~= text + blanks(pad + 1));
        assert(text + blanks(0) =~= text);
    }
}

/// A text in exactly `width` cells: cut with a mark when too long, padded
/// when short. A joiner at its end swallows the first space of the
/// padding, which is then made up for.
pub fn fit(text: &str, width: usize) -> (out: String)
    ensures
        out@ == fitted(text@, width as nat),
        plain(text@) ==> display_cells(out@) == width,
{
    let core = if display_width(text) <= width {
        text.to_string()
    } else if width == 0 {
        String::new()
    } else {
        let mut cut = take_cells(text, width - 1);
        cut.push(MARK);
        cut
    };
    assert(core@ =~= cut_to(text@, width as nat));
    proof {
        fit_law(text@, width as nat);
    }
    let taken = display_width(core.as_str());
    let out = core.concat(spaces(width.saturating_sub(taken)).as_str());
    if display_width(out.as_str()) < width {
        let mut longer = out.clone();
        longer.push(' ');
        if display_width(longer.as_str()) == width {
            return longer;
        }
    }
    out
}

} // verus!
