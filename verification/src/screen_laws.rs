//! What holds of the screen: how wide its parts are, and what is seen of
//! them.

use vstd::prelude::*;
use vstd::utf8::{is_ascii_chars, is_ascii_chars_encode_utf8};

use crate::cells::{first_cells, first_cells_law, fit_content_law, fitted};
use crate::nm::{Lock, LookView, NetView, VpnView};
use crate::screen::{
    bar_colour, bar_glyphs, bars_drawn, bars_lit, cursor_in_view_law, first_shown, foot_drawn,
    foot_words, frame_drawn, head_drawn, joined, lift, lifted, line_at, line_of, list_drawn,
    list_height, list_rows, lock_drawn, mark_drawn, net_drawn, row_drawn, rows_have_lines_law,
    scrolled, vpn_drawn, BAR_BG, DARK_RGB, DIM_RGB, FOOT_RGB, IDLE_RGB, LIVE_RGB, NAME_RGB, NOW_RGB,
    PICK_BG, RUST_RGB, WARN_RGB,
};
use crate::term::{
    attributes, cells, colour, display_cells, listed, moved, painted, pending, plain, reset, tidy,
    visible, Rgb, ESC,
};
use crate::text::{blanks, decimal, less, replaced};
use crate::width::{
    blanks_cells, cells_joined, clean, colours_unseen, moved_unseen, padded_cells,
    painted_followed, painted_visible, plain_visible, printable, printable_cells, replaced_visible,
    reset_unseen, starts_glyph, unseen, visible_followed, visible_joined,
};

verus! {

/// What is seen of the bars is the four glyphs.
proof fn bars_seen(strength: u8, n: nat)
    requires
        n <= 4,
    ensures
        clean(bars_drawn(strength, n)),
        visible(bars_drawn(strength, n)) == bar_glyphs().take(n as int),
    decreases n,
{
    if n == 0 {
        assert(bars_drawn(strength, n) =~= Seq::<char>::empty());
        assert(plain(Seq::<char>::empty()));
        plain_visible(Seq::<char>::empty());
        assert(bar_glyphs().take(0) =~= Seq::<char>::empty());
    } else {
        let k = n - 1;
        let glyph = seq![bar_glyphs()[k]];
        bars_seen(strength, k as nat);
        assert(plain(glyph));
        plain_visible(glyph);
        painted_visible(glyph, Some(bar_colour(strength, k)), None, ""@);
        visible_joined(
            bars_drawn(strength, k as nat),
            painted(glyph, Some(bar_colour(strength, k)), None, ""@),
        );
        assert(bar_glyphs().take(k) + glyph =~= bar_glyphs().take(n as int));
    }
}

/// A glyph in a colour, character by character.
proof fn glyph_painted(glyph: char, rgb: Rgb)
    ensures
        painted(seq![glyph], Some(rgb), None, ""@) == seq![ESC, '[', '3', '8', ';', '2', ';']
            + decimal(rgb.0 as nat) + seq![';'] + decimal(rgb.1 as nat) + seq![';'] + decimal(
            rgb.2 as nat,
        ) + seq!['m', glyph] + reset(),
{
    reveal_strlit("");
    reveal_with_fuel(attributes, 2);
    assert(""@ =~= Seq::<char>::empty());
    let codes = colour(seq!['3', '8', ';', '2'], Some(rgb));
    assert(attributes(""@) + codes + colour(seq!['4', '8', ';', '2'], None) =~= codes);
    assert(listed(codes) == codes[0]);
    assert(painted(seq![glyph], Some(rgb), None, ""@) =~= seq![ESC, '[', '3', '8', ';', '2', ';']
        + decimal(rgb.0 as nat) + seq![';'] + decimal(rgb.1 as nat) + seq![';'] + decimal(
        rgb.2 as nat,
    ) + seq!['m', glyph] + reset());
}

/// The numbers in the colours of the bars.
proof fn bar_numbers()
    ensures
        decimal(220) == seq!['2', '2', '0'],
        decimal(90) == seq!['9', '0'],
        decimal(80) == seq!['8', '0'],
        decimal(230) == seq!['2', '3', '0'],
        decimal(180) == seq!['1', '8', '0'],
        decimal(120) == seq!['1', '2', '0'],
        decimal(140) == seq!['1', '4', '0'],
        decimal(60) == seq!['6', '0'],
        decimal(68) == seq!['6', '8'],
{
    reveal_with_fuel(decimal, 3);
    assert(decimal(220) =~= seq!['2', '2', '0']);
    assert(decimal(90) =~= seq!['9', '0']);
    assert(decimal(80) =~= seq!['8', '0']);
    assert(decimal(230) =~= seq!['2', '3', '0']);
    assert(decimal(180) =~= seq!['1', '8', '0']);
    assert(decimal(120) =~= seq!['1', '2', '0']);
    assert(decimal(140) =~= seq!['1', '4', '0']);
    assert(decimal(60) =~= seq!['6', '0']);
    assert(decimal(68) =~= seq!['6', '8']);
}

/// The bars of a band, told by their length and by two digits of the first
/// colour.
proof fn bars_told(strength: u8)
    ensures
        bars_drawn(strength, 4).len() > 8,
        bars_lit(strength) == 1 ==> bars_drawn(strength, 4)[7] == '2' && bars_drawn(
            strength,
            4,
        )[8] == '2',
        bars_lit(strength) == 2 ==> bars_drawn(strength, 4)[7] == '2' && bars_drawn(
            strength,
            4,
        )[8] == '3',
        bars_lit(strength) >= 3 ==> bars_drawn(strength, 4)[7] == '1',
        bars_lit(strength) == 3 ==> bars_drawn(strength, 4).len() == 93,
        bars_lit(strength) == 4 ==> bars_drawn(strength, 4).len() == 96,
{
    reveal_with_fuel(bars_drawn, 5);
    bar_numbers();
    let g = bar_glyphs();
    glyph_painted(g[0], bar_colour(strength, 0));
    glyph_painted(g[1], bar_colour(strength, 1));
    glyph_painted(g[2], bar_colour(strength, 2));
    glyph_painted(g[3], bar_colour(strength, 3));
    let first = painted(seq![g[0]], Some(bar_colour(strength, 0)), None, ""@);
    assert(bars_drawn(strength, 1) =~= first);
    assert(bars_drawn(strength, 4)[7] == first[7]);
    assert(bars_drawn(strength, 4)[8] == first[8]);
}

/// Four glyphs are seen whatever the signal, the first ones lit to the
/// strength and the rest dark. Two signals give the same bars exactly when
/// they light as many, and a stronger signal never lights fewer.
pub proof fn bars_law(s: u8, t: u8)
    ensures
        visible(bars_drawn(s, 4)) == bar_glyphs(),
        forall|k: int|
            0 <= k < 4 ==> (#[trigger] bar_colour(s, k) == DARK_RGB <==> k >= bars_lit(s)),
        bars_drawn(s, 4) == bars_drawn(t, 4) <==> bars_lit(s) == bars_lit(t),
        s <= t ==> bars_lit(s) <= bars_lit(t),
{
    bars_seen(s, 4);
    assert(bar_glyphs().take(4) =~= bar_glyphs());
    bars_told(s);
    bars_told(t);
    if bars_lit(s) == bars_lit(t) {
        same_bars(s, t, 4);
    }
}

/// As many bars lit are the same bars.
proof fn same_bars(s: u8, t: u8, n: nat)
    requires
        bars_lit(s) == bars_lit(t),
    ensures
        bars_drawn(s, n) == bars_drawn(t, n),
    decreases n,
{
    if n > 0 {
        same_bars(s, t, (n - 1) as nat);
    }
}

/// The sequence that lifts the background is complete and unseen.
proof fn lift_unseen()
    ensures
        unseen(lift()),
{
    reveal_with_fuel(decimal, 3);
    colours_unseen(colour(seq!['4', '8', ';', '2'], Some(PICK_BG)));
}

/// A row with the cursor on it is the same text, out to the edge: what is
/// seen is the line with spaces behind it, as many as are left to the edge.
/// It is then exactly as wide as the screen, when the line is no wider and
/// no joiner at its end swallows a space.
pub proof fn pick_law(line: Seq<char>, w: nat)
    requires
        tidy(line),
    ensures
        tidy(lifted(line, w)),
        visible(lifted(line, w)) == visible(line) + blanks(less(w, display_cells(line))),
        display_cells(line) <= w && (!pending(visible(line)) || display_cells(line) == w)
            ==> display_cells(lifted(line, w)) == w,
{
    let pad = less(w, display_cells(line));
    let body = line + blanks(pad);
    let new = replaced(body, reset(), reset() + lift());
    padded_cells(line, pad);
    lift_unseen();
    reset_unseen();
    replaced_visible(body, lift());
    visible_joined(lift(), new);
    visible_followed(lift() + new, reset());
    assert(visible(lift()) + visible(new) + visible(reset()) =~= visible(body));
}

/// Whether of the rows of the screen for the list exactly the one at `at` is
/// lit, and shows the cursor's row: a network or a VPN. All others show
/// lines of the list as they are.
pub open spec fn lit_at(
    look: LookView,
    sel: nat,
    top: nat,
    cols: u16,
    rows: u16,
    at: int,
) -> bool {
    let cursor = if sel < look.nets.len() {
        net_drawn(look.nets[sel as int])
    } else {
        vpn_drawn(look.vpns[sel - look.nets.len()])
    };
    let shown = list_rows(look, sel, top, cols, rows);
    let start = first_shown(line_of(look, sel as int), top, list_height(rows));
    &&& 0 <= at < shown.len()
    &&& shown[at] == row_drawn(lifted(cursor, cols as nat), at)
    &&& forall|k: int|
        0 <= k < shown.len() && k != at ==> #[trigger] shown[k] == row_drawn(
            line_at(list_drawn(look), start + k),
            k,
        )
}

/// The frame is the bar across the top, the rows for the list and the bar
/// along the bottom; whatever the scrolling, exactly one row for the list is
/// lit and shows the cursor's row, when the screen has rows for the list and
/// the cursor is on one of its rows.
pub proof fn frame_law(
    look: LookView,
    sel: nat,
    top: nat,
    note: Seq<char>,
    version: Seq<char>,
    cols: u16,
    rows: u16,
)
    requires
        sel < look.nets.len() + look.vpns.len(),
        rows > 4,
    ensures
        frame_drawn(look, sel, top, note, version, cols, rows) == head_drawn(look.now, cols as nat)
            + joined(list_rows(look, sel, top, cols, rows)) + foot_drawn(
            note,
            version,
            cols as nat,
            rows as nat,
        ),
        list_rows(look, sel, top, cols, rows).len() == rows - 4,
        exists|at: int| lit_at(look, sel, top, cols, rows, at),
{
    let height = list_height(rows);
    rows_have_lines_law(look, sel as int);
    let line = line_of(look, sel as int)->0;
    cursor_in_view_law(line, top, height);
    let start = first_shown(Some(line), top, height);
    assert(lit_at(look, sel, top, cols, rows, line - start));
}

/// Without a row under the cursor no row is lit.
pub proof fn frame_unlit_law(look: LookView, sel: nat, top: nat, cols: u16, rows: u16, k: int)
    requires
        sel >= look.nets.len() + look.vpns.len(),
        0 <= k < list_height(rows),
    ensures
        list_rows(look, sel, top, cols, rows)[k] == row_drawn(line_at(list_drawn(look), k), k),
{
}

/// The bar across the top is exactly as wide as the screen, when what you
/// are on leaves room and no joiner at its end swallows a space.
pub proof fn head_law(now: Seq<char>, w: nat)
    requires
        tidy(now),
        5 + display_cells("   "@ + now) <= w,
        !pending(visible("   "@ + now)) || 5 + display_cells("   "@ + now) == w,
    ensures
        display_cells(head_drawn(now, w)) == w,
{
    reveal_strlit("   ");
    reveal_strlit(" ");
    reveal_strlit("roam");
    let words = "   "@ + now;
    let pad = less(w, 5 + display_cells(words));
    let wide = words + blanks(pad);
    let a = moved(1, 1);
    let b = painted(" "@, None, Some(BAR_BG), ""@);
    let c = painted("roam"@, Some(RUST_RGB), Some(BAR_BG), "b"@);
    let d = painted(wide, Some(NOW_RGB), Some(BAR_BG), ""@);
    assert(printable("   "@) && printable(" "@) && printable("roam"@));
    printable_cells("   "@);
    printable_cells(" "@);
    printable_cells("roam"@);
    plain_visible("   "@);
    plain_visible(" "@);
    plain_visible("roam"@);
    visible_joined("   "@, now);
    padded_cells(words, pad);
    moved_unseen(1, 1);
    painted_visible(" "@, None, Some(BAR_BG), ""@);
    painted_visible("roam"@, Some(RUST_RGB), Some(BAR_BG), "b"@);
    painted_visible(wide, Some(NOW_RGB), Some(BAR_BG), ""@);
    visible_joined(a, b);
    visible_joined(a + b, c);
    visible_joined(a + b + c, d);
    let front = " "@ + "roam"@;
    assert(printable(front));
    printable_cells(front);
    assert(visible(a + b + c + d) =~= front + visible(wide));
    assert(visible(wide)[0] == ' ');
    cells_joined(front, visible(wide));
}

/// The bar along the bottom is exactly as wide as the screen, when what it
/// says leaves room for the version and no joiner at its end swallows a
/// space.
pub proof fn foot_law(note: Seq<char>, version: Seq<char>, w: nat, rows: nat)
    requires
        printable(version),
        ({
            let size = version.len() + 2;
            let words = " "@ + first_cells(foot_words(note), less(w, size + 3));
            &&& tidy(words)
            &&& display_cells(words) + size <= w
            &&& !pending(visible(words))
        }),
    ensures
        display_cells(foot_drawn(note, version, w, rows)) == w,
{
    reveal_strlit("v");
    reveal_strlit(" ");
    let tag = "v"@ + version + " "@;
    assert(printable(tag));
    printable_cells(tag);
    plain_visible(tag);
    assert(is_ascii_chars(tag));
    is_ascii_chars_encode_utf8(tag);
    let size = tag.len();
    let words = " "@ + first_cells(foot_words(note), less(w, size + 3));
    let pad = less(w, display_cells(words) + size);
    let wide = words + blanks(pad);
    let a = moved(1, rows);
    let b = painted(wide, Some(FOOT_RGB), Some(BAR_BG), ""@);
    let c = painted(tag, Some(DIM_RGB), Some(BAR_BG), ""@);
    padded_cells(words, pad);
    blanks_cells(visible(words), pad);
    assert(pad == 0 ==> visible(words) + blanks(pad) =~= visible(words));
    moved_unseen(1, rows);
    painted_visible(wide, Some(FOOT_RGB), Some(BAR_BG), ""@);
    visible_joined(a, b);
    painted_followed(a + b, tag, Some(DIM_RGB), Some(BAR_BG), ""@);
    assert(visible(a + b + c) =~= visible(wide) + tag);
    assert(tag[0] == 'v');
    cells_joined(visible(wide), tag);
}

/// A plain note that starts with a glyph leaves room for the version on
/// every screen that has any, and makes a bar exactly as wide as the
/// screen: cut where it is too long, and else when it ends with no joiner.
pub proof fn foot_plain_law(note: Seq<char>, version: Seq<char>, w: nat, rows: nat)
    requires
        printable(version),
        plain(foot_words(note)),
        foot_words(note).len() > 0,
        starts_glyph(foot_words(note)[0]),
        version.len() + 5 <= w,
        pending(foot_words(note)) ==> cells(foot_words(note)) > w - version.len() - 5,
    ensures
        display_cells(foot_drawn(note, version, w, rows)) == w,
{
    reveal_strlit(" ");
    let said = foot_words(note);
    let room = less(w, version.len() + 5);
    let first = first_cells(said, room);
    let words = " "@ + first;
    first_cells_law(said, room);
    assert(printable(" "@));
    printable_cells(" "@);
    assert(plain(words)) by {
        if words.contains(ESC) {
            let i = choose|i: int| 0 <= i < words.len() && words[i] == ESC;
            assert(said[i - 1] == ESC);
        }
    }
    plain_visible(words);
    if first.len() > 0 {
        assert(first[0] == said[0]);
        cells_joined(" "@, first);
        assert(first =~= said.take(first.len() as int));
        if first.len() == said.len() {
            assert(first =~= said);
        }
    } else {
        assert(words =~= " "@);
    }
    foot_law(note, version, w, rows);
}

/// One bar is lit below twenty, two below forty-five, three below seventy
/// and four from there on. Lit bars are red when one is lit, amber when two
/// are, and green from three on; the others are dark.
pub proof fn bars_band_law(s: u8, k: int)
    ensures
        s <= 19 ==> bars_lit(s) == 1,
        20 <= s <= 44 ==> bars_lit(s) == 2,
        45 <= s <= 69 ==> bars_lit(s) == 3,
        70 <= s ==> bars_lit(s) == 4,
        k < 1 && s <= 19 ==> bar_colour(s, k) == (220u8, 90u8, 80u8),
        k < 2 && 20 <= s <= 44 ==> bar_colour(s, k) == (230u8, 180u8, 90u8),
        k < 3 && 45 <= s <= 69 ==> bar_colour(s, k) == (120u8, 230u8, 140u8),
        k < 4 && 70 <= s ==> bar_colour(s, k) == (120u8, 230u8, 140u8),
        k >= bars_lit(s) ==> bar_colour(s, k) == (60u8, 60u8, 68u8),
        bar_glyphs() == seq!['▂', '▄', '▆', '█'],
{
}

/// Every bar is one of the four glyphs in its colour, in their order.
pub proof fn bars_drawn_law(s: u8, n: nat)
    requires
        n < 4,
    ensures
        bars_drawn(s, 0).len() == 0,
        bars_drawn(s, n + 1) == bars_drawn(s, n) + painted(
            seq![bar_glyphs()[n as int]],
            Some(bar_colour(s, n as int)),
            None,
            Seq::empty(),
        ),
{
    reveal_strlit("");
    assert(""@ =~= Seq::<char>::empty());
}

/// A text that is seen as it is.
pub open spec fn seen_as(text: Seq<char>, seen: Seq<char>) -> bool {
    clean(text) && visible(text) == seen
}

/// Texts that are seen as they are, one behind the other.
proof fn seen_joined(a: Seq<char>, x: Seq<char>, b: Seq<char>, y: Seq<char>)
    requires
        seen_as(a, x),
        seen_as(b, y),
    ensures
        seen_as(a + b, x + y),
{
    visible_joined(a, b);
}

/// A plain text is seen as it is, in colours and without.
proof fn seen_plain(text: Seq<char>, fg: Option<Rgb>, bg: Option<Rgb>, letters: Seq<char>)
    requires
        plain(text),
    ensures
        seen_as(text, text),
        seen_as(painted(text, fg, bg, letters), text),
{
    plain_visible(text);
    painted_visible(text, fg, bg, letters);
}

/// A fitted plain name is plain.
proof fn fitted_plain(text: Seq<char>, width: nat)
    requires
        plain(text),
    ensures
        plain(fitted(text, width)),
{
    let out = fitted(text, width);
    if out.contains(ESC) {
        let i = choose|i: int| 0 <= i < out.len() && out[i] == ESC;
        fit_content_law(text, width, i);
        if display_cells(text) <= width {
            if i < text.len() {
                assert(out.take(text.len() as int)[i] == out[i]);
                assert(text[i] == ESC);
            }
        } else if width > 0 {
            let first = first_cells(text, (width - 1) as nat);
            first_cells_law(text, (width - 1) as nat);
            if i < first.len() {
                assert(out.take(first.len() as int)[i] == out[i]);
                assert(text[i] == ESC);
            }
        }
    }
}

/// What is seen of a network's row: a mark when it is live, its name in
/// thirty cells, the four bars, the word for its lock in six cells, and
/// whether it is saved.
pub proof fn net_seen_law(net: NetView)
    requires
        plain(net.ssid),
    ensures
        visible(net_drawn(net)) == seq![' '] + seq![
            if net.active is Some {
                '●'
            } else {
                ' '
            },
        ] + seq![' '] + fitted(net.ssid, 30) + seq![' ', ' '] + seq!['▂', '▄', '▆', '█'] + seq![
            ' ',
            ' ',
        ] + (match net.lock {
            Lock::Open => seq!['o', 'p', 'e', 'n', ' ', ' '],
            Lock::Psk => seq!['W', 'P', 'A', '2', ' ', ' '],
            Lock::Sae => seq!['W', 'P', 'A', '3', ' ', ' '],
            Lock::Enterprise => seq!['8', '0', '2', '.', '1', 'X'],
        }) + seq![' ', ' '] + (if net.saved is Some {
            seq!['s', 'a', 'v', 'e', 'd']
        } else {
            seq![]
        }),
{
    reveal_strlit(" ");
    reveal_strlit("  ");
    reveal_strlit("●");
    reveal_strlit("open");
    reveal_strlit("WPA2");
    reveal_strlit("WPA3");
    reveal_strlit("802.1X");
    reveal_strlit("saved");
    let none = Seq::<char>::empty();
    let space = " "@;
    let gap = "  "@;
    assert(space =~= seq![' '] && gap =~= seq![' ', ' ']);
    seen_plain(none, None, None, none);
    seen_plain(space, None, None, none);
    seen_plain(gap, None, None, none);
    let dot = mark_drawn(net.active is Some);
    let dot_seen = seq![
        if net.active is Some {
            '●'
        } else {
            ' '
        },
    ];
    assert("●"@ =~= seq!['●']);
    seen_plain("●"@, Some(LIVE_RGB), None, ""@);
    assert(seen_as(dot, dot_seen));
    let name = fitted(net.ssid, 30);
    fitted_plain(net.ssid, 30);
    seen_plain(name, Some(LIVE_RGB), None, "b"@);
    seen_plain(name, Some(NAME_RGB), None, ""@);
    seen_plain(name, Some(DIM_RGB), None, ""@);
    let named = if net.active is Some {
        painted(name, Some(LIVE_RGB), None, "b"@)
    } else if net.saved is Some {
        painted(name, Some(NAME_RGB), None, ""@)
    } else {
        painted(name, Some(DIM_RGB), None, ""@)
    };
    bars_seen(net.strength, 4);
    assert(bar_glyphs().take(4) =~= seq!['▂', '▄', '▆', '█']);
    let word = net.lock.word() + blanks(less(6, net.lock.word().len()));
    let word_seen = match net.lock {
        Lock::Open => seq!['o', 'p', 'e', 'n', ' ', ' '],
        Lock::Psk => seq!['W', 'P', 'A', '2', ' ', ' '],
        Lock::Sae => seq!['W', 'P', 'A', '3', ' ', ' '],
        Lock::Enterprise => seq!['8', '0', '2', '.', '1', 'X'],
    };
    assert(word =~= word_seen);
    assert(plain(word));
    let tone = if net.lock == Lock::Open {
        WARN_RGB
    } else {
        DIM_RGB
    };
    seen_plain(word, Some(tone), None, ""@);
    let kept = if net.saved is Some {
        painted("saved"@, Some(IDLE_RGB), None, ""@)
    } else {
        seq![]
    };
    let kept_seen = if net.saved is Some {
        seq!['s', 'a', 'v', 'e', 'd']
    } else {
        seq![]
    };
    assert("saved"@ =~= seq!['s', 'a', 'v', 'e', 'd']);
    seen_plain("saved"@, Some(IDLE_RGB), None, ""@);
    let glyphs = seq!['▂', '▄', '▆', '█'];
    let bars = bars_drawn(net.strength, 4);
    seen_joined(space, space, dot, dot_seen);
    seen_joined(space + dot, space + dot_seen, space, space);
    seen_joined(space + dot + space, space + dot_seen + space, named, name);
    seen_joined(space + dot + space + named, space + dot_seen + space + name, gap, gap);
    let a = space + dot + space + named + gap;
    let x = space + dot_seen + space + name + gap;
    seen_joined(a, x, bars, glyphs);
    seen_joined(a + bars, x + glyphs, gap, gap);
    seen_joined(a + bars + gap, x + glyphs + gap, lock_drawn(net.lock), word_seen);
    seen_joined(
        a + bars + gap + lock_drawn(net.lock),
        x + glyphs + gap + word_seen,
        gap,
        gap,
    );
    seen_joined(
        a + bars + gap + lock_drawn(net.lock) + gap,
        x + glyphs + gap + word_seen + gap,
        kept,
        kept_seen,
    );
}

/// What is seen of a VPN's row: a mark when it is up, its name in thirty
/// cells, and whether it is up or down.
pub proof fn vpn_seen_law(vpn: VpnView)
    requires
        plain(vpn.name),
    ensures
        visible(vpn_drawn(vpn)) == seq![' '] + seq![
            if vpn.active is Some {
                '●'
            } else {
                ' '
            },
        ] + seq![' '] + fitted(vpn.name, 30) + seq![' ', ' '] + (if vpn.active is Some {
            seq!['u', 'p']
        } else {
            seq!['d', 'o', 'w', 'n']
        }),
{
    reveal_strlit(" ");
    reveal_strlit("  ");
    reveal_strlit("●");
    reveal_strlit("up");
    reveal_strlit("down");
    let none = Seq::<char>::empty();
    let space = " "@;
    let gap = "  "@;
    assert(space =~= seq![' '] && gap =~= seq![' ', ' ']);
    seen_plain(space, None, None, none);
    seen_plain(gap, None, None, none);
    let dot = mark_drawn(vpn.active is Some);
    let dot_seen = seq![
        if vpn.active is Some {
            '●'
        } else {
            ' '
        },
    ];
    assert("●"@ =~= seq!['●']);
    seen_plain("●"@, Some(LIVE_RGB), None, ""@);
    assert(seen_as(dot, dot_seen));
    let name = fitted(vpn.name, 30);
    fitted_plain(vpn.name, 30);
    seen_plain(name, Some(NAME_RGB), None, ""@);
    let named = painted(name, Some(NAME_RGB), None, ""@);
    assert("up"@ =~= seq!['u', 'p'] && "down"@ =~= seq!['d', 'o', 'w', 'n']);
    seen_plain("up"@, Some(LIVE_RGB), None, ""@);
    seen_plain("down"@, Some(IDLE_RGB), None, ""@);
    let state = if vpn.active is Some {
        painted("up"@, Some(LIVE_RGB), None, ""@)
    } else {
        painted("down"@, Some(IDLE_RGB), None, ""@)
    };
    let state_seen = if vpn.active is Some {
        seq!['u', 'p']
    } else {
        seq!['d', 'o', 'w', 'n']
    };
    seen_joined(space, space, dot, dot_seen);
    seen_joined(space + dot, space + dot_seen, space, space);
    seen_joined(space + dot + space, space + dot_seen + space, named, name);
    seen_joined(space + dot + space + named, space + dot_seen + space + name, gap, gap);
    seen_joined(
        space + dot + space + named + gap,
        space + dot_seen + space + name + gap,
        state,
        state_seen,
    );
}

/// The colours of a row: green and bold for the name of a live network,
/// light for a saved one, dim for the rest; green for the mark and for a VPN
/// that is up; amber for the word of an open network.
pub proof fn row_colours_law(net: NetView, vpn: VpnView)
    ensures
        ({
            let live = Some((120u8, 230u8, 140u8));
            let light = Some((225u8, 225u8, 230u8));
            let dim = Some((140u8, 140u8, 150u8));
            let idle = Some((110u8, 110u8, 125u8));
            let amber = Some((230u8, 180u8, 90u8));
            let name = fitted(net.ssid, 30);
            &&& net_drawn(net) == " "@ + (if net.active is Some {
                painted("●"@, live, None, ""@)
            } else {
                " "@
            }) + " "@ + (if net.active is Some {
                painted(name, live, None, "b"@)
            } else {
                painted(
                    name,
                    if net.saved is Some {
                        light
                    } else {
                        dim
                    },
                    None,
                    ""@,
                )
            }) + "  "@ + bars_drawn(net.strength, 4) + "  "@ + painted(
                net.lock.word() + blanks(less(6, net.lock.word().len())),
                if net.lock == Lock::Open {
                    amber
                } else {
                    dim
                },
                None,
                ""@,
            ) + "  "@ + (if net.saved is Some {
                painted("saved"@, idle, None, ""@)
            } else {
                seq![]
            })
            &&& vpn_drawn(vpn) == " "@ + (if vpn.active is Some {
                painted("●"@, live, None, ""@)
            } else {
                " "@
            }) + " "@ + painted(fitted(vpn.name, 30), light, None, ""@) + "  "@ + (
            if vpn.active is Some {
                painted("up"@, live, None, ""@)
            } else {
                painted("down"@, idle, None, ""@)
            })
        }),
{
}

/// The list: the radio, then a row for each network in their order or one
/// line that says why there is none, and then, where there are VPNs, an
/// empty line, their heading and a row for each in their order.
pub proof fn list_law(look: LookView, i: int)
    ensures
        ({
            let lines = list_drawn(look);
            let nets = look.nets.len() as int;
            let vpns = look.vpns.len() as int;
            let upper = if nets == 0 {
                2
            } else {
                1 + nets
            };
            &&& lines.len() == if vpns == 0 {
                upper
            } else {
                upper + 2 + vpns
            }
            &&& lines[0] == " "@ + painted("Wi-Fi"@, Some((247u8, 140u8, 60u8)), None, "b"@) + "  "@
                + (if look.wifi_on {
                painted("on"@, Some((120u8, 230u8, 140u8)), None, ""@)
            } else {
                painted("off"@, Some((110u8, 110u8, 125u8)), None, ""@)
            })
            &&& 0 <= i < nets ==> lines[1 + i] == net_drawn(look.nets[i])
            &&& nets == 0 && look.wifi_on ==> lines[1] == "   "@ + painted(
                "no networks in the air; r looks again"@,
                Some((140u8, 140u8, 150u8)),
                None,
                "i"@,
            )
            &&& nets == 0 && !look.wifi_on ==> lines[1] == "   "@ + painted(
                "the radio is off; w turns it on"@,
                Some((140u8, 140u8, 150u8)),
                None,
                "i"@,
            )
            &&& vpns > 0 ==> lines[upper].len() == 0 && lines[upper + 1] == " "@ + painted(
                "VPN"@,
                Some((247u8, 140u8, 60u8)),
                None,
                "b"@,
            )
            &&& 0 <= i < vpns ==> lines[upper + 2 + i] == vpn_drawn(look.vpns[i])
        }),
{
}

/// The row under the cursor stands on its own line: networks from the second
/// line on, VPNs below their heading.
pub proof fn line_of_law(look: LookView, sel: int)
    requires
        sel >= 0,
    ensures
        sel < look.nets.len() ==> line_of(look, sel) == Some(sel + 1),
        look.nets.len() <= sel < look.nets.len() + look.vpns.len() && look.nets.len() > 0
            ==> line_of(look, sel) == Some(sel + 3),
        look.nets.len() <= sel < look.vpns.len() && look.nets.len() == 0 ==> line_of(look, sel)
            == Some(sel + 4),
        sel >= look.nets.len() + look.vpns.len() ==> line_of(look, sel) is None,
{
}

/// The list starts at its first line while the cursor's line is on the first
/// page; else with the cursor's line at the bottom, when it was scrolled as
/// far before, and in the middle when it was not. All rows but four are for
/// the list.
pub proof fn first_shown_law(line: int, top: nat, height: nat, rows: u16)
    requires
        line >= 0,
    ensures
        line < height ==> first_shown(Some(line), top, height) == 0,
        0 < height <= line && top + height > line ==> first_shown(Some(line), top, height) == line
            - height + 1,
        0 < height <= line && top + height <= line ==> first_shown(Some(line), top, height) == line
            - height / 2,
        first_shown(None, top, height) == 0,
        rows >= 4 ==> list_height(rows) == rows - 4,
        rows < 4 ==> list_height(rows) == 0,
{
}

/// Scrolling goes back to the cursor when it is above, stays while the
/// cursor is above the last two rows, and else goes on so that the cursor
/// stands three rows from the end.
pub proof fn scrolled_law(sel: nat, top: nat, height: nat)
    requires
        sel + 3 <= usize::MAX,
    ensures
        height >= 3 && sel < top ==> scrolled(sel, top, height) == sel,
        height >= 3 && top <= sel < top + height - 2 ==> scrolled(sel, top, height) == top,
        height >= 3 && top <= sel && top + height - 2 <= sel && sel + 3 >= height ==> scrolled(
            sel,
            top,
            height,
        ) == sel + 3 - height,
        height < 3 ==> scrolled(sel, top, height) == sel + 3 - height,
{
}

/// A row for the list is at its own row of the screen, from the third on,
/// with the rest of the row cleared.
pub proof fn row_place_law(body: Seq<char>, k: int)
    requires
        k >= 0,
    ensures
        row_drawn(body, k) == moved(1, (k + 3) as nat) + body + seq![ESC, '[', 'K'],
{
}

/// The row with the cursor is drawn on the lifted background, which is
/// lifted again behind every reset in it, and reset at its end.
pub proof fn lifted_law(line: Seq<char>, w: nat)
    ensures
        lift() == seq![
            ESC,
            '[',
            '4',
            '8',
            ';',
            '2',
            ';',
            '5',
            '2',
            ';',
            '4',
            '8',
            ';',
            '6',
            '0',
            'm',
        ],
        lifted(line, w) == lift() + replaced(
            line + blanks(less(w, display_cells(line))),
            seq![ESC, '[', '0', 'm'],
            seq![ESC, '[', '0', 'm'] + lift(),
        ) + seq![ESC, '[', '0', 'm'],
{
    reveal_with_fuel(decimal, 3);
    let codes = colour(seq!['4', '8', ';', '2'], Some(PICK_BG));
    assert(listed(codes) == codes[0]);
    assert(decimal(52) =~= seq!['5', '2']);
    assert(decimal(48) =~= seq!['4', '8']);
    assert(decimal(60) =~= seq!['6', '0']);
    assert(lift() =~= seq![
        ESC,
        '[',
        '4',
        '8',
        ';',
        '2',
        ';',
        '5',
        '2',
        ';',
        '4',
        '8',
        ';',
        '6',
        '0',
        'm',
    ]);
}

/// The bar across the top is at the first row, and what is seen of it is the
/// program's name and what you are on, out to the edge.
pub proof fn head_seen_law(now: Seq<char>, w: nat)
    requires
        plain(now),
    ensures
        visible(head_drawn(now, w)) == seq![' ', 'r', 'o', 'a', 'm', ' ', ' ', ' '] + now + blanks(
            less(w, 5 + display_cells(seq![' ', ' ', ' '] + now)),
        ),
        head_drawn(now, w).take(6) == seq![ESC, '[', '1', ';', '1', 'H'],
{
    reveal_strlit(" ");
    reveal_strlit("   ");
    reveal_strlit("roam");
    reveal_with_fuel(decimal, 2);
    let words = "   "@ + now;
    assert("   "@ =~= seq![' ', ' ', ' ']);
    assert(plain("   "@) && plain(" "@) && plain("roam"@));
    let pad = less(w, 5 + display_cells(words));
    let wide = words + blanks(pad);
    assert(plain(wide)) by {
        if wide.contains(ESC) {
            let i = choose|i: int| 0 <= i < wide.len() && wide[i] == ESC;
            if 3 <= i < words.len() {
                assert(now[i - 3] == ESC);
            }
        }
    }
    seen_plain(" "@, None, Some(BAR_BG), ""@);
    seen_plain("roam"@, Some(RUST_RGB), Some(BAR_BG), "b"@);
    seen_plain(wide, Some(NOW_RGB), Some(BAR_BG), ""@);
    moved_unseen(1, 1);
    let none = Seq::<char>::empty();
    let a = moved(1, 1);
    let b = painted(" "@, None, Some(BAR_BG), ""@);
    let c = painted("roam"@, Some(RUST_RGB), Some(BAR_BG), "b"@);
    let d = painted(wide, Some(NOW_RGB), Some(BAR_BG), ""@);
    seen_joined(a, none, b, " "@);
    seen_joined(a + b, none + " "@, c, "roam"@);
    seen_joined(a + b + c, none + " "@ + "roam"@, d, wide);
    assert(none + " "@ + "roam"@ + wide =~= seq![' ', 'r', 'o', 'a', 'm', ' ', ' ', ' '] + now
        + blanks(pad));
    assert(decimal(1) =~= seq!['1']);
    assert(a =~= seq![ESC, '[', '1', ';', '1', 'H']);
    assert(head_drawn(now, w).take(6) =~= a);
}

/// The bar along the bottom is at the last row, and what is seen of it is
/// the note, or the keys where there is none, cut to leave the version its
/// room at the far right.
pub proof fn foot_seen_law(note: Seq<char>, version: Seq<char>, w: nat, rows: nat)
    requires
        plain(note),
        printable(version),
    ensures
        ({
            let said = if note.len() == 0 {
                "Enter join · d leave · f forget · r look again · w radio · q quit"@
            } else {
                note
            };
            let tag = seq!['v'] + version + seq![' '];
            let words = seq![' '] + first_cells(said, less(w, version.len() + 5));
            visible(foot_drawn(note, version, w, rows)) == words + blanks(
                less(w, display_cells(words) + version.len() + 2),
            ) + tag
        }),
        moved(1, rows) == foot_drawn(note, version, w, rows).take(moved(1, rows).len() as int),
{
    reveal_strlit(" ");
    reveal_strlit("v");
    reveal_strlit("Enter join · d leave · f forget · r look again · w radio · q quit");
    let said = foot_words(note);
    let tag = "v"@ + version + " "@;
    assert("v"@ =~= seq!['v'] && " "@ =~= seq![' ']);
    assert(printable(tag));
    printable_cells(tag);
    assert(is_ascii_chars(tag));
    is_ascii_chars_encode_utf8(tag);
    assert(plain(said));
    let room = less(w, version.len() + 5);
    let first = first_cells(said, room);
    first_cells_law(said, room);
    let words = " "@ + first;
    let pad = less(w, display_cells(words) + tag.len());
    let wide = words + blanks(pad);
    assert(plain(wide)) by {
        if wide.contains(ESC) {
            let i = choose|i: int| 0 <= i < wide.len() && wide[i] == ESC;
            if 1 <= i < words.len() {
                assert(first[i - 1] == ESC);
                assert(said[i - 1] == ESC);
            }
        }
    }
    seen_plain(wide, Some(FOOT_RGB), Some(BAR_BG), ""@);
    seen_plain(tag, Some(DIM_RGB), Some(BAR_BG), ""@);
    moved_unseen(1, rows);
    let none = Seq::<char>::empty();
    let a = moved(1, rows);
    let b = painted(wide, Some(FOOT_RGB), Some(BAR_BG), ""@);
    let c = painted(tag, Some(DIM_RGB), Some(BAR_BG), ""@);
    seen_joined(a, none, b, wide);
    seen_joined(a + b, none + wide, c, tag);
    assert(none + wide + tag =~= words + blanks(pad) + tag);
    assert(foot_drawn(note, version, w, rows).take(a.len() as int) =~= a);
}

/// Both bars are on the bar's background throughout; the program's name is
/// bold and in its own colour, the version is dim.
pub proof fn bar_colours_law(
    now: Seq<char>,
    note: Seq<char>,
    version: Seq<char>,
    w: nat,
    rows: nat,
)
    requires
        printable(version),
    ensures
        ({
            let bar = Some((38u8, 38u8, 38u8));
            let words = "   "@ + now;
            let said = " "@ + first_cells(foot_words(note), less(w, version.len() + 5));
            &&& head_drawn(now, w) == moved(1, 1) + painted(" "@, None, bar, ""@) + painted(
                "roam"@,
                Some((247u8, 76u8, 0u8)),
                bar,
                "b"@,
            ) + painted(
                words + blanks(less(w, 5 + display_cells(words))),
                Some((220u8, 220u8, 225u8)),
                bar,
                ""@,
            )
            &&& foot_drawn(note, version, w, rows) == moved(1, rows) + painted(
                said + blanks(less(w, display_cells(said) + version.len() + 2)),
                Some((200u8, 200u8, 205u8)),
                bar,
                ""@,
            ) + painted("v"@ + version + " "@, Some((140u8, 140u8, 150u8)), bar, ""@)
        }),
{
    reveal_strlit(" ");
    reveal_strlit("v");
    let tag = "v"@ + version + " "@;
    assert(is_ascii_chars(tag));
    is_ascii_chars_encode_utf8(tag);
}

/// The whole screen is the bar across the top, the rows for the list and the
/// bar along the bottom, each in full, and nothing else.
pub proof fn frame_parts_law(
    look: LookView,
    sel: nat,
    top: nat,
    note: Seq<char>,
    version: Seq<char>,
    cols: u16,
    rows: u16,
    parts: Seq<Seq<char>>,
    part: Seq<char>,
)
    ensures
        frame_drawn(look, sel, top, note, version, cols, rows) == head_drawn(look.now, cols as nat)
            + joined(list_rows(look, sel, top, cols, rows)) + foot_drawn(
            note,
            version,
            cols as nat,
            rows as nat,
        ),
        joined(Seq::empty()).len() == 0,
        joined(parts.push(part)) == joined(parts) + part,
{
    assert(parts.push(part).drop_last() =~= parts);
}

} // verus!
