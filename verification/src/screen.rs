//! The screen as one text: a bar with what you are on, the list, a bar with
//! what just happened.

use vstd::prelude::*;
use vstd::string::*;

use crate::cells::{first_cells, fit, fitted, take_cells};
use crate::nm::{Lock, Look, LookView, Net, NetView, Vpn, VpnView};
use crate::term::{
    colour, display_cells, display_width, erase, erase_text, listed, move_to, moved, paint,
    painted, reset, reset_text, Rgb, ESC,
};
use crate::text::{
    blanks, decimal, digit, less, replace, replaced, spaces, stands_at, trim_end_part,
    without_end_part,
};

verus! {

pub const RUST_RGB: Rgb = (247, 76, 0);

pub const HEAD_RGB: Rgb = (247, 140, 60);

pub const LIVE_RGB: Rgb = (120, 230, 140);

pub const IDLE_RGB: Rgb = (110, 110, 125);

pub const DIM_RGB: Rgb = (140, 140, 150);

/// A signal that will do, and a network without a lock.
pub const WARN_RGB: Rgb = (230, 180, 90);

/// A signal that is too weak.
pub const WEAK_RGB: Rgb = (220, 90, 80);

/// A bar that is not lit.
pub const DARK_RGB: Rgb = (60, 60, 68);

pub const NAME_RGB: Rgb = (225, 225, 230);

pub const NOW_RGB: Rgb = (220, 220, 225);

pub const FOOT_RGB: Rgb = (200, 200, 205);

pub const BAR_BG: Rgb = (38, 38, 38);

pub const PICK_BG: Rgb = (52, 48, 60);

/// How wide the network names are drawn.
pub const NAME_W: usize = 30;

/// How many of the four bars are lit.
pub open spec fn bars_lit(strength: u8) -> int {
    if strength < 20 {
        1
    } else if strength < 45 {
        2
    } else if strength < 70 {
        3
    } else {
        4
    }
}

/// The colour of the bars that are lit.
pub open spec fn signal_colour(lit: int) -> Rgb {
    if lit >= 3 {
        LIVE_RGB
    } else if lit == 2 {
        WARN_RGB
    } else {
        WEAK_RGB
    }
}

/// The colour of the bar at `k`: lit to the strength, dark above it.
pub open spec fn bar_colour(strength: u8, k: int) -> Rgb {
    if k < bars_lit(strength) {
        signal_colour(bars_lit(strength))
    } else {
        DARK_RGB
    }
}

/// The four bars.
pub open spec fn bar_glyphs() -> Seq<char> {
    seq!['▂', '▄', '▆', '█']
}

/// The first `n` bars, lit to the strength.
pub open spec fn bars_drawn(strength: u8, n: nat) -> Seq<char>
    decreases n,
{
    if n == 0 {
        seq![]
    } else {
        let k = n - 1;
        bars_drawn(strength, k as nat) + painted(
            seq![bar_glyphs()[k]],
            Some(bar_colour(strength, k)),
            None,
            ""@,
        )
    }
}

/// Signal as four bars, lit to the strength.
pub fn bars(strength: u8) -> (out: String)
    ensures
        out@ == bars_drawn(strength, 4),
{
    let glyphs: [char; 4] = ['▂', '▄', '▆', '█'];
    let lit: usize = if strength < 20 {
        1
    } else if strength < 45 {
        2
    } else if strength < 70 {
        3
    } else {
        4
    };
    let bright = if lit >= 3 {
        LIVE_RGB
    } else if lit == 2 {
        WARN_RGB
    } else {
        WEAK_RGB
    };
    assert(glyphs@ =~= bar_glyphs());
    let mut out = String::new();
    let mut k: usize = 0;
    while k < 4
        invariant
            k <= 4,
            glyphs@ == bar_glyphs(),
            lit == bars_lit(strength),
            bright == signal_colour(lit as int),
            out@ == bars_drawn(strength, k as nat),
        decreases 4 - k,
    {
        let mut glyph = String::new();
        glyph.push(glyphs[k]);
        assert(glyph@ =~= seq![bar_glyphs()[k as int]]);
        let tone = if k < lit {
            bright
        } else {
            DARK_RGB
        };
        out.append(paint(glyph.as_str(), Some(tone), None, "").as_str());
        k = k + 1;
    }
    out
}

/// The mark before a live row.
pub open spec fn mark_drawn(live: bool) -> Seq<char> {
    if live {
        painted("●"@, Some(LIVE_RGB), None, ""@)
    } else {
        " "@
    }
}

/// The mark before a live row.
fn mark(live: bool) -> (out: String)
    ensures
        out@ == mark_drawn(live),
{
    if live {
        paint("●", Some(LIVE_RGB), None, "")
    } else {
        " ".to_string()
    }
}

/// The word for a lock, in its column.
pub open spec fn lock_drawn(lock: Lock) -> Seq<char> {
    painted(
        lock.word() + blanks(less(6, lock.word().len())),
        Some(
            if lock == Lock::Open {
                WARN_RGB
            } else {
                DIM_RGB
            },
        ),
        None,
        ""@,
    )
}

/// The row of a network: a mark when it is live, its name, its signal, its
/// lock, and whether it is saved.
pub open spec fn net_drawn(net: NetView) -> Seq<char> {
    let name = fitted(net.ssid, NAME_W as nat);
    " "@ + mark_drawn(net.active is Some) + " "@ + (if net.active is Some {
        painted(name, Some(LIVE_RGB), None, "b"@)
    } else if net.saved is Some {
        painted(name, Some(NAME_RGB), None, ""@)
    } else {
        painted(name, Some(DIM_RGB), None, ""@)
    }) + "  "@ + bars_drawn(net.strength, 4) + "  "@ + lock_drawn(net.lock) + "  "@ + (
    if net.saved is Some {
        painted("saved"@, Some(IDLE_RGB), None, ""@)
    } else {
        seq![]
    })
}

/// The row of a network.
pub fn net_line(net: &Net) -> (out: String)
    ensures
        out@ == net_drawn(net.deep_view()),
{
    let name = fit(net.ssid.as_str(), NAME_W);
    let name = if net.active.is_some() {
        paint(name.as_str(), Some(LIVE_RGB), None, "b")
    } else if net.saved.is_some() {
        paint(name.as_str(), Some(NAME_RGB), None, "")
    } else {
        paint(name.as_str(), Some(DIM_RGB), None, "")
    };
    let word = net.lock.label();
    let pad = (6usize).saturating_sub(word.unicode_len());
    let tone = if net.lock == Lock::Open {
        WARN_RGB
    } else {
        DIM_RGB
    };
    let lock = paint(
        word.to_string().concat(spaces(pad).as_str()).as_str(),
        Some(tone),
        None,
        "",
    );
    let saved = if net.saved.is_some() {
        paint("saved", Some(IDLE_RGB), None, "")
    } else {
        String::new()
    };
    " ".to_string().concat(mark(net.active.is_some()).as_str()).concat(" ").concat(
        name.as_str(),
    ).concat("  ").concat(bars(net.strength).as_str()).concat("  ").concat(lock.as_str()).concat(
        "  ",
    ).concat(saved.as_str())
}

/// The row of a VPN: a mark when it is up, its name, and whether it is up.
pub open spec fn vpn_drawn(vpn: VpnView) -> Seq<char> {
    " "@ + mark_drawn(vpn.active is Some) + " "@ + painted(
        fitted(vpn.name, NAME_W as nat),
        Some(NAME_RGB),
        None,
        ""@,
    ) + "  "@ + (if vpn.active is Some {
        painted("up"@, Some(LIVE_RGB), None, ""@)
    } else {
        painted("down"@, Some(IDLE_RGB), None, ""@)
    })
}

/// The row of a VPN.
pub fn vpn_line(vpn: &Vpn) -> (out: String)
    ensures
        out@ == vpn_drawn(vpn.deep_view()),
{
    let state = if vpn.active.is_some() {
        paint("up", Some(LIVE_RGB), None, "")
    } else {
        paint("down", Some(IDLE_RGB), None, "")
    };
    let name = paint(fit(vpn.name.as_str(), NAME_W).as_str(), Some(NAME_RGB), None, "");
    " ".to_string().concat(mark(vpn.active.is_some()).as_str()).concat(" ").concat(
        name.as_str(),
    ).concat("  ").concat(state.as_str())
}

/// The sequence that lifts the background.
pub open spec fn lift() -> Seq<char> {
    seq![ESC, '['] + listed(colour(seq!['4', '8', ';', '2'], Some(PICK_BG))) + seq!['m']
}

/// A row with the cursor on it: the same text on a lifted background, out
/// to the edge. Where the text goes back to no colour the background is
/// lifted again.
pub open spec fn lifted(line: Seq<char>, w: nat) -> Seq<char> {
    lift() + replaced(
        line + blanks(less(w, display_cells(line))),
        reset(),
        reset() + lift(),
    ) + reset()
}

/// Taking the reset away from an empty text on a lifted background leaves
/// what lifts it.
proof fn lift_is_opening()
    ensures
        without_end_part(painted(""@, None, Some(PICK_BG), ""@), reset()) == lift(),
{
    reveal_strlit("");
    reveal_with_fuel(decimal, 3);
    reveal_with_fuel(crate::term::attributes, 2);
    let all = painted(""@, None, Some(PICK_BG), ""@);
    let codes = colour(seq!['4', '8', ';', '2'], Some(PICK_BG));
    assert(""@ =~= Seq::<char>::empty());
    assert(crate::term::attributes(""@) + colour(seq!['3', '8', ';', '2'], None) + codes =~= codes);
    assert(all =~= lift() + reset());
    let n = lift().len() as int;
    assert(all.len() == n + 4);
    assert(all.subrange(n, n + 4) =~= reset());
    assert(all.take(n) =~= lift());
    assert(stands_at(all, all.len() - reset().len(), reset()));
    assert(listed(codes) == codes[0]);
    let blue = decimal(60);
    assert(blue =~= seq![digit(6), digit(0)]);
    assert(lift()[n - 3] == blue[0]);
    assert(digit(6) == '6');
    if stands_at(lift(), n - 4, reset()) {
        assert(lift().subrange(n - 4, n)[1] == reset()[1]);
    }
    assert(without_end_part(lift(), reset()) == lift());
}

/// A row with the cursor on it.
pub fn pick(line: &str, w: usize) -> (out: String)
    ensures
        out@ == lifted(line@, w as nat),
{
    let pad = w.saturating_sub(display_width(line));
    let body = line.to_string().concat(spaces(pad).as_str());
    let arm = paint("", None, Some(PICK_BG), "");
    let arm = trim_end_part(arm.as_str(), reset_text());
    proof {
        lift_is_opening();
    }
    let again = reset_text().to_string().concat(arm.as_str());
    let new = replace(body.as_str(), reset_text(), again.as_str());
    arm.concat(new.as_str()).concat(reset_text())
}

/// The line above the networks: whether the radio is on.
pub open spec fn radio_drawn(on: bool) -> Seq<char> {
    " "@ + painted("Wi-Fi"@, Some(HEAD_RGB), None, "b"@) + "  "@ + (if on {
        painted("on"@, Some(LIVE_RGB), None, ""@)
    } else {
        painted("off"@, Some(IDLE_RGB), None, ""@)
    })
}

/// The line in place of networks when there are none: why.
pub open spec fn nothing_drawn(on: bool) -> Seq<char> {
    "   "@ + painted(
        if !on {
            "the radio is off; w turns it on"@
        } else {
            "no networks in the air; r looks again"@
        },
        Some(DIM_RGB),
        None,
        "i"@,
    )
}

/// The lines of the list: the radio, the networks or why there are none,
/// and the VPNs under a heading of their own when there are any.
pub open spec fn list_drawn(look: LookView) -> Seq<Seq<char>> {
    seq![radio_drawn(look.wifi_on)] + (if look.nets.len() == 0 {
        seq![nothing_drawn(look.wifi_on)]
    } else {
        look.nets.map_values(|net: NetView| net_drawn(net))
    }) + (if look.vpns.len() == 0 {
        seq![]
    } else {
        seq![seq![], " "@ + painted("VPN"@, Some(HEAD_RGB), None, "b"@)] + look.vpns.map_values(
            |vpn: VpnView| vpn_drawn(vpn),
        )
    })
}

/// The line of the list that a row stands on.
pub open spec fn line_of(look: LookView, row: int) -> Option<int> {
    if row < look.nets.len() {
        Some(1 + row)
    } else if row < look.nets.len() + look.vpns.len() {
        Some((if look.nets.len() == 0 { 4 } else { 3int }) + row)
    } else {
        None
    }
}

/// Every row has a line of its own, and the line shows that row.
pub proof fn rows_have_lines_law(look: LookView, row: int)
    requires
        0 <= row < look.nets.len() + look.vpns.len(),
    ensures
        line_of(look, row) matches Some(line) && 0 <= line < list_drawn(look).len()
            && list_drawn(look)[line] == (if row < look.nets.len() {
            net_drawn(look.nets[row])
        } else {
            vpn_drawn(look.vpns[row - look.nets.len()])
        }),
{
}

/// The lines of the list.
fn list_lines(look: &Look) -> (lines: Vec<String>)
    ensures
        lines.deep_view() == list_drawn(look.deep_view()),
{
    let ghost view = look.deep_view();
    let mut lines: Vec<String> = Vec::new();
    let radio = if look.wifi_on {
        paint("on", Some(LIVE_RGB), None, "")
    } else {
        paint("off", Some(IDLE_RGB), None, "")
    };
    let head = paint("Wi-Fi", Some(HEAD_RGB), None, "b");
    lines.push(" ".to_string().concat(head.as_str()).concat("  ").concat(radio.as_str()));
    let ghost first = seq![radio_drawn(view.wifi_on)];
    assert(lines.deep_view() =~= first);
    if look.nets.len() == 0 {
        let why = if !look.wifi_on {
            "the radio is off; w turns it on"
        } else {
            "no networks in the air; r looks again"
        };
        lines.push("   ".to_string().concat(paint(why, Some(DIM_RGB), None, "i").as_str()));
        assert(lines.deep_view() =~= first + seq![nothing_drawn(view.wifi_on)]);
    } else {
        let mut k: usize = 0;
        while k < look.nets.len()
            invariant
                k <= look.nets@.len(),
                view == look.deep_view(),
                lines.deep_view() == first + view.nets.take(k as int).map_values(
                    |net: NetView| net_drawn(net),
                ),
            decreases look.nets@.len() - k,
        {
            let ghost before = lines.deep_view();
            lines.push(net_line(&look.nets[k]));
            assert(lines.deep_view() =~= before.push(net_drawn(view.nets[k as int])));
            assert(view.nets.take(k + 1).map_values(|net: NetView| net_drawn(net))
                =~= view.nets.take(k as int).map_values(|net: NetView| net_drawn(net)).push(
                net_drawn(view.nets[k as int]),
            ));
            assert(lines.deep_view() =~= first + view.nets.take(k + 1).map_values(
                |net: NetView| net_drawn(net),
            ));
            k = k + 1;
        }
        assert(view.nets.take(k as int) =~= view.nets);
    }
    let ghost upper = lines.deep_view();
    if look.vpns.len() > 0 {
        let head = paint("VPN", Some(HEAD_RGB), None, "b");
        lines.push(String::new());
        lines.push(" ".to_string().concat(head.as_str()));
        let ghost heading = seq![
            Seq::<char>::empty(),
            " "@ + painted("VPN"@, Some(HEAD_RGB), None, "b"@),
        ];
        assert(lines.deep_view() =~= upper + (heading + view.vpns.take(0).map_values(
            |vpn: VpnView| vpn_drawn(vpn),
        )));
        let mut k: usize = 0;
        while k < look.vpns.len()
            invariant
                k <= look.vpns@.len(),
                view == look.deep_view(),
                lines.deep_view() == upper + (heading + view.vpns.take(k as int).map_values(
                    |vpn: VpnView| vpn_drawn(vpn),
                )),
            decreases look.vpns@.len() - k,
        {
            let ghost before = lines.deep_view();
            lines.push(vpn_line(&look.vpns[k]));
            assert(lines.deep_view() =~= before.push(vpn_drawn(view.vpns[k as int])));
            assert(view.vpns.take(k + 1).map_values(|vpn: VpnView| vpn_drawn(vpn))
                =~= view.vpns.take(k as int).map_values(|vpn: VpnView| vpn_drawn(vpn)).push(
                vpn_drawn(view.vpns[k as int]),
            ));
            assert(lines.deep_view() =~= upper + (heading + view.vpns.take(k + 1).map_values(
                |vpn: VpnView| vpn_drawn(vpn),
            )));
            k = k + 1;
        }
        assert(view.vpns.take(k as int) =~= view.vpns);
    }
    assert(lines.deep_view() =~= list_drawn(view));
    lines
}

/// How many lines the list has on a screen with that many rows.
pub open spec fn list_height(rows: u16) -> nat {
    less(rows as nat, 4)
}

/// How far the list is scrolled, after the cursor moved: back to the cursor
/// when that is above, and on when it is near the end of the list's rows or
/// below. `first_shown` goes by this, and brings the cursor's line into view
/// where this alone does not.
pub open spec fn scrolled(sel: nat, top: nat, height: nat) -> nat {
    let near = if sel < top {
        sel
    } else {
        top
    };
    if sel < near + less(height, 2) {
        near
    } else if sel + 3 - height > usize::MAX {
        usize::MAX as nat
    } else {
        less(sel + 3, height)
    }
}

/// How far the list is scrolled, after the cursor moved.
pub fn scroll(sel: usize, top: usize, height: usize) -> (new: usize)
    ensures
        new == scrolled(sel as nat, top as nat, height as nat),
{
    let near = if sel < top {
        sel
    } else {
        top
    };
    if sel - near < height.saturating_sub(2) {
        near
    } else if height >= 3 {
        sel.saturating_sub(height - 3)
    } else {
        sel.saturating_add(3 - height)
    }
}

/// The first line of the list on the screen.
pub open spec fn first_shown(picked: Option<int>, top: nat, height: nat) -> nat {
    match picked {
        Some(line) => {
            let low = less(line as nat, less(height, 1));
            let start = if low < top {
                low
            } else {
                top
            };
            if line < start || line >= start + height {
                less(line as nat, height / 2)
            } else {
                start
            }
        },
        None => 0,
    }
}

/// The cursor stays in view: whatever the scrolling, its line is among the
/// lines on the screen, when the screen has any for the list.
pub proof fn cursor_in_view_law(line: int, top: nat, height: nat)
    requires
        line >= 0,
        height > 0,
    ensures
        first_shown(Some(line), top, height) <= line < first_shown(Some(line), top, height)
            + height,
{
}

/// The first line of the list on the screen.
fn first_line(picked: Option<usize>, top: usize, height: usize) -> (start: usize)
    ensures
        start == first_shown(
            match picked {
                Some(line) => Some(line as int),
                None => None,
            },
            top as nat,
            height as nat,
        ),
{
    match picked {
        Some(line) => {
            let low = line.saturating_sub(height.saturating_sub(1));
            let start = if low < top {
                low
            } else {
                top
            };
            if line < start || line - start >= height {
                line.saturating_sub(height / 2)
            } else {
                start
            }
        },
        None => 0,
    }
}

/// The row of the screen for a line of the list, the `k`th under the bar
/// across the top: at its place, with the rest of the row cleared.
pub open spec fn row_drawn(body: Seq<char>, k: int) -> Seq<char> {
    moved(1, (3 + k) as nat) + body + erase()
}

/// A line of the list, or nothing below its end.
pub open spec fn line_at(lines: Seq<Seq<char>>, at: int) -> Seq<char> {
    if 0 <= at < lines.len() {
        lines[at]
    } else {
        seq![]
    }
}

/// The rows of the screen for `n` lines of the list, from line `start` on,
/// the picked one lit.
pub open spec fn rows_drawn(
    lines: Seq<Seq<char>>,
    picked: Option<int>,
    start: nat,
    w: nat,
    n: nat,
) -> Seq<Seq<char>> {
    Seq::new(
        n,
        |k: int|
            row_drawn(
                if picked == Some(start + k) {
                    lifted(line_at(lines, start + k), w)
                } else {
                    line_at(lines, start + k)
                },
                k,
            ),
    )
}

/// Texts one behind the other.
pub open spec fn joined(parts: Seq<Seq<char>>) -> Seq<char>
    decreases parts.len(),
{
    if parts.len() == 0 {
        seq![]
    } else {
        joined(parts.drop_last()) + parts.last()
    }
}

/// The lines of the list on the screen.
fn show_lines(
    lines: &Vec<String>,
    picked: Option<usize>,
    start: usize,
    w: usize,
    height: u16,
) -> (out: String)
    requires
        height < 65533,
    ensures
        out@ == joined(
            rows_drawn(
                lines.deep_view(),
                match picked {
                    Some(line) => Some(line as int),
                    None => None,
                },
                start as nat,
                w as nat,
                height as nat,
            ),
        ),
{
    let ghost mark = match picked {
        Some(line) => Some(line as int),
        None => None,
    };
    let mut out = String::new();
    let mut r: u16 = 0;
    while r < height
        invariant
            r <= height < 65533,
            mark == (match picked {
                Some(line) => Some(line as int),
                None => None,
            }),
            out@ == joined(
                rows_drawn(lines.deep_view(), mark, start as nat, w as nat, r as nat),
            ),
        decreases height - r,
    {
        let step = r as usize;
        let body = if start < lines.len() && step < lines.len() - start {
            lines[start + step].clone()
        } else {
            String::new()
        };
        let here = match picked {
            Some(line) => line >= start && line - start == step,
            None => false,
        };
        let body = if here {
            pick(body.as_str(), w)
        } else {
            body
        };
        let ghost before = out@;
        let ghost all = lines.deep_view();
        out = out.concat(move_to(1, 3 + r).as_str()).concat(body.as_str()).concat(erase_text());
        proof {
            let rows = rows_drawn(all, mark, start as nat, w as nat, (r + 1) as nat);
            assert(lines.len() == all.len());
            assert(rows.drop_last() =~= rows_drawn(all, mark, start as nat, w as nat, r as nat));
            assert(rows.last() == row_drawn(body@, r as int));
            assert(out@ =~= before + row_drawn(body@, r as int));
        }
        r = r + 1;
    }
    out
}

/// The bar across the top: what you are on. Every piece carries the bar's
/// background, spaces included, so it runs unbroken.
pub open spec fn head_drawn(now: Seq<char>, w: nat) -> Seq<char> {
    let words = "   "@ + now;
    moved(1, 1) + painted(" "@, None, Some(BAR_BG), ""@) + painted(
        "roam"@,
        Some(RUST_RGB),
        Some(BAR_BG),
        "b"@,
    ) + painted(
        words + blanks(less(w, 5 + display_cells(words))),
        Some(NOW_RGB),
        Some(BAR_BG),
        ""@,
    )
}

/// The bar across the top.
fn head(now: &str, w: usize) -> (out: String)
    ensures
        out@ == head_drawn(now@, w as nat),
{
    let words = "   ".to_string().concat(now);
    let pad = w.saturating_sub(5).saturating_sub(display_width(words.as_str()));
    let wide = words.clone().concat(spaces(pad).as_str());
    move_to(1, 1).concat(paint(" ", None, Some(BAR_BG), "").as_str()).concat(
        paint("roam", Some(RUST_RGB), Some(BAR_BG), "b").as_str(),
    ).concat(paint(wide.as_str(), Some(NOW_RGB), Some(BAR_BG), "").as_str())
}

/// What the bar along the bottom says: what just happened, or the keys.
pub open spec fn foot_words(note: Seq<char>) -> Seq<char> {
    if note.len() == 0 {
        "Enter join · d leave · f forget · r look again · w radio · q quit"@
    } else {
        note
    }
}

/// The bar along the bottom, the version at its far right.
pub open spec fn foot_drawn(note: Seq<char>, version: Seq<char>, w: nat, rows: nat) -> Seq<char> {
    let tag = "v"@ + version + " "@;
    let size = vstd::utf8::encode_utf8(tag).len();
    let words = " "@ + first_cells(foot_words(note), less(w, size + 3));
    moved(1, rows) + painted(
        words + blanks(less(w, display_cells(words) + size)),
        Some(FOOT_RGB),
        Some(BAR_BG),
        ""@,
    ) + painted(tag, Some(DIM_RGB), Some(BAR_BG), ""@)
}

/// The bar along the bottom.
fn foot(note: &str, version: &str, w: usize, rows: u16) -> (out: String)
    ensures
        out@ == foot_drawn(note@, version@, w as nat, rows as nat),
{
    let words = if note.is_empty() {
        "Enter join · d leave · f forget · r look again · w radio · q quit"
    } else {
        note
    };
    let tag = "v".to_string().concat(version).concat(" ");
    let size = tag.as_str().as_bytes().len();
    let room = w.saturating_sub(size).saturating_sub(3);
    let words = " ".to_string().concat(take_cells(words, room).as_str());
    let pad = w.saturating_sub(display_width(words.as_str())).saturating_sub(size);
    let wide = words.clone().concat(spaces(pad).as_str());
    move_to(1, rows).concat(paint(wide.as_str(), Some(FOOT_RGB), Some(BAR_BG), "").as_str()).concat(
        paint(tag.as_str(), Some(DIM_RGB), Some(BAR_BG), "").as_str(),
    )
}

/// The rows of the screen for the list, scrolled so the cursor stays in
/// view, the row with the cursor lit.
pub open spec fn list_rows(look: LookView, sel: nat, top: nat, cols: u16, rows: u16) -> Seq<
    Seq<char>,
> {
    let picked = line_of(look, sel as int);
    rows_drawn(
        list_drawn(look),
        picked,
        first_shown(picked, top, list_height(rows)),
        cols as nat,
        list_height(rows),
    )
}

/// The whole screen: the bar across the top, the list, the bar along the
/// bottom.
pub open spec fn frame_drawn(
    look: LookView,
    sel: nat,
    top: nat,
    note: Seq<char>,
    version: Seq<char>,
    cols: u16,
    rows: u16,
) -> Seq<char> {
    head_drawn(look.now, cols as nat) + joined(list_rows(look, sel, top, cols, rows)) + foot_drawn(
        note,
        version,
        cols as nat,
        rows as nat,
    )
}

/// The line of the list that a row stands on.
fn picked_line(look: &Look, sel: usize, lines: &Vec<String>) -> (picked: Option<usize>)
    requires
        lines.deep_view() == list_drawn(look.deep_view()),
    ensures
        (match picked {
            Some(line) => Some(line as int),
            None => None,
        }) == line_of(look.deep_view(), sel as int),
{
    let nets = look.nets.len();
    let vpns = look.vpns.len();
    assert(lines.len() == lines.deep_view().len());
    if sel < nets {
        Some(1 + sel)
    } else if sel - nets < vpns {
        if nets == 0 {
            Some(4 + sel)
        } else {
            Some(3 + sel)
        }
    } else {
        None
    }
}

/// The whole screen.
pub fn frame(
    look: &Look,
    sel: usize,
    top: usize,
    note: &str,
    version: &str,
    cols: u16,
    rows: u16,
) -> (out: String)
    ensures
        out@ == frame_drawn(
            look.deep_view(),
            sel as nat,
            top as nat,
            note@,
            version@,
            cols,
            rows,
        ),
{
    let w = cols as usize;
    let height: u16 = rows.saturating_sub(4);
    let lines = list_lines(look);
    let picked = picked_line(look, sel, &lines);
    let start = first_line(picked, top, height as usize);
    head(look.now.as_str(), w).concat(
        show_lines(&lines, picked, start, w, height).as_str(),
    ).concat(foot(note, version, w, rows).as_str())
}

} // verus!
