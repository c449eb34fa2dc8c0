//! The terminal's own words: how wide a text is drawn, and the control
//! sequences around it. Everything here is what the `crust` crate does;
//! its contracts are believed, not proved.

use vstd::prelude::*;

use crate::text::{decimal, less};

verus! {

/// The character that starts every control sequence.
pub const ESC: char = '\u{1b}';

/// The zero width joiner: the next character becomes part of the same
/// glyph.
pub const JOINER: char = '\u{200D}';

/// The variation selector that makes the glyph before it an emoji.
pub const SELECTOR: char = '\u{FE0F}';

/// The mark of a text that was cut.
pub const MARK: char = '\u{2026}';

/// The character that ends a control string.
pub const BEL: char = '\u{7}';

/// A text without a control sequence in it.
pub open spec fn plain(text: Seq<char>) -> bool {
    !text.contains(ESC)
}

/// `crust::WidthWalker`, which counts cells as it is fed characters.
#[verifier::external_type_specification]
#[verifier::external_body]
pub struct ExWidthWalker(crust::WidthWalker);

/// The characters that a walker has been fed so far.
pub uninterp spec fn fed(walker: crust::WidthWalker) -> Seq<char>;

/// The cells that `crust` gives a character that starts a glyph.
pub uninterp spec fn glyph_cells(c: char) -> nat;

/// The cells of a character that starts a glyph: one for the printable
/// characters of ASCII and for the mark.
pub open spec fn char_cells(c: char) -> nat {
    if ' ' <= c <= '~' || c == MARK {
        1
    } else {
        glyph_cells(c)
    }
}

/// Whether a text ends with a joiner that makes the next character part of
/// its last glyph.
pub open spec fn pending(text: Seq<char>) -> bool
    decreases text.len(),
{
    text.len() >= 2 && text.last() == JOINER && !pending(text.drop_last())
}

/// Whether a character belongs to the last glyph of the text before it: it
/// is joined to it, or is a joiner or a selector itself.
pub open spec fn continues(before: Seq<char>, c: char) -> bool {
    pending(before) || (before.len() > 0 && (c == SELECTOR || c == JOINER))
}

/// The cells of the last glyph of a text: two once a selector or a joiner
/// made it an emoji.
pub open spec fn last_cells(text: Seq<char>) -> nat
    decreases text.len(),
{
    if text.len() == 0 {
        0
    } else if pending(text.drop_last()) {
        last_cells(text.drop_last())
    } else if continues(text.drop_last(), text.last()) {
        2
    } else {
        char_cells(text.last())
    }
}

/// The cells that a character adds to the text before it: what it makes its
/// glyph wider by, or its own when it starts one.
pub open spec fn cells_added(before: Seq<char>, c: char) -> nat {
    if pending(before) {
        0
    } else if continues(before, c) {
        less(2, last_cells(before))
    } else {
        char_cells(c)
    }
}

/// `crust::WidthWalker::new`: a walker that has been fed nothing.
pub assume_specification[ crust::WidthWalker::new ]() -> (walker: crust::WidthWalker)
    ensures
        fed(walker) == Seq::<char>::empty(),
;

/// `crust::WidthWalker::push`: the walker has been fed one character more,
/// and says how many cells that character adds. For a character that starts
/// a glyph that is a function of the character alone, and one for the
/// printable characters of ASCII and for the mark.
pub assume_specification[ crust::WidthWalker::push ](
    walker: &mut crust::WidthWalker,
    c: char,
) -> (added: usize)
    ensures
        fed(*final(walker)) == fed(*old(walker)).push(c),
        added == cells_added(fed(*old(walker)), c),
        !continues(fed(*old(walker)), c) && !(' ' <= c <= '~') && c != MARK ==> added
            == glyph_cells(c),
;

/// `crust::WidthWalker::is_continuation`: whether the character would
/// extend the glyph that is open.
pub assume_specification[ crust::WidthWalker::is_continuation ](
    walker: &crust::WidthWalker,
    c: char,
) -> (joins: bool)
    ensures
        joins == continues(fed(*walker), c),
;

/// The cells of a text, character by character.
pub open spec fn cells(text: Seq<char>) -> nat
    decreases text.len(),
{
    if text.len() == 0 {
        0
    } else {
        cells(text.drop_last()) + cells_added(text.drop_last(), text.last())
    }
}

/// Where in a text with control sequences a place is. `kept` says that a
/// control string before it had two ends in one, ESC and BEL; the next
/// control string then ends at its first character.
pub enum Place {
    /// Between sequences: a character here is seen.
    Text { kept: bool },
    /// After the character that starts a sequence.
    Escape { kept: bool },
    /// In a sequence that a letter ends, such as one for a colour.
    Codes { kept: bool },
    /// In a control string.
    Words,
    /// In a control string that the next character ends.
    WordsEnd,
}

/// Whether a character is a letter of ASCII.
pub open spec fn letter(c: char) -> bool {
    'a' <= c <= 'z' || 'A' <= c <= 'Z'
}

/// The place after one more character.
pub open spec fn place_next(place: Place, c: char) -> Place {
    match place {
        Place::Text { kept } => if c == ESC {
            Place::Escape { kept }
        } else {
            place
        },
        Place::Escape { kept } => if c == '[' {
            Place::Codes { kept }
        } else if c == ']' {
            if kept {
                Place::WordsEnd
            } else {
                Place::Words
            }
        } else {
            Place::Text { kept }
        },
        Place::Codes { kept } => if letter(c) {
            Place::Text { kept }
        } else {
            place
        },
        Place::Words => if c == BEL {
            Place::Text { kept: false }
        } else if c == ESC {
            Place::WordsEnd
        } else {
            place
        },
        Place::WordsEnd => Place::Text { kept: c == BEL },
    }
}

/// The place after a text.
pub open spec fn place_after(text: Seq<char>) -> Place
    decreases text.len(),
{
    if text.len() == 0 {
        Place::Text { kept: false }
    } else {
        place_next(place_after(text.drop_last()), text.last())
    }
}

/// Whether every control sequence in a text is complete.
pub open spec fn tidy(text: Seq<char>) -> bool {
    place_after(text) is Text
}

/// What is seen of a text: the characters outside its control sequences.
pub open spec fn visible(text: Seq<char>) -> Seq<char>
    decreases text.len(),
{
    if text.len() == 0 {
        text
    } else if place_after(text.drop_last()) is Text && text.last() != ESC {
        visible(text.drop_last()).push(text.last())
    } else {
        visible(text.drop_last())
    }
}

/// The cells that a text takes on the screen: those of what is seen of it.
pub open spec fn display_cells(text: Seq<char>) -> nat {
    cells(visible(text))
}

/// `crust::display_width`: the cells that a walker counts over what is left
/// of the text without its control sequences. Such a sequence is ESC with a
/// bracket and all up to a letter, ESC with a closing bracket and all up to
/// BEL or up to ESC and one more character, or ESC with any other
/// character; one that is not complete goes to the end. After a control
/// string that ESC and BEL end, the next one ends at its first character.
#[verifier::external_body]
pub(crate) fn display_width(text: &str) -> (width: usize)
    ensures
        width == display_cells(text@),
{
    crust::display_width(text)
}

/// A colour: red, green, blue.
pub type Rgb = (u8, u8, u8);

/// The code of a text attribute.
pub open spec fn attribute(letter: char) -> Seq<Seq<char>> {
    if letter == 'b' {
        seq![seq!['1']]
    } else if letter == 'd' {
        seq![seq!['2']]
    } else if letter == 'i' {
        seq![seq!['3']]
    } else if letter == 'u' {
        seq![seq!['4']]
    } else if letter == 'l' {
        seq![seq!['5']]
    } else if letter == 'r' {
        seq![seq!['7']]
    } else {
        seq![]
    }
}

/// The codes of text attributes, each a letter.
pub open spec fn attributes(letters: Seq<char>) -> Seq<Seq<char>>
    decreases letters.len(),
{
    if letters.len() == 0 {
        seq![]
    } else {
        attributes(letters.drop_last()) + attribute(letters.last())
    }
}

/// The code of a colour, for the ground that `ground` names.
pub open spec fn colour(ground: Seq<char>, rgb: Option<Rgb>) -> Seq<Seq<char>> {
    match rgb {
        Some((r, g, b)) => seq![
            ground + seq![';'] + decimal(r as nat) + seq![';'] + decimal(g as nat) + seq![';']
                + decimal(b as nat),
        ],
        None => seq![],
    }
}

/// Codes with a semicolon between them.
pub open spec fn listed(codes: Seq<Seq<char>>) -> Seq<char>
    decreases codes.len(),
{
    if codes.len() == 0 {
        seq![]
    } else if codes.len() == 1 {
        codes[0]
    } else {
        listed(codes.drop_last()) + seq![';'] + codes.last()
    }
}

/// The sequence that puts the terminal back to no colour and no attribute.
pub open spec fn reset() -> Seq<char> {
    seq![ESC, '[', '0', 'm']
}

/// A text in its colours: the codes of the attributes, the foreground and
/// the background in one sequence before it, a reset after it. Without a
/// code the text stands alone.
pub open spec fn painted(
    text: Seq<char>,
    fg: Option<Rgb>,
    bg: Option<Rgb>,
    letters: Seq<char>,
) -> Seq<char> {
    let codes = attributes(letters) + colour(seq!['3', '8', ';', '2'], fg) + colour(
        seq!['4', '8', ';', '2'],
        bg,
    );
    if codes.len() == 0 {
        text
    } else {
        seq![ESC, '['] + listed(codes) + seq!['m'] + text + reset()
    }
}

/// `crust::style::rgb`: the text in its colours.
#[verifier::external_body]
pub(crate) fn paint(text: &str, fg: Option<Rgb>, bg: Option<Rgb>, letters: &str) -> (out: String)
    ensures
        out@ == painted(text@, fg, bg, letters@),
{
    crust::style::rgb(text, fg, bg, letters)
}

/// `crust::style::RESET`: the reset sequence.
#[verifier::external_body]
pub(crate) fn reset_text() -> (out: &'static str)
    ensures
        out@ == reset(),
{
    crust::style::RESET
}

/// The sequence that clears the rest of a line.
pub open spec fn erase() -> Seq<char> {
    seq![ESC, '[', 'K']
}

/// `crust::seq::ERASE_EOL`: the sequence that clears the rest of a line.
#[verifier::external_body]
pub(crate) fn erase_text() -> (out: &'static str)
    ensures
        out@ == erase(),
{
    crust::seq::ERASE_EOL
}

/// The sequence that moves the cursor: row first, both from one.
pub open spec fn moved(col: nat, row: nat) -> Seq<char> {
    seq![ESC, '['] + decimal(row) + seq![';'] + decimal(col) + seq!['H']
}

/// `crust::Cursor::at`: the sequence that moves the cursor.
#[verifier::external_body]
pub(crate) fn move_to(col: u16, row: u16) -> (out: String)
    ensures
        out@ == moved(col as nat, row as nat),
{
    crust::Cursor::at(col, row)
}

} // verus!
