use roam::cells::{fit, take_cells};

#[test]
fn a_name_is_always_its_column_wide() {
    assert_eq!(crust::display_width(&fit("home", 10)), 10);
    assert_eq!(crust::display_width(&fit("☕ café wifi", 10)), 10);
    assert_eq!(crust::display_width(&fit("a very long network name indeed", 10)), 10);
    assert!(fit("a very long network name indeed", 10).contains('…'));
}

#[test]
fn a_short_name_is_padded_and_a_long_one_cut() {
    assert_eq!(fit("home", 6), "home  ");
    assert_eq!(fit("home", 4), "home");
    assert_eq!(fit("homes", 4), "hom…");
    assert_eq!(fit("", 3), "   ");
}

#[test]
fn a_column_of_nothing_holds_nothing() {
    assert_eq!(fit("home", 0), "");
    assert_eq!(fit("", 0), "");
    assert_eq!(fit("home", 1), "…");
}

#[test]
fn wide_glyphs_are_counted_by_cells() {
    assert_eq!(fit("日本語", 5), "日本…");
    assert_eq!(fit("日本語", 4), "日… ", "half a glyph is not drawn");
    assert_eq!(crust::display_width(&fit("日本語", 4)), 4);
}

#[test]
fn the_first_cells_never_cut_a_glyph() {
    assert_eq!(take_cells("abc", 2), "ab");
    assert_eq!(take_cells("abc", 9), "abc");
    assert_eq!(take_cells("abc", 0), "");
    assert_eq!(take_cells("日本", 3), "日");
    // A pencil is one cell until the next character makes it an emoji.
    assert_eq!(take_cells("a\u{270f}\u{fe0f}", 2), "a");
    assert_eq!(take_cells("a\u{270f}\u{fe0f}", 3), "a\u{270f}\u{fe0f}");
}

#[test]
fn a_joiner_at_the_end_costs_no_column() {
    assert_eq!(crust::display_width(&fit("ab\u{200d}", 8)), 8);
    assert_eq!(crust::display_width(&fit("\u{1f468}\u{200d}\u{1f469}", 8)), 8);
}

#[test]
fn a_name_with_complete_sequences_is_its_column_wide() {
    for name in [
        "\u{1b}[1mab\u{1b}[0m",
        "\u{1b}[38;2;1;2;3mab",
        "a\u{1b}]0;title\u{7}b",
        "a\u{1b}]0;title\u{1b}\\b",
        "a\u{1b}cb",
        "\u{1b}[1mab\u{200d}",
    ] {
        assert_eq!(crust::display_width(&fit(name, 8)), 8, "{name:?}");
    }
    assert_eq!(fit("\u{1b}[1mab\u{1b}[0m", 5), "\u{1b}[1mab\u{1b}[0m   ");
}

#[test]
fn a_space_is_made_up_only_where_it_helps() {
    assert_eq!(fit("ab\u{1b}[", 4), "ab\u{1b}[  ", "all that follows is in the sequence");
    assert_eq!(fit("ab\u{1b}", 4), "ab\u{1b}   ");
    assert_eq!(crust::display_width(&fit("ab\u{1b}", 4)), 4);
    assert_eq!(fit("ab\u{200d}", 6), "ab\u{200d}    ");
}

#[test]
fn a_joiner_makes_one_glyph_of_two() {
    assert_eq!(take_cells("a\u{200d}b", 1), "");
    assert_eq!(take_cells("a\u{200d}b", 2), "a\u{200d}b");
    assert_eq!(take_cells("a\u{200d}\u{200d}b", 2), "a\u{200d}\u{200d}");
    assert_eq!(take_cells("a\u{200d}\u{200d}b", 3), "a\u{200d}\u{200d}b");
    assert_eq!(take_cells("\u{200d}ab", 1), "\u{200d}a", "the first character joins nothing");
}

#[test]
fn a_control_string_with_two_ends_in_one_shortens_the_next() {
    // After ESC and BEL together the next control string ends at once.
    let name = "a\u{1b}]t\u{1b}\u{7}b\u{1b}]xyz";
    assert_eq!(crust::display_width(name), 4, "a, b, y and z");
    assert_eq!(fit(name, 7), format!("{name}   "));
    let name = "a\u{1b}]t\u{1b}\u{7}b\u{1b}]\u{7}c\u{1b}]\u{7}d";
    assert_eq!(crust::display_width(&fit(name, 9)), 9);
    assert_eq!(fit(name, 9), format!("{name}     "));
}
