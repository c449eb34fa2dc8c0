use roam::nm::{Lock, Look, Net, Nm, Vpn};
use roam::roam::Roam;
use roam::screen::{bars, frame, net_line, pick, scroll, vpn_line};

const OFF: &str = "\u{1b}[0m";

fn fg(text: &str, codes: &str) -> String {
    format!("\u{1b}[{codes}m{text}{OFF}")
}

fn net(ssid: &str, saved: Option<&str>, active: Option<&str>) -> Net {
    Net {
        ssid: ssid.to_string(),
        strength: 80,
        lock: Lock::Psk,
        ap: "/ap/1".to_string(),
        saved: saved.map(|s| s.to_string()),
        active: active.map(|s| s.to_string()),
    }
}

fn vpn(name: &str, active: Option<&str>) -> Vpn {
    Vpn {
        name: name.to_string(),
        conn: "/s/9".to_string(),
        active: active.map(|s| s.to_string()),
    }
}

fn look(nets: Vec<Net>, vpns: Vec<Vpn>) -> Look {
    Look { wifi_on: true, nets, vpns, now: "home · 10.0.0.7".to_string() }
}

/// The rows of a frame by their place on the screen, without the colours.
fn shown(out: &str) -> Vec<(String, String)> {
    let mut rows = Vec::new();
    for part in out.split("\u{1b}[") {
        if let Some(end) = part.find('H') {
            if part[..end].chars().all(|c| c.is_ascii_digit() || c == ';') {
                rows.push((part[..end].to_string(), part[end + 1..].to_string()));
                continue;
            }
        }
        if let (Some(row), Some(end)) = (rows.last_mut(), part.find(['m', 'K'])) {
            row.1.push_str(&part[end + 1..]);
        }
    }
    rows
}

#[test]
fn four_bars_light_with_the_signal() {
    let lit = |s: u8| crust::strip_ansi(&bars(s)).chars().count();
    assert_eq!(lit(5), 4, "four glyphs always, some of them dark");
}

#[test]
fn bars_are_drawn_in_the_colour_of_the_signal() {
    let bar = |glyph: &str, rgb: &str| fg(glyph, &format!("38;2;{rgb}"));
    let dark = "60;60;68";
    let (red, amber, green) = ("220;90;80", "230;180;90", "120;230;140");
    let want = |tones: [&str; 4]| {
        format!(
            "{}{}{}{}",
            bar("▂", tones[0]),
            bar("▄", tones[1]),
            bar("▆", tones[2]),
            bar("█", tones[3])
        )
    };
    assert_eq!(bars(0), want([red, dark, dark, dark]));
    assert_eq!(bars(19), want([red, dark, dark, dark]));
    assert_eq!(bars(20), want([amber, amber, dark, dark]));
    assert_eq!(bars(44), want([amber, amber, dark, dark]));
    assert_eq!(bars(45), want([green, green, green, dark]));
    assert_eq!(bars(69), want([green, green, green, dark]));
    assert_eq!(bars(70), want([green, green, green, green]));
    assert_eq!(bars(255), want([green, green, green, green]));
}

#[test]
fn a_live_network_stands_out() {
    let name = format!("{:<30}", "home");
    let line = net_line(&net("home", Some("/s/1"), Some("/a/1")));
    assert_eq!(
        line,
        format!(
            " {} {}  {}  {}  {}",
            fg("●", "38;2;120;230;140"),
            fg(&name, "1;38;2;120;230;140"),
            bars(80),
            fg("WPA2  ", "38;2;140;140;150"),
            fg("saved", "38;2;110;110;125")
        )
    );
}

#[test]
fn an_unknown_network_is_dim_and_an_open_one_warns() {
    let mut open = net("café", None, None);
    open.lock = Lock::Open;
    assert_eq!(
        net_line(&open),
        format!(
            "   {}  {}  {}  ",
            fg(&format!("{:<30}", "café"), "38;2;140;140;150"),
            bars(80),
            fg("open  ", "38;2;230;180;90")
        )
    );
    let used = net_line(&net("work", Some("/s/2"), None));
    assert!(used.contains(&fg(&format!("{:<30}", "work"), "38;2;225;225;230")));
}

#[test]
fn a_vpn_is_up_or_down() {
    let name = fg(&format!("{:<30}", "office"), "38;2;225;225;230");
    assert_eq!(
        vpn_line(&vpn("office", Some("/a/2"))),
        format!(
            " {} {name}  {}",
            fg("●", "38;2;120;230;140"),
            fg("up", "38;2;120;230;140")
        )
    );
    assert_eq!(
        vpn_line(&vpn("office", None)),
        format!("   {name}  {}", fg("down", "38;2;110;110;125"))
    );
}

#[test]
fn the_picked_row_is_lifted_to_the_edge() {
    let lift = "\u{1b}[48;2;52;48;60m";
    assert_eq!(pick("ab", 4), format!("{lift}ab  {OFF}"));
    let painted = fg("ab", "38;2;1;2;3");
    assert_eq!(
        pick(&painted, 3),
        format!("{lift}\u{1b}[38;2;1;2;3mab{OFF}{lift} {OFF}"),
        "colours taken off leave the background lifted"
    );
    assert_eq!(pick("abc", 2), format!("{lift}abc{OFF}"));
    assert_eq!(crust::display_width(&pick(&painted, 20)), 20);
}

#[test]
fn a_frame_holds_bar_list_and_bar() {
    let l = look(vec![net("home", Some("/s/1"), Some("/a/1"))], vec![vpn("office", None)]);
    let out = frame(&l, 0, 0, "", "1.2.3", 100, 10);
    let rows = shown(&out);
    let places: Vec<&str> = rows.iter().map(|r| r.0.as_str()).collect();
    assert_eq!(places, ["1;1", "3;1", "4;1", "5;1", "6;1", "7;1", "8;1", "10;1"]);
    assert_eq!(rows[0].1.trim_end(), " roam   home · 10.0.0.7");
    assert_eq!(crust::display_width(&rows[0].1), 100);
    assert_eq!(rows[1].1, " Wi-Fi  on");
    assert!(rows[2].1.starts_with(" ● home "));
    assert_eq!(crust::display_width(&rows[2].1), 100, "the picked row runs to the edge");
    assert_eq!(rows[3].1, "");
    assert_eq!(rows[4].1, " VPN");
    assert!(rows[5].1.starts_with("   office "));
    assert_eq!(rows[6].1, "");
    let foot = &rows[7].1;
    assert!(foot.starts_with(" Enter join · d leave · f forget · r look again · w radio · q quit"));
    assert!(foot.ends_with("v1.2.3 "));
    assert_eq!(crust::display_width(foot), 100);
    assert!(out.contains("\u{1b}[K"));
}

#[test]
fn a_note_takes_the_place_of_the_keys() {
    let l = look(vec![], vec![]);
    let out = frame(&l, 0, 0, "left home", "1.0.0", 30, 8);
    let rows = shown(&out);
    assert_eq!(rows.last().unwrap().1, " left home             v1.0.0 ");
    let out = frame(&l, 0, 0, "a note that is far too long for this bar", "1.0.0", 30, 8);
    assert_eq!(shown(&out).last().unwrap().1, " a note that is far t  v1.0.0 ");
}

#[test]
fn an_empty_air_says_why() {
    let mut l = look(vec![], vec![vpn("office", None)]);
    let rows = shown(&frame(&l, 0, 0, "", "1", 60, 12));
    assert_eq!(rows[1].1, " Wi-Fi  on");
    assert_eq!(rows[2].1, "   no networks in the air; r looks again");
    assert_eq!(rows[4].1, " VPN");
    assert_eq!(crust::display_width(&rows[5].1), 60, "the cursor is on the VPN");
    l.wifi_on = false;
    let rows = shown(&frame(&l, 0, 0, "", "1", 60, 12));
    assert_eq!(rows[1].1, " Wi-Fi  off");
    assert_eq!(rows[2].1, "   the radio is off; w turns it on");
}

#[test]
fn a_screen_too_low_for_a_list_has_none() {
    let l = look(vec![net("home", None, None)], vec![]);
    for rows in [0u16, 1, 4] {
        let out = frame(&l, 0, 0, "", "1", 20, rows);
        assert_eq!(shown(&out).len(), 2);
    }
}

#[test]
fn the_list_scrolls_with_the_cursor() {
    assert_eq!(scroll(0, 5, 10), 0);
    assert_eq!(scroll(7, 0, 10), 0);
    assert_eq!(scroll(8, 0, 10), 1);
    assert_eq!(scroll(20, 0, 10), 13);
    assert_eq!(scroll(20, 15, 10), 15);
    assert_eq!(scroll(0, 0, 2), 1, "a list that low is always at its end");
    assert_eq!(scroll(5, 0, 0), 8);
}

#[test]
fn the_cursor_stays_in_view() {
    let many: Vec<Net> = (0..40).map(|k| net(&format!("net{k:02}"), None, None)).collect();
    let mut roam = Roam::new(Nm { wifi: Some("/dev/3".to_string()) }, look(many, vec![]));
    for sel in [0usize, 39, 20, 3, 35] {
        roam.sel = sel;
        let rows = shown(&roam.draw(80, 14, "1"));
        let name = format!("net{sel:02}");
        assert!(rows.iter().any(|r| r.1.contains(&name)), "{name} is not on the screen");
    }
}

#[test]
fn bars_are_the_same_exactly_within_a_band() {
    let band = |s: u8| match s {
        0..=19 => 1,
        20..=44 => 2,
        45..=69 => 3,
        _ => 4,
    };
    for s in 0..=255u8 {
        assert_eq!(crust::strip_ansi(&bars(s)), "▂▄▆█");
        for t in [0u8, 19, 20, 44, 45, 69, 70, 255] {
            assert_eq!(bars(s) == bars(t), band(s) == band(t), "{s} and {t}");
        }
    }
}

#[test]
fn the_picked_row_is_the_same_text() {
    let line = net_line(&net("☕ café", Some("/s/1"), Some("/a/1")));
    let out = pick(&line, 90);
    let seen = crust::strip_ansi(&line);
    assert_eq!(crust::strip_ansi(&out).trim_end(), seen.trim_end());
    assert_eq!(crust::display_width(&out), 90);
}

#[test]
fn both_bars_run_from_edge_to_edge() {
    let mut l = look(vec![], vec![]);
    l.now = "日本 ☕ · 10.0.0.7".to_string();
    for note in ["", "joining 日本…", "a note that is far too long for so narrow a screen"] {
        let rows = shown(&frame(&l, 0, 0, note, "0.1.0", 40, 10));
        assert_eq!(crust::display_width(&rows[0].1), 40);
        assert_eq!(crust::display_width(&rows.last().unwrap().1), 40);
    }
}

#[test]
fn exactly_one_row_is_lit() {
    let many: Vec<Net> = (0..12).map(|k| net(&format!("net{k:02}"), None, None)).collect();
    let l = look(many, vec![vpn("office", None), vpn("lab", None)]);
    let lift = "\u{1b}[48;2;52;48;60m";
    for (sel, name) in [(0usize, "net00"), (7, "net07"), (12, "office"), (13, "lab")] {
        for top in [0usize, 5, 40] {
            let out = frame(&l, sel, top, "", "1", 90, 10);
            let lit: Vec<&str> = out.split("\u{1b}[K").filter(|row| row.contains(lift)).collect();
            assert_eq!(lit.len(), 1);
            assert!(lit[0].contains(name));
        }
    }
    assert!(!frame(&l, 14, 0, "", "1", 90, 10).contains(lift));
}
