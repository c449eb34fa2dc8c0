use roam::bus::{Answer, Ask};
use roam::nm::{Lock, Look, Net, Nm, Outcome, Vpn};
use roam::reading::{Entry, Setting};
use roam::roam::{Act, Event, Roam, Row};

fn net(ssid: &str, lock: Lock, saved: Option<&str>, active: Option<&str>) -> Net {
    Net {
        ssid: ssid.to_string(),
        strength: 50,
        lock,
        ap: format!("/ap/{ssid}"),
        saved: saved.map(|s| s.to_string()),
        active: active.map(|s| s.to_string()),
    }
}

fn look() -> Look {
    Look {
        wifi_on: true,
        nets: vec![
            net("home", Lock::Psk, Some("/s/1"), Some("/a/1")),
            net("work", Lock::Psk, Some("/s/2"), None),
            net("new", Lock::Sae, None, None),
            net("café", Lock::Open, None, None),
            net("campus", Lock::Enterprise, None, None),
        ],
        vpns: vec![
            Vpn { name: "office".to_string(), conn: "/s/7".to_string(), active: None },
            Vpn {
                name: "lab".to_string(),
                conn: "/s/8".to_string(),
                active: Some("/a/8".to_string()),
            },
        ],
        now: "home".to_string(),
    }
}

fn roam_at(sel: usize) -> Roam {
    let mut roam = Roam::new(Nm { wifi: Some("/dev/3".to_string()) }, look());
    roam.sel = sel;
    roam
}

fn asked(ask: &Ask) -> String {
    match ask {
        Ask::Scan { card } => format!("scan {card}"),
        Ask::Activate { conn, card, ap } => format!("activate {conn} {card} {ap}"),
        Ask::Add { security: Some(s), card, ap } => {
            format!("add {} {} {card} {ap}", s.key_mgmt, s.psk)
        }
        Ask::Add { security: None, card, ap } => format!("add open {card} {ap}"),
        Ask::Deactivate { active } => format!("deactivate {active}"),
        Ask::Delete { conn } => format!("delete {conn}"),
        Ask::Radio { on } => format!("radio {on}"),
        Ask::Settings { conn } => format!("settings {conn}"),
        Ask::Mark { conn, metered } => format!("mark {conn} {metered}"),
    }
}

fn told(act: &Act) -> String {
    match act {
        Act::Quit => "quit".to_string(),
        Act::Listen { wait } => format!("listen {wait}"),
        Act::Password { prompt } => format!("password{prompt}"),
        Act::Send { ask, show } => format!("send {} {show}", asked(ask)),
        Act::Wait { active, limit } => format!("wait {active} {limit}"),
        Act::Look { pause } => format!("look {pause}"),
        Act::Help => "help".to_string(),
    }
}

fn key(roam: &mut Roam, name: &str) -> String {
    told(&roam.step(Event::Key(name.to_string()), 1_000))
}

fn answer(roam: &mut Roam, answer: Answer) -> String {
    told(&roam.step(Event::Answer(answer), 1_000))
}

fn refused(why: &str) -> Answer {
    Answer::Refused(why.to_string())
}

fn rising(active: &str, made: Option<&str>) -> Answer {
    Answer::Rising { active: active.to_string(), made: made.map(|m| m.to_string()) }
}

fn ended(roam: &mut Roam, outcome: Outcome) -> String {
    told(&roam.step(Event::Ended(outcome), 1_000))
}

#[test]
fn the_rows_are_the_networks_then_the_vpns() {
    let rows = roam_at(0).rows();
    assert_eq!(rows.len(), 7);
    assert_eq!(rows[0], Row::Net(0));
    assert_eq!(rows[4], Row::Net(4));
    assert_eq!(rows[5], Row::Vpn(0));
    assert_eq!(rows[6], Row::Vpn(1));
}

#[test]
fn without_a_card_the_note_says_so() {
    assert_eq!(roam_at(0).note, "");
    let roam = Roam::new(Nm { wifi: None }, look());
    assert_eq!(roam.note, "no Wi-Fi card here; VPNs only");
}

#[test]
fn the_cursor_moves_within_the_rows() {
    let mut roam = roam_at(0);
    assert_eq!(key(&mut roam, "k"), "listen 600000");
    assert_eq!(roam.sel, 0);
    key(&mut roam, "j");
    key(&mut roam, "DOWN");
    assert_eq!(roam.sel, 2);
    key(&mut roam, "UP");
    assert_eq!(roam.sel, 1);
    key(&mut roam, "G");
    assert_eq!(roam.sel, 6);
    key(&mut roam, "j");
    assert_eq!(roam.sel, 6);
    key(&mut roam, "g");
    assert_eq!(roam.sel, 0);
    key(&mut roam, "END");
    assert_eq!(roam.sel, 6);
    key(&mut roam, "HOME");
    assert_eq!(roam.sel, 0);
    assert_eq!(key(&mut roam, "RESIZE"), "listen 600000");
    assert_eq!(key(&mut roam, "x"), "listen 600000");
}

#[test]
fn an_empty_list_has_no_row_to_act_on() {
    let empty = Look { wifi_on: true, nets: vec![], vpns: vec![], now: String::new() };
    let mut roam = Roam::new(Nm { wifi: Some("/dev/3".to_string()) }, empty);
    assert_eq!(key(&mut roam, "ENTER"), "listen 600000");
    key(&mut roam, "G");
    key(&mut roam, "j");
    assert_eq!(roam.sel, 0);
    key(&mut roam, "d");
    assert_eq!(roam.note, "not on any Wi-Fi");
}

#[test]
fn q_and_escape_quit() {
    assert_eq!(key(&mut roam_at(0), "q"), "quit");
    assert_eq!(key(&mut roam_at(3), "ESC"), "quit");
}

#[test]
fn a_live_network_is_not_joined_again() {
    let mut roam = roam_at(0);
    assert_eq!(key(&mut roam, "ENTER"), "listen 600000");
    assert_eq!(roam.note, "already on home");
}

#[test]
fn a_saved_network_joins_without_asking() {
    let mut roam = roam_at(1);
    assert_eq!(key(&mut roam, "ENTER"), "send activate /s/2 /dev/3 /ap/work true");
    assert_eq!(roam.note, "joining work…");
    assert_eq!(answer(&mut roam, rising("/a/2", None)), "wait /a/2 25000");
    assert_eq!(ended(&mut roam, Outcome::Up), "look 0");
    assert_eq!(roam.note, "on work");
}

#[test]
fn a_saved_network_that_fails_stays_saved() {
    let mut roam = roam_at(1);
    key(&mut roam, "ENTER");
    answer(&mut roam, rising("/a/2", None));
    assert_eq!(ended(&mut roam, Outcome::Failed), "look 0");
    assert_eq!(roam.note, "could not join work");
    let mut roam = roam_at(1);
    key(&mut roam, "ENTER");
    answer(&mut roam, rising("/a/2", None));
    assert_eq!(ended(&mut roam, Outcome::Slow), "look 0");
    assert_eq!(roam.note, "work is still coming up");
    let mut roam = roam_at(1);
    key(&mut roam, "ENTER");
    assert_eq!(answer(&mut roam, refused("no secrets")), "look 0");
    assert_eq!(roam.note, "could not join work: no secrets");
}

#[test]
fn a_locked_network_nobody_saved_asks_for_its_password() {
    let mut roam = roam_at(2);
    assert_eq!(key(&mut roam, "ENTER"), "password Password for new: ");
    let act = roam.step(Event::Typed(Some("s3cret".to_string())), 1_000);
    assert_eq!(told(&act), "send add sae s3cret /dev/3 /ap/new true");
    assert_eq!(roam.note, "joining new…");
    assert_eq!(answer(&mut roam, rising("/a/3", Some("/s/9"))), "wait /a/3 25000");
    assert_eq!(ended(&mut roam, Outcome::Failed), "send delete /s/9 false");
    assert_eq!(answer(&mut roam, refused("gone")), "look 0");
    assert_eq!(roam.note, "new did not take that password");
    let act = roam.step(Event::Looked(look()), 1_000);
    assert_eq!(told(&act), "listen 600000");
    assert_eq!(key(&mut roam, "ENTER"), "password Password for new: ", "asked again");
}

#[test]
fn no_password_means_no_joining() {
    for typed in [None, Some(String::new())] {
        let mut roam = roam_at(2);
        roam.note = "before".to_string();
        key(&mut roam, "ENTER");
        let act = roam.step(Event::Typed(typed), 1_000);
        assert_eq!(told(&act), "listen 600000");
        assert_eq!(roam.note, "");
    }
}

#[test]
fn an_open_network_joins_without_a_password() {
    let mut roam = roam_at(3);
    assert_eq!(key(&mut roam, "ENTER"), "send add open /dev/3 /ap/café true");
    answer(&mut roam, rising("/a/3", Some("/s/9")));
    assert_eq!(ended(&mut roam, Outcome::Failed), "send delete /s/9 false");
    assert_eq!(answer(&mut roam, Answer::Done), "look 0");
    assert_eq!(roam.note, "could not join café");
}

#[test]
fn a_certificate_is_beyond_the_keys() {
    let mut roam = roam_at(4);
    assert_eq!(key(&mut roam, "ENTER"), "listen 600000");
    assert_eq!(
        roam.note,
        "campus wants a user name and a certificate; roam cannot set that up yet"
    );
}

#[test]
fn without_a_card_joining_says_why() {
    let mut roam = Roam::new(Nm { wifi: None }, look());
    roam.sel = 1;
    assert_eq!(key(&mut roam, "ENTER"), "look 0");
    assert_eq!(roam.note, "could not join work: no Wi-Fi card");
}

#[test]
fn enter_brings_a_vpn_up() {
    let mut roam = roam_at(5);
    assert_eq!(key(&mut roam, "ENTER"), "send activate /s/7 / / true");
    assert_eq!(roam.note, "bringing office up…");
    assert_eq!(answer(&mut roam, rising("/a/7", None)), "wait /a/7 30000");
    assert_eq!(ended(&mut roam, Outcome::Up), "look 0");
    assert_eq!(roam.note, "office up");
    for (outcome, note) in [
        (Outcome::Failed, "office would not come up"),
        (Outcome::Slow, "office is still coming up"),
    ] {
        let mut roam = roam_at(5);
        key(&mut roam, "ENTER");
        answer(&mut roam, rising("/a/7", None));
        ended(&mut roam, outcome);
        assert_eq!(roam.note, note);
    }
    let mut roam = roam_at(5);
    key(&mut roam, "ENTER");
    assert_eq!(answer(&mut roam, refused("no plugin")), "look 0");
    assert_eq!(roam.note, "office would not start: no plugin");
}

#[test]
fn enter_takes_a_vpn_down() {
    let mut roam = roam_at(6);
    assert_eq!(key(&mut roam, "ENTER"), "send deactivate /a/8 false");
    assert_eq!(answer(&mut roam, Answer::Done), "look 0");
    assert_eq!(roam.note, "lab down");
    let mut roam = roam_at(6);
    key(&mut roam, "ENTER");
    answer(&mut roam, refused("busy"));
    assert_eq!(roam.note, "lab stayed up: busy");
}

#[test]
fn d_leaves_the_live_network_wherever_the_cursor_is() {
    let mut roam = roam_at(5);
    assert_eq!(key(&mut roam, "d"), "send deactivate /a/1 false");
    assert_eq!(answer(&mut roam, Answer::Done), "look 400");
    assert_eq!(roam.note, "left home");
    let mut roam = roam_at(5);
    key(&mut roam, "d");
    answer(&mut roam, refused("busy"));
    assert_eq!(roam.note, "still on home: busy");
}

#[test]
fn d_leaves_the_network_under_the_cursor_if_it_is_live() {
    let mut roam = roam_at(1);
    roam.look.nets[1].active = Some("/a/2".to_string());
    assert_eq!(key(&mut roam, "d"), "send deactivate /a/2 false");
}

#[test]
fn f_forgets_after_a_yes() {
    let mut roam = roam_at(1);
    assert_eq!(key(&mut roam, "f"), "listen 60000");
    assert_eq!(roam.note, "forget work, password and all? y/n");
    assert_eq!(key(&mut roam, "y"), "send delete /s/2 false");
    assert_eq!(answer(&mut roam, Answer::Done), "look 0");
    assert_eq!(roam.note, "forgot work");
    let mut roam = roam_at(1);
    key(&mut roam, "f");
    key(&mut roam, "y");
    answer(&mut roam, refused("not yours"));
    assert_eq!(roam.note, "kept work: not yours");
}

#[test]
fn anything_but_y_keeps_the_network() {
    let mut roam = roam_at(1);
    key(&mut roam, "f");
    assert_eq!(key(&mut roam, "q"), "listen 600000");
    assert_eq!(roam.note, "");
    key(&mut roam, "f");
    assert_eq!(told(&roam.step(Event::Quiet, 1_000)), "listen 600000");
    assert_eq!(roam.note, "");
}

#[test]
fn only_a_saved_network_can_be_forgotten() {
    let mut roam = roam_at(2);
    key(&mut roam, "f");
    assert_eq!(roam.note, "new is not saved");
    let mut roam = roam_at(5);
    key(&mut roam, "f");
    assert_eq!(roam.note, "only a saved Wi-Fi network can be forgotten here");
}

#[test]
fn m_turns_the_metered_mark_round() {
    let mark = |n: i32| {
        Answer::Settings(vec![Entry {
            group: "connection".to_string(),
            key: "metered".to_string(),
            value: Setting::Int(n),
        }])
    };
    let mut roam = roam_at(1);
    assert_eq!(key(&mut roam, "m"), "send settings /s/2 false");
    assert_eq!(answer(&mut roam, mark(0)), "send mark /s/2 true false");
    assert_eq!(answer(&mut roam, Answer::Done), "look 0");
    assert_eq!(roam.note, "work is metered");
    let mut roam = roam_at(1);
    key(&mut roam, "m");
    assert_eq!(answer(&mut roam, mark(1)), "send mark /s/2 false false");
    answer(&mut roam, Answer::Done);
    assert_eq!(roam.note, "work is not metered");
    let mut roam = roam_at(1);
    key(&mut roam, "m");
    answer(&mut roam, refused("gone"));
    assert_eq!(roam.note, "work stayed as it was: gone");
    let mut roam = roam_at(2);
    key(&mut roam, "m");
    assert_eq!(roam.note, "new is not saved");
    let mut roam = roam_at(6);
    key(&mut roam, "m");
    assert_eq!(roam.note, "only a saved Wi-Fi network can be marked here");
}

#[test]
fn r_looks_again_when_the_scan_should_be_done() {
    let mut roam = roam_at(0);
    assert_eq!(key(&mut roam, "r"), "send scan /dev/3 false");
    assert_eq!(answer(&mut roam, Answer::Done), "listen 3000");
    assert_eq!(roam.note, "looking for networks…");
    assert_eq!(roam.rescan_at, Some(4_000));
    assert_eq!(told(&roam.step(Event::Quiet, 3_999)), "listen 1");
    assert_eq!(told(&roam.step(Event::Key("j".to_string()), 4_500)), "listen 1");
    assert_eq!(told(&roam.step(Event::Quiet, 4_500)), "look 0");
    assert_eq!(roam.note, "looked again");
    assert_eq!(roam.rescan_at, None);
    let mut roam = Roam::new(Nm { wifi: None }, look());
    assert_eq!(key(&mut roam, "r"), "listen 3000");
}

#[test]
fn w_switches_the_radio() {
    let mut roam = roam_at(0);
    assert_eq!(key(&mut roam, "w"), "send radio false false");
    assert_eq!(answer(&mut roam, Answer::Done), "look 400");
    assert_eq!(roam.note, "Wi-Fi off");
    let mut roam = roam_at(0);
    roam.look.wifi_on = false;
    assert_eq!(key(&mut roam, "w"), "send radio true false");
    answer(&mut roam, Answer::Done);
    assert_eq!(roam.note, "Wi-Fi on");
    let mut roam = roam_at(0);
    key(&mut roam, "w");
    assert_eq!(answer(&mut roam, refused("a: b")), "look 400");
    assert_eq!(roam.note, "Wi-Fi stayed as it was: a: b");
}

#[test]
fn a_question_mark_shows_the_keys() {
    let mut roam = roam_at(0);
    assert_eq!(key(&mut roam, "?"), "help");
    assert_eq!(told(&roam.step(Event::Closed, 1_000)), "listen 600000");
}

#[test]
fn a_new_look_keeps_the_cursor_on_a_row() {
    let mut roam = roam_at(6);
    key(&mut roam, "ENTER");
    answer(&mut roam, Answer::Done);
    let short = Look {
        wifi_on: true,
        nets: vec![net("home", Lock::Psk, None, None)],
        vpns: vec![],
        now: "home".to_string(),
    };
    assert_eq!(told(&roam.step(Event::Looked(short), 1_000)), "listen 600000");
    assert_eq!(roam.sel, 0);
    assert_eq!(roam.look.nets.len(), 1);
    assert_eq!(roam.note, "lab down");
}

#[test]
fn nothing_wakes_the_wait_for_a_key() {
    let mut roam = roam_at(2);
    assert_eq!(told(&roam.listen(5_000)), "listen 600000");
    assert_eq!(told(&roam.step(Event::Quiet, 9_000)), "listen 600000");
    assert_eq!(roam.sel, 2);
    assert_eq!(told(&roam.step(Event::Looked(look()), 9_000)), "listen 600000");
    assert_eq!(told(&roam.step(Event::Ended(Outcome::Up), 9_000)), "listen 600000");
    assert_eq!(told(&roam.step(Event::Answer(Answer::Done), 9_000)), "listen 600000");
    assert_eq!(told(&roam.step(Event::Typed(None), 9_000)), "listen 600000");
}
