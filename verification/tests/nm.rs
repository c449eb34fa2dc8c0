use roam::bus::{short, Ask};
use roam::nm::{lock_of, Lock, Net, Nm, Outcome};
use roam::reading::{
    find, is_marked_metered, live, mark_number, saved_for, text, Active, Ap, Device, Entry,
    Reading, Saved, Setting, Standing,
};

fn card() -> Nm {
    Nm { wifi: Some("/dev/3".to_string()) }
}

fn entry(group: &str, key: &str, value: Setting) -> Entry {
    Entry { group: group.to_string(), key: key.to_string(), value }
}

fn wifi(path: &str, name: &str) -> Saved {
    Saved {
        path: path.to_string(),
        settings: Some(vec![
            entry("connection", "type", Setting::Text("802-11-wireless".to_string())),
            entry("connection", "id", Setting::Text(format!("{name} auto"))),
            entry("802-11-wireless", "ssid", Setting::Bytes(name.as_bytes().to_vec())),
        ]),
    }
}

fn vpn(path: &str, kind: &str, id: &str) -> Saved {
    Saved {
        path: path.to_string(),
        settings: Some(vec![
            entry("connection", "type", Setting::Text(kind.to_string())),
            entry("connection", "id", Setting::Text(id.to_string())),
        ]),
    }
}

fn active(path: &str, conn: &str) -> Active {
    Active { path: path.to_string(), conn: Some(conn.to_string()) }
}

fn ap(path: &str, name: &str, strength: u8, rsn: u32) -> Ap {
    Ap {
        path: path.to_string(),
        ssid: Some(name.as_bytes().to_vec()),
        strength: Some(strength),
        flags: Some(0),
        wpa: None,
        rsn: Some(rsn),
    }
}

fn standing() -> Standing {
    Standing {
        manager: true,
        primary: Some("/a/1".to_string()),
        reached: true,
        id: Some("home".to_string()),
        config: Some("/ip/1".to_string()),
        addresses: Some(vec![Some("10.0.0.7".to_string()), Some("10.0.0.8".to_string())]),
    }
}

#[test]
fn locks_read_from_the_flags() {
    assert_eq!(lock_of(0, 0, 0), Lock::Open);
    assert_eq!(lock_of(1, 0, 0x188), Lock::Psk, "WPA2 with a password");
    assert_eq!(lock_of(1, 0, 0x400), Lock::Sae, "WPA3 alone");
    assert_eq!(lock_of(1, 0, 0x500), Lock::Psk, "both on offer joins as WPA2");
    assert_eq!(lock_of(1, 0, 0x200), Lock::Enterprise);
    assert_eq!(lock_of(1, 0, 0), Lock::Psk, "an old privacy bit alone still wants a password");
}

#[test]
fn a_flag_counts_in_either_set() {
    assert_eq!(lock_of(0, 0x200, 0x100), Lock::Enterprise);
    assert_eq!(lock_of(0, 0x400, 0x100), Lock::Psk);
    assert_eq!(lock_of(0, 0, 0x8), Lock::Psk, "some key, of a kind without a name");
    assert_eq!(lock_of(2, 0, 0), Lock::Open, "a flag that is no lock");
}

#[test]
fn every_lock_has_its_word() {
    assert_eq!(Lock::Open.label(), "open");
    assert_eq!(Lock::Psk.label(), "WPA2");
    assert_eq!(Lock::Sae.label(), "WPA3");
    assert_eq!(Lock::Enterprise.label(), "802.1X");
}

#[test]
fn a_dbus_error_comes_back_short() {
    let e = zbus::Error::Failure("org.freedesktop.NetworkManager.Failed: Secrets were required".into());
    assert_eq!(short(&e), "Secrets were required");
}

#[test]
fn an_error_without_a_colon_stays_whole() {
    assert_eq!(short(&zbus::Error::Failure("gone".into())), "gone");
    assert_eq!(short(&zbus::Error::Failure("a: b: c".into())), "c");
    assert_eq!(short(&zbus::Error::Failure("ends with: ".into())), "");
    assert_eq!(short(&zbus::Error::Failure("a:b".into())), "a:b");
}

#[test]
fn the_first_wifi_device_is_the_card() {
    let device = |path: &str, kind: Option<u32>| Device { path: path.to_string(), kind };
    let all = vec![
        device("/dev/1", Some(1)),
        device("/dev/2", None),
        device("/dev/3", Some(2)),
        device("/dev/4", Some(2)),
    ];
    let nm = Nm::new(&all);
    assert!(nm.has_wifi());
    assert_eq!(nm.wifi, Some("/dev/3".to_string()));
    let nm = Nm::new(&vec![device("/dev/1", Some(1))]);
    assert!(!nm.has_wifi());
}

#[test]
fn settings_are_found_by_group_and_key() {
    let all = vec![
        entry("connection", "type", Setting::Text("vpn".to_string())),
        entry("connection", "metered", Setting::Int(1)),
        entry("ipv4", "metered", Setting::Int(2)),
    ];
    assert_eq!(text(&all, "connection", "type"), "vpn");
    assert_eq!(text(&all, "connection", "id"), "");
    assert_eq!(text(&all, "connection", "metered"), "", "not a text");
    assert!(matches!(find(&all, "ipv4", "metered"), Some(Setting::Int(2))));
    assert!(is_marked_metered(&all));
    assert!(!is_marked_metered(&vec![entry("connection", "metered", Setting::Int(2))]));
    assert!(!is_marked_metered(&vec![]));
    for mark in [true, false] {
        let set = vec![entry("connection", "metered", Setting::Int(mark_number(mark)))];
        assert_eq!(is_marked_metered(&set), mark);
    }
}

#[test]
fn a_live_connection_wins_over_a_spare_copy() {
    let saved = vec![wifi("/s/1", "home"), wifi("/s/2", "home"), wifi("/s/3", "home")];
    assert_eq!(saved_for(&saved, &vec![], "home"), Some("/s/1".to_string()));
    let live_one = vec![active("/a/1", "/s/2")];
    assert_eq!(saved_for(&saved, &live_one, "home"), Some("/s/2".to_string()));
    assert_eq!(saved_for(&saved, &live_one, "work"), None);
    assert_eq!(live(&live_one, "/s/2"), Some("/a/1".to_string()));
    assert_eq!(live(&live_one, "/s/1"), None);
    let twice = vec![active("/a/1", "/s/2"), active("/a/2", "/s/2")];
    assert_eq!(live(&twice, "/s/2"), Some("/a/2".to_string()));
}

#[test]
fn a_look_puts_everything_in_order() {
    let reading = Reading {
        radio: Some(true),
        actives: vec![active("/a/1", "/s/1"), active("/a/2", "/s/4")],
        saved: vec![
            wifi("/s/1", "home"),
            wifi("/s/2", "work"),
            vpn("/s/3", "wireguard", "beta"),
            vpn("/s/4", "vpn", "Alpha"),
            vpn("/s/5", "802-3-ethernet", "cable"),
            Saved { path: "/s/6".to_string(), settings: None },
        ],
        aps: vec![
            ap("/ap/1", "café", 90, 0),
            ap("/ap/2", "work", 20, 0x100),
            ap("/ap/3", "home", 30, 0x100),
            ap("/ap/4", "home", 60, 0x400),
            ap("/ap/5", "home", 60, 0x100),
            ap("/ap/6", "", 99, 0),
            ap("/ap/7", "next\0\0", 95, 0x100),
        ],
        standing: standing(),
    };
    let look = card().look(&reading);
    assert!(look.wifi_on);
    assert_eq!(look.now, "home · 10.0.0.7");
    let names: Vec<&str> = look.nets.iter().map(|n| n.ssid.as_str()).collect();
    assert_eq!(names, ["home", "work", "next", "café"], "live, then used, then by signal");
    let home = &look.nets[0];
    assert_eq!(home.strength, 60);
    assert_eq!(home.ap, "/ap/4", "the first of the strongest");
    assert_eq!(home.lock, Lock::Sae, "the lock of the access point shown");
    assert_eq!(home.saved, Some("/s/1".to_string()));
    assert_eq!(home.active, Some("/a/1".to_string()));
    assert_eq!(look.nets[1].active, None);
    assert_eq!(look.nets[3].saved, None);
    let vpns: Vec<&str> = look.vpns.iter().map(|v| v.name.as_str()).collect();
    assert_eq!(vpns, ["Alpha", "beta"], "by name, whatever the case");
    assert_eq!(look.vpns[0].active, Some("/a/2".to_string()));
    assert_eq!(look.vpns[1].active, None);
}

#[test]
fn the_lock_is_that_of_the_access_point_shown() {
    let reading = |aps: Vec<Ap>| Reading {
        radio: Some(true),
        actives: vec![],
        saved: vec![],
        aps,
        standing: standing(),
    };
    let mixed = |first: u32, second: u32| {
        let aps = vec![ap("/ap/1", "net", 20, first), ap("/ap/2", "net", 70, second)];
        card().look(&reading(aps)).nets[0].clone()
    };
    for (first, second, lock) in [
        (0x100, 0x400, Lock::Sae),
        (0, 0x100, Lock::Psk),
        (0x200, 0x100, Lock::Psk),
        (0x100, 0, Lock::Open),
    ] {
        let net = mixed(first, second);
        assert_eq!((net.ap.as_str(), net.strength, net.lock), ("/ap/2", 70, lock));
    }
    let aps = vec![ap("/ap/1", "net", 70, 0x100), ap("/ap/2", "net", 70, 0x400)];
    assert_eq!(card().look(&reading(aps)).nets[0].lock, Lock::Psk, "not stronger");
}

#[test]
fn without_a_card_nothing_is_in_the_air() {
    let reading = Reading {
        radio: None,
        actives: vec![],
        saved: vec![vpn("/s/4", "vpn", "Alpha")],
        aps: vec![ap("/ap/1", "café", 90, 0)],
        standing: standing(),
    };
    let look = Nm { wifi: None }.look(&reading);
    assert!(!look.wifi_on);
    assert!(look.nets.is_empty());
    assert_eq!(look.vpns.len(), 1);
}

#[test]
fn a_name_that_is_no_utf8_is_still_shown() {
    let mut odd = ap("/ap/1", "x", 50, 0);
    odd.ssid = Some(vec![0x63, 0xff, 0x64]);
    assert_eq!(odd.name(), "c\u{fffd}d");
    odd.ssid = None;
    odd.strength = None;
    odd.rsn = None;
    assert_eq!(odd.name(), "");
    assert_eq!(odd.signal(), 0);
    assert_eq!(odd.lock(), Lock::Open);
}

#[test]
fn where_the_machine_stands_in_words() {
    assert_eq!(standing().now(), "home · 10.0.0.7");
    let mut s = standing();
    s.config = Some("/".to_string());
    assert_eq!(s.now(), "home");
    let mut s = standing();
    s.addresses = Some(vec![None, Some("10.0.0.8".to_string())]);
    assert_eq!(s.now(), "home");
    let mut s = standing();
    s.addresses = Some(vec![]);
    s.id = None;
    assert_eq!(s.now(), "");
    let mut s = standing();
    s.reached = false;
    assert_eq!(s.now(), "offline");
    s = standing();
    s.primary = Some("/".to_string());
    assert_eq!(s.now(), "offline");
    s.primary = None;
    assert_eq!(s.now(), "offline");
    s.manager = false;
    assert_eq!(s.now(), "no NetworkManager");
}

fn net(lock: Lock, saved: Option<&str>) -> Net {
    Net {
        ssid: "home".to_string(),
        strength: 50,
        lock,
        ap: "/ap/1".to_string(),
        saved: saved.map(|s| s.to_string()),
        active: None,
    }
}

#[test]
fn a_saved_network_comes_up_as_it_is() {
    match card().connect(&net(Lock::Psk, Some("/s/1")), None) {
        Ok(Ask::Activate { conn, card, ap }) => {
            assert_eq!((conn.as_str(), card.as_str(), ap.as_str()), ("/s/1", "/dev/3", "/ap/1"));
        }
        _ => panic!("not asked to come up"),
    }
}

#[test]
fn a_new_network_is_added_with_its_password() {
    match card().connect(&net(Lock::Sae, None), Some("pass word")) {
        Ok(Ask::Add { security: Some(s), card, ap }) => {
            assert_eq!((s.key_mgmt.as_str(), s.psk.as_str()), ("sae", "pass word"));
            assert_eq!((card.as_str(), ap.as_str()), ("/dev/3", "/ap/1"));
        }
        _ => panic!("not added"),
    }
    match card().connect(&net(Lock::Psk, None), Some("p")) {
        Ok(Ask::Add { security: Some(s), .. }) => assert_eq!(s.key_mgmt, "wpa-psk"),
        _ => panic!("not added"),
    }
    match card().connect(&net(Lock::Open, None), None) {
        Ok(Ask::Add { security: None, .. }) => {}
        _ => panic!("not added as an open one"),
    }
}

#[test]
fn without_a_card_there_is_no_joining() {
    let nm = Nm { wifi: None };
    match nm.connect(&net(Lock::Open, None), None) {
        Err(why) => assert_eq!(why, "no Wi-Fi card"),
        Ok(_) => panic!("joined without a card"),
    }
    assert!(nm.scan().is_none());
}

#[test]
fn a_wait_ends_with_the_state_or_the_time() {
    let nm = card();
    assert_eq!(nm.wait(0, 25_000, Some(2)), Some(Outcome::Up));
    assert_eq!(nm.wait(0, 25_000, Some(3)), Some(Outcome::Failed));
    assert_eq!(nm.wait(0, 25_000, Some(4)), Some(Outcome::Failed));
    assert_eq!(nm.wait(0, 25_000, None), Some(Outcome::Failed));
    assert_eq!(nm.wait(24_999, 25_000, Some(1)), None);
    assert_eq!(nm.wait(25_000, 25_000, Some(2)), Some(Outcome::Slow));
}

#[test]
fn what_is_asked_has_a_place_on_the_bus() {
    let nm = card();
    let place = |ask: &Ask| {
        let t = ask.target();
        format!("{} {} {}", t.path, t.interface, t.member)
    };
    let manager = "/org/freedesktop/NetworkManager org.freedesktop.NetworkManager";
    let stored = "org.freedesktop.NetworkManager.Settings.Connection";
    assert_eq!(
        place(&nm.scan().unwrap()),
        "/dev/3 org.freedesktop.NetworkManager.Device.Wireless RequestScan"
    );
    assert_eq!(place(&nm.vpn_up("/s/3")), format!("{manager} ActivateConnection"));
    assert_eq!(place(&nm.disconnect("/a/1")), format!("{manager} DeactivateConnection"));
    assert_eq!(place(&nm.set_wifi(true)), format!("{manager} WirelessEnabled"));
    assert_eq!(place(&nm.forget("/s/1")), format!("/s/1 {stored} Delete"));
    assert_eq!(
        place(&nm.connect(&net(Lock::Open, None), None).unwrap()),
        format!("{manager} AddAndActivateConnection")
    );
    let read = Ask::Settings { conn: "/s/1".to_string() };
    assert_eq!(place(&read), format!("/s/1 {stored} GetSettings"));
    let mark = Ask::Mark { conn: "/s/1".to_string(), metered: true };
    assert_eq!(place(&mark), format!("/s/1 {stored} Update"));
    assert_eq!(nm.forget("/s/1").unreachable_text(), "no such connection");
    assert_eq!(read.unreachable_text(), "no such connection");
    assert_eq!(mark.unreachable_text(), "no such connection");
    assert_eq!(nm.disconnect("/a/1").unreachable_text(), "no NetworkManager");
}

#[test]
fn what_is_asked_carries_its_settings() {
    let said = |ask: &Ask| -> Vec<String> {
        ask.settings()
            .iter()
            .map(|e| match &e.value {
                Setting::Text(t) => format!("{}.{} {t}", e.group, e.key),
                Setting::Int(n) => format!("{}.{} {n}", e.group, e.key),
                _ => panic!("another kind"),
            })
            .collect()
    };
    let add = card().connect(&net(Lock::Sae, None), Some("pass word")).unwrap();
    assert_eq!(
        said(&add),
        [
            "802-11-wireless-security.key-mgmt sae",
            "802-11-wireless-security.psk pass word"
        ]
    );
    assert!(said(&card().connect(&net(Lock::Open, None), None).unwrap()).is_empty());
    for metered in [true, false] {
        let mark = Ask::Mark { conn: "/s/1".to_string(), metered };
        assert_eq!(said(&mark), [format!("connection.metered {}", metered as i32)]);
        assert_eq!(is_marked_metered(&mark.settings()), metered);
    }
    assert!(said(&card().disconnect("/a/1")).is_empty());
}

#[test]
fn a_vpn_needs_no_card_and_no_access_point() {
    match card().vpn_up("/s/3") {
        Ask::Activate { conn, card, ap } => {
            assert_eq!((conn.as_str(), card.as_str(), ap.as_str()), ("/s/3", "/", "/"));
        }
        _ => panic!("not asked to come up"),
    }
    match card().activate("/s/1", None) {
        Ask::Activate { conn, card, ap } => {
            assert_eq!((conn.as_str(), card.as_str(), ap.as_str()), ("/s/1", "/dev/3", "/"));
        }
        _ => panic!("not asked to come up"),
    }
    match (Nm { wifi: None }).activate("/s/1", Some("/ap/2")) {
        Ask::Activate { card, ap, .. } => {
            assert_eq!((card.as_str(), ap.as_str()), ("/", "/ap/2"));
        }
        _ => panic!("not asked to come up"),
    }
    match card().disconnect("/a/1") {
        Ask::Deactivate { active } => assert_eq!(active, "/a/1"),
        _ => panic!("not asked to go down"),
    }
    match card().set_wifi(false) {
        Ask::Radio { on } => assert!(!on),
        _ => panic!("not asked of the radio"),
    }
}
