use roam::better::{best_in_air, better, find_better, skip_better, vpns_up, wifi_now, Better};
use roam::reading::{Active, Ap, Entry, Saved, Setting};
use roam::watch::{portals, remember_portal};

fn entry(group: &str, key: &str, value: Setting) -> Entry {
    Entry { group: group.to_string(), key: key.to_string(), value }
}

fn wifi(path: &str, name: &str, way: &str, more: Vec<Entry>) -> Saved {
    let mut settings = vec![
        entry("connection", "type", Setting::Text("802-11-wireless".to_string())),
        entry("802-11-wireless", "ssid", Setting::Bytes(name.as_bytes().to_vec())),
        entry("802-11-wireless-security", "key-mgmt", Setting::Text(way.to_string())),
    ];
    settings.extend(more);
    Saved { path: path.to_string(), settings: Some(settings) }
}

fn ranked(path: &str, name: &str, priority: i32, stamp: u64) -> Saved {
    wifi(
        path,
        name,
        "wpa-psk",
        vec![
            entry("connection", "autoconnect-priority", Setting::Int(priority)),
            entry("connection", "timestamp", Setting::Long(stamp)),
        ],
    )
}

fn ap(path: &str, name: &str, strength: u8) -> Ap {
    Ap {
        path: path.to_string(),
        ssid: Some(name.as_bytes().to_vec()),
        strength: Some(strength),
        flags: None,
        wpa: None,
        rsn: None,
    }
}

fn told(list: &[Better]) -> Vec<String> {
    list.iter().map(|b| format!("{} {} {} {}", b.ssid, b.conn, b.priority, b.stamp)).collect()
}

#[test]
fn better_is_saved_locked_joining_and_unmetered() {
    let saved = vec![
        wifi("/s/1", "home", "wpa-psk", vec![]),
        wifi("/s/2", "new", "sae", vec![entry("connection", "autoconnect", Setting::Flag(true))]),
        wifi("/s/3", "hotel", "none", vec![]),
        wifi("/s/4", "work", "wpa-eap", vec![]),
        wifi(
            "/s/5",
            "manual",
            "wpa-psk",
            vec![entry("connection", "autoconnect", Setting::Flag(false))],
        ),
        wifi("/s/6", "phone", "wpa-psk", vec![entry("connection", "metered", Setting::Int(1))]),
        wifi("/s/7", "known", "wpa-psk", vec![entry("connection", "metered", Setting::Int(2))]),
        wifi("/s/8", "", "wpa-psk", vec![]),
        Saved { path: "/s/9".to_string(), settings: None },
    ];
    let list = better(&saved, &vec![]);
    assert_eq!(told(&list), ["home /s/1 0 0", "new /s/2 0 0", "known /s/7 0 0"]);
    let list = better(&saved, &vec!["new".to_string(), "other".to_string()]);
    assert_eq!(told(&list), ["home /s/1 0 0", "known /s/7 0 0"], "a portal is skipped");
}

#[test]
fn a_portal_that_was_remembered_is_skipped() {
    let saved = vec![ranked("/s/1", "home", 0, 1), ranked("/s/2", "hotel", 0, 2)];
    let file = remember_portal("café\n", "hotel");
    assert_eq!(told(&better(&saved, &portals(&file))), ["home /s/1 0 1"]);
}

#[test]
fn of_two_copies_the_preferred_one_stays() {
    let saved = vec![
        ranked("/s/1", "home", 0, 50),
        ranked("/s/2", "home", 0, 90),
        ranked("/s/3", "home", 0, 90),
        ranked("/s/4", "home", -1, 99),
    ];
    assert_eq!(told(&better(&saved, &vec![])), ["home /s/2 0 90"]);
    let saved = vec![ranked("/s/1", "home", 0, 50), ranked("/s/2", "home", 3, 1)];
    assert_eq!(told(&better(&saved, &vec![])), ["home /s/2 3 1"]);
}

#[test]
fn the_best_in_the_air_is_the_one_picked_first() {
    let list = better(
        &vec![
            ranked("/s/1", "a", 0, 10),
            ranked("/s/2", "b", 0, 20),
            ranked("/s/3", "c", 5, 1),
            ranked("/s/4", "d", 0, 20),
        ],
        &vec![],
    );
    let best = |aps: Vec<Ap>| best_in_air(&list, &aps).map(|(b, ap)| format!("{} {ap}", b.ssid));
    assert_eq!(best(vec![ap("/ap/1", "a", 90), ap("/ap/2", "b", 10)]), Some("b /ap/2".to_string()));
    assert_eq!(best(vec![ap("/ap/3", "c", 1), ap("/ap/2", "b", 99)]), Some("c /ap/3".to_string()));
    assert_eq!(
        best(vec![ap("/ap/1", "b", 30), ap("/ap/2", "b", 60), ap("/ap/3", "b", 40)]),
        Some("b /ap/2".to_string()),
        "the strongest"
    );
    assert_eq!(
        best(vec![ap("/ap/1", "b", 30), ap("/ap/2", "d", 30)]),
        Some("d /ap/2".to_string()),
        "of equals the one heard last"
    );
    assert_eq!(best(vec![ap("/ap/1", "x", 99), ap("/ap/2", "", 99)]), None);
    assert_eq!(best(vec![]), None);
}

#[test]
fn a_network_can_be_struck_off() {
    let list = better(&vec![ranked("/s/1", "a", 0, 1), ranked("/s/2", "b", 0, 2)], &vec![]);
    assert_eq!(find_better(&list, "b"), 1);
    assert_eq!(find_better(&list, "c"), 2);
    assert_eq!(told(&skip_better(&list, "a")), ["b /s/2 0 2"]);
    assert_eq!(skip_better(&list, "c").len(), 2);
}

#[test]
fn what_the_machine_is_on() {
    let vpn = |path: &str| Saved {
        path: path.to_string(),
        settings: Some(vec![entry("connection", "type", Setting::Text("vpn".to_string()))]),
    };
    let saved = vec![vpn("/s/1"), ranked("/s/2", "phone", 0, 0), vpn("/s/3")];
    let active = |path: &str, conn: &str| Active {
        path: path.to_string(),
        conn: Some(conn.to_string()),
    };
    let actives = vec![
        Active { path: "/a/0".to_string(), conn: None },
        active("/a/1", "/s/3"),
        active("/a/2", "/s/2"),
    ];
    assert_eq!(wifi_now(&saved, &actives), Some(("/s/2".to_string(), "phone".to_string())));
    assert_eq!(vpns_up(&saved, &actives), ["/s/3"]);
    assert_eq!(wifi_now(&saved, &vec![active("/a/1", "/s/1")]), None);
    assert!(vpns_up(&saved, &vec![]).is_empty());
}
