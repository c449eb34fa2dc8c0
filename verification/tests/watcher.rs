use roam::bus::{Answer, Ask};
use roam::nm::{Nm, Outcome};
use roam::reading::{Active, Ap, Entry, Saved, Setting};
use roam::watch::Link;
use roam::watcher::{Message, News, Phase, Survey, Task, Watch};

fn entry(group: &str, key: &str, value: Setting) -> Entry {
    Entry { group: group.to_string(), key: key.to_string(), value }
}

fn wifi(path: &str, name: &str, priority: i32, metered: i32) -> Saved {
    Saved {
        path: path.to_string(),
        settings: Some(vec![
            entry("connection", "type", Setting::Text("802-11-wireless".to_string())),
            entry("802-11-wireless", "ssid", Setting::Bytes(name.as_bytes().to_vec())),
            entry("802-11-wireless-security", "key-mgmt", Setting::Text("wpa-psk".to_string())),
            entry("connection", "autoconnect-priority", Setting::Int(priority)),
            entry("connection", "metered", Setting::Int(metered)),
        ]),
    }
}

fn vpn(path: &str) -> Saved {
    Saved {
        path: path.to_string(),
        settings: Some(vec![entry("connection", "type", Setting::Text("vpn".to_string()))]),
    }
}

fn saved() -> Vec<Saved> {
    vec![
        wifi("/s/1", "home", 0, 0),
        wifi("/s/2", "phone", 0, 1),
        wifi("/s/3", "work", 5, 0),
        vpn("/s/4"),
        vpn("/s/5"),
    ]
}

fn active(path: &str, conn: &str) -> Active {
    Active { path: path.to_string(), conn: Some(conn.to_string()) }
}

fn ap(path: &str, name: &str) -> Ap {
    Ap {
        path: path.to_string(),
        ssid: Some(name.as_bytes().to_vec()),
        strength: Some(50),
        flags: None,
        wpa: None,
        rsn: None,
    }
}

fn survey(aps: Vec<Ap>, actives: Vec<Active>, tunnel: bool) -> News {
    let state = if tunnel { "unknown\n" } else { "down\n" };
    News::Surveyed(Survey {
        aps,
        saved: saved(),
        actives,
        links: vec![Link { name: "ppp0".to_string(), state: Some(state.to_string()) }],
    })
}

fn changed(path: &str, keys: &[&str]) -> News {
    News::Heard(Message {
        signal: true,
        member: Some("PropertiesChanged".to_string()),
        path: Some(path.to_string()),
        changed: Some(keys.iter().map(|k| k.to_string()).collect()),
        ap: None,
    })
}

fn added(path: &str) -> News {
    News::Heard(Message {
        signal: true,
        member: Some("AccessPointAdded".to_string()),
        path: Some("/dev/3".to_string()),
        changed: None,
        ap: Some(path.to_string()),
    })
}

fn told(task: &Task) -> String {
    match task {
        Task::Sleep => "sleep".to_string(),
        Task::ReadMetered => "metered?".to_string(),
        Task::ReadSaved => "saved?".to_string(),
        Task::Subscribe => "subscribe".to_string(),
        Task::Unsubscribe => "unsubscribe".to_string(),
        Task::ReadAp { path } => format!("ap? {path}"),
        Task::Survey => "survey".to_string(),
        Task::Run { command } => format!("run {command}"),
        Task::Send { ask: Ask::Activate { conn, card, ap } } => format!("activate {conn} {card} {ap}"),
        Task::Send { .. } => "something else".to_string(),
        Task::Wait { active, limit } => format!("wait {active} {limit}"),
        Task::ReadConnectivity => "beyond?".to_string(),
        Task::Remember { ssid } => format!("remember {ssid}"),
        Task::Tell { body } => format!("tell {body}"),
        Task::Spawn { command } => format!("spawn {command}"),
    }
}

fn step(w: &mut Watch, news: News) -> String {
    told(&w.step(news))
}

fn rising(path: &str) -> News {
    News::Answer(Answer::Rising { active: path.to_string(), made: None })
}

fn refused() -> News {
    News::Answer(Answer::Refused("no".to_string()))
}

/// A watcher on a metered network, with these files.
fn metered(portals: &str, rc: &str) -> Watch {
    let (mut w, first) = Watch::new(Nm { wifi: Some("/dev/3".to_string()) }).unwrap();
    assert_eq!(told(&first), "metered?");
    assert_eq!(step(&mut w, News::Metered(Some(1))), "saved?");
    let learned = News::Learned {
        saved: saved(),
        portals: portals.to_string(),
        rc: rc.to_string(),
    };
    assert_eq!(step(&mut w, learned), "subscribe");
    assert_eq!(step(&mut w, News::Done), "sleep");
    w
}

/// That watcher, with a survey of what turned up.
fn on_survey(w: &mut Watch, aps: Vec<Ap>, actives: Vec<Active>, tunnel: bool) -> String {
    assert_eq!(step(w, added("/ap/9")), "ap? /ap/9");
    assert_eq!(step(w, News::Named(ap("/ap/9", "home"))), "survey");
    step(w, survey(aps, actives, tunnel))
}

#[test]
fn without_a_card_there_is_nothing_to_watch() {
    assert!(Watch::new(Nm { wifi: None }).is_none());
}

#[test]
fn on_an_unmetered_network_nothing_happens() {
    let (mut w, _) = Watch::new(Nm { wifi: Some("/dev/3".to_string()) }).unwrap();
    assert_eq!(step(&mut w, News::Metered(Some(2))), "sleep");
    assert_eq!(step(&mut w, added("/ap/1")), "sleep");
    let nm = "/org/freedesktop/NetworkManager";
    assert_eq!(step(&mut w, changed(nm, &["State", "ActiveConnections"])), "sleep");
    assert_eq!(step(&mut w, changed("/dev/3", &["Metered"])), "sleep");
    assert!(matches!(w.phase, Phase::Idle));
    assert_eq!(step(&mut w, changed(nm, &["State", "Metered"])), "metered?");
}

#[test]
fn a_message_that_is_no_signal_is_passed_over() {
    let mut w = metered("", "");
    let reply = |member: Option<&str>, ap: Option<&str>, signal: bool| {
        News::Heard(Message {
            signal,
            member: member.map(|m| m.to_string()),
            path: Some("/dev/3".to_string()),
            changed: None,
            ap: ap.map(|a| a.to_string()),
        })
    };
    assert_eq!(step(&mut w, reply(Some("AccessPointAdded"), Some("/ap/1"), false)), "sleep");
    assert_eq!(step(&mut w, reply(None, Some("/ap/1"), true)), "sleep");
    assert_eq!(step(&mut w, reply(Some("AccessPointAdded"), None, true)), "sleep");
    assert_eq!(step(&mut w, reply(Some("AccessPointRemoved"), Some("/ap/1"), true)), "sleep");
    assert_eq!(step(&mut w, reply(Some("AccessPointAdded"), Some("/ap/1"), true)), "ap? /ap/1");
}

#[test]
fn a_network_is_metered_by_mark_or_by_guess() {
    for (n, task) in [
        (Some(0), "sleep"),
        (Some(1), "saved?"),
        (Some(2), "sleep"),
        (Some(3), "saved?"),
        (Some(4), "sleep"),
        (None, "sleep"),
    ] {
        let (mut w, _) = Watch::new(Nm { wifi: Some("/dev/3".to_string()) }).unwrap();
        assert_eq!(step(&mut w, News::Metered(n)), task);
    }
}

#[test]
fn while_metered_the_better_networks_are_known() {
    let mut w = metered("", "");
    let names: Vec<&str> = w.better.iter().map(|b| b.ssid.as_str()).collect();
    assert_eq!(names, ["home", "work"]);
    assert_eq!(step(&mut w, added("/ap/1")), "ap? /ap/1");
    assert_eq!(step(&mut w, News::Named(ap("/ap/1", "stranger"))), "sleep");
    assert_eq!(step(&mut w, changed("/org/freedesktop/NetworkManager", &["Metered"])), "metered?");
    assert_eq!(step(&mut w, News::Metered(Some(2))), "unsubscribe");
    assert!(w.better.is_empty() && !w.metered);
    assert_eq!(step(&mut w, News::Done), "sleep");
}

#[test]
fn a_portal_written_down_is_not_better() {
    let w = metered("cafe\nhome\n", "");
    let names: Vec<&str> = w.better.iter().map(|b| b.ssid.as_str()).collect();
    assert_eq!(names, ["work"]);
}

#[test]
fn it_moves_to_the_best_network_in_range() {
    let mut w = metered("", "");
    let phone = vec![active("/a/1", "/s/2")];
    let first = on_survey(&mut w, vec![ap("/ap/1", "home"), ap("/ap/2", "work")], phone, false);
    assert_eq!(first, "activate /s/3 /dev/3 /ap/2");
    assert_eq!(step(&mut w, rising("/a/9")), "wait /a/9 25000");
    assert_eq!(step(&mut w, News::Ended(Outcome::Up)), "beyond?");
    assert_eq!(step(&mut w, News::Connectivity(Some(4))), "tell Left phone for work");
    assert_eq!(step(&mut w, News::Done), "metered?");
    assert_eq!(step(&mut w, News::Metered(Some(2))), "unsubscribe");
}

#[test]
fn nothing_in_range_moves_nothing() {
    let mut w = metered("", "");
    assert_eq!(on_survey(&mut w, vec![ap("/ap/1", "stranger")], vec![], false), "metered?");
    assert_eq!(step(&mut w, News::Metered(Some(1))), "sleep");
}

#[test]
fn vpns_that_were_up_come_back_one_by_one() {
    let mut w = metered("", "vpn_up = work-vpn\nvpn_down = work-vpn stop\n");
    let up = vec![active("/a/1", "/s/2"), active("/a/4", "/s/4"), active("/a/5", "/s/5")];
    let first = on_survey(&mut w, vec![ap("/ap/1", "home")], up, true);
    assert_eq!(first, "activate /s/1 /dev/3 /ap/1", "the tunnel is the VPN's own");
    step(&mut w, rising("/a/9"));
    step(&mut w, News::Ended(Outcome::Up));
    assert_eq!(
        step(&mut w, News::Connectivity(None)),
        "tell Left phone for home; bringing the VPN back"
    );
    assert_eq!(step(&mut w, News::Done), "activate /s/4 / /");
    assert_eq!(step(&mut w, rising("/a/4")), "wait /a/4 30000");
    assert_eq!(step(&mut w, News::Ended(Outcome::Failed)), "activate /s/5 / /");
    assert_eq!(step(&mut w, refused()), "metered?");
}

#[test]
fn a_tunnel_goes_down_and_comes_back() {
    let mut w = metered("", "vpn_up = work-vpn\nvpn_down = work-vpn stop\n");
    let phone = vec![active("/a/1", "/s/2")];
    assert_eq!(on_survey(&mut w, vec![ap("/ap/1", "home")], phone, true), "run work-vpn stop");
    assert_eq!(step(&mut w, News::Done), "activate /s/1 /dev/3 /ap/1");
    step(&mut w, rising("/a/9"));
    step(&mut w, News::Ended(Outcome::Up));
    assert_eq!(
        step(&mut w, News::Connectivity(Some(1))),
        "tell Left phone for home; bringing the VPN back"
    );
    assert_eq!(step(&mut w, News::Done), "spawn work-vpn");
    assert_eq!(step(&mut w, News::Done), "metered?");
}

#[test]
fn a_tunnel_without_a_command_is_left_alone() {
    let mut w = metered("", "vpn_down = work-vpn stop\n");
    let first = on_survey(&mut w, vec![ap("/ap/1", "home")], vec![], true);
    assert_eq!(first, "activate /s/1 /dev/3 /ap/1");
    let mut w = metered("", "vpn_up = work-vpn\n");
    let first = on_survey(&mut w, vec![ap("/ap/1", "home")], vec![], true);
    assert_eq!(first, "activate /s/1 /dev/3 /ap/1", "nothing to take it down with");
    assert_eq!(step(&mut w, refused()), "tell home had no way in; back on ");
    assert_eq!(step(&mut w, News::Done), "spawn work-vpn");
}

#[test]
fn a_network_with_no_way_in_is_left_for_the_one_before() {
    let phone = || vec![active("/a/1", "/s/2"), active("/a/4", "/s/4")];
    let mut w = metered("", "");
    on_survey(&mut w, vec![ap("/ap/1", "home")], phone(), false);
    assert_eq!(step(&mut w, refused()), "activate /s/2 /dev/3 /");
    assert_eq!(step(&mut w, rising("/a/9")), "wait /a/9 25000");
    assert_eq!(
        step(&mut w, News::Ended(Outcome::Slow)),
        "tell home had no way in; back on phone"
    );
    assert_eq!(step(&mut w, News::Done), "activate /s/4 / /", "VPN and all");
    assert_eq!(step(&mut w, refused()), "metered?");
    let mut w = metered("", "");
    on_survey(&mut w, vec![ap("/ap/1", "home")], phone(), false);
    step(&mut w, rising("/a/9"));
    assert_eq!(step(&mut w, News::Ended(Outcome::Slow)), "activate /s/2 /dev/3 /");
    assert_eq!(step(&mut w, refused()), "tell home had no way in; back on phone");
}

#[test]
fn a_login_page_is_left_and_skipped_from_then_on() {
    let mut w = metered("", "");
    let phone = || vec![active("/a/1", "/s/2")];
    on_survey(&mut w, vec![ap("/ap/1", "home")], phone(), false);
    step(&mut w, rising("/a/9"));
    step(&mut w, News::Ended(Outcome::Up));
    assert_eq!(step(&mut w, News::Connectivity(Some(2))), "remember home");
    assert_eq!(step(&mut w, News::Done), "activate /s/2 /dev/3 /");
    step(&mut w, rising("/a/9"));
    assert_eq!(
        step(&mut w, News::Ended(Outcome::Up)),
        "tell home had a login page; it is skipped from now on; back on phone"
    );
    assert_eq!(step(&mut w, News::Done), "metered?");
    assert_eq!(step(&mut w, News::Metered(Some(1))), "sleep");
    assert_eq!(step(&mut w, added("/ap/1")), "ap? /ap/1");
    assert_eq!(step(&mut w, News::Named(ap("/ap/1", "home"))), "sleep");
    assert_eq!(step(&mut w, added("/ap/2")), "ap? /ap/2");
    assert_eq!(step(&mut w, News::Named(ap("/ap/2", "work"))), "survey");
}

#[test]
fn news_that_nothing_waits_for_change_nothing() {
    let mut w = metered("", "");
    assert_eq!(step(&mut w, News::Done), "sleep");
    assert_eq!(step(&mut w, News::Metered(Some(2))), "sleep");
    assert_eq!(step(&mut w, News::Ended(Outcome::Up)), "sleep");
    assert_eq!(step(&mut w, refused()), "sleep");
    assert_eq!(step(&mut w, News::Connectivity(Some(2))), "sleep");
    assert_eq!(step(&mut w, News::Named(ap("/ap/1", "home"))), "sleep");
    assert_eq!(step(&mut w, survey(vec![ap("/ap/1", "home")], vec![], false)), "sleep");
    on_survey(&mut w, vec![ap("/ap/1", "home")], vec![], false);
    assert_eq!(step(&mut w, added("/ap/2")), "sleep");
    assert!(matches!(w.phase, Phase::Moving { .. }));
    assert_eq!(step(&mut w, rising("/a/9")), "wait /a/9 25000");
}

#[test]
fn a_second_sync_does_nothing() {
    let mut w = metered("", "");
    assert_eq!(told(&w.sync(true)), "sleep");
    assert_eq!(w.better.len(), 2);
    assert_eq!(told(&w.sync(false)), "unsubscribe");
    assert!(w.better.is_empty() && !w.metered);
    assert_eq!(told(&w.sync(false)), "sleep");
    assert_eq!(told(&w.sync(true)), "saved?");
    assert!(w.metered);
}
