use roam::watch::{
    portals, portals_path, rc_path, read_rc, remember_portal, tunnel_up, Link,
};

#[test]
fn commands_are_read_from_key_value_lines() {
    let rc = read_rc("vpn_up = work-vpn\nvpn_down = work-vpn stop\n");
    assert_eq!(rc.vpn_up, Some("work-vpn".to_string()));
    assert_eq!(rc.vpn_down, Some("work-vpn stop".to_string()));
}

#[test]
fn comments_and_odd_lines_are_passed_over() {
    let rc = read_rc("# vpn_up = no\n  vpn_up=a = b # but not this\nvpn_down =\nother = x\nvpn_down\n");
    assert_eq!(rc.vpn_up, Some("a = b".to_string()));
    assert_eq!(rc.vpn_down, None, "nothing to run is no command");
    let rc = read_rc("vpn_up = one\r\nvpn_up = two\r\nvpn_up = # none\n");
    assert_eq!(rc.vpn_up, Some("two".to_string()), "the last one counts");
    let rc = read_rc("");
    assert!(rc.vpn_up.is_none() && rc.vpn_down.is_none());
}

#[test]
fn files_are_kept_in_the_home_directory() {
    assert_eq!(rc_path("/home/me"), "/home/me/.roamrc");
    assert_eq!(portals_path("/home/me"), "/home/me/.roam/portals");
    assert_eq!(portals_path("/"), "/.roam/portals");
    assert_eq!(rc_path(""), ".roamrc");
}

#[test]
fn a_portal_is_remembered_after_the_others() {
    assert_eq!(remember_portal("", "hotel"), "hotel\n");
    let file = remember_portal("hotel\ncafé", "air port");
    assert_eq!(file, "hotel\ncafé\nair port\n");
    assert_eq!(portals(&file), ["hotel", "café", "air port"]);
}

#[test]
fn a_tunnel_is_a_ppp_or_tun_device_that_is_up() {
    let link = |name: &str, state: Option<&str>| Link {
        name: name.to_string(),
        state: state.map(|s| s.to_string()),
    };
    assert!(tunnel_up(&vec![link("wlan0", Some("up\n")), link("ppp0", Some("unknown\n"))]));
    assert!(tunnel_up(&vec![link("tun1", Some("up"))]));
    assert!(!tunnel_up(&vec![link("tun0", Some("down\n"))]));
    assert!(!tunnel_up(&vec![link("tun0", None)]));
    assert!(!tunnel_up(&vec![link("eth0", Some("up")), link("xtun0", Some("up"))]));
    assert!(!tunnel_up(&vec![]));
}
