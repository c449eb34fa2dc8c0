//! What is shown and what is asked for, told by the access points, the
//! settings and the bits themselves.

use vstd::prelude::*;

use crate::air::{nets_law, nets_of, position, tells, told, with_ap};
use crate::bus::{AskView, TargetView};
use crate::nm::{
    bringing_up, first_wifi, joining, lock_from, nowhere, outcome, scanning, shows, Lock, LookView,
    Net, NetView, Outcome, Vpn, VpnView,
};
use crate::order::{in_order, order_keeps_items, ordered_from, stands_first};
use crate::reading::{
    live_path, saved_path, vpns_of, ActiveView, ApView, DeviceView, EntryView, ReadingView,
    SavedView, SettingView,
};
use crate::text::{lowercase, sorts_before, sorts_before_total};

verus! {

/// A network is locked by a certificate when either set of flags offers
/// that; else by a WPA2 password when either offers it; else by a WPA3
/// password when either offers that; else by a password when there is any
/// key; and else open.
pub proof fn lock_bits_law(flags: u32, wpa: u32, rsn: u32)
    ensures
        lock_from(flags, wpa, rsn) == Lock::Enterprise <==> wpa & 0x200 != 0 || rsn & 0x200 != 0,
        lock_from(flags, wpa, rsn) == Lock::Sae <==> (wpa & 0x400 != 0 || rsn & 0x400 != 0) && wpa
            & 0x100 == 0 && rsn & 0x100 == 0 && wpa & 0x200 == 0 && rsn & 0x200 == 0,
        lock_from(flags, wpa, rsn) == Lock::Open <==> flags & 0x1 == 0 && wpa == 0 && rsn == 0,
{
    assert(0u32 & 0x100 == 0 && 0u32 & 0x200 == 0 && 0u32 & 0x400 == 0) by (bit_vector);
}

/// Every lock has a word of its own.
pub proof fn lock_word_law()
    ensures
        Lock::Open.word() == "open"@,
        Lock::Psk.word() == "WPA2"@,
        Lock::Sae.word() == "WPA3"@,
        Lock::Enterprise.word() == "802.1X"@,
{
}

/// The card is the first device of NetworkManager's kind for Wi-Fi, and
/// there is none when no device is of that kind.
pub proof fn card_law(devices: Seq<DeviceView>, device: DeviceView)
    ensures
        first_wifi(Seq::empty()) is None,
        device.kind == Some(2u32) ==> first_wifi(seq![device] + devices) == Some(device.path),
        device.kind != Some(2u32) ==> first_wifi(seq![device] + devices) == first_wifi(devices),
{
    let all = seq![device] + devices;
    assert(all[0] == device);
    assert(all.drop_first() =~= devices);
}

/// A look says that the radio is on exactly when that was read. Without a
/// card it shows no network, and with one as many as were found in the air,
/// in order; it shows as many VPNs as are saved, in order, card or none.
pub proof fn look_law(card: Option<Seq<char>>, reading: ReadingView, look: LookView)
    requires
        shows(card, reading, look),
    ensures
        look.wifi_on <==> reading.radio is Some && reading.radio->0,
        card is None ==> look.nets.len() == 0,
        card is Some ==> look.nets.len() == nets_of(
            reading.aps,
            reading.saved,
            reading.actives,
        ).len() && in_order::<Net>(
            nets_of(reading.aps, reading.saved, reading.actives),
            look.nets,
        ),
        look.vpns.len() == vpns_of(reading.saved, reading.actives).len(),
        in_order::<Vpn>(vpns_of(reading.saved, reading.actives), look.vpns),
        look.now == reading.standing.words(),
{
}

/// Looking again is asked of the card, and of nothing without one. A saved
/// connection is asked for on the card and through the access point given,
/// and the root path stands for each that is missing.
pub proof fn asked_law(card: Seq<char>, conn: Seq<char>, ap: Seq<char>)
    ensures
        scanning(Some(card)) == Some(AskView::Scan { card }),
        scanning(None) is None,
        bringing_up(Some(card), conn, Some(ap)) == (AskView::Activate { conn, card, ap }),
        bringing_up(Some(card), conn, None) == (AskView::Activate { conn, card, ap: "/"@ }),
        bringing_up(None, conn, Some(ap)) == (AskView::Activate { conn, card: "/"@, ap }),
        bringing_up(None, conn, None) == (AskView::Activate { conn, card: "/"@, ap: "/"@ }),
{
}

/// The path that stands for no object.
pub proof fn nowhere_law()
    ensures
        nowhere() == "/"@,
{
}

/// Joining a saved network brings up its connection on the card, through its
/// access point, whatever was typed.
pub proof fn join_saved_law(
    net: NetView,
    card: Seq<char>,
    conn: Seq<char>,
    password: Option<Seq<char>>,
)
    requires
        net.saved == Some(conn),
    ensures
        joining(net, card, password) == (AskView::Activate { conn, card, ap: net.ap }),
{
}

/// Joining a new network adds it on the card, through its access point, with
/// the password typed: the WPA3 way where that is the lock, and else the way
/// of WPA2. Without a password it is added without a lock.
pub proof fn join_new_law(net: NetView, card: Seq<char>, password: Seq<char>)
    requires
        net.saved is None,
    ensures
        joining(net, card, Some(password)) matches AskView::Add { security: Some(s), card: on, ap }
            && s.psk == password && on == card && ap == net.ap && s.key_mgmt == (if net.lock
            == Lock::Sae {
            "sae"@
        } else {
            "wpa-psk"@
        }),
        joining(net, card, None) == (AskView::Add { security: None, card, ap: net.ap }),
{
}

/// A wait is over with the time, whatever the state; before that when the
/// connection is up, is going down or gone, or cannot be read; and goes on
/// in every other state.
pub proof fn wait_law(elapsed: int, limit: int, state: Option<u32>)
    ensures
        elapsed >= limit ==> outcome(elapsed, limit, state) == Some(Outcome::Slow),
        elapsed < limit && state == Some(2u32) ==> outcome(elapsed, limit, state) == Some(
            Outcome::Up,
        ),
        elapsed < limit && (state is None || state == Some(3u32) || state == Some(4u32)) ==> outcome(
            elapsed,
            limit,
            state,
        ) == Some(Outcome::Failed),
        elapsed < limit && state is Some && state != Some(2u32) && state != Some(3u32) && state
            != Some(4u32) ==> outcome(elapsed, limit, state) is None,
{
}

/// Where on the bus each thing is asked.
pub proof fn target_law(
    a: Seq<char>,
    b: Seq<char>,
    c: Seq<char>,
    security: Option<crate::bus::SecurityView>,
    on: bool,
)
    ensures
        ({
            let nm = "org.freedesktop.NetworkManager"@;
            let place = "/org/freedesktop/NetworkManager"@;
            let stored = "org.freedesktop.NetworkManager.Settings.Connection"@;
            &&& (AskView::Scan { card: a }).target() == TargetView {
                path: a,
                interface: "org.freedesktop.NetworkManager.Device.Wireless"@,
                member: "RequestScan"@,
            }
            &&& (AskView::Activate { conn: a, card: b, ap: c }).target() == TargetView {
                path: place,
                interface: nm,
                member: "ActivateConnection"@,
            }
            &&& (AskView::Add { security, card: b, ap: c }).target() == TargetView {
                path: place,
                interface: nm,
                member: "AddAndActivateConnection"@,
            }
            &&& (AskView::Deactivate { active: a }).target() == TargetView {
                path: place,
                interface: nm,
                member: "DeactivateConnection"@,
            }
            &&& (AskView::Delete { conn: a }).target() == TargetView {
                path: a,
                interface: stored,
                member: "Delete"@,
            }
            &&& (AskView::Radio { on }).target() == TargetView {
                path: place,
                interface: nm,
                member: "WirelessEnabled"@,
            }
            &&& (AskView::Settings { conn: a }).target() == TargetView {
                path: a,
                interface: stored,
                member: "GetSettings"@,
            }
            &&& (AskView::Mark { conn: a, metered: on }).target() == TargetView {
                path: a,
                interface: stored,
                member: "Update"@,
            }
        }),
{
}

/// What is asked about a saved connection says that there is none when it
/// cannot be reached; everything else says that NetworkManager is not there.
pub proof fn unreachable_law(ask: AskView)
    ensures
        ask is Delete || ask is Settings || ask is Mark ==> ask.unreachable_words()
            == "no such connection"@,
        !(ask is Delete || ask is Settings || ask is Mark) ==> ask.unreachable_words()
            == "no NetworkManager"@,
{
}

/// What is asked carries the way a new network is unlocked and its password,
/// or the mark as a number; everything else carries nothing.
pub proof fn carried_law(ask: AskView)
    ensures
        ask matches AskView::Add { security: Some(s), .. } ==> ask.settings() == seq![
            EntryView {
                group: "802-11-wireless-security"@,
                key: "key-mgmt"@,
                value: SettingView::Text(s.key_mgmt),
            },
            EntryView {
                group: "802-11-wireless-security"@,
                key: "psk"@,
                value: SettingView::Text(s.psk),
            },
        ],
        ask matches AskView::Mark { metered, .. } ==> ask.settings() == seq![
            EntryView {
                group: "connection"@,
                key: "metered"@,
                value: SettingView::Int(
                    if metered {
                        1
                    } else {
                        0
                    },
                ),
            },
        ],
        !(ask matches AskView::Add { security: Some(_), .. }) && !(ask is Mark)
            ==> ask.settings().len() == 0,
{
}

/// A network found tells of the strongest access point of its name, its
/// saved connection and what is live of that.
proof fn found_tells(
    aps: Seq<ApView>,
    conns: Seq<SavedView>,
    actives: Seq<ActiveView>,
    k: int,
) -> (a: int)
    requires
        0 <= k < nets_of(aps, conns, actives).len(),
    ensures
        0 <= a < aps.len(),
        tells(nets_of(aps, conns, actives)[k], aps, a, conns, actives),
{
    nets_law(aps, conns, actives);
    let net = nets_of(aps, conns, actives)[k];
    assert(told(net, aps, conns, actives));
    choose|a: int| tells(net, aps, a, conns, actives)
}

/// A network shown has the name, the signal, the lock and the path of one
/// access point, none of that name is stronger and none as strong was heard
/// before it; it has the saved connection of its name, and is live exactly
/// when that connection is.
pub proof fn shown_net_law(
    aps: Seq<ApView>,
    conns: Seq<SavedView>,
    actives: Seq<ActiveView>,
    shown: Seq<NetView>,
    i: int,
)
    requires
        in_order::<Net>(nets_of(aps, conns, actives), shown),
        0 <= i < shown.len(),
    ensures
        shown[i].ssid.len() > 0,
        exists|a: int|
            0 <= a < aps.len() && (#[trigger] aps[a]).name() == shown[i].ssid && aps[a].signal()
                == shown[i].strength && aps[a].lock() == shown[i].lock && aps[a].path
                == shown[i].ap && forall|b: int|
                0 <= b < aps.len() && (#[trigger] aps[b]).name() == shown[i].ssid
                    ==> aps[b].signal() <= shown[i].strength && (b < a ==> aps[b].signal()
                    < shown[i].strength),
        shown[i].saved == saved_path(conns, actives, shown[i].ssid),
        shown[i].saved is None ==> shown[i].active is None,
        shown[i].saved matches Some(conn) ==> shown[i].active == live_path(actives, conn),
{
    let found = nets_of(aps, conns, actives);
    order_keeps_items::<Net>(found, shown);
    nets_law(aps, conns, actives);
    assert(shown.contains(shown[i]));
    let k = choose|k: int| 0 <= k < found.len() && found[k] == shown[i];
    let a = found_tells(aps, conns, actives, k);
    assert(aps[a].name() == shown[i].ssid);
    assert(found[k].ssid.len() > 0);
}

/// Every access point that has a name has its network shown, and no name is
/// shown twice.
pub proof fn all_shown_law(
    aps: Seq<ApView>,
    conns: Seq<SavedView>,
    actives: Seq<ActiveView>,
    shown: Seq<NetView>,
)
    requires
        in_order::<Net>(nets_of(aps, conns, actives), shown),
    ensures
        forall|a: int|
            0 <= a < aps.len() && (#[trigger] aps[a]).name().len() > 0 ==> exists|i: int|
                0 <= i < shown.len() && (#[trigger] shown[i]).ssid == aps[a].name(),
        forall|i: int, j: int|
            0 <= i < j < shown.len() ==> (#[trigger] shown[i]).ssid != (#[trigger] shown[j]).ssid,
{
    let found = nets_of(aps, conns, actives);
    order_keeps_items::<Net>(found, shown);
    nets_law(aps, conns, actives);
    assert forall|a: int| 0 <= a < aps.len() && (#[trigger] aps[a]).name().len() > 0 implies exists|
        i: int,
    |
        0 <= i < shown.len() && (#[trigger] shown[i]).ssid == aps[a].name() by {
        let k = choose|k: int|
            0 <= k < found.len() && (#[trigger] found[k]).ssid == aps[a].name();
        assert(found.contains(found[k]));
        assert(shown.contains(found[k]));
        let i = choose|i: int| 0 <= i < shown.len() && shown[i] == found[k];
        assert(shown[i].ssid == aps[a].name());
    }
    let from = choose|from: Seq<int>| ordered_from::<Net>(found, shown, from);
    assert forall|i: int, j: int| 0 <= i < j < shown.len() implies (#[trigger] shown[i]).ssid != (
    #[trigger] shown[j]).ssid by {
        assert(from[i] != from[j]);
        assert(shown[i] == found[from[i]] && shown[j] == found[from[j]]);
        if from[i] < from[j] {
            assert(found[from[i]].ssid != found[from[j]].ssid);
        } else {
            assert(found[from[j]].ssid != found[from[i]].ssid);
        }
    }
}

/// The networks stand with the live ones first, then the saved ones, then
/// the rest, each by signal; networks alike in all three stand as they were
/// found.
pub proof fn shown_order_law(input: Seq<NetView>, shown: Seq<NetView>)
    requires
        in_order::<Net>(input, shown),
    ensures
        shown.len() == input.len(),
        exists|from: Seq<int>|
            #![trigger from.len()]
            from.len() == input.len() && (forall|i: int|
                0 <= i < from.len() ==> 0 <= #[trigger] from[i] < input.len() && shown[i]
                    == input[from[i]]) && (forall|i: int, j: int|
                0 <= i < j < from.len() ==> #[trigger] from[i] != #[trigger] from[j] && ((
                shown[i].active is Some && shown[j].active is None) || ((shown[i].active is Some)
                    == (shown[j].active is Some) && ((shown[i].saved is Some && shown[j].saved
                    is None) || ((shown[i].saved is Some) == (shown[j].saved is Some) && (
                shown[i].strength > shown[j].strength || (shown[i].strength == shown[j].strength
                    && from[i] < from[j]))))))),
{
    let from = choose|from: Seq<int>| ordered_from::<Net>(input, shown, from);
    assert forall|i: int, j: int| 0 <= i < j < from.len() implies #[trigger] from[i]
        != #[trigger] from[j] && ((shown[i].active is Some && shown[j].active is None) || ((
    shown[i].active is Some) == (shown[j].active is Some) && ((shown[i].saved is Some
        && shown[j].saved is None) || ((shown[i].saved is Some) == (shown[j].saved is Some) && (
    shown[i].strength > shown[j].strength || (shown[i].strength == shown[j].strength && from[i]
        < from[j])))))) by {
        assert(stands_first::<Net>(shown[i], from[i], shown[j], from[j]));
    }
    assert(from.len() == input.len());
}

/// The VPNs stand by name whatever the case of its letters; VPNs of one name
/// stand as they were found.
pub proof fn vpn_order_law(input: Seq<VpnView>, shown: Seq<VpnView>)
    requires
        in_order::<Vpn>(input, shown),
    ensures
        shown.len() == input.len(),
        exists|from: Seq<int>|
            #![trigger from.len()]
            from.len() == input.len() && (forall|i: int|
                0 <= i < from.len() ==> 0 <= #[trigger] from[i] < input.len() && shown[i]
                    == input[from[i]]) && (forall|i: int, j: int|
                0 <= i < j < from.len() ==> #[trigger] from[i] != #[trigger] from[j] && (
                sorts_before(lowercase(shown[i].name), lowercase(shown[j].name)) || (lowercase(
                    shown[i].name,
                ) == lowercase(shown[j].name) && from[i] < from[j]))),
{
    let from = choose|from: Seq<int>| ordered_from::<Vpn>(input, shown, from);
    assert forall|i: int, j: int| 0 <= i < j < from.len() implies #[trigger] from[i]
        != #[trigger] from[j] && (sorts_before(lowercase(shown[i].name), lowercase(shown[j].name))
        || (lowercase(shown[i].name) == lowercase(shown[j].name) && from[i] < from[j])) by {
        assert(stands_first::<Vpn>(shown[i], from[i], shown[j], from[j]));
        sorts_before_total(lowercase(shown[i].name), lowercase(shown[j].name));
    }
    assert(from.len() == input.len());
}

/// The networks found stand as their names were first heard: one access
/// point more changes no name that is there, and adds a new name at the end.
pub proof fn found_order_law(
    aps: Seq<ApView>,
    ap: ApView,
    conns: Seq<SavedView>,
    actives: Seq<ActiveView>,
)
    ensures
        nets_of(Seq::empty(), conns, actives).len() == 0,
        ({
            let before = nets_of(aps, conns, actives);
            let after = nets_of(aps.push(ap), conns, actives);
            let known = exists|b: int| 0 <= b < aps.len() && (#[trigger] aps[b]).name() == ap.name();
            &&& forall|i: int|
                0 <= i < before.len() ==> (#[trigger] after[i]).ssid == before[i].ssid && (
                before[i].ssid != ap.name() ==> after[i] == before[i])
            &&& ap.name().len() == 0 || known ==> after.len() == before.len()
            &&& ap.name().len() > 0 && !known ==> after.len() == before.len() + 1 && after[
            before.len() as int].ssid == ap.name()
        }),
{
    let before = nets_of(aps, conns, actives);
    assert(aps.push(ap).drop_last() =~= aps);
    nets_law(aps, conns, actives);
    crate::air::position_finds(before, ap.name());
    let k = position(before, ap.name()) as int;
    let known = exists|b: int| 0 <= b < aps.len() && (#[trigger] aps[b]).name() == ap.name();
    if ap.name().len() > 0 {
        if known {
            let b = choose|b: int| 0 <= b < aps.len() && (#[trigger] aps[b]).name() == ap.name();
            let i = choose|i: int|
                0 <= i < before.len() && (#[trigger] before[i]).ssid == aps[b].name();
            if k >= before.len() {
                assert(before[i].ssid != ap.name());
            }
        } else if k < before.len() {
            let a = found_tells(aps, conns, actives, k);
            assert(aps[a].name() == ap.name());
        }
    }
    assert(nets_of(aps.push(ap), conns, actives) == with_ap(before, ap, conns, actives));
}

} // verus!
