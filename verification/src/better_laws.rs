//! Which networks are worth switching to and which of them is taken, told by
//! the settings and the access points themselves.

use vstd::prelude::*;

use crate::better::{
    best_law, best_of, better_law, better_of, network_at, offer, picked_over, place_of,
    place_of_finds, serves, skipping, ups, wifi_on, BetterView,
};
use crate::nm::VpnView;
use crate::reading::{network_of, setting, ActiveView, ApView, EntryView, SavedView, SettingView};

verus! {

/// Whether the settings of a saved connection hold a password: at the
/// security's key management the text "wpa-psk" or "sae".
pub open spec fn holds_password(s: Seq<EntryView>) -> bool {
    ||| setting(s, "802-11-wireless-security"@, "key-mgmt"@) == Some(
        SettingView::Text("wpa-psk"@),
    )
    ||| setting(s, "802-11-wireless-security"@, "key-mgmt"@) == Some(SettingView::Text("sae"@))
}

/// A saved connection offers a network exactly when it is for one with a
/// name, holds a password, does not say that it is not to join by itself,
/// and is not marked metered.
pub proof fn offer_law(conn: SavedView, s: Seq<EntryView>, name: Seq<char>)
    requires
        conn.settings == Some(s),
        network_of(conn) == Some(name),
    ensures
        offer(conn) is Some <==> {
            &&& name.len() > 0
            &&& setting(s, "802-11-wireless-security"@, "key-mgmt"@) == Some(
                SettingView::Text("wpa-psk"@),
            ) || setting(s, "802-11-wireless-security"@, "key-mgmt"@) == Some(
                SettingView::Text("sae"@),
            )
            &&& setting(s, "connection"@, "autoconnect"@) != Some(SettingView::Flag(false))
            &&& setting(s, "connection"@, "metered"@) != Some(SettingView::Int(1))
        },
        offer(conn) matches Some(b) ==> b.ssid == name && b.conn == conn.path,
{
    reveal_strlit("wpa-psk");
    reveal_strlit("sae");
    assert("wpa-psk"@.len() == 7 && "sae"@.len() == 3);
}

/// A connection without an entry for the key management offers nothing: an
/// open network has no password.
pub proof fn open_offers_nothing_law(conn: SavedView, s: Seq<EntryView>)
    requires
        conn.settings == Some(s),
        forall|i: int|
            0 <= i < s.len() ==> !((#[trigger] s[i]).group == "802-11-wireless-security"@
                && s[i].key == "key-mgmt"@),
    ensures
        offer(conn) is None,
{
    crate::reading_laws::setting_law(s, "802-11-wireless-security"@, "key-mgmt"@, 0);
    match network_of(conn) {
        Some(name) => offer_law(conn, s, name),
        None => {},
    }
}

/// A connection that could not be read, or is for no network, offers
/// nothing.
pub proof fn no_network_no_offer_law(conn: SavedView)
    requires
        conn.settings is None || network_of(conn) is None,
    ensures
        offer(conn) is None,
{
}

/// What is offered is preferred as much, and was last used when, as the
/// settings say; nothing said counts as zero.
pub proof fn offer_rank_law(conn: SavedView, s: Seq<EntryView>, n: i32, t: u64)
    requires
        conn.settings == Some(s),
        offer(conn) is Some,
    ensures
        setting(s, "connection"@, "autoconnect-priority"@) == Some(SettingView::Int(n))
            ==> offer(conn)->0.priority == n,
        !(setting(s, "connection"@, "autoconnect-priority"@) matches Some(SettingView::Int(_)))
            ==> offer(conn)->0.priority == 0,
        setting(s, "connection"@, "timestamp"@) == Some(SettingView::Long(t))
            ==> offer(conn)->0.stamp == t,
        !(setting(s, "connection"@, "timestamp"@) matches Some(SettingView::Long(_)))
            ==> offer(conn)->0.stamp == 0,
{
}

/// Every network of the list comes from a saved connection for it that holds
/// a password, joins by itself and is not marked metered, and is no portal.
pub proof fn better_sound_law(conns: Seq<SavedView>, skip: Seq<Seq<char>>, i: int)
    requires
        0 <= i < better_of(conns, skip).len(),
    ensures
        !skip.contains(better_of(conns, skip)[i].ssid),
        exists|c: int|
            0 <= c < conns.len() && (#[trigger] conns[c]).path == better_of(conns, skip)[i].conn
                && network_of(conns[c]) == Some(better_of(conns, skip)[i].ssid)
                && conns[c].settings is Some && holds_password(conns[c].settings->0) && setting(
                conns[c].settings->0,
                "connection"@,
                "autoconnect"@,
            ) != Some(SettingView::Flag(false)) && setting(
                conns[c].settings->0,
                "connection"@,
                "metered"@,
            ) != Some(SettingView::Int(1)),
{
    let b = better_of(conns, skip)[i];
    better_law(conns, skip);
    let c = choose|c: int| 0 <= c < conns.len() && offer(#[trigger] conns[c]) == Some(b);
    match network_of(conns[c]) {
        Some(name) => offer_law(conns[c], conns[c].settings->0, name),
        None => {},
    }
    assert(conns[c].path == b.conn);
}

/// Every saved connection that qualifies, of a network that is no portal,
/// has its network on the list, preferred at least as much and, where as
/// much, used at least as late.
pub proof fn better_complete_law(
    conns: Seq<SavedView>,
    skip: Seq<Seq<char>>,
    c: int,
    s: Seq<EntryView>,
    name: Seq<char>,
)
    requires
        0 <= c < conns.len(),
        conns[c].settings == Some(s),
        network_of(conns[c]) == Some(name),
        name.len() > 0,
        holds_password(s),
        setting(s, "connection"@, "autoconnect"@) != Some(SettingView::Flag(false)),
        setting(s, "connection"@, "metered"@) != Some(SettingView::Int(1)),
        !skip.contains(name),
    ensures
        offer(conns[c]) matches Some(o) && exists|i: int|
            0 <= i < better_of(conns, skip).len() && (#[trigger] better_of(conns, skip)[i]).ssid
                == name && (better_of(conns, skip)[i].priority > o.priority || (better_of(
                conns,
                skip,
            )[i].priority == o.priority && better_of(conns, skip)[i].stamp >= o.stamp)),
{
    offer_law(conns[c], s, name);
    better_law(conns, skip);
    let o = offer(conns[c])->0;
    let list = better_of(conns, skip);
    let i = choose|i: int|
        0 <= i < list.len() && (#[trigger] list[i]).ssid == o.ssid && !picked_over(o, list[i]);
    assert(list[i].ssid == name);
}

/// No name is on the list twice.
pub proof fn better_apart_law(conns: Seq<SavedView>, skip: Seq<Seq<char>>, i: int, j: int)
    requires
        0 <= i < j < better_of(conns, skip).len(),
    ensures
        better_of(conns, skip)[i].ssid != better_of(conns, skip)[j].ssid,
{
    better_law(conns, skip);
}

/// Of several saved connections for a network the one on the list is the
/// first of those that are preferred most and, among these, were used last.
pub proof fn better_first_law(conns: Seq<SavedView>, skip: Seq<Seq<char>>, i: int)
    requires
        0 <= i < better_of(conns, skip).len(),
    ensures
        exists|c: int|
            0 <= c < conns.len() && offer(#[trigger] conns[c]) == Some(better_of(conns, skip)[i])
                && forall|d: int|
                0 <= d < conns.len() && offer(#[trigger] conns[d]) is Some && offer(
                    conns[d],
                )->0.ssid == better_of(conns, skip)[i].ssid ==> {
                    let o = offer(conns[d])->0;
                    let b = better_of(conns, skip)[i];
                    ||| o.priority < b.priority
                    ||| o.priority == b.priority && o.stamp < b.stamp
                    ||| o.priority == b.priority && o.stamp == b.stamp && c <= d
                },
    decreases conns.len(),
{
    let few = conns.drop_last();
    let last = conns.len() - 1;
    let old_list = better_of(few, skip);
    let new_list = better_of(conns, skip);
    let b = new_list[i];
    assert(conns[last] == conns.last());
    assert forall|d: int| 0 <= d < few.len() implies #[trigger] few[d] == conns[d] by {}
    match offer(conns[last]) {
        Some(o) => place_of_finds(old_list, o.ssid),
        None => {},
    }
    better_law(few, skip);
    if i < old_list.len() && new_list[i] == old_list[i] && !(offer(conns[last]) == Some(b) && (
    old_list[i] != b)) {
        better_first_law(few, skip, i);
        let c = choose|c: int|
            0 <= c < few.len() && offer(#[trigger] few[c]) == Some(b) && forall|d: int|
                0 <= d < few.len() && offer(#[trigger] few[d]) is Some && offer(few[d])->0.ssid
                    == b.ssid ==> {
                    let o = offer(few[d])->0;
                    ||| o.priority < b.priority
                    ||| o.priority == b.priority && o.stamp < b.stamp
                    ||| o.priority == b.priority && o.stamp == b.stamp && c <= d
                };
        assert(conns[c] == few[c]);
        assert forall|d: int|
            0 <= d < conns.len() && offer(#[trigger] conns[d]) is Some && offer(conns[d])->0.ssid
                == b.ssid implies ({
            let o = offer(conns[d])->0;
            ||| o.priority < b.priority
            ||| o.priority == b.priority && o.stamp < b.stamp
            ||| o.priority == b.priority && o.stamp == b.stamp && c <= d
        }) by {
            if d < last {
                assert(few[d] == conns[d]);
            } else {
                assert(old_list[i].ssid == offer(conns[last])->0.ssid);
                assert(place_of(old_list, b.ssid) == i) by {
                    let k = place_of(old_list, b.ssid) as int;
                    if k < i {
                        assert(old_list[k].ssid != old_list[i].ssid);
                    } else if k > i {
                        assert(old_list[i].ssid != b.ssid);
                    }
                }
            }
        }
    } else {
        assert(offer(conns[last]) == Some(b));
        assert forall|d: int|
            0 <= d < conns.len() && offer(#[trigger] conns[d]) is Some && offer(conns[d])->0.ssid
                == b.ssid implies ({
            let o = offer(conns[d])->0;
            ||| o.priority < b.priority
            ||| o.priority == b.priority && o.stamp < b.stamp
            ||| o.priority == b.priority && o.stamp == b.stamp && last <= d
        }) by {
            if d < last {
                assert(few[d] == conns[d]);
                let o = offer(few[d])->0;
                let at = choose|at: int|
                    0 <= at < old_list.len() && (#[trigger] old_list[at]).ssid == o.ssid
                        && !picked_over(o, old_list[at]);
                assert(place_of(old_list, b.ssid) == at) by {
                    let k = place_of(old_list, b.ssid) as int;
                    if k < at {
                        assert(old_list[k].ssid != old_list[at].ssid);
                    } else if k > at {
                        assert(old_list[at].ssid != b.ssid);
                    }
                }
                assert(i == at);
            }
        }
    }
}

/// An access point belongs to the network of the list that has its name.
proof fn serves_named(list: Seq<BetterView>, ap: ApView, k: int)
    requires
        forall|i: int, j: int|
            0 <= i < j < list.len() ==> (#[trigger] list[i]).ssid != (#[trigger] list[j]).ssid,
        0 <= k < list.len(),
        list[k].ssid == ap.name(),
        ap.name().len() > 0,
    ensures
        serves(list, ap) == Some(list[k]),
{
    place_of_finds(list, ap.name());
    let at = place_of(list, ap.name()) as int;
    if at < k {
        assert(list[at].ssid != list[k].ssid);
    } else if at > k {
        assert(list[k].ssid != ap.name());
    }
}

/// The network taken is on the list and in the air, and of the networks of
/// the list in the air none has a higher priority, none of the same priority
/// was used later, and none of the same priority used at the same time is
/// stronger; of those that are equal in all three it is the one heard last.
pub proof fn best_taken_law(list: Seq<BetterView>, aps: Seq<ApView>, c: int, k: int)
    requires
        forall|i: int, j: int|
            0 <= i < j < list.len() ==> (#[trigger] list[i]).ssid != (#[trigger] list[j]).ssid,
    ensures
        best_of(list, aps) matches Some((b, ap)) ==> {
            &&& list.contains(b)
            &&& aps.contains(ap)
            &&& b.ssid == ap.name()
            &&& ap.name().len() > 0
            &&& 0 <= c < aps.len() && 0 <= k < list.len() && list[k].ssid == aps[c].name()
                && aps[c].name().len() > 0 ==> {
                &&& b.priority >= list[k].priority
                &&& b.priority == list[k].priority ==> b.stamp >= list[k].stamp
                &&& b.priority == list[k].priority && b.stamp == list[k].stamp ==> ap.signal()
                    >= aps[c].signal()
            }
        },
        best_of(list, aps) is None && 0 <= c < aps.len() && 0 <= k < list.len() ==> list[k].ssid
            != aps[c].name() || aps[c].name().len() == 0,
{
    best_law(list, aps);
    let near = 0 <= c < aps.len() && 0 <= k < list.len() && list[k].ssid == aps[c].name()
        && aps[c].name().len() > 0;
    if near {
        serves_named(list, aps[c], k);
    }
    match best_of(list, aps) {
        Some((b, ap)) => {
            let a = choose|a: int|
                0 <= a < aps.len() && #[trigger] aps[a] == ap && serves(list, ap) == Some(b)
                    && forall|c: int|
                    0 <= c < aps.len() && serves(list, #[trigger] aps[c]) is Some
                        ==> !crate::better::ranks_below(
                        b,
                        ap.signal(),
                        serves(list, aps[c])->0,
                        aps[c].signal(),
                    ) && (c > a ==> crate::better::ranks_below(
                        serves(list, aps[c])->0,
                        aps[c].signal(),
                        b,
                        ap.signal(),
                    ));
            place_of_finds(list, ap.name());
            assert(list[place_of(list, ap.name()) as int] == b);
            assert(aps[a] == ap);
            if near {
                assert(serves(list, aps[c]) is Some);
            }
        },
        None => {
            if near {
                assert(serves(list, aps[c]) is None);
            }
        },
    }
}

/// Of networks in the air that are equal in priority, in when they were used
/// and in signal, the one heard last is taken: hearing such a one more takes
/// it, and hearing a lesser one changes nothing.
pub proof fn best_last_law(list: Seq<BetterView>, aps: Seq<ApView>, ap: ApView, k: int)
    requires
        forall|i: int, j: int|
            0 <= i < j < list.len() ==> (#[trigger] list[i]).ssid != (#[trigger] list[j]).ssid,
        0 <= k < list.len(),
        list[k].ssid == ap.name(),
        ap.name().len() > 0,
    ensures
        ({
            let o = list[k];
            match best_of(list, aps) {
                None => best_of(list, aps.push(ap)) == Some((o, ap)),
                Some((b, by)) => if o.priority > b.priority || (o.priority == b.priority && (o.stamp
                    > b.stamp || (o.stamp == b.stamp && ap.signal() >= by.signal()))) {
                    best_of(list, aps.push(ap)) == Some((o, ap))
                } else {
                    best_of(list, aps.push(ap)) == Some((b, by))
                },
            }
        }),
{
    serves_named(list, ap, k);
    assert(aps.push(ap).drop_last() =~= aps);
}

/// An access point of no network on the list, or without a name, changes
/// nothing.
pub proof fn best_other_law(list: Seq<BetterView>, aps: Seq<ApView>, ap: ApView)
    requires
        ap.name().len() == 0 || forall|k: int|
            0 <= k < list.len() ==> (#[trigger] list[k]).ssid != ap.name(),
    ensures
        best_of(list, aps.push(ap)) == best_of(list, aps),
{
    place_of_finds(list, ap.name());
    assert(aps.push(ap).drop_last() =~= aps);
}

/// Striking a name off leaves the others as they stand and takes that name
/// away.
pub proof fn skipping_order_law(list: Seq<BetterView>, b: BetterView, name: Seq<char>)
    ensures
        skipping(Seq::empty(), name) == Seq::<BetterView>::empty(),
        b.ssid == name ==> skipping(list.push(b), name) == skipping(list, name),
        b.ssid != name ==> skipping(list.push(b), name) == skipping(list, name).push(b),
{
    assert(list.push(b).drop_last() =~= list);
}

/// The name of the network that a path is for is that of the first saved
/// connection of that path that is for one, and nothing when none is.
pub proof fn network_at_law(conns: Seq<SavedView>, path: Seq<char>, i: int)
    ensures
        0 <= i < conns.len() && conns[i].path == path && network_of(conns[i]) is Some && (forall|
            j: int,
        |
            0 <= j < i ==> !((#[trigger] conns[j]).path == path && network_of(conns[j]) is Some))
            ==> network_at(conns, path) == network_of(conns[i]),
        (forall|j: int|
            0 <= j < conns.len() ==> !((#[trigger] conns[j]).path == path && network_of(
                conns[j],
            ) is Some)) ==> network_at(conns, path) is None,
    decreases conns.len(),
{
    if conns.len() > 0 {
        let rest = conns.drop_first();
        assert forall|j: int| 0 <= j < rest.len() implies #[trigger] rest[j] == conns[j + 1] by {}
        network_at_law(rest, path, i - 1);
        if i > 0 && i < conns.len() {
            assert(rest[i - 1] == conns[i]);
        }
        if !(conns[0].path == path && network_of(conns[0]) is Some) {
            if forall|j: int|
                0 <= j < i ==> !((#[trigger] conns[j]).path == path && network_of(conns[j])
                    is Some) {
                assert forall|j: int| 0 <= j < i - 1 && j < rest.len() implies !((
                #[trigger] rest[j]).path == path && network_of(rest[j]) is Some) by {
                    assert(rest[j] == conns[j + 1]);
                }
            }
            if forall|j: int|
                0 <= j < conns.len() ==> !((#[trigger] conns[j]).path == path && network_of(
                    conns[j],
                ) is Some) {
                assert forall|j: int| 0 <= j < rest.len() implies !((#[trigger] rest[j]).path
                    == path && network_of(rest[j]) is Some) by {
                    assert(rest[j] == conns[j + 1]);
                }
            }
        } else {
            assert(conns[0].path == path);
        }
    }
}

/// The network the machine is on is that of the first live connection that
/// came from a saved connection for a network, and nothing when none did.
pub proof fn wifi_on_law(conns: Seq<SavedView>, actives: Seq<ActiveView>, active: ActiveView)
    ensures
        wifi_on(conns, Seq::empty()) is None,
        match active.conn {
            Some(conn) => match network_at(conns, conn) {
                Some(name) => wifi_on(conns, seq![active] + actives) == Some((conn, name)),
                None => wifi_on(conns, seq![active] + actives) == wifi_on(conns, actives),
            },
            None => wifi_on(conns, seq![active] + actives) == wifi_on(conns, actives),
        },
{
    let all = seq![active] + actives;
    assert(all.drop_first() =~= actives);
    assert(all[0] == active);
}

/// The VPNs that are up are all of those listed with a live connection, in
/// their order, and no others.
pub proof fn ups_law(list: Seq<VpnView>, vpn: VpnView)
    ensures
        ups(Seq::empty()) == Seq::<Seq<char>>::empty(),
        vpn.active is Some ==> ups(list.push(vpn)) == ups(list).push(vpn.conn),
        vpn.active is None ==> ups(list.push(vpn)) == ups(list),
{
    assert(list.push(vpn).drop_last() =~= list);
}

} // verus!
