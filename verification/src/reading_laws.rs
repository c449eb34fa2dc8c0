//! What is made of what was read, told by the things read themselves.

use vstd::prelude::*;

use crate::nm::{Lock, VpnView};
use crate::reading::{
    live_path, mark_of, marked_metered, network_of, saved_path, setting, setting_text, vpn_of,
    vpns_of, ActiveView, ApView, EntryView, SavedView, SettingView, StandingView,
};
use crate::text::{utf8_lossy, without_end};

verus! {

/// Looking up a setting gives the value of the first entry of that group and
/// key, and nothing when there is no such entry.
pub proof fn setting_law(entries: Seq<EntryView>, group: Seq<char>, key: Seq<char>, i: int)
    ensures
        0 <= i < entries.len() && entries[i].group == group && entries[i].key == key && (forall|
            j: int,
        |
            0 <= j < i ==> !((#[trigger] entries[j]).group == group && entries[j].key == key))
            ==> setting(entries, group, key) == Some(entries[i].value),
        (forall|j: int|
            0 <= j < entries.len() ==> !((#[trigger] entries[j]).group == group && entries[j].key
                == key)) <==> setting(entries, group, key) is None,
    decreases entries.len(),
{
    if entries.len() > 0 {
        let rest = entries.drop_first();
        setting_law(rest, group, key, i - 1);
        assert forall|j: int| 0 <= j < rest.len() implies #[trigger] rest[j] == entries[j + 1] by {}
        if !(entries[0].group == group && entries[0].key == key) {
            if forall|j: int|
                0 <= j < entries.len() ==> !((#[trigger] entries[j]).group == group
                    && entries[j].key == key) {
                assert forall|j: int| 0 <= j < rest.len() implies !((#[trigger] rest[j]).group
                    == group && rest[j].key == key) by {
                    assert(rest[j] == entries[j + 1]);
                }
            } else {
                let k = choose|k: int|
                    0 <= k < entries.len() && (#[trigger] entries[k]).group == group
                        && entries[k].key == key;
                assert(rest[k - 1] == entries[k]);
            }
            if 0 <= i < entries.len() && entries[i].group == group && entries[i].key == key && (
            forall|j: int|
                0 <= j < i ==> !((#[trigger] entries[j]).group == group && entries[j].key == key)) {
                assert(rest[i - 1] == entries[i]);
                assert forall|j: int| 0 <= j < i - 1 implies !((#[trigger] rest[j]).group == group
                    && rest[j].key == key) by {
                    assert(rest[j] == entries[j + 1]);
                }
            }
        } else if i > 0 {
            assert(entries[0].group == group);
        }
    }
}

/// The text of a setting is what a text holds, and nothing of any other
/// value.
pub proof fn setting_text_law(
    entries: Seq<EntryView>,
    group: Seq<char>,
    key: Seq<char>,
    words: Seq<char>,
)
    ensures
        setting(entries, group, key) == Some(SettingView::Text(words)) ==> setting_text(
            entries,
            group,
            key,
        ) == words,
        !(setting(entries, group, key) matches Some(SettingView::Text(_))) ==> setting_text(
            entries,
            group,
            key,
        ).len() == 0,
{
}

/// A connection is marked metered when its settings hold the number one for
/// it, and not with any other number or value. Marking writes that number,
/// and taking the mark off writes zero.
pub proof fn metered_number_law(entries: Seq<EntryView>)
    ensures
        marked_metered(entries) <==> setting(entries, "connection"@, "metered"@) == Some(
            SettingView::Int(1),
        ),
        mark_of(true) == 1,
        mark_of(false) == 0,
{
}

/// What is live of a saved connection is the last live connection that came
/// from it, and nothing when none did.
pub proof fn live_path_law(actives: Seq<ActiveView>, conn: Seq<char>, i: int)
    ensures
        0 <= i < actives.len() && actives[i].conn == Some(conn) && (forall|j: int|
            i < j < actives.len() ==> (#[trigger] actives[j]).conn != Some(conn)) ==> live_path(
            actives,
            conn,
        ) == Some(actives[i].path),
        (forall|j: int| 0 <= j < actives.len() ==> (#[trigger] actives[j]).conn != Some(conn))
            <==> live_path(actives, conn) is None,
    decreases actives.len(),
{
    if actives.len() > 0 {
        let few = actives.drop_last();
        let last = actives.len() - 1;
        live_path_law(few, conn, i);
        assert forall|j: int| 0 <= j < few.len() implies #[trigger] few[j] == actives[j] by {}
        if actives[last].conn != Some(conn) {
            if forall|j: int|
                0 <= j < actives.len() ==> (#[trigger] actives[j]).conn != Some(conn) {
                assert forall|j: int| 0 <= j < few.len() implies (#[trigger] few[j]).conn != Some(
                    conn,
                ) by {
                    assert(few[j] == actives[j]);
                }
            } else {
                let k = choose|k: int|
                    0 <= k < actives.len() && (#[trigger] actives[k]).conn == Some(conn);
                assert(few[k] == actives[k]);
            }
            if 0 <= i < last && actives[i].conn == Some(conn) && (forall|j: int|
                i < j < actives.len() ==> (#[trigger] actives[j]).conn != Some(conn)) {
                assert(few[i] == actives[i]);
                assert forall|j: int| i < j < few.len() implies (#[trigger] few[j]).conn != Some(
                    conn,
                ) by {
                    assert(few[j] == actives[j]);
                }
            }
        } else if i < last {
            assert(actives[last].conn == Some(conn));
        }
    }
}

/// A saved connection is for a network when its type is Wi-Fi, and for the
/// one whose name its settings hold as bytes; without such bytes for one
/// without a name. A connection of another type, or one that could not be
/// read, is for none.
pub proof fn network_law(conn: SavedView, s: Seq<EntryView>, name: Seq<u8>)
    ensures
        conn.settings is None ==> network_of(conn) is None,
        conn.settings == Some(s) && setting_text(s, "connection"@, "type"@) != "802-11-wireless"@
            ==> network_of(conn) is None,
        conn.settings == Some(s) && setting_text(s, "connection"@, "type"@) == "802-11-wireless"@
            && setting(s, "802-11-wireless"@, "ssid"@) == Some(SettingView::Bytes(name))
            ==> network_of(conn) == Some(utf8_lossy(name)),
        conn.settings == Some(s) && setting_text(s, "connection"@, "type"@) == "802-11-wireless"@
            && !(setting(s, "802-11-wireless"@, "ssid"@) matches Some(SettingView::Bytes(_)))
            ==> network_of(conn) == Some(Seq::<char>::empty()),
{
}

/// Every network with a saved connection has one, and that one is for the
/// network; it is live whenever any copy is.
pub proof fn saved_for_law(conns: Seq<SavedView>, actives: Seq<ActiveView>, name: Seq<char>, c: int)
    requires
        0 <= c < conns.len(),
        network_of(conns[c]) == Some(name),
    ensures
        saved_path(conns, actives, name) matches Some(path) && (exists|k: int|
            0 <= k < conns.len() && (#[trigger] conns[k]).path == path && network_of(conns[k])
                == Some(name)) && (live_path(actives, conns[c].path) is Some ==> live_path(
            actives,
            path,
        ) is Some),
    decreases conns.len(),
{
    let few = conns.drop_last();
    let last = conns.len() - 1;
    let before = saved_path(few, actives, name);
    if c < last {
        assert(few[c] == conns[c]);
        saved_for_law(few, actives, name, c);
        let k = choose|k: int|
            0 <= k < few.len() && (#[trigger] few[k]).path == before->0 && network_of(few[k])
                == Some(name);
        assert(conns[k] == few[k]);
        assert(conns[last] == conns.last());
    } else {
        assert(conns[last] == conns.last());
        if before is Some && live_path(actives, conns.last().path) is None {
            saved_is_copy(few, actives, name);
            let k = choose|k: int|
                0 <= k < few.len() && (#[trigger] few[k]).path == before->0 && network_of(few[k])
                    == Some(name);
            assert(conns[k] == few[k]);
        }
    }
}

/// The saved connection for a network is one of those for it.
proof fn saved_is_copy(conns: Seq<SavedView>, actives: Seq<ActiveView>, name: Seq<char>)
    requires
        saved_path(conns, actives, name) is Some,
    ensures
        exists|k: int|
            0 <= k < conns.len() && (#[trigger] conns[k]).path == saved_path(
                conns,
                actives,
                name,
            )->0 && network_of(conns[k]) == Some(name),
    decreases conns.len(),
{
    let few = conns.drop_last();
    let last = conns.len() - 1;
    assert(conns[last] == conns.last());
    if saved_path(few, actives, name) is Some {
        saved_is_copy(few, actives, name);
        let k = choose|k: int|
            0 <= k < few.len() && (#[trigger] few[k]).path == saved_path(few, actives, name)->0
                && network_of(few[k]) == Some(name);
        assert(conns[k] == few[k]);
    }
}

/// Of several saved connections for a network the last live one is its
/// saved connection; with none live, the first; and a network without any
/// has none.
pub proof fn saved_choice_law(
    conns: Seq<SavedView>,
    actives: Seq<ActiveView>,
    name: Seq<char>,
    i: int,
)
    ensures
        (forall|j: int| 0 <= j < conns.len() ==> network_of(#[trigger] conns[j]) != Some(name))
            ==> saved_path(conns, actives, name) is None,
        0 <= i < conns.len() && network_of(conns[i]) == Some(name) && live_path(
            actives,
            conns[i].path,
        ) is Some && (forall|j: int|
            i < j < conns.len() && network_of(#[trigger] conns[j]) == Some(name) ==> live_path(
                actives,
                conns[j].path,
            ) is None) ==> saved_path(conns, actives, name) == Some(conns[i].path),
        0 <= i < conns.len() && network_of(conns[i]) == Some(name) && (forall|j: int|
            0 <= j < i ==> network_of(#[trigger] conns[j]) != Some(name)) && (forall|j: int|
            0 <= j < conns.len() && network_of(#[trigger] conns[j]) == Some(name) ==> live_path(
                actives,
                conns[j].path,
            ) is None) ==> saved_path(conns, actives, name) == Some(conns[i].path),
    decreases conns.len(),
{
    if conns.len() > 0 {
        let few = conns.drop_last();
        let last = conns.len() - 1;
        assert(conns[last] == conns.last());
        assert forall|j: int| 0 <= j < few.len() implies #[trigger] few[j] == conns[j] by {}
        saved_choice_law(few, actives, name, i);
        if i < last {
            if 0 <= i && network_of(conns[i]) == Some(name) && live_path(actives, conns[i].path)
                is Some && (forall|j: int|
                i < j < conns.len() && network_of(#[trigger] conns[j]) == Some(name) ==> live_path(
                    actives,
                    conns[j].path,
                ) is None) {
                assert(few[i] == conns[i]);
                assert forall|j: int|
                    i < j < few.len() && network_of(#[trigger] few[j]) == Some(
                        name,
                    ) implies live_path(actives, few[j].path) is None by {
                    assert(few[j] == conns[j]);
                }
            }
            if 0 <= i && network_of(conns[i]) == Some(name) && (forall|j: int|
                0 <= j < i ==> network_of(#[trigger] conns[j]) != Some(name)) && (forall|j: int|
                0 <= j < conns.len() && network_of(#[trigger] conns[j]) == Some(name) ==> live_path(
                    actives,
                    conns[j].path,
                ) is None) {
                assert(few[i] == conns[i]);
                assert forall|j: int| 0 <= j < i implies network_of(#[trigger] few[j]) != Some(
                    name,
                ) by {
                    assert(few[j] == conns[j]);
                }
                assert forall|j: int|
                    0 <= j < few.len() && network_of(#[trigger] few[j]) == Some(
                        name,
                    ) implies live_path(actives, few[j].path) is None by {
                    assert(few[j] == conns[j]);
                }
            }
        } else if i == last {
            if forall|j: int| 0 <= j < i ==> network_of(#[trigger] conns[j]) != Some(name) {
                assert forall|j: int| 0 <= j < few.len() implies network_of(#[trigger] few[j])
                    != Some(name) by {
                    assert(few[j] == conns[j]);
                }
            }
        }
        if forall|j: int| 0 <= j < conns.len() ==> network_of(#[trigger] conns[j]) != Some(name) {
            assert forall|j: int| 0 <= j < few.len() implies network_of(#[trigger] few[j]) != Some(
                name,
            ) by {
                assert(few[j] == conns[j]);
            }
        }
    }
}

/// A saved connection is a VPN when its type is "vpn" or "wireguard", and
/// with no other type; its name is the connection's id. It is up when some
/// live connection came from it, of either type, and the last such one is
/// the live connection shown.
pub proof fn vpn_read_law(conn: SavedView, s: Seq<EntryView>, actives: Seq<ActiveView>, i: int)
    requires
        conn.settings == Some(s),
    ensures
        vpn_of(conn, actives) is Some <==> setting_text(s, "connection"@, "type"@) == "vpn"@
            || setting_text(s, "connection"@, "type"@) == "wireguard"@,
        vpn_of(conn, actives) matches Some(vpn) ==> {
            &&& vpn.conn == conn.path
            &&& vpn.name == setting_text(s, "connection"@, "id"@)
            &&& (vpn.active is None <==> forall|j: int|
                0 <= j < actives.len() ==> (#[trigger] actives[j]).conn != Some(conn.path))
            &&& (0 <= i < actives.len() && actives[i].conn == Some(conn.path) && (forall|j: int|
                i < j < actives.len() ==> (#[trigger] actives[j]).conn != Some(conn.path))
                ==> vpn.active == Some(actives[i].path))
        },
{
    live_path_law(actives, conn.path, i);
}

/// A connection that could not be read is no VPN.
pub proof fn vpn_unread_law(conn: SavedView, actives: Seq<ActiveView>)
    requires
        conn.settings is None,
    ensures
        vpn_of(conn, actives) is None,
{
}

/// The VPNs are those of the saved connections, all of them and in their
/// order: one saved connection more adds its VPN at the end, if it is one,
/// and nothing else.
pub proof fn vpns_read_law(conns: Seq<SavedView>, conn: SavedView, actives: Seq<ActiveView>)
    ensures
        vpns_of(Seq::empty(), actives) == Seq::<VpnView>::empty(),
        vpns_of(conns.push(conn), actives) == match vpn_of(conn, actives) {
            Some(vpn) => vpns_of(conns, actives).push(vpn),
            None => vpns_of(conns, actives),
        },
{
    assert(conns.push(conn).drop_last() =~= conns);
}

/// Every VPN among the saved connections is listed, up or down as the live
/// connections say.
pub proof fn vpn_listed_law(
    conns: Seq<SavedView>,
    actives: Seq<ActiveView>,
    c: int,
    s: Seq<EntryView>,
)
    requires
        0 <= c < conns.len(),
        conns[c].settings == Some(s),
        setting_text(s, "connection"@, "type"@) == "vpn"@ || setting_text(s, "connection"@, "type"@)
            == "wireguard"@,
    ensures
        exists|i: int|
            0 <= i < vpns_of(conns, actives).len() && (#[trigger] vpns_of(conns, actives)[i]).conn
                == conns[c].path && vpns_of(conns, actives)[i].name == setting_text(
                s,
                "connection"@,
                "id"@,
            ) && (vpns_of(conns, actives)[i].active is None <==> forall|j: int|
                0 <= j < actives.len() ==> (#[trigger] actives[j]).conn != Some(conns[c].path)),
    decreases conns.len(),
{
    let few = conns.drop_last();
    let last = conns.len() - 1;
    let all = vpns_of(conns, actives);
    if c == last {
        vpn_read_law(conns[c], s, actives, 0);
        let i = all.len() - 1;
        assert(all[i].conn == conns[c].path);
    } else {
        assert(few[c] == conns[c]);
        vpn_listed_law(few, actives, c, s);
        let before = vpns_of(few, actives);
        let i = choose|i: int|
            0 <= i < before.len() && (#[trigger] before[i]).conn == few[c].path && before[i].name
                == setting_text(s, "connection"@, "id"@) && (before[i].active is None <==> forall|
                j: int,
            |
                0 <= j < actives.len() ==> (#[trigger] actives[j]).conn != Some(few[c].path));
        assert(all[i] == before[i]);
    }
}

/// What is left of a text without the characters at its end is its
/// beginning, what went is those characters and nothing else, and no more of
/// them are at its end.
pub proof fn without_end_law(text: Seq<char>, c: char)
    ensures
        without_end(text, c).len() <= text.len(),
        without_end(text, c) == text.take(without_end(text, c).len() as int),
        forall|i: int| without_end(text, c).len() <= i < text.len() ==> #[trigger] text[i] == c,
        without_end(text, c).len() > 0 ==> without_end(text, c).last() != c,
    decreases text.len(),
{
    if text.len() > 0 && text.last() == c {
        let few = text.drop_last();
        without_end_law(few, c);
        let n = without_end(text, c).len() as int;
        assert(few.take(n) =~= text.take(n));
        assert forall|i: int| n <= i < text.len() implies #[trigger] text[i] == c by {
            if i < few.len() {
                assert(few[i] == text[i]);
            }
        }
    } else {
        assert(text.take(text.len() as int) =~= text);
    }
}

/// The name of an access point is what its bytes say, without the zero
/// characters at the end and with nothing else taken away.
pub proof fn ap_name_law(ap: ApView, bytes: Seq<u8>)
    requires
        ap.ssid == Some(bytes),
    ensures
        ap.name().len() <= utf8_lossy(bytes).len(),
        ap.name() == utf8_lossy(bytes).take(ap.name().len() as int),
        forall|i: int|
            ap.name().len() <= i < utf8_lossy(bytes).len() ==> #[trigger] utf8_lossy(bytes)[i]
                == '\0',
        ap.name().len() > 0 ==> ap.name().last() != '\0',
{
    without_end_law(utf8_lossy(bytes), '\0');
}

/// An access point without a name that could be read is named as one with no
/// bytes.
pub proof fn ap_nameless_law(ap: ApView, other: ApView)
    requires
        ap.ssid is None,
        other.ssid == Some(Seq::<u8>::empty()),
    ensures
        ap.name() == other.name(),
{
}

/// The signal of an access point is its strength, or none where it could not
/// be read.
pub proof fn ap_signal_law(ap: ApView, strength: u8)
    ensures
        ap.strength == Some(strength) ==> ap.signal() == strength,
        ap.strength is None ==> ap.signal() == 0,
{
}

/// How an access point is locked goes by what it offers in either set of
/// flags: a certificate before a password, WPA2 before WPA3, a password
/// where there is a key of some other kind, and open without any. A set that
/// could not be read offers nothing.
pub proof fn ap_lock_law(ap: ApView)
    ensures
        ({
            let f = ap.flags.unwrap_or(0u32);
            let a = ap.wpa.unwrap_or(0u32);
            let b = ap.rsn.unwrap_or(0u32);
            &&& (ap.lock() == Lock::Enterprise <==> a & 0x200 != 0 || b & 0x200 != 0)
            &&& (ap.lock() == Lock::Open <==> f & 0x1 == 0 && a == 0 && b == 0)
            &&& (ap.lock() == Lock::Sae <==> (a & 0x400 != 0 || b & 0x400 != 0) && a & 0x100 == 0
                && b & 0x100 == 0 && a & 0x200 == 0 && b & 0x200 == 0)
        }),
{
    assert(0u32 & 0x100 == 0 && 0u32 & 0x200 == 0 && 0u32 & 0x400 == 0) by (bit_vector);
}

/// What you are on is the connection's id, with the first address behind it
/// where there is one to read, however many follow.
pub proof fn standing_law(now: StandingView, id: Seq<char>, ip: Seq<char>)
    requires
        now.manager,
        now.primary is Some,
        now.primary != Some("/"@),
        now.reached,
        now.id == Some(id) || (now.id is None && id.len() == 0),
    ensures
        now.config is Some && now.config != Some("/"@) && now.addresses is Some
            && now.addresses->0.len() > 0 && now.addresses->0[0] == Some(ip) ==> now.words() == id
            + " · "@ + ip,
        now.config is None || now.config == Some("/"@) || now.addresses is None
            || now.addresses->0.len() == 0 || now.addresses->0[0] is None ==> now.words() == id,
{
    if now.id is None {
        assert(id =~= Seq::<char>::empty());
    }
}

/// Without NetworkManager, and without a primary connection that can be
/// reached, it says so.
pub proof fn standing_off_law(now: StandingView)
    ensures
        !now.manager ==> now.words() == "no NetworkManager"@,
        now.manager && (now.primary is None || now.primary == Some("/"@) || !now.reached)
            ==> now.words() == "offline"@,
{
}

} // verus!
