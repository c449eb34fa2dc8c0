//! What is in the air: one network per name, with the strongest of its
//! access points.

use vstd::prelude::*;
use vstd::string::*;

use crate::nm::{Net, NetView, Vpn, VpnView};
use crate::reading::{
    live, live_path, saved_for, saved_path, text, vpn_of, vpns_of, Active, ActiveView, Ap, ApView,
    Saved, SavedView,
};
use crate::text::same;

verus! {

/// Where the network of that name stands, or the length when it is not
/// there.
pub open spec fn position(nets: Seq<NetView>, name: Seq<char>) -> nat
    decreases nets.len(),
{
    if nets.len() == 0 || nets[0].ssid == name {
        0
    } else {
        1 + position(nets.drop_first(), name)
    }
}

/// `position` is the first place of the name, and no other.
proof fn position_is_first(nets: Seq<NetView>, name: Seq<char>, n: int)
    requires
        0 <= n <= nets.len(),
        forall|i: int| 0 <= i < n ==> nets[i].ssid != name,
        n < nets.len() ==> nets[n].ssid == name,
    ensures
        position(nets, name) == n,
    decreases nets.len(),
{
    if n > 0 {
        assert forall|i: int| 0 <= i < n - 1 implies nets.drop_first()[i].ssid != name by {
            assert(nets.drop_first()[i] == nets[i + 1]);
        }
        position_is_first(nets.drop_first(), name, n - 1);
    }
}

/// At `position` stands the name, and nowhere before.
pub proof fn position_finds(nets: Seq<NetView>, name: Seq<char>)
    ensures
        position(nets, name) <= nets.len(),
        position(nets, name) < nets.len() ==> nets[position(nets, name) as int].ssid == name,
        forall|i: int| 0 <= i < position(nets, name) ==> nets[i].ssid != name,
    decreases nets.len(),
{
    if nets.len() > 0 && nets[0].ssid != name {
        position_finds(nets.drop_first(), name);
        assert forall|i: int| 0 <= i < position(nets, name) implies nets[i].ssid != name by {
            if i > 0 {
                assert(nets[i] == nets.drop_first()[i - 1]);
            }
        }
    }
}

/// Where the network of that name stands.
fn find_net(nets: &Vec<Net>, name: &str) -> (at: usize)
    ensures
        at == position(nets.deep_view(), name@),
        at <= nets@.len(),
{
    let ghost all = nets.deep_view();
    let mut k: usize = 0;
    while k < nets.len() && !same(nets[k].ssid.as_str(), name)
        invariant
            k <= nets@.len(),
            all == nets.deep_view(),
            forall|i: int| 0 <= i < k ==> (#[trigger] all[i]).ssid != name@,
        ensures
            k <= nets@.len(),
            forall|i: int| 0 <= i < k ==> (#[trigger] all[i]).ssid != name@,
            k < nets@.len() ==> all[k as int].ssid == name@,
        decreases nets@.len() - k,
    {
        k = k + 1;
    }
    proof {
        position_is_first(all, name@, k as int);
    }
    k
}

/// The live connection of a network, when its saved connection is in use.
pub open spec fn live_of(saved: Option<Seq<char>>, actives: Seq<ActiveView>) -> Option<Seq<char>> {
    match saved {
        Some(conn) => live_path(actives, conn),
        None => None,
    }
}

/// The network that an access point is the first sign of.
pub open spec fn net_of(
    ap: ApView,
    conns: Seq<SavedView>,
    actives: Seq<ActiveView>,
) -> NetView {
    let saved = saved_path(conns, actives, ap.name());
    NetView {
        ssid: ap.name(),
        strength: ap.signal(),
        lock: ap.lock(),
        ap: ap.path,
        saved,
        active: live_of(saved, actives),
    }
}

/// The networks, with one more access point heard: a stronger one takes the
/// place of the access point that its network had, signal, lock and all. A
/// hidden network has no name to show or to pick.
pub open spec fn with_ap(
    nets: Seq<NetView>,
    ap: ApView,
    conns: Seq<SavedView>,
    actives: Seq<ActiveView>,
) -> Seq<NetView> {
    let k = position(nets, ap.name()) as int;
    if ap.name().len() == 0 {
        nets
    } else if k >= nets.len() {
        nets.push(net_of(ap, conns, actives))
    } else if ap.signal() > nets[k].strength {
        nets.update(
            k,
            NetView { strength: ap.signal(), lock: ap.lock(), ap: ap.path, ..nets[k] },
        )
    } else {
        nets
    }
}

/// The networks in the air, as their access points were heard.
pub open spec fn nets_of(
    aps: Seq<ApView>,
    conns: Seq<SavedView>,
    actives: Seq<ActiveView>,
) -> Seq<NetView>
    decreases aps.len(),
{
    if aps.len() == 0 {
        seq![]
    } else {
        with_ap(nets_of(aps.drop_last(), conns, actives), aps.last(), conns, actives)
    }
}

/// Hears one more access point.
fn hear(nets: &mut Vec<Net>, ap: &Ap, conns: &Vec<Saved>, actives: &Vec<Active>)
    ensures
        final(nets).deep_view() == with_ap(
            old(nets).deep_view(),
            ap.deep_view(),
            conns.deep_view(),
            actives.deep_view(),
        ),
{
    let name = ap.name();
    if name.as_str().is_empty() {
        return ;
    }
    let ghost before = nets.deep_view();
    let k = find_net(nets, name.as_str());
    if k < nets.len() {
        if ap.signal() > nets[k].strength {
            let was = nets[k].clone();
            let new = Net {
                ssid: was.ssid,
                strength: ap.signal(),
                lock: ap.lock(),
                ap: ap.path.clone(),
                saved: was.saved,
                active: was.active,
            };
            nets.set(k, new);
            assert(nets.deep_view() =~= with_ap(
                before,
                ap.deep_view(),
                conns.deep_view(),
                actives.deep_view(),
            ));
        }
        return ;
    }
    let saved = saved_for(conns, actives, name.as_str());
    let active = match &saved {
        Some(conn) => live(actives, conn.as_str()),
        None => None,
    };
    nets.push(
        Net { ssid: name, strength: ap.signal(), lock: ap.lock(), ap: ap.path.clone(), saved, active },
    );
    assert(nets.deep_view() =~= before.push(
        net_of(ap.deep_view(), conns.deep_view(), actives.deep_view()),
    ));
}

/// The networks in the air.
pub fn nets(aps: &Vec<Ap>, conns: &Vec<Saved>, actives: &Vec<Active>) -> (found: Vec<Net>)
    ensures
        found.deep_view() == nets_of(aps.deep_view(), conns.deep_view(), actives.deep_view()),
{
    let ghost all = aps.deep_view();
    let mut found: Vec<Net> = Vec::new();
    let mut k: usize = 0;
    assert(found.deep_view() =~= Seq::<NetView>::empty());
    while k < aps.len()
        invariant
            k <= aps@.len(),
            all == aps.deep_view(),
            found.deep_view() == nets_of(
                all.take(k as int),
                conns.deep_view(),
                actives.deep_view(),
            ),
        decreases aps@.len() - k,
    {
        hear(&mut found, &aps[k], conns, actives);
        assert(all.take(k + 1).drop_last() =~= all.take(k as int));
        assert(all.take(k + 1).last() == aps@[k as int].deep_view());
        k = k + 1;
    }
    assert(all.take(k as int) =~= all);
    found
}

/// The VPN that a saved connection is, if it is one.
fn vpn(conn: &Saved, actives: &Vec<Active>) -> (found: Option<Vpn>)
    ensures
        found.deep_view() == vpn_of(conn.deep_view(), actives.deep_view()),
{
    match &conn.settings {
        Some(s) => {
            let kind = text(s, "connection", "type");
            if same(kind.as_str(), "vpn") || same(kind.as_str(), "wireguard") {
                let name = text(s, "connection", "id");
                Some(
                    Vpn { name, conn: conn.path.clone(), active: live(actives, conn.path.as_str()) },
                )
            } else {
                None
            }
        },
        None => None,
    }
}

/// The VPNs among saved connections, as they come.
pub fn vpns(conns: &Vec<Saved>, actives: &Vec<Active>) -> (found: Vec<Vpn>)
    ensures
        found.deep_view() == vpns_of(conns.deep_view(), actives.deep_view()),
{
    let ghost all = conns.deep_view();
    let mut found: Vec<Vpn> = Vec::new();
    let mut k: usize = 0;
    assert(found.deep_view() =~= Seq::<VpnView>::empty());
    while k < conns.len()
        invariant
            k <= conns@.len(),
            all == conns.deep_view(),
            found.deep_view() == vpns_of(all.take(k as int), actives.deep_view()),
        decreases conns@.len() - k,
    {
        let ghost before = found.deep_view();
        match vpn(&conns[k], actives) {
            Some(v) => {
                found.push(v);
                assert(found.deep_view() =~= before.push(v.deep_view()));
            },
            None => {},
        }
        assert(all.take(k + 1).drop_last() =~= all.take(k as int));
        assert(all.take(k + 1).last() == conns@[k as int].deep_view());
        k = k + 1;
    }
    assert(all.take(k as int) =~= all);
    found
}

/// Whether the access point at `a` is the strongest of its name: none is
/// stronger, and none before it is as strong.
pub open spec fn strongest(aps: Seq<ApView>, a: int) -> bool {
    forall|b: int|
        0 <= b < aps.len() && (#[trigger] aps[b]).name() == aps[a].name() ==> aps[b].signal()
            <= aps[a].signal() && (b < a ==> aps[b].signal() < aps[a].signal())
}

/// Whether a network tells of the access point at `best`, the strongest of
/// its name: signal, lock and path are what that one says.
pub open spec fn tells(
    net: NetView,
    aps: Seq<ApView>,
    best: int,
    conns: Seq<SavedView>,
    actives: Seq<ActiveView>,
) -> bool {
    &&& 0 <= best < aps.len()
    &&& strongest(aps, best)
    &&& net == net_of(aps[best], conns, actives)
}

/// Whether no two networks have the same name, and each has one.
pub open spec fn named_apart(nets: Seq<NetView>) -> bool {
    &&& forall|i: int| 0 <= i < nets.len() ==> (#[trigger] nets[i]).ssid.len() > 0
    &&& forall|i: int, j: int|
        0 <= i < j < nets.len() ==> (#[trigger] nets[i]).ssid != (#[trigger] nets[j]).ssid
}

/// Whether a network tells of some access point.
pub open spec fn told(
    net: NetView,
    aps: Seq<ApView>,
    conns: Seq<SavedView>,
    actives: Seq<ActiveView>,
) -> bool {
    exists|best: int| tells(net, aps, best, conns, actives)
}

/// Whether there is a network of that name.
pub open spec fn listed(nets: Seq<NetView>, name: Seq<char>) -> bool {
    exists|i: int| 0 <= i < nets.len() && (#[trigger] nets[i]).ssid == name
}

/// A network that tells of an access point still does when one more is
/// heard that is of another name or not stronger.
proof fn still_told(
    net: NetView,
    aps: Seq<ApView>,
    ap: ApView,
    conns: Seq<SavedView>,
    actives: Seq<ActiveView>,
)
    requires
        told(net, aps, conns, actives),
        ap.name() != net.ssid || ap.signal() <= net.strength,
    ensures
        told(net, aps.push(ap), conns, actives),
{
    let more = aps.push(ap);
    let best = choose|best: int| tells(net, aps, best, conns, actives);
    assert(more[best] == aps[best]);
    assert forall|b: int|
        0 <= b < more.len() && (#[trigger] more[b]).name()
            == more[best].name() implies more[b].signal() <= more[best].signal() && (b < best
        ==> more[b].signal() < more[best].signal()) by {
        if b < aps.len() {
            assert(more[b] == aps[b]);
        }
    }
    assert(tells(net, more, best, conns, actives));
}

/// A network that tells of an access point tells of a stronger one when
/// that is heard and takes its place.
proof fn told_stronger(
    net: NetView,
    aps: Seq<ApView>,
    ap: ApView,
    conns: Seq<SavedView>,
    actives: Seq<ActiveView>,
)
    requires
        told(net, aps, conns, actives),
        ap.name() == net.ssid,
        ap.signal() > net.strength,
    ensures
        told(
            NetView { strength: ap.signal(), lock: ap.lock(), ap: ap.path, ..net },
            aps.push(ap),
            conns,
            actives,
        ),
{
    let more = aps.push(ap);
    let last = aps.len() as int;
    let best = choose|best: int| tells(net, aps, best, conns, actives);
    assert forall|b: int|
        0 <= b < more.len() && (#[trigger] more[b]).name()
            == more[last].name() implies more[b].signal() <= more[last].signal() && (b < last
        ==> more[b].signal() < more[last].signal()) by {
        if b < last {
            assert(more[b] == aps[b]);
        }
    }
    assert(aps[best].name() == net.ssid);
    assert(tells(
        NetView { strength: ap.signal(), lock: ap.lock(), ap: ap.path, ..net },
        more,
        last,
        conns,
        actives,
    ));
}

/// Of the networks in the air no two have the same name, each has one, and
/// each tells of the strongest of its access points, lock and all; and every
/// access point that has a name belongs to one of them.
pub proof fn nets_law(aps: Seq<ApView>, conns: Seq<SavedView>, actives: Seq<ActiveView>)
    ensures
        named_apart(nets_of(aps, conns, actives)),
        forall|i: int|
            0 <= i < nets_of(aps, conns, actives).len() ==> told(
                #[trigger] nets_of(aps, conns, actives)[i],
                aps,
                conns,
                actives,
            ),
        forall|a: int|
            0 <= a < aps.len() && (#[trigger] aps[a]).name().len() > 0 ==> listed(
                nets_of(aps, conns, actives),
                aps[a].name(),
            ),
    decreases aps.len(),
{
    if aps.len() > 0 {
        let few = aps.drop_last();
        let ap = aps.last();
        let last = aps.len() - 1;
        nets_law(few, conns, actives);
        assert(aps =~= few.push(ap));
        let old_nets = nets_of(few, conns, actives);
        let new_nets = with_ap(old_nets, ap, conns, actives);
        let k = position(old_nets, ap.name()) as int;
        position_finds(old_nets, ap.name());
        assert forall|i: int| 0 <= i < new_nets.len() implies told(
            #[trigger] new_nets[i],
            aps,
            conns,
            actives,
        ) by {
            if i < old_nets.len() {
                let net = old_nets[i];
                assert(told(net, few, conns, actives));
                if ap.name() == net.ssid && ap.signal() > net.strength {
                    assert(i == k);
                    told_stronger(net, few, ap, conns, actives);
                } else {
                    still_told(net, few, ap, conns, actives);
                }
            } else {
                assert forall|b: int| 0 <= b < last implies (#[trigger] aps[b]).name()
                    != aps[last].name() by {
                    assert(few[b] == aps[b]);
                }
                assert(tells(new_nets[i], aps, last, conns, actives));
            }
        }
        assert forall|a: int| 0 <= a < aps.len() && (#[trigger] aps[a]).name().len()
            > 0 implies listed(new_nets, aps[a].name()) by {
            if a < last {
                assert(few[a] == aps[a]);
                let at = choose|at: int|
                    0 <= at < old_nets.len() && (#[trigger] old_nets[at]).ssid == few[a].name();
                assert(new_nets[at].ssid == aps[a].name());
            } else {
                assert(new_nets[k].ssid == ap.name());
            }
        }
    }
}

} // verus!
