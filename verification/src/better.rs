//! The saved networks worth leaving a metered one for, and the best of them
//! in the air.
//!
//! "Better" is a saved network with a password (so no captive portal), set
//! to join by itself, and not metered. Nothing is named in the code: the
//! metered mark lives in NetworkManager.

use vstd::prelude::*;
use vstd::string::*;

use crate::air::vpns;
use crate::nm::{joining, NetView, VpnView};
use crate::reading::{
    find, is_marked_metered, marked_metered, network, network_of, setting, setting_text, text,
    vpns_of, Active, ActiveView, Ap, ApView, EntryView, Saved, SavedView, Setting, SettingView,
};
use crate::text::{holds, lines_of, same, without_return};
use crate::watch::{portal_remembered_law, remembered};

verus! {

/// A saved network worth switching to.
pub struct Better {
    pub ssid: String,
    pub conn: String,
    /// How much NetworkManager is to prefer it.
    pub priority: i32,
    /// When it was last used.
    pub stamp: u64,
}

/// What a `Better` says.
pub struct BetterView {
    pub ssid: Seq<char>,
    pub conn: Seq<char>,
    pub priority: i32,
    pub stamp: u64,
}

impl DeepView for Better {
    type V = BetterView;

    open spec fn deep_view(&self) -> BetterView {
        BetterView {
            ssid: self.ssid@,
            conn: self.conn@,
            priority: self.priority,
            stamp: self.stamp,
        }
    }
}

impl Clone for Better {
    fn clone(&self) -> (copy: Better)
        ensures
            copy.deep_view() == self.deep_view(),
    {
        Better {
            ssid: self.ssid.clone(),
            conn: self.conn.clone(),
            priority: self.priority,
            stamp: self.stamp,
        }
    }
}

/// Whether settings hold a password for a network.
pub open spec fn has_password(s: Seq<EntryView>) -> bool {
    let way = setting_text(s, "802-11-wireless-security"@, "key-mgmt"@);
    way == "wpa-psk"@ || way == "sae"@
}

/// A network that is joined with a password is saved as one that has a
/// password.
pub proof fn joined_has_password_law(
    net: NetView,
    card: Seq<char>,
    password: Seq<char>,
    entries: Seq<EntryView>,
)
    requires
        net.saved is None,
        setting(entries, "802-11-wireless-security"@, "key-mgmt"@) == setting(
            joining(net, card, Some(password)).settings(),
            "802-11-wireless-security"@,
            "key-mgmt"@,
        ),
    ensures
        has_password(entries),
{
    let sent = joining(net, card, Some(password)).settings();
    assert(sent[0].group == "802-11-wireless-security"@ && sent[0].key == "key-mgmt"@);
    assert(setting(sent, "802-11-wireless-security"@, "key-mgmt"@) == Some(sent[0].value));
}

/// Whether a connection is set to join by itself, as it is unless the
/// settings say otherwise.
pub open spec fn joins_itself(s: Seq<EntryView>) -> bool {
    setting(s, "connection"@, "autoconnect"@) != Some(SettingView::Flag(false))
}

/// How much NetworkManager is to prefer a connection.
pub open spec fn priority_of(s: Seq<EntryView>) -> i32 {
    match setting(s, "connection"@, "autoconnect-priority"@) {
        Some(SettingView::Int(n)) => n,
        _ => 0,
    }
}

/// When a connection was last used.
pub open spec fn stamp_of(s: Seq<EntryView>) -> u64 {
    match setting(s, "connection"@, "timestamp"@) {
        Some(SettingView::Long(n)) => n,
        _ => 0,
    }
}

/// Whether settings are those of a network worth switching to.
pub open spec fn worthwhile(s: Seq<EntryView>) -> bool {
    has_password(s) && joins_itself(s) && !marked_metered(s)
}

/// What a saved connection offers, if it is worth switching to.
pub open spec fn offer(conn: SavedView) -> Option<BetterView> {
    match (network_of(conn), conn.settings) {
        (Some(name), Some(s)) if name.len() > 0 && worthwhile(s) => Some(
            BetterView {
                ssid: name,
                conn: conn.path,
                priority: priority_of(s),
                stamp: stamp_of(s),
            },
        ),
        _ => None,
    }
}

/// What a saved connection offers, if it is worth switching to.
fn offered(conn: &Saved) -> (found: Option<Better>)
    ensures
        found.deep_view() == offer(conn.deep_view()),
{
    let name = match network(conn) {
        Some(name) => name,
        None => {
            return None;
        },
    };
    if name.as_str().is_empty() {
        return None;
    }
    match &conn.settings {
        Some(s) => {
            let way = text(s, "802-11-wireless-security", "key-mgmt");
            let locked = same(way.as_str(), "wpa-psk") || same(way.as_str(), "sae");
            let joins = match find(s, "connection", "autoconnect") {
                Some(Setting::Flag(on)) => *on,
                _ => true,
            };
            if !locked || !joins || is_marked_metered(s) {
                return None;
            }
            let priority = match find(s, "connection", "autoconnect-priority") {
                Some(Setting::Int(n)) => *n,
                _ => 0,
            };
            let stamp = match find(s, "connection", "timestamp") {
                Some(Setting::Long(n)) => *n,
                _ => 0,
            };
            Some(Better { ssid: name, conn: conn.path.clone(), priority, stamp })
        },
        None => None,
    }
}

/// Whether NetworkManager would pick one network over another: highest
/// priority, then the one used last.
pub open spec fn picked_over(a: BetterView, b: BetterView) -> bool {
    a.priority > b.priority || (a.priority == b.priority && a.stamp > b.stamp)
}

/// Where the network of that name stands, or the length when it is not
/// there.
pub open spec fn place_of(list: Seq<BetterView>, name: Seq<char>) -> nat
    decreases list.len(),
{
    if list.len() == 0 || list[0].ssid == name {
        0
    } else {
        1 + place_of(list.drop_first(), name)
    }
}

/// At `place_of` stands the name, and nowhere before.
pub proof fn place_of_finds(list: Seq<BetterView>, name: Seq<char>)
    ensures
        place_of(list, name) <= list.len(),
        place_of(list, name) < list.len() ==> list[place_of(list, name) as int].ssid == name,
        forall|i: int| 0 <= i < place_of(list, name) ==> (#[trigger] list[i]).ssid != name,
    decreases list.len(),
{
    if list.len() > 0 && list[0].ssid != name {
        place_of_finds(list.drop_first(), name);
        assert forall|i: int| 0 <= i < place_of(list, name) implies (#[trigger] list[i]).ssid
            != name by {
            if i > 0 {
                assert(list[i] == list.drop_first()[i - 1]);
            }
        }
    }
}

/// `place_of` is the only such place.
proof fn place_of_is(list: Seq<BetterView>, name: Seq<char>, n: int)
    requires
        0 <= n <= list.len(),
        forall|i: int| 0 <= i < n ==> (#[trigger] list[i]).ssid != name,
        n < list.len() ==> list[n].ssid == name,
    ensures
        place_of(list, name) == n,
{
    place_of_finds(list, name);
    if place_of(list, name) < n {
        assert(list[place_of(list, name) as int].ssid != name);
    }
}

/// Where the network of that name stands.
pub fn find_better(list: &Vec<Better>, name: &str) -> (at: usize)
    ensures
        at == place_of(list.deep_view(), name@),
        at <= list@.len(),
{
    let ghost all = list.deep_view();
    let mut k: usize = 0;
    while k < list.len() && !same(list[k].ssid.as_str(), name)
        invariant
            k <= list@.len(),
            all == list.deep_view(),
            forall|i: int| 0 <= i < k ==> (#[trigger] all[i]).ssid != name@,
        ensures
            k <= list@.len(),
            forall|i: int| 0 <= i < k ==> (#[trigger] all[i]).ssid != name@,
            k < list@.len() ==> all[k as int].ssid == name@,
        decreases list@.len() - k,
    {
        k = k + 1;
    }
    proof {
        place_of_is(all, name@, k as int);
    }
    k
}

/// The networks worth switching to, with one more saved connection seen: of
/// several for one name the one that NetworkManager would pick stays. A
/// network that turned out to be a captive portal is skipped.
pub open spec fn with_offer(
    list: Seq<BetterView>,
    conn: SavedView,
    skip: Seq<Seq<char>>,
) -> Seq<BetterView> {
    match offer(conn) {
        Some(b) if !skip.contains(b.ssid) => {
            let k = place_of(list, b.ssid) as int;
            if k >= list.len() {
                list.push(b)
            } else if picked_over(b, list[k]) {
                list.update(k, b)
            } else {
                list
            }
        },
        _ => list,
    }
}

/// The networks worth switching to.
pub open spec fn better_of(conns: Seq<SavedView>, skip: Seq<Seq<char>>) -> Seq<BetterView>
    decreases conns.len(),
{
    if conns.len() == 0 {
        seq![]
    } else {
        with_offer(better_of(conns.drop_last(), skip), conns.last(), skip)
    }
}

/// The networks worth switching to, among saved connections; `skip` are the
/// names of captive portals.
pub fn better(conns: &Vec<Saved>, skip: &Vec<String>) -> (list: Vec<Better>)
    ensures
        list.deep_view() == better_of(conns.deep_view(), skip.deep_view()),
{
    let ghost all = conns.deep_view();
    let mut list: Vec<Better> = Vec::new();
    let mut k: usize = 0;
    assert(list.deep_view() =~= Seq::<BetterView>::empty());
    while k < conns.len()
        invariant
            k <= conns@.len(),
            all == conns.deep_view(),
            list.deep_view() == better_of(all.take(k as int), skip.deep_view()),
        decreases conns@.len() - k,
    {
        let ghost before = list.deep_view();
        assert(all.take(k + 1).drop_last() =~= all.take(k as int));
        assert(all.take(k + 1).last() == conns@[k as int].deep_view());
        match offered(&conns[k]) {
            Some(b) => {
                if !holds(skip, b.ssid.as_str()) {
                    let at = find_better(&list, b.ssid.as_str());
                    let ghost new = b.deep_view();
                    if at >= list.len() {
                        list.push(b);
                        assert(list.deep_view() =~= before.push(new));
                    } else if b.priority > list[at].priority || (b.priority == list[at].priority
                        && b.stamp > list[at].stamp) {
                        list.set(at, b);
                        assert(list.deep_view() =~= before.update(at as int, new));
                    }
                }
            },
            None => {},
        }
        k = k + 1;
    }
    assert(all.take(k as int) =~= all);
    list
}

/// Whether a network of the list is an offer of a saved connection that is
/// not skipped.
pub open spec fn comes_from(b: BetterView, conns: Seq<SavedView>, skip: Seq<Seq<char>>) -> bool {
    !skip.contains(b.ssid) && exists|c: int|
        0 <= c < conns.len() && offer(#[trigger] conns[c]) == Some(b)
}

/// Whether the list holds a network of that name that NetworkManager would
/// not pick `b` over.
pub open spec fn covered(list: Seq<BetterView>, b: BetterView) -> bool {
    exists|i: int|
        0 <= i < list.len() && (#[trigger] list[i]).ssid == b.ssid && !picked_over(b, list[i])
}

/// Whether no two networks have the same name.
pub open spec fn names_apart(list: Seq<BetterView>) -> bool {
    forall|i: int, j: int|
        0 <= i < j < list.len() ==> (#[trigger] list[i]).ssid != (#[trigger] list[j]).ssid
}

/// Names stay apart.
proof fn names_stay_apart(conns: Seq<SavedView>, skip: Seq<Seq<char>>)
    ensures
        names_apart(better_of(conns, skip)),
    decreases conns.len(),
{
    if conns.len() > 0 {
        let list = better_of(conns.drop_last(), skip);
        names_stay_apart(conns.drop_last(), skip);
        match offer(conns.last()) {
            Some(b) => place_of_finds(list, b.ssid),
            None => {},
        }
    }
}

/// An offer of some connections is one of more of them.
proof fn comes_from_more(b: BetterView, conns: Seq<SavedView>, skip: Seq<Seq<char>>)
    requires
        conns.len() > 0,
        comes_from(b, conns.drop_last(), skip),
    ensures
        comes_from(b, conns, skip),
{
    let few = conns.drop_last();
    let c = choose|c: int| 0 <= c < few.len() && offer(#[trigger] few[c]) == Some(b);
    assert(conns[c] == few[c]);
}

/// What the list holds was offered.
proof fn all_offered(conns: Seq<SavedView>, skip: Seq<Seq<char>>, i: int)
    requires
        0 <= i < better_of(conns, skip).len(),
    ensures
        comes_from(better_of(conns, skip)[i], conns, skip),
    decreases conns.len(),
{
    let few = conns.drop_last();
    let list = better_of(few, skip);
    let new = better_of(conns, skip)[i];
    if i < list.len() && new == list[i] {
        all_offered(few, skip, i);
        comes_from_more(new, conns, skip);
    } else {
        assert(offer(conns[conns.len() - 1]) == Some(new));
    }
}

/// Every network of the list has a name.
pub proof fn better_named_law(conns: Seq<SavedView>, skip: Seq<Seq<char>>)
    ensures
        forall|i: int|
            0 <= i < better_of(conns, skip).len() ==> (#[trigger] better_of(
                conns,
                skip,
            )[i]).ssid.len() > 0,
{
    assert forall|i: int| 0 <= i < better_of(conns, skip).len() implies (#[trigger] better_of(
        conns,
        skip,
    )[i]).ssid.len() > 0 by {
        all_offered(conns, skip, i);
    }
}

/// One more saved connection leaves nothing uncovered.
proof fn stays_covered(
    list: Seq<BetterView>,
    conn: SavedView,
    skip: Seq<Seq<char>>,
    b: BetterView,
)
    requires
        covered(list, b),
    ensures
        covered(with_offer(list, conn, skip), b),
{
    let i = choose|i: int|
        0 <= i < list.len() && (#[trigger] list[i]).ssid == b.ssid && !picked_over(b, list[i]);
    let new = with_offer(list, conn, skip);
    match offer(conn) {
        Some(o) => place_of_finds(list, o.ssid),
        None => {},
    }
    assert(new[i].ssid == b.ssid && !picked_over(b, new[i]));
}

/// What was offered and is not skipped is covered.
proof fn all_covered(conns: Seq<SavedView>, skip: Seq<Seq<char>>, c: int, b: BetterView)
    requires
        0 <= c < conns.len(),
        offer(conns[c]) == Some(b),
        !skip.contains(b.ssid),
    ensures
        covered(better_of(conns, skip), b),
    decreases conns.len(),
{
    let few = conns.drop_last();
    let list = better_of(few, skip);
    if c < few.len() {
        assert(few[c] == conns[c]);
        all_covered(few, skip, c, b);
        stays_covered(list, conns.last(), skip, b);
    } else {
        let k = place_of(list, b.ssid) as int;
        place_of_finds(list, b.ssid);
        let new = with_offer(list, conns.last(), skip);
        assert(new[k].ssid == b.ssid && !picked_over(b, new[k]));
    }
}

/// Of the networks worth switching to no two have the same name, each is
/// the offer of a saved connection that is no captive portal, and none that
/// NetworkManager would pick over it was left out.
pub proof fn better_law(conns: Seq<SavedView>, skip: Seq<Seq<char>>)
    ensures
        names_apart(better_of(conns, skip)),
        forall|i: int|
            0 <= i < better_of(conns, skip).len() ==> comes_from(
                #[trigger] better_of(conns, skip)[i],
                conns,
                skip,
            ),
        forall|c: int|
            0 <= c < conns.len() && offer(#[trigger] conns[c]) is Some && !skip.contains(
                offer(conns[c])->0.ssid,
            ) ==> covered(better_of(conns, skip), offer(conns[c])->0),
{
    names_stay_apart(conns, skip);
    assert forall|i: int| 0 <= i < better_of(conns, skip).len() implies comes_from(
        #[trigger] better_of(conns, skip)[i],
        conns,
        skip,
    ) by {
        all_offered(conns, skip, i);
    }
    assert forall|c: int|
        0 <= c < conns.len() && offer(#[trigger] conns[c]) is Some && !skip.contains(
            offer(conns[c])->0.ssid,
        ) implies covered(better_of(conns, skip), offer(conns[c])->0) by {
        all_covered(conns, skip, c, offer(conns[c])->0);
    }
}

/// The list without the network of that name.
pub open spec fn skipping(list: Seq<BetterView>, name: Seq<char>) -> Seq<BetterView>
    decreases list.len(),
{
    if list.len() == 0 {
        seq![]
    } else if list.last().ssid == name {
        skipping(list.drop_last(), name)
    } else {
        skipping(list.drop_last(), name).push(list.last())
    }
}

/// A network that is skipped is not on the list, and all others still are.
pub proof fn skipping_law(list: Seq<BetterView>, name: Seq<char>)
    ensures
        forall|b: BetterView| #[trigger]
            skipping(list, name).contains(b) <==> list.contains(b) && b.ssid != name,
    decreases list.len(),
{
    if list.len() > 0 {
        let few = list.drop_last();
        skipping_law(few, name);
        assert(list =~= few.push(list.last()));
        let rest = skipping(few, name);
        assert forall|b: BetterView| #[trigger]
            skipping(list, name).contains(b) <==> list.contains(b) && b.ssid != name by {
            assert(list.contains(b) <==> few.contains(b) || b == list.last()) by {
                if few.contains(b) {
                    let i = choose|i: int| 0 <= i < few.len() && few[i] == b;
                    assert(list[i] == b);
                }
                if list.contains(b) {
                    let i = choose|i: int| 0 <= i < list.len() && list[i] == b;
                    if i < few.len() {
                        assert(few[i] == b);
                    }
                }
            }
            let more = rest.push(list.last());
            assert(more.contains(b) <==> rest.contains(b) || b == list.last()) by {
                if rest.contains(b) {
                    let i = choose|i: int| 0 <= i < rest.len() && rest[i] == b;
                    assert(more[i] == b);
                }
                if b == list.last() {
                    assert(more[rest.len() as int] == b);
                }
            }
            assert(rest.contains(b) <==> few.contains(b) && b.ssid != name);
        }
    }
}

/// The list without the network of that name.
pub fn skip_better(list: &Vec<Better>, name: &str) -> (rest: Vec<Better>)
    ensures
        rest.deep_view() == skipping(list.deep_view(), name@),
{
    let ghost all = list.deep_view();
    let mut rest: Vec<Better> = Vec::new();
    let mut k: usize = 0;
    assert(rest.deep_view() =~= Seq::<BetterView>::empty());
    while k < list.len()
        invariant
            k <= list@.len(),
            all == list.deep_view(),
            rest.deep_view() == skipping(all.take(k as int), name@),
        decreases list@.len() - k,
    {
        let ghost before = rest.deep_view();
        assert(all.take(k + 1).drop_last() =~= all.take(k as int));
        assert(all.take(k + 1).last() == list@[k as int].deep_view());
        if !same(list[k].ssid.as_str(), name) {
            rest.push(list[k].clone());
            assert(rest.deep_view() =~= before.push(all[k as int]));
        }
        k = k + 1;
    }
    assert(all.take(k as int) =~= all);
    rest
}

/// The network of the list that an access point belongs to.
pub open spec fn serves(list: Seq<BetterView>, ap: ApView) -> Option<BetterView> {
    let k = place_of(list, ap.name());
    if ap.name().len() > 0 && k < list.len() {
        Some(list[k as int])
    } else {
        None
    }
}

/// Whether a network through an access point ranks below another: by
/// priority, then by when it was last used, then by signal.
pub open spec fn ranks_below(
    a: BetterView,
    a_signal: u8,
    b: BetterView,
    b_signal: u8,
) -> bool {
    if a.priority != b.priority {
        a.priority < b.priority
    } else if a.stamp != b.stamp {
        a.stamp < b.stamp
    } else {
        a_signal < b_signal
    }
}

/// The better network in range that NetworkManager would pick first, with
/// its access point: highest priority, then the one used last, then the
/// strongest; of equals the one heard last.
pub open spec fn best_of(list: Seq<BetterView>, aps: Seq<ApView>) -> Option<(BetterView, ApView)>
    decreases aps.len(),
{
    if aps.len() == 0 {
        None
    } else {
        let before = best_of(list, aps.drop_last());
        let ap = aps.last();
        match (serves(list, ap), before) {
            (None, _) => before,
            (Some(b), None) => Some((b, ap)),
            (Some(b), Some((held, by))) => if ranks_below(b, ap.signal(), held, by.signal()) {
                before
            } else {
                Some((b, ap))
            },
        }
    }
}

/// The best network in range is in the air, none in the air ranks above it,
/// and none heard later ranks as high; when there is none, no access point
/// belongs to a network of the list.
pub proof fn best_law(list: Seq<BetterView>, aps: Seq<ApView>)
    ensures
        match best_of(list, aps) {
            Some((b, ap)) => exists|a: int|
                0 <= a < aps.len() && #[trigger] aps[a] == ap && serves(list, ap) == Some(b)
                    && forall|c: int|
                    0 <= c < aps.len() && serves(list, #[trigger] aps[c]) is Some
                        ==> !ranks_below(
                        b,
                        ap.signal(),
                        serves(list, aps[c])->0,
                        aps[c].signal(),
                    ) && (c > a ==> ranks_below(
                        serves(list, aps[c])->0,
                        aps[c].signal(),
                        b,
                        ap.signal(),
                    )),
            None => forall|c: int|
                0 <= c < aps.len() ==> serves(list, #[trigger] aps[c]) is None,
        },
    decreases aps.len(),
{
    if aps.len() > 0 {
        let few = aps.drop_last();
        let last = aps.len() - 1;
        best_law(list, few);
        assert forall|c: int| 0 <= c < last implies few[c] == #[trigger] aps[c] by {}
        match best_of(list, aps) {
            Some((b, ap)) => {
                if serves(list, aps[last]) is None || best_of(list, few) == Some((b, ap)) && (
                best_of(list, few) is Some && ranks_below(
                    serves(list, aps[last])->0,
                    aps[last].signal(),
                    b,
                    ap.signal(),
                )) {
                    let a = choose|a: int|
                        0 <= a < few.len() && #[trigger] few[a] == ap && serves(list, ap) == Some(b)
                            && forall|c: int|
                            0 <= c < few.len() && serves(list, #[trigger] few[c]) is Some
                                ==> !ranks_below(
                                b,
                                ap.signal(),
                                serves(list, few[c])->0,
                                few[c].signal(),
                            ) && (c > a ==> ranks_below(
                                serves(list, few[c])->0,
                                few[c].signal(),
                                b,
                                ap.signal(),
                            ));
                    assert(aps[a] == ap);
                    assert forall|c: int|
                        0 <= c < aps.len() && serves(list, #[trigger] aps[c])
                            is Some implies !ranks_below(
                        b,
                        ap.signal(),
                        serves(list, aps[c])->0,
                        aps[c].signal(),
                    ) && (c > a ==> ranks_below(
                        serves(list, aps[c])->0,
                        aps[c].signal(),
                        b,
                        ap.signal(),
                    )) by {
                        if c < last {
                            assert(few[c] == aps[c]);
                        }
                    }
                } else {
                    assert(aps[last] == ap);
                    assert forall|c: int|
                        0 <= c < aps.len() && serves(list, #[trigger] aps[c])
                            is Some implies !ranks_below(
                        b,
                        ap.signal(),
                        serves(list, aps[c])->0,
                        aps[c].signal(),
                    ) && (c > last ==> ranks_below(
                        serves(list, aps[c])->0,
                        aps[c].signal(),
                        b,
                        ap.signal(),
                    )) by {
                        if c < last {
                            assert(few[c] == aps[c]);
                        }
                    }
                }
            },
            None => {},
        }
    }
}

/// The better network in range that NetworkManager would pick first, and
/// the path of its access point.
pub fn best_in_air(list: &Vec<Better>, aps: &Vec<Ap>) -> (best: Option<(Better, String)>)
    ensures
        best.deep_view() == match best_of(list.deep_view(), aps.deep_view()) {
            Some((b, ap)) => Some((b, ap.path)),
            None => None,
        },
{
    let ghost all = aps.deep_view();
    let ghost saved = list.deep_view();
    let mut best: Option<(usize, usize)> = None;
    let mut k: usize = 0;
    while k < aps.len()
        invariant
            k <= aps@.len(),
            all == aps.deep_view(),
            saved == list.deep_view(),
            match best {
                Some((at, a)) => at < list@.len() && a < aps@.len() && best_of(
                    saved,
                    all.take(k as int),
                ) == Some((saved[at as int], all[a as int])),
                None => best_of(saved, all.take(k as int)) is None,
            },
        decreases aps@.len() - k,
    {
        assert(all.take(k + 1).drop_last() =~= all.take(k as int));
        assert(all.take(k + 1).last() == aps@[k as int].deep_view());
        let name = aps[k].name();
        if !name.as_str().is_empty() {
            let at = find_better(list, name.as_str());
            if at < list.len() {
                let below = match best {
                    Some((held, by)) => {
                        let (x, y) = (&list[at], &list[held]);
                        if x.priority != y.priority {
                            x.priority < y.priority
                        } else if x.stamp != y.stamp {
                            x.stamp < y.stamp
                        } else {
                            aps[k].signal() < aps[by].signal()
                        }
                    },
                    None => false,
                };
                if !below {
                    best = Some((at, k));
                }
            }
        }
        k = k + 1;
    }
    assert(all.take(k as int) =~= all);
    match best {
        Some((at, a)) => Some((list[at].clone(), aps[a].path.clone())),
        None => None,
    }
}

/// A network that was remembered as a captive portal is not among those
/// worth switching to. A name with a line feed in it, or with a carriage
/// return at its end, is no line of a text.
pub proof fn portal_skipped_law(
    conns: Seq<SavedView>,
    file: Seq<char>,
    ssid: Seq<char>,
    b: BetterView,
)
    requires
        !ssid.contains('\n'),
        without_return(ssid) == ssid,
        better_of(conns, lines_of(remembered(file, ssid))).contains(b),
    ensures
        b.ssid != ssid,
{
    let skip = lines_of(remembered(file, ssid));
    let list = better_of(conns, skip);
    portal_remembered_law(file, ssid);
    assert(skip[skip.len() - 1] == ssid);
    let i = choose|i: int| 0 <= i < list.len() && list[i] == b;
    all_offered(conns, skip, i);
}

/// The name of the network that the connection of that path is for.
pub open spec fn network_at(conns: Seq<SavedView>, path: Seq<char>) -> Option<Seq<char>>
    decreases conns.len(),
{
    if conns.len() == 0 {
        None
    } else if conns[0].path == path && network_of(conns[0]) is Some {
        network_of(conns[0])
    } else {
        network_at(conns.drop_first(), path)
    }
}

/// The name of the network that the connection of that path is for.
fn find_network(conns: &Vec<Saved>, path: &str) -> (name: Option<String>)
    ensures
        name.deep_view() == network_at(conns.deep_view(), path@),
{
    let ghost all = conns.deep_view();
    let mut k: usize = 0;
    assert(all.skip(0) =~= all);
    while k < conns.len()
        invariant
            k <= conns@.len(),
            all == conns.deep_view(),
            network_at(all.skip(k as int), path@) == network_at(all, path@),
        decreases conns@.len() - k,
    {
        assert(all.skip(k as int)[0] == conns@[k as int].deep_view());
        if same(conns[k].path.as_str(), path) {
            let name = network(&conns[k]);
            if name.is_some() {
                return name;
            }
        }
        assert(all.skip(k as int).drop_first() =~= all.skip(k + 1));
        k = k + 1;
    }
    None
}

/// The Wi-Fi network the machine is on, as the saved connection it came
/// from and its name: the first live one.
pub open spec fn wifi_on(conns: Seq<SavedView>, actives: Seq<ActiveView>) -> Option<
    (Seq<char>, Seq<char>),
>
    decreases actives.len(),
{
    if actives.len() == 0 {
        None
    } else {
        match actives[0].conn {
            Some(conn) if network_at(conns, conn) is Some => Some(
                (conn, network_at(conns, conn)->0),
            ),
            _ => wifi_on(conns, actives.drop_first()),
        }
    }
}

/// The Wi-Fi network the machine is on, as the saved connection it came
/// from and its name.
pub fn wifi_now(conns: &Vec<Saved>, actives: &Vec<Active>) -> (on: Option<(String, String)>)
    ensures
        on.deep_view() == wifi_on(conns.deep_view(), actives.deep_view()),
{
    let ghost all = actives.deep_view();
    let mut k: usize = 0;
    assert(all.skip(0) =~= all);
    while k < actives.len()
        invariant
            k <= actives@.len(),
            all == actives.deep_view(),
            wifi_on(conns.deep_view(), all.skip(k as int)) == wifi_on(conns.deep_view(), all),
        decreases actives@.len() - k,
    {
        assert(all.skip(k as int)[0] == actives@[k as int].deep_view());
        match &actives[k].conn {
            Some(conn) => match find_network(conns, conn.as_str()) {
                Some(name) => {
                    return Some((conn.clone(), name));
                },
                None => {},
            },
            None => {},
        }
        assert(all.skip(k as int).drop_first() =~= all.skip(k + 1));
        k = k + 1;
    }
    None
}

/// The saved connections of the VPNs that are up.
pub open spec fn ups(list: Seq<VpnView>) -> Seq<Seq<char>>
    decreases list.len(),
{
    if list.len() == 0 {
        seq![]
    } else if list.last().active is Some {
        ups(list.drop_last()).push(list.last().conn)
    } else {
        ups(list.drop_last())
    }
}

/// The saved connections of the VPNs that are up and that NetworkManager
/// runs.
pub fn vpns_up(conns: &Vec<Saved>, actives: &Vec<Active>) -> (up: Vec<String>)
    ensures
        up.deep_view() == ups(vpns_of(conns.deep_view(), actives.deep_view())),
{
    let list = vpns(conns, actives);
    let ghost all = list.deep_view();
    let mut up: Vec<String> = Vec::new();
    let mut k: usize = 0;
    assert(up.deep_view() =~= Seq::<Seq<char>>::empty());
    while k < list.len()
        invariant
            k <= list@.len(),
            all == list.deep_view(),
            up.deep_view() == ups(all.take(k as int)),
        decreases list@.len() - k,
    {
        let ghost before = up.deep_view();
        assert(all.take(k + 1).drop_last() =~= all.take(k as int));
        assert(all.take(k + 1).last() == list@[k as int].deep_view());
        if list[k].active.is_some() {
            up.push(list[k].conn.clone());
            assert(up.deep_view() =~= before.push(all[k as int].conn));
        }
        k = k + 1;
    }
    assert(all.take(k as int) =~= all);
    up
}

} // verus!
