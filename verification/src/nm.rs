//! What NetworkManager says, put in order, and what to ask of it.

use vstd::prelude::*;
use vstd::string::*;

use crate::air::{nets, nets_law, nets_of, strongest, tells, told, vpns};
use crate::bus::{Ask, AskView, Security, SecurityView};
use crate::order::{in_order, order_holds, order_keeps_items, sort, Ranked};
use crate::reading::{
    vpns_of, ActiveView, ApView, Device, DeviceView, Reading, ReadingView, SavedView,
};
use crate::text::{
    comes_before, lowercase, sorts_before, sorts_before_irreflexive, sorts_before_total,
    sorts_before_transitive, to_lowercase,
};

verus! {

/// How a network is locked, as the access point says.
#[derive(Clone, Copy, PartialEq, Eq, Debug, Structural)]
pub enum Lock {
    Open,
    /// WPA or WPA2 with a password.
    Psk,
    /// WPA3 with a password, and nothing older on offer.
    Sae,
    /// A user name and a certificate: work networks, eduroam.
    Enterprise,
}

impl Lock {
    /// The word for a lock.
    pub open spec fn word(self) -> Seq<char> {
        match self {
            Lock::Open => "open"@,
            Lock::Psk => "WPA2"@,
            Lock::Sae => "WPA3"@,
            Lock::Enterprise => "802.1X"@,
        }
    }

    /// The word for a lock.
    pub fn label(self) -> (word: &'static str)
        ensures
            word@ == self.word(),
    {
        match self {
            Lock::Open => "open",
            Lock::Psk => "WPA2",
            Lock::Sae => "WPA3",
            Lock::Enterprise => "802.1X",
        }
    }
}

/// The access point wants some key.
pub const PRIVACY: u32 = 0x1;

/// Key management by a shared password.
pub const PSK: u32 = 0x100;

/// Key management by user name and certificate.
pub const EAP: u32 = 0x200;

/// Key management by a password, the WPA3 way.
pub const SAE: u32 = 0x400;

/// Whether either of two sets of flags holds the flag `flag`.
pub open spec fn offers(a: u32, b: u32, flag: u32) -> bool {
    a & flag != 0 || b & flag != 0
}

/// How a network with these flags is locked.
pub open spec fn lock_from(flags: u32, wpa: u32, rsn: u32) -> Lock {
    if offers(wpa, rsn, EAP) {
        Lock::Enterprise
    } else if offers(wpa, rsn, PSK) {
        Lock::Psk
    } else if offers(wpa, rsn, SAE) {
        Lock::Sae
    } else if flags & PRIVACY != 0 || wpa != 0 || rsn != 0 {
        Lock::Psk
    } else {
        Lock::Open
    }
}

/// How a network is locked, from the three sets of flags an access point
/// carries. Offering WPA2 and WPA3 at once counts as WPA2, which every
/// card can join.
pub fn lock_of(flags: u32, wpa: u32, rsn: u32) -> (lock: Lock)
    ensures
        lock == lock_from(flags, wpa, rsn),
{
    let both = wpa | rsn;
    assert(both & 0x200 != 0 <==> (wpa & 0x200 != 0 || rsn & 0x200 != 0)) by (bit_vector)
        requires
            both == wpa | rsn,
    ;
    assert(both & 0x100 != 0 <==> (wpa & 0x100 != 0 || rsn & 0x100 != 0)) by (bit_vector)
        requires
            both == wpa | rsn,
    ;
    assert(both & 0x400 != 0 <==> (wpa & 0x400 != 0 || rsn & 0x400 != 0)) by (bit_vector)
        requires
            both == wpa | rsn,
    ;
    assert(both != 0 <==> (wpa != 0 || rsn != 0)) by (bit_vector)
        requires
            both == wpa | rsn,
    ;
    if both & EAP != 0 {
        Lock::Enterprise
    } else if both & PSK != 0 {
        Lock::Psk
    } else if both & SAE != 0 {
        Lock::Sae
    } else if flags & PRIVACY != 0 || both != 0 {
        Lock::Psk
    } else {
        Lock::Open
    }
}

/// Offering WPA2 and WPA3 at once counts as WPA2; WPA3 is named only where
/// nothing older is on offer. A network is open exactly when it carries no
/// key of any kind, and wants a certificate whenever it offers that.
pub proof fn lock_law(flags: u32, wpa: u32, rsn: u32)
    ensures
        offers(wpa, rsn, PSK) && offers(wpa, rsn, SAE) && !offers(wpa, rsn, EAP) ==> lock_from(
            flags,
            wpa,
            rsn,
        ) == Lock::Psk,
        lock_from(flags, wpa, rsn) == Lock::Sae <==> offers(wpa, rsn, SAE) && !offers(
            wpa,
            rsn,
            PSK,
        ) && !offers(wpa, rsn, EAP),
        lock_from(flags, wpa, rsn) == Lock::Open <==> flags & PRIVACY == 0 && wpa == 0 && rsn == 0,
        lock_from(flags, wpa, rsn) == Lock::Enterprise <==> offers(wpa, rsn, EAP),
{
    assert(0u32 & 0x100 == 0 && 0u32 & 0x200 == 0 && 0u32 & 0x400 == 0) by (bit_vector);
}

/// How an attempt to connect ended.
#[derive(Clone, Copy, PartialEq, Eq, Debug, Structural)]
pub enum Outcome {
    Up,
    Failed,
    /// Still trying when the wait was over.
    Slow,
}

/// A text that may be missing, once more.
pub(crate) fn again(text: &Option<String>) -> (copy: Option<String>)
    ensures
        copy.deep_view() == text.deep_view(),
{
    match text {
        Some(t) => Some(t.clone()),
        None => None,
    }
}

/// One network in the air, with what NetworkManager knows about it.
/// Connections and access points go by their paths on the bus.
pub struct Net {
    pub ssid: String,
    pub strength: u8,
    pub lock: Lock,
    pub ap: String,
    /// The saved connection for it, when there is one.
    pub saved: Option<String>,
    /// The live connection, when this is the one in use.
    pub active: Option<String>,
}

/// What a `Net` says.
pub struct NetView {
    pub ssid: Seq<char>,
    pub strength: u8,
    pub lock: Lock,
    pub ap: Seq<char>,
    pub saved: Option<Seq<char>>,
    pub active: Option<Seq<char>>,
}

impl DeepView for Net {
    type V = NetView;

    open spec fn deep_view(&self) -> NetView {
        NetView {
            ssid: self.ssid@,
            strength: self.strength,
            lock: self.lock,
            ap: self.ap@,
            saved: self.saved.deep_view(),
            active: self.active.deep_view(),
        }
    }
}

impl Clone for Net {
    fn clone(&self) -> (copy: Net)
        ensures
            copy.deep_view() == self.deep_view(),
    {
        Net {
            ssid: self.ssid.clone(),
            strength: self.strength,
            lock: self.lock,
            ap: self.ap.clone(),
            saved: again(&self.saved),
            active: again(&self.active),
        }
    }
}

impl Ranked for Net {
    /// The live one first, then the ones you have used, then the rest, each
    /// by signal.
    open spec fn precedes(a: NetView, b: NetView) -> bool {
        if (a.active is Some) != (b.active is Some) {
            a.active is Some
        } else if (a.saved is Some) != (b.saved is Some) {
            a.saved is Some
        } else {
            a.strength > b.strength
        }
    }

    proof fn one_way(a: NetView, b: NetView) {
    }

    proof fn spreads(a: NetView, b: NetView, c: NetView) {
    }

    fn goes_before(&self, other: &Net) -> bool {
        if self.active.is_some() != other.active.is_some() {
            self.active.is_some()
        } else if self.saved.is_some() != other.saved.is_some() {
            self.saved.is_some()
        } else {
            self.strength > other.strength
        }
    }
}

/// A VPN NetworkManager knows how to bring up.
pub struct Vpn {
    pub name: String,
    pub conn: String,
    pub active: Option<String>,
}

/// What a `Vpn` says.
pub struct VpnView {
    pub name: Seq<char>,
    pub conn: Seq<char>,
    pub active: Option<Seq<char>>,
}

impl DeepView for Vpn {
    type V = VpnView;

    open spec fn deep_view(&self) -> VpnView {
        VpnView {
            name: self.name@,
            conn: self.conn@,
            active: self.active.deep_view(),
        }
    }
}

impl Clone for Vpn {
    fn clone(&self) -> (copy: Vpn)
        ensures
            copy.deep_view() == self.deep_view(),
    {
        Vpn { name: self.name.clone(), conn: self.conn.clone(), active: again(&self.active) }
    }
}

impl Ranked for Vpn {
    /// By name, whatever the case of its letters.
    open spec fn precedes(a: VpnView, b: VpnView) -> bool {
        sorts_before(lowercase(a.name), lowercase(b.name))
    }

    proof fn one_way(a: VpnView, b: VpnView) {
        let x = lowercase(a.name);
        let y = lowercase(b.name);
        if sorts_before(y, x) {
            sorts_before_transitive(x, y, x);
            sorts_before_irreflexive(x);
        }
    }

    proof fn spreads(a: VpnView, b: VpnView, c: VpnView) {
        let x = lowercase(a.name);
        let y = lowercase(b.name);
        let z = lowercase(c.name);
        sorts_before_total(y, z);
        if y != z {
            sorts_before_transitive(x, y, z);
        }
    }

    fn goes_before(&self, other: &Vpn) -> bool {
        comes_before(
            to_lowercase(self.name.as_str()).as_str(),
            to_lowercase(other.name.as_str()).as_str(),
        )
    }
}

/// Everything roam shows, read in one go.
pub struct Look {
    pub wifi_on: bool,
    pub nets: Vec<Net>,
    pub vpns: Vec<Vpn>,
    /// What the machine is on right now, and its address, in words.
    pub now: String,
}

/// What a `Look` says.
pub struct LookView {
    pub wifi_on: bool,
    pub nets: Seq<NetView>,
    pub vpns: Seq<VpnView>,
    pub now: Seq<char>,
}

impl DeepView for Look {
    type V = LookView;

    open spec fn deep_view(&self) -> LookView {
        LookView {
            wifi_on: self.wifi_on,
            nets: self.nets.deep_view(),
            vpns: self.vpns.deep_view(),
            now: self.now@,
        }
    }
}

/// NetworkManager's number for a Wi-Fi device.
pub const DEVICE_WIFI: u32 = 2;

/// What NetworkManager is asked through: the Wi-Fi card, if there is one.
pub struct Nm {
    pub wifi: Option<String>,
}

/// The first Wi-Fi card among devices.
pub open spec fn first_wifi(devices: Seq<DeviceView>) -> Option<Seq<char>>
    decreases devices.len(),
{
    if devices.len() == 0 {
        None
    } else if devices[0].kind == Some(DEVICE_WIFI) {
        Some(devices[0].path)
    } else {
        first_wifi(devices.drop_first())
    }
}

/// The path that stands for no object.
pub open spec fn nowhere() -> Seq<char> {
    "/"@
}

/// The path that stands for no object.
fn root() -> (path: String)
    ensures
        path@ == nowhere(),
{
    "/".to_string()
}

/// What is asked to join a network through a card. A saved one comes up as
/// it is; a new one is added with the password given.
pub open spec fn joining(net: NetView, card: Seq<char>, password: Option<Seq<char>>) -> AskView {
    match net.saved {
        Some(conn) => AskView::Activate { conn, card, ap: net.ap },
        None => AskView::Add {
            security: match password {
                Some(psk) => Some(
                    SecurityView {
                        key_mgmt: if net.lock == Lock::Sae {
                            "sae"@
                        } else {
                            "wpa-psk"@
                        },
                        psk,
                    },
                ),
                None => None,
            },
            card,
            ap: net.ap,
        },
    }
}

/// How an attempt stands, from the time it has taken and the state of the
/// connection: nothing while it is open. A connection that cannot be read
/// is gone, which means that NetworkManager gave up on it.
pub open spec fn outcome(elapsed: int, limit: int, state: Option<u32>) -> Option<Outcome> {
    if elapsed >= limit {
        Some(Outcome::Slow)
    } else {
        match state {
            None => Some(Outcome::Failed),
            Some(2) => Some(Outcome::Up),
            Some(3) => Some(Outcome::Failed),
            Some(4) => Some(Outcome::Failed),
            Some(_) => None,
        }
    }
}

impl View for Nm {
    type V = Option<Seq<char>>;

    /// The Wi-Fi card.
    open spec fn view(&self) -> Option<Seq<char>> {
        self.wifi.deep_view()
    }
}

/// Whether a look tells what was read, with the card there is.
pub open spec fn shows(card: Option<Seq<char>>, reading: ReadingView, look: LookView) -> bool {
    &&& look.wifi_on == (reading.radio == Some(true))
    &&& in_order::<Net>(
        match card {
            Some(_) => nets_of(reading.aps, reading.saved, reading.actives),
            None => seq![],
        },
        look.nets,
    )
    &&& in_order::<Vpn>(vpns_of(reading.saved, reading.actives), look.vpns)
    &&& look.now == reading.standing.words()
}

/// What asks the card there is to look again.
pub open spec fn scanning(card: Option<Seq<char>>) -> Option<AskView> {
    match card {
        Some(card) => Some(AskView::Scan { card }),
        None => None,
    }
}

/// What asks for a saved connection on the card there is, through an access
/// point or whichever there is.
pub open spec fn bringing_up(
    card: Option<Seq<char>>,
    conn: Seq<char>,
    ap: Option<Seq<char>>,
) -> AskView {
    AskView::Activate {
        conn,
        card: match card {
            Some(card) => card,
            None => nowhere(),
        },
        ap: match ap {
            Some(ap) => ap,
            None => nowhere(),
        },
    }
}

impl Nm {
    /// NetworkManager with these devices.
    pub fn new(devices: &Vec<Device>) -> (nm: Nm)
        ensures
            nm@ == first_wifi(devices.deep_view()),
    {
        Nm { wifi: Nm::find_wifi(devices) }
    }

    /// The first Wi-Fi card among devices.
    fn find_wifi(devices: &Vec<Device>) -> (card: Option<String>)
        ensures
            card.deep_view() == first_wifi(devices.deep_view()),
    {
        let ghost all = devices.deep_view();
        let mut k: usize = 0;
        assert(all.skip(0) =~= all);
        while k < devices.len()
            invariant
                k <= devices@.len(),
                all == devices.deep_view(),
                first_wifi(all.skip(k as int)) == first_wifi(all),
            decreases devices@.len() - k,
        {
            assert(all.skip(k as int)[0] == devices@[k as int].deep_view());
            match devices[k].kind {
                Some(n) => {
                    if n == DEVICE_WIFI {
                        return Some(devices[k].path.clone());
                    }
                },
                None => {},
            }
            assert(all.skip(k as int).drop_first() =~= all.skip(k + 1));
            k = k + 1;
        }
        None
    }

    /// Whether there is a Wi-Fi card.
    pub fn has_wifi(&self) -> (has: bool)
        ensures
            has == (self@ is Some),
    {
        self.wifi.is_some()
    }

    /// Everything that was read, in order: the networks in the air, the
    /// VPNs, what is live. Without a card nothing is in the air.
    pub fn look(&self, reading: &Reading) -> (look: Look)
        ensures
            look.wifi_on == (reading.radio == Some(true)),
            in_order::<Net>(
                if self@ is Some {
                    nets_of(
                        reading.deep_view().aps,
                        reading.deep_view().saved,
                        reading.deep_view().actives,
                    )
                } else {
                    seq![]
                },
                look.nets.deep_view(),
            ),
            in_order::<Vpn>(
                vpns_of(reading.deep_view().saved, reading.deep_view().actives),
                look.vpns.deep_view(),
            ),
            look.now@ == reading.deep_view().standing.words(),
            shows(self@, reading.deep_view(), look.deep_view()),
    {
        let wifi_on = match reading.radio {
            Some(on) => on,
            None => false,
        };
        let found = if self.wifi.is_some() {
            nets(&reading.aps, &reading.saved, &reading.actives)
        } else {
            let none: Vec<Net> = Vec::new();
            assert(none.deep_view() =~= Seq::<NetView>::empty());
            none
        };
        Look {
            wifi_on,
            nets: sort(found),
            vpns: sort(vpns(&reading.saved, &reading.actives)),
            now: reading.standing.now(),
        }
    }

    /// Asks the card to look again. The answer arrives a few seconds later.
    pub fn scan(&self) -> (ask: Option<Ask>)
        ensures
            ask.deep_view() == match self@ {
                Some(card) => Some(AskView::Scan { card }),
                None => None,
            },
            ask.deep_view() == scanning(self@),
    {
        match &self.wifi {
            Some(card) => Some(Ask::Scan { card: card.clone() }),
            None => None,
        }
    }

    /// Asks to join a network. A saved one comes up as it is; a new one is
    /// added with the password given, which NetworkManager keeps from then
    /// on, so it rejoins by itself with nothing else running.
    pub fn connect(&self, net: &Net, password: Option<&str>) -> (ask: Result<Ask, String>)
        ensures
            match (self@, ask) {
                (Some(card), Ok(ask)) => ask.deep_view() == joining(
                    net.deep_view(),
                    card,
                    password.deep_view(),
                ),
                (None, Err(why)) => why@ == "no Wi-Fi card"@,
                _ => false,
            },
    {
        let card = match &self.wifi {
            Some(card) => card.clone(),
            None => {
                return Err("no Wi-Fi card".to_string());
            },
        };
        match &net.saved {
            Some(conn) => Ok(Ask::Activate { conn: conn.clone(), card, ap: net.ap.clone() }),
            None => {
                let security = match password {
                    Some(psk) => {
                        let key_mgmt = if net.lock == Lock::Sae {
                            "sae"
                        } else {
                            "wpa-psk"
                        };
                        Some(Security { key_mgmt: key_mgmt.to_string(), psk: psk.to_string() })
                    },
                    None => None,
                };
                Ok(Ask::Add { security, card, ap: net.ap.clone() })
            },
        }
    }

    /// Whether to go on waiting for a connection, which is looked at a few
    /// times a second: nothing while it may still come up or fail. Times
    /// are in milliseconds.
    pub fn wait(&self, elapsed: u64, limit: u64, state: Option<u32>) -> (end: Option<Outcome>)
        ensures
            end == outcome(elapsed as int, limit as int, state),
    {
        if elapsed >= limit {
            return Some(Outcome::Slow);
        }
        match state {
            None => Some(Outcome::Failed),
            Some(2) => Some(Outcome::Up),
            Some(3) => Some(Outcome::Failed),
            Some(4) => Some(Outcome::Failed),
            Some(_) => None,
        }
    }

    /// Asks to take a live connection down.
    pub fn disconnect(&self, active: &str) -> (ask: Ask)
        ensures
            ask.deep_view() == (AskView::Deactivate { active: active@ }),
    {
        Ask::Deactivate { active: active.to_string() }
    }

    /// Asks to forget a saved connection, password and all.
    pub fn forget(&self, saved: &str) -> (ask: Ask)
        ensures
            ask.deep_view() == (AskView::Delete { conn: saved@ }),
    {
        Ask::Delete { conn: saved.to_string() }
    }

    /// Asks to switch the radio.
    pub fn set_wifi(&self, on: bool) -> (ask: Ask)
        ensures
            ask.deep_view() == (AskView::Radio { on }),
    {
        Ask::Radio { on }
    }

    /// Asks to bring a VPN up, which needs no card and no access point.
    pub fn vpn_up(&self, conn: &str) -> (ask: Ask)
        ensures
            ask.deep_view() == (AskView::Activate { conn: conn@, card: nowhere(), ap: nowhere() }),
    {
        Ask::Activate { conn: conn.to_string(), card: root(), ap: root() }
    }

    /// Asks to bring up a saved connection on the card, through an access
    /// point or through whichever NetworkManager finds.
    pub fn activate(&self, conn: &str, ap: Option<&str>) -> (ask: Ask)
        ensures
            ask.deep_view() == (AskView::Activate {
                conn: conn@,
                card: match self@ {
                    Some(card) => card,
                    None => nowhere(),
                },
                ap: match ap {
                    Some(ap) => ap@,
                    None => nowhere(),
                },
            }),
            ask.deep_view() == bringing_up(self@, conn@, ap.deep_view()),
    {
        let card = match &self.wifi {
            Some(card) => card.clone(),
            None => root(),
        };
        let ap = match ap {
            Some(ap) => ap.to_string(),
            None => root(),
        };
        Ask::Activate { conn: conn.to_string(), card, ap }
    }
}

/// A network of a look tells of the strongest access point of its name: the
/// lock shown is the one that the access point shown says it has.
pub proof fn look_lock_law(
    aps: Seq<ApView>,
    conns: Seq<SavedView>,
    actives: Seq<ActiveView>,
    shown: Seq<NetView>,
    i: int,
)
    requires
        in_order::<Net>(nets_of(aps, conns, actives), shown),
        0 <= i < shown.len(),
    ensures
        exists|a: int|
            0 <= a < aps.len() && strongest(aps, a) && (#[trigger] aps[a]).path == shown[i].ap
                && aps[a].name() == shown[i].ssid && aps[a].signal() == shown[i].strength
                && aps[a].lock() == shown[i].lock,
{
    let found = nets_of(aps, conns, actives);
    order_keeps_items::<Net>(found, shown);
    nets_law(aps, conns, actives);
    assert(shown.contains(shown[i]));
    let k = choose|k: int| 0 <= k < found.len() && found[k] == shown[i];
    assert(told(found[k], aps, conns, actives));
    let a = choose|a: int| tells(found[k], aps, a, conns, actives);
    assert(aps[a].path == shown[i].ap);
}

/// The networks of a look stand with the live one first, then the ones you
/// have used, then the rest, each by signal.
pub proof fn look_order_law(input: Seq<NetView>, shown: Seq<NetView>, i: int, j: int)
    requires
        in_order::<Net>(input, shown),
        0 <= i < j < shown.len(),
    ensures
        shown[j].active is Some ==> shown[i].active is Some,
        (shown[i].active is Some) == (shown[j].active is Some) && shown[j].saved is Some
            ==> shown[i].saved is Some,
        (shown[i].active is Some) == (shown[j].active is Some) && (shown[i].saved is Some) == (
        shown[j].saved is Some) ==> shown[i].strength >= shown[j].strength,
{
    order_holds::<Net>(input, shown, i, j);
}

} // verus!
