//! What is read from NetworkManager, as it comes: settings, live and saved
//! connections, access points. Objects go by their paths on the bus.

use vstd::prelude::*;
use vstd::string::*;

use crate::nm::{again, lock_from, lock_of, Lock, VpnView};
use crate::text::{from_utf8_lossy, same, trim_end_char, utf8_lossy, without_end};

verus! {

/// The value of a setting.
pub enum Setting {
    Text(String),
    Bytes(Vec<u8>),
    Int(i32),
    Long(u64),
    Flag(bool),
    /// Of a kind that nothing here reads.
    Other,
}

/// What a `Setting` says.
pub enum SettingView {
    Text(Seq<char>),
    Bytes(Seq<u8>),
    Int(i32),
    Long(u64),
    Flag(bool),
    Other,
}

impl DeepView for Setting {
    type V = SettingView;

    open spec fn deep_view(&self) -> SettingView {
        match *self {
            Setting::Text(t) => SettingView::Text(t@),
            Setting::Bytes(b) => SettingView::Bytes(b@),
            Setting::Int(n) => SettingView::Int(n),
            Setting::Long(n) => SettingView::Long(n),
            Setting::Flag(f) => SettingView::Flag(f),
            Setting::Other => SettingView::Other,
        }
    }
}

/// One setting of a connection, by its group and its key.
pub struct Entry {
    pub group: String,
    pub key: String,
    pub value: Setting,
}

/// What an `Entry` says.
pub struct EntryView {
    pub group: Seq<char>,
    pub key: Seq<char>,
    pub value: SettingView,
}

impl DeepView for Entry {
    type V = EntryView;

    open spec fn deep_view(&self) -> EntryView {
        EntryView { group: self.group@, key: self.key@, value: self.value.deep_view() }
    }
}

/// The setting of that group and key, the first one if there are several.
pub open spec fn setting(
    entries: Seq<EntryView>,
    group: Seq<char>,
    key: Seq<char>,
) -> Option<SettingView>
    decreases entries.len(),
{
    if entries.len() == 0 {
        None
    } else if entries[0].group == group && entries[0].key == key {
        Some(entries[0].value)
    } else {
        setting(entries.drop_first(), group, key)
    }
}

/// The setting of that group and key.
pub fn find<'a>(entries: &'a Vec<Entry>, group: &str, key: &str) -> (found: Option<&'a Setting>)
    ensures
        found.deep_view() == setting(entries.deep_view(), group@, key@),
{
    let ghost all = entries.deep_view();
    let mut k: usize = 0;
    assert(all.skip(0) =~= all);
    while k < entries.len()
        invariant
            k <= entries@.len(),
            all == entries.deep_view(),
            setting(all.skip(k as int), group@, key@) == setting(all, group@, key@),
        decreases entries@.len() - k,
    {
        assert(all.skip(k as int)[0] == entries@[k as int].deep_view());
        if same(entries[k].group.as_str(), group) && same(entries[k].key.as_str(), key) {
            return Some(&entries[k].value);
        }
        assert(all.skip(k as int).drop_first() =~= all.skip(k + 1));
        k = k + 1;
    }
    None
}

/// A setting's text, or nothing.
pub open spec fn setting_text(
    entries: Seq<EntryView>,
    group: Seq<char>,
    key: Seq<char>,
) -> Seq<char> {
    match setting(entries, group, key) {
        Some(SettingView::Text(t)) => t,
        _ => seq![],
    }
}

/// A setting's text, or nothing.
pub fn text(entries: &Vec<Entry>, group: &str, key: &str) -> (value: String)
    ensures
        value@ == setting_text(entries.deep_view(), group@, key@),
{
    match find(entries, group, key) {
        Some(Setting::Text(t)) => t.clone(),
        _ => String::new(),
    }
}

/// NetworkManager's number for a connection marked metered.
pub const METERED_YES: i32 = 1;

/// Whether a connection is marked metered.
pub open spec fn marked_metered(entries: Seq<EntryView>) -> bool {
    setting(entries, "connection"@, "metered"@) == Some(SettingView::Int(METERED_YES))
}

/// Whether a connection is marked metered.
pub fn is_marked_metered(entries: &Vec<Entry>) -> (marked: bool)
    ensures
        marked == marked_metered(entries.deep_view()),
{
    match find(entries, "connection", "metered") {
        Some(Setting::Int(n)) => *n == METERED_YES,
        _ => false,
    }
}

/// NetworkManager's number for a connection that is not marked either way.
pub const METERED_UNKNOWN: i32 = 0;

/// The number that marks a connection metered, or takes the mark off.
pub open spec fn mark_of(metered: bool) -> i32 {
    if metered {
        METERED_YES
    } else {
        METERED_UNKNOWN
    }
}

/// The number that marks a connection metered, or takes the mark off.
pub fn mark_number(metered: bool) -> (n: i32)
    ensures
        n == mark_of(metered),
{
    if metered {
        METERED_YES
    } else {
        METERED_UNKNOWN
    }
}

/// A connection that was marked reads as marked, and one whose mark was
/// taken off does not.
pub proof fn mark_read_law(entries: Seq<EntryView>, metered: bool)
    requires
        setting(entries, "connection"@, "metered"@) == Some(SettingView::Int(mark_of(metered))),
    ensures
        marked_metered(entries) == metered,
{
}

/// A live connection, and the saved connection it came from, if that could
/// be read.
pub struct Active {
    pub path: String,
    pub conn: Option<String>,
}

/// What an `Active` says.
pub struct ActiveView {
    pub path: Seq<char>,
    pub conn: Option<Seq<char>>,
}

impl DeepView for Active {
    type V = ActiveView;

    open spec fn deep_view(&self) -> ActiveView {
        ActiveView { path: self.path@, conn: self.conn.deep_view() }
    }
}

/// The live connection that came from a saved one: of several the last
/// read.
pub open spec fn live_path(actives: Seq<ActiveView>, conn: Seq<char>) -> Option<Seq<char>>
    decreases actives.len(),
{
    if actives.len() == 0 {
        None
    } else if actives.last().conn == Some(conn) {
        Some(actives.last().path)
    } else {
        live_path(actives.drop_last(), conn)
    }
}

/// The live connection that came from a saved one.
pub fn live(actives: &Vec<Active>, conn: &str) -> (path: Option<String>)
    ensures
        path.deep_view() == live_path(actives.deep_view(), conn@),
{
    let ghost all = actives.deep_view();
    let mut k: usize = actives.len();
    assert(all.take(k as int) =~= all);
    while k > 0
        invariant
            k <= actives@.len(),
            all == actives.deep_view(),
            live_path(all.take(k as int), conn@) == live_path(all, conn@),
        decreases k,
    {
        assert(all.take(k as int).last() == actives@[k - 1].deep_view());
        match &actives[k - 1].conn {
            Some(c) => {
                if same(c.as_str(), conn) {
                    return Some(actives[k - 1].path.clone());
                }
            },
            None => {},
        }
        assert(all.take(k as int).drop_last() =~= all.take(k - 1));
        k = k - 1;
    }
    None
}

/// A saved connection and its settings, if they could be read.
pub struct Saved {
    pub path: String,
    pub settings: Option<Vec<Entry>>,
}

/// What a `Saved` says.
pub struct SavedView {
    pub path: Seq<char>,
    pub settings: Option<Seq<EntryView>>,
}

impl DeepView for Saved {
    type V = SavedView;

    open spec fn deep_view(&self) -> SavedView {
        SavedView { path: self.path@, settings: self.settings.deep_view() }
    }
}

/// The name of the network a saved connection is for: nothing but for a
/// Wi-Fi connection, and an empty name when it holds none.
pub open spec fn network_of(conn: SavedView) -> Option<Seq<char>> {
    match conn.settings {
        Some(s) if setting_text(s, "connection"@, "type"@) == "802-11-wireless"@ => match setting(
            s,
            "802-11-wireless"@,
            "ssid"@,
        ) {
            Some(SettingView::Bytes(b)) => Some(utf8_lossy(b)),
            _ => Some(seq![]),
        },
        _ => None,
    }
}

/// The name of the network a saved connection is for.
pub fn network(conn: &Saved) -> (name: Option<String>)
    ensures
        name.deep_view() == network_of(conn.deep_view()),
{
    match &conn.settings {
        Some(s) => {
            if same(text(s, "connection", "type").as_str(), "802-11-wireless") {
                match find(s, "802-11-wireless", "ssid") {
                    Some(Setting::Bytes(b)) => Some(from_utf8_lossy(b.as_slice())),
                    _ => Some(String::new()),
                }
            } else {
                None
            }
        },
        None => None,
    }
}

/// The saved connection for a network. A live one wins over a spare copy of
/// the same network; otherwise the first one read stays.
pub open spec fn saved_path(
    conns: Seq<SavedView>,
    actives: Seq<ActiveView>,
    name: Seq<char>,
) -> Option<Seq<char>>
    decreases conns.len(),
{
    if conns.len() == 0 {
        None
    } else {
        let before = saved_path(conns.drop_last(), actives, name);
        let conn = conns.last();
        if network_of(conn) == Some(name) && (before is None || live_path(actives, conn.path)
            is Some) {
            Some(conn.path)
        } else {
            before
        }
    }
}

/// The saved connection for a network.
pub fn saved_for(conns: &Vec<Saved>, actives: &Vec<Active>, name: &str) -> (path: Option<String>)
    ensures
        path.deep_view() == saved_path(conns.deep_view(), actives.deep_view(), name@),
{
    let ghost all = conns.deep_view();
    let mut path: Option<String> = None;
    let mut k: usize = 0;
    while k < conns.len()
        invariant
            k <= conns@.len(),
            all == conns.deep_view(),
            path.deep_view() == saved_path(all.take(k as int), actives.deep_view(), name@),
        decreases conns@.len() - k,
    {
        assert(all.take(k + 1).drop_last() =~= all.take(k as int));
        assert(all.take(k + 1).last() == conns@[k as int].deep_view());
        let ours = match network(&conns[k]) {
            Some(n) => same(n.as_str(), name),
            None => false,
        };
        if ours && (path.is_none() || live(actives, conns[k].path.as_str()).is_some()) {
            path = Some(conns[k].path.clone());
        }
        k = k + 1;
    }
    assert(all.take(k as int) =~= all);
    path
}

/// Whether the connection at `i` is a copy of the network of that name.
pub open spec fn copy_at(conns: Seq<SavedView>, i: int, name: Seq<char>) -> bool {
    0 <= i < conns.len() && network_of(conns[i]) == Some(name)
}

/// Whether the connection at `i` is a copy that is live.
pub open spec fn live_copy_at(
    conns: Seq<SavedView>,
    actives: Seq<ActiveView>,
    i: int,
    name: Seq<char>,
) -> bool {
    copy_at(conns, i, name) && live_path(actives, conns[i].path) is Some
}

/// Without a copy there is no saved connection.
proof fn no_copy_saved(conns: Seq<SavedView>, actives: Seq<ActiveView>, name: Seq<char>)
    requires
        forall|i: int| !copy_at(conns, i, name),
    ensures
        saved_path(conns, actives, name) is None,
    decreases conns.len(),
{
    if conns.len() > 0 {
        let few = conns.drop_last();
        assert forall|i: int| !copy_at(few, i, name) by {
            assert(!copy_at(conns, i, name));
        }
        no_copy_saved(few, actives, name);
        assert(!copy_at(conns, conns.len() - 1, name));
    }
}

/// With a copy there is a saved connection.
proof fn copy_saved(conns: Seq<SavedView>, actives: Seq<ActiveView>, name: Seq<char>, i: int)
    requires
        copy_at(conns, i, name),
    ensures
        saved_path(conns, actives, name) is Some,
    decreases conns.len(),
{
    if i < conns.len() - 1 {
        copy_saved(conns.drop_last(), actives, name, i);
    }
}

/// The last copy that is live is the saved connection.
proof fn last_live_saved(conns: Seq<SavedView>, actives: Seq<ActiveView>, name: Seq<char>, i: int)
    requires
        live_copy_at(conns, actives, i, name),
        forall|j: int| i < j ==> !live_copy_at(conns, actives, j, name),
    ensures
        saved_path(conns, actives, name) == Some(conns[i].path),
    decreases conns.len(),
{
    let few = conns.drop_last();
    let last = conns.len() - 1;
    if i < last {
        assert forall|j: int| i < j implies !live_copy_at(few, actives, j, name) by {
            assert(!live_copy_at(conns, actives, j, name));
        }
        last_live_saved(few, actives, name, i);
        assert(!live_copy_at(conns, actives, last, name));
    }
}

/// When no copy is live the first copy is the saved connection.
proof fn first_copy_saved(conns: Seq<SavedView>, actives: Seq<ActiveView>, name: Seq<char>, i: int)
    requires
        copy_at(conns, i, name),
        forall|j: int| 0 <= j < i ==> !copy_at(conns, j, name),
        forall|j: int| !live_copy_at(conns, actives, j, name),
    ensures
        saved_path(conns, actives, name) == Some(conns[i].path),
    decreases conns.len(),
{
    let few = conns.drop_last();
    let last = conns.len() - 1;
    assert(!live_copy_at(conns, actives, last, name));
    if i < last {
        assert forall|j: int| 0 <= j < i implies !copy_at(few, j, name) by {
            assert(!copy_at(conns, j, name));
        }
        assert forall|j: int| !live_copy_at(few, actives, j, name) by {
            assert(!live_copy_at(conns, actives, j, name));
        }
        first_copy_saved(few, actives, name, i);
    } else {
        assert forall|j: int| !copy_at(few, j, name) by {
            if 0 <= j < last {
                assert(!copy_at(conns, j, name));
            }
        }
        no_copy_saved(few, actives, name);
    }
}

/// The saved connection for a network is the last copy of it that is live;
/// when none is live, the first copy; and nothing when there is no copy.
pub proof fn saved_path_law(
    conns: Seq<SavedView>,
    actives: Seq<ActiveView>,
    name: Seq<char>,
    i: int,
)
    ensures
        saved_path(conns, actives, name) is None <==> forall|j: int| !copy_at(conns, j, name),
        live_copy_at(conns, actives, i, name) && (forall|j: int|
            i < j ==> !live_copy_at(conns, actives, j, name)) ==> saved_path(conns, actives, name)
            == Some(conns[i].path),
        copy_at(conns, i, name) && (forall|j: int| 0 <= j < i ==> !copy_at(conns, j, name)) && (
        forall|j: int| !live_copy_at(conns, actives, j, name)) ==> saved_path(conns, actives, name)
            == Some(conns[i].path),
{
    if forall|j: int| !copy_at(conns, j, name) {
        no_copy_saved(conns, actives, name);
    } else {
        let k = choose|k: int| copy_at(conns, k, name);
        copy_saved(conns, actives, name, k);
    }
    if live_copy_at(conns, actives, i, name) && (forall|j: int|
        i < j ==> !live_copy_at(conns, actives, j, name)) {
        last_live_saved(conns, actives, name, i);
    }
    if copy_at(conns, i, name) && (forall|j: int| 0 <= j < i ==> !copy_at(conns, j, name)) && (
    forall|j: int| !live_copy_at(conns, actives, j, name)) {
        first_copy_saved(conns, actives, name, i);
    }
}

/// The VPN that a saved connection is, if it is one.
pub open spec fn vpn_of(conn: SavedView, actives: Seq<ActiveView>) -> Option<VpnView> {
    match conn.settings {
        Some(s) if setting_text(s, "connection"@, "type"@) == "vpn"@ || setting_text(
            s,
            "connection"@,
            "type"@,
        ) == "wireguard"@ => Some(
            VpnView {
                name: setting_text(s, "connection"@, "id"@),
                conn: conn.path,
                active: live_path(actives, conn.path),
            },
        ),
        _ => None,
    }
}

/// The VPNs among saved connections, as they come.
pub open spec fn vpns_of(conns: Seq<SavedView>, actives: Seq<ActiveView>) -> Seq<VpnView>
    decreases conns.len(),
{
    if conns.len() == 0 {
        seq![]
    } else {
        let before = vpns_of(conns.drop_last(), actives);
        match vpn_of(conns.last(), actives) {
            Some(vpn) => before.push(vpn),
            None => before,
        }
    }
}

/// An access point, with what could be read of it.
pub struct Ap {
    pub path: String,
    pub ssid: Option<Vec<u8>>,
    pub strength: Option<u8>,
    pub flags: Option<u32>,
    pub wpa: Option<u32>,
    pub rsn: Option<u32>,
}

/// What an `Ap` says.
pub struct ApView {
    pub path: Seq<char>,
    pub ssid: Option<Seq<u8>>,
    pub strength: Option<u8>,
    pub flags: Option<u32>,
    pub wpa: Option<u32>,
    pub rsn: Option<u32>,
}

impl DeepView for Ap {
    type V = ApView;

    open spec fn deep_view(&self) -> ApView {
        ApView {
            path: self.path@,
            ssid: self.ssid.deep_view(),
            strength: self.strength,
            flags: self.flags,
            wpa: self.wpa,
            rsn: self.rsn,
        }
    }
}

/// A number that could be read, or zero.
pub open spec fn or_zero(n: Option<u32>) -> u32 {
    match n {
        Some(v) => v,
        None => 0,
    }
}

impl ApView {
    /// The network's name, without the zero characters at its end.
    pub open spec fn name(self) -> Seq<char> {
        without_end(
            utf8_lossy(
                match self.ssid {
                    Some(b) => b,
                    None => seq![],
                },
            ),
            '\0',
        )
    }

    /// The signal, or none.
    pub open spec fn signal(self) -> u8 {
        match self.strength {
            Some(s) => s,
            None => 0,
        }
    }

    /// How the network is locked.
    pub open spec fn lock(self) -> Lock {
        lock_from(or_zero(self.flags), or_zero(self.wpa), or_zero(self.rsn))
    }
}

impl Ap {
    /// The network's name, without the zero characters at its end.
    pub fn name(&self) -> (name: String)
        ensures
            name@ == self.deep_view().name(),
    {
        let raw = match &self.ssid {
            Some(b) => from_utf8_lossy(b.as_slice()),
            None => {
                let none: Vec<u8> = Vec::new();
                assert(none@ =~= Seq::<u8>::empty());
                from_utf8_lossy(none.as_slice())
            },
        };
        proof {
            if self.ssid is Some {
                assert(self.ssid->0.deep_view() =~= self.ssid->0@);
            }
        }
        trim_end_char(raw.as_str(), '\0')
    }

    /// The signal, or none.
    pub fn signal(&self) -> (strength: u8)
        ensures
            strength == self.deep_view().signal(),
    {
        self.strength.unwrap_or(0)
    }

    /// How the network is locked.
    pub fn lock(&self) -> (lock: Lock)
        ensures
            lock == self.deep_view().lock(),
    {
        lock_of(self.flags.unwrap_or(0), self.wpa.unwrap_or(0), self.rsn.unwrap_or(0))
    }
}

/// What the machine is on, as far as it could be read.
pub struct Standing {
    /// Whether NetworkManager could be reached at all.
    pub manager: bool,
    /// The live connection that is the primary one.
    pub primary: Option<String>,
    /// Whether that connection could be reached.
    pub reached: bool,
    pub id: Option<String>,
    /// Where its addresses are kept.
    pub config: Option<String>,
    /// The addresses kept there.
    pub addresses: Option<Vec<Option<String>>>,
}

/// What a `Standing` says.
pub struct StandingView {
    pub manager: bool,
    pub primary: Option<Seq<char>>,
    pub reached: bool,
    pub id: Option<Seq<char>>,
    pub config: Option<Seq<char>>,
    pub addresses: Option<Seq<Option<Seq<char>>>>,
}

impl DeepView for Standing {
    type V = StandingView;

    open spec fn deep_view(&self) -> StandingView {
        StandingView {
            manager: self.manager,
            primary: self.primary.deep_view(),
            reached: self.reached,
            id: self.id.deep_view(),
            config: self.config.deep_view(),
            addresses: self.addresses.deep_view(),
        }
    }
}

impl StandingView {
    /// The first address, when there is one to read.
    pub open spec fn address(self) -> Option<Seq<char>> {
        match (self.config, self.addresses) {
            (Some(config), Some(list)) if config != "/"@ && list.len() > 0 => list[0],
            _ => None,
        }
    }

    /// What the machine is on and the address it got, in words.
    pub open spec fn words(self) -> Seq<char> {
        if !self.manager {
            "no NetworkManager"@
        } else if self.primary is None || self.primary == Some("/"@) || !self.reached {
            "offline"@
        } else {
            let id = match self.id {
                Some(id) => id,
                None => seq![],
            };
            match self.address() {
                Some(ip) => id + " · "@ + ip,
                None => id,
            }
        }
    }
}

impl Standing {
    /// The first address, when there is one to read.
    fn address(&self) -> (ip: Option<String>)
        ensures
            ip.deep_view() == self.deep_view().address(),
    {
        match (&self.config, &self.addresses) {
            (Some(config), Some(list)) => {
                if !same(config.as_str(), "/") && list.len() > 0 {
                    again(&list[0])
                } else {
                    None
                }
            },
            _ => None,
        }
    }

    /// What the machine is on, and the address it got.
    pub fn now(&self) -> (words: String)
        ensures
            words@ == self.deep_view().words(),
    {
        if !self.manager {
            return "no NetworkManager".to_string();
        }
        let on = match &self.primary {
            Some(p) => !same(p.as_str(), "/") && self.reached,
            None => false,
        };
        if !on {
            return "offline".to_string();
        }
        let id = match &self.id {
            Some(id) => id.clone(),
            None => String::new(),
        };
        match self.address() {
            Some(ip) => id.concat(" · ").concat(ip.as_str()),
            None => id,
        }
    }
}

/// A network device, and its kind if that could be read.
pub struct Device {
    pub path: String,
    pub kind: Option<u32>,
}

/// What a `Device` says.
pub struct DeviceView {
    pub path: Seq<char>,
    pub kind: Option<u32>,
}

impl DeepView for Device {
    type V = DeviceView;

    open spec fn deep_view(&self) -> DeviceView {
        DeviceView { path: self.path@, kind: self.kind }
    }
}

/// Everything that is read for one look.
pub struct Reading {
    /// Whether the Wi-Fi radio is on, if that could be read.
    pub radio: Option<bool>,
    pub actives: Vec<Active>,
    pub saved: Vec<Saved>,
    pub aps: Vec<Ap>,
    pub standing: Standing,
}

/// What a `Reading` says.
pub struct ReadingView {
    pub radio: Option<bool>,
    pub actives: Seq<ActiveView>,
    pub saved: Seq<SavedView>,
    pub aps: Seq<ApView>,
    pub standing: StandingView,
}

impl DeepView for Reading {
    type V = ReadingView;

    open spec fn deep_view(&self) -> ReadingView {
        ReadingView {
            radio: self.radio,
            actives: self.actives.deep_view(),
            saved: self.saved.deep_view(),
            aps: self.aps.deep_view(),
            standing: self.standing.deep_view(),
        }
    }
}

} // verus!
