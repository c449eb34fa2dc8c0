//! What each key and each event does to the list, one by one: how it stands
//! afterwards, what is said, and what is to be done.

use vstd::prelude::*;

use crate::bus::{AnswerView, AskView, SecurityView};
use crate::nm::{Lock, LookView, NetView, Outcome};
use crate::reading::{setting, EntryView, SettingView};
use crate::roam::{
    next, opened, patience, row_at, row_count, ActView, EventView, RoamView, Row, StageView,
};

verus! {

/// At first the cursor is on the first row, nothing is scrolled away and
/// nothing is under way; a missing card is told, and nothing else is.
pub proof fn opened_law(card: Option<Seq<char>>, look: LookView)
    ensures
        opened(card, look).card == card,
        opened(card, look).look == look,
        opened(card, look).sel == 0,
        opened(card, look).top == 0,
        card is Some ==> opened(card, look).note.len() == 0,
        card is None ==> opened(card, look).note == "no Wi-Fi card here; VPNs only"@,
        opened(card, look).rescan_at is None,
        opened(card, look).stage is Keys,
{
}

/// Two keys that differ in their length or in their first two characters
/// differ.
proof fn keys_told()
    ensures
        "ENTER"@.len() == 5,
        "DOWN"@.len() == 4 && "HOME"@.len() == 4 && "DOWN"@[0] == 'D' && "HOME"@[0] == 'H',
        "ESC"@.len() == 3 && "END"@.len() == 3 && "ESC"@[1] == 'S' && "END"@[1] == 'N',
        "UP"@.len() == 2,
        "q"@.len() == 1 && "q"@[0] == 'q',
        "j"@.len() == 1 && "j"@[0] == 'j',
        "k"@.len() == 1 && "k"@[0] == 'k',
        "g"@.len() == 1 && "g"@[0] == 'g',
        "G"@.len() == 1 && "G"@[0] == 'G',
        "d"@.len() == 1 && "d"@[0] == 'd',
        "f"@.len() == 1 && "f"@[0] == 'f',
        "m"@.len() == 1 && "m"@[0] == 'm',
        "r"@.len() == 1 && "r"@[0] == 'r',
        "w"@.len() == 1 && "w"@[0] == 'w',
        "?"@.len() == 1 && "?"@[0] == '?',
        "y"@.len() == 1 && "y"@[0] == 'y',
{
    reveal_strlit("q");
    reveal_strlit("j");
    reveal_strlit("k");
    reveal_strlit("g");
    reveal_strlit("G");
    reveal_strlit("d");
    reveal_strlit("f");
    reveal_strlit("m");
    reveal_strlit("r");
    reveal_strlit("w");
    reveal_strlit("?");
    reveal_strlit("y");
    reveal_strlit("ESC");
    reveal_strlit("DOWN");
    reveal_strlit("UP");
    reveal_strlit("HOME");
    reveal_strlit("END");
    reveal_strlit("ENTER");
}

/// The rows are the networks in their order and then the VPNs in theirs.
pub proof fn rows_law(look: LookView, k: int)
    ensures
        row_count(look) == look.nets.len() + look.vpns.len(),
        0 <= k < look.nets.len() && k <= usize::MAX ==> row_at(look, k) == Some(
            Row::Net(k as usize),
        ),
        look.nets.len() <= k < look.nets.len() + look.vpns.len() && k - look.nets.len()
            <= usize::MAX ==> row_at(look, k) == Some(Row::Vpn((k - look.nets.len()) as usize)),
        k < 0 || k >= look.nets.len() + look.vpns.len() ==> row_at(look, k) is None,
{
}

/// The wait for a key lasts until the answer to a scan should be in, and is
/// never over at once; without a scan it lasts ten minutes.
pub proof fn patience_law(at: u64, now: u64)
    ensures
        patience(None, now) == 600_000,
        at > now ==> patience(Some(at), now) == at - now,
        at <= now ==> patience(Some(at), now) == 1,
{
}

/// While nothing is under way j and the down arrow move the cursor down by
/// one row, over the networks and on over the VPNs, and leave it on the last
/// row; nothing else changes.
pub proof fn down_law(s: RoamView, key: Seq<char>, now: u64)
    requires
        s.stage is Keys,
        key == "j"@ || key == "DOWN"@,
    ensures
        next(s, EventView::Key(key), now) == (
            RoamView {
                sel: if s.sel + 1 < s.look.nets.len() + s.look.vpns.len() {
                    s.sel + 1
                } else {
                    s.sel
                },
                ..s
            },
            ActView::Listen { wait: patience(s.rescan_at, now) },
        ),
{
    keys_told();
}

/// k and the up arrow move it up by one row, and leave it on the first.
pub proof fn up_law(s: RoamView, key: Seq<char>, now: u64)
    requires
        s.stage is Keys,
        key == "k"@ || key == "UP"@,
    ensures
        next(s, EventView::Key(key), now) == (
            RoamView {
                sel: if s.sel > 0 {
                    (s.sel - 1) as nat
                } else {
                    0
                },
                ..s
            },
            ActView::Listen { wait: patience(s.rescan_at, now) },
        ),
{
    keys_told();
}

/// g and Home go to the first row, G and End to the last.
pub proof fn ends_law(s: RoamView, key: Seq<char>, now: u64)
    requires
        s.stage is Keys,
    ensures
        key == "g"@ || key == "HOME"@ ==> next(s, EventView::Key(key), now) == (
            RoamView { sel: 0, ..s },
            ActView::Listen { wait: patience(s.rescan_at, now) },
        ),
        (key == "G"@ || key == "END"@) && s.look.nets.len() + s.look.vpns.len() > 0 ==> next(
            s,
            EventView::Key(key),
            now,
        ) == (
            RoamView { sel: (s.look.nets.len() + s.look.vpns.len() - 1) as nat, ..s },
            ActView::Listen { wait: patience(s.rescan_at, now) },
        ),
        (key == "G"@ || key == "END"@) && s.look.nets.len() + s.look.vpns.len() == 0 ==> next(
            s,
            EventView::Key(key),
            now,
        ).0.sel == 0,
{
    keys_told();
}

/// The list after a key was pressed so often.
pub open spec fn pressed_often(s: RoamView, key: Seq<char>, now: u64, n: nat) -> RoamView
    decreases n,
{
    if n == 0 {
        s
    } else {
        next(pressed_often(s, key, now, (n - 1) as nat), EventView::Key(key), now).0
    }
}

/// Every row below the cursor is reached by going down, and every row above
/// it by going back up.
pub proof fn reached_law(s: RoamView, now: u64, n: nat)
    requires
        s.stage is Keys,
    ensures
        s.sel + n < s.look.nets.len() + s.look.vpns.len() ==> pressed_often(s, "j"@, now, n) == (
        RoamView { sel: s.sel + n, ..s }),
        n <= s.sel ==> pressed_often(s, "k"@, now, n) == (RoamView { sel: (s.sel - n) as nat, ..s }),
    decreases n,
{
    if n > 0 {
        let m = (n - 1) as nat;
        reached_law(s, now, m);
        if s.sel + n < s.look.nets.len() + s.look.vpns.len() {
            down_law(pressed_often(s, "j"@, now, m), "j"@, now);
        }
        if n <= s.sel {
            up_law(pressed_often(s, "k"@, now, m), "k"@, now);
        }
    }
}

/// A key that does nothing of its own changes nothing.
pub proof fn other_key_law(s: RoamView, key: Seq<char>, now: u64)
    requires
        s.stage is Keys,
        key != "q"@ && key != "ESC"@ && key != "j"@ && key != "DOWN"@ && key != "k"@ && key
            != "UP"@ && key != "g"@ && key != "HOME"@ && key != "G"@ && key != "END"@ && key
            != "ENTER"@ && key != "d"@ && key != "f"@ && key != "m"@ && key != "r"@ && key != "w"@
            && key != "?"@,
    ensures
        next(s, EventView::Key(key), now) == (
            s,
            ActView::Listen { wait: patience(s.rescan_at, now) },
        ),
{
}

/// Enter on a network: one that is live is not joined again; one that wants
/// a certificate and is not saved is not joined; a locked one that is not
/// saved asks for its password; a saved one is brought up and an open one
/// added, through the card, and without a card it says why not.
pub proof fn enter_net_law(s: RoamView, now: u64)
    requires
        s.stage is Keys,
        s.sel < s.look.nets.len(),
        s.sel <= usize::MAX,
    ensures
        ({
            let net = s.look.nets[s.sel as int];
            let done = next(s, EventView::Key("ENTER"@), now);
            let listen = ActView::Listen { wait: patience(s.rescan_at, now) };
            let joins = net.active is None && (net.saved is Some || net.lock == Lock::Open);
            &&& net.active is Some ==> done == (
                RoamView { note: "already on "@ + net.ssid, ..s },
                listen,
            )
            &&& net.active is None && net.saved is None && net.lock == Lock::Enterprise ==> done == (
                RoamView {
                    note: net.ssid
                        + " wants a user name and a certificate; roam cannot set that up yet"@,
                    ..s
                },
                listen,
            )
            &&& net.active is None && net.saved is None && (net.lock == Lock::Psk || net.lock
                == Lock::Sae) ==> done == (
                RoamView { stage: StageView::Password { net }, ..s },
                ActView::Password { prompt: " Password for "@ + net.ssid + ": "@ },
            )
            &&& joins && s.card is None ==> done == (
                RoamView {
                    note: "could not join "@ + net.ssid + ": "@ + "no Wi-Fi card"@,
                    stage: StageView::Looking,
                    ..s
                },
                ActView::Look { pause: 0 },
            )
            &&& joins && s.card is Some ==> done == (
                RoamView {
                    note: "joining "@ + net.ssid + "…"@,
                    stage: StageView::Joining { ssid: net.ssid, asked: false },
                    ..s
                },
                ActView::Send {
                    ask: match net.saved {
                        Some(conn) => AskView::Activate { conn, card: s.card->0, ap: net.ap },
                        None => AskView::Add { security: None, card: s.card->0, ap: net.ap },
                    },
                    show: true,
                },
            )
        }),
{
    keys_told();
    rows_law(s.look, s.sel as int);
}

/// Enter on a VPN takes it down when it is up, and brings it up when it is
/// down, which is said at once.
pub proof fn enter_vpn_law(s: RoamView, now: u64, i: int)
    requires
        s.stage is Keys,
        0 <= i < s.look.vpns.len(),
        s.sel == s.look.nets.len() + i,
        i <= usize::MAX,
    ensures
        ({
            let vpn = s.look.vpns[i];
            let done = next(s, EventView::Key("ENTER"@), now);
            &&& vpn.active matches Some(active) ==> done == (
                RoamView { stage: StageView::Dropping { name: vpn.name }, ..s },
                ActView::Send { ask: AskView::Deactivate { active }, show: false },
            )
            &&& vpn.active is None ==> done == (
                RoamView {
                    note: "bringing "@ + vpn.name + " up…"@,
                    stage: StageView::Starting { name: vpn.name },
                    ..s
                },
                ActView::Send {
                    ask: AskView::Activate { conn: vpn.conn, card: "/"@, ap: "/"@ },
                    show: true,
                },
            )
        }),
{
    keys_told();
    rows_law(s.look, s.sel as int);
}

/// Enter on no row does nothing.
pub proof fn enter_nothing_law(s: RoamView, now: u64)
    requires
        s.stage is Keys,
        s.sel >= s.look.nets.len() + s.look.vpns.len(),
    ensures
        next(s, EventView::Key("ENTER"@), now) == (
            s,
            ActView::Listen { wait: patience(s.rescan_at, now) },
        ),
{
    keys_told();
}

/// d with the cursor on a live network takes that one down.
pub proof fn leave_here_law(s: RoamView, now: u64, active: Seq<char>)
    requires
        s.stage is Keys,
        s.sel < s.look.nets.len(),
        s.look.nets[s.sel as int].active == Some(active),
    ensures
        next(s, EventView::Key("d"@), now) == (
            RoamView {
                stage: StageView::Leaving { ssid: s.look.nets[s.sel as int].ssid },
                ..s
            },
            ActView::Send { ask: AskView::Deactivate { active }, show: false },
        ),
{
    keys_told();
}

/// d with the cursor elsewhere takes the first live network down; without
/// one it says so.
pub proof fn leave_elsewhere_law(s: RoamView, now: u64, i: int)
    requires
        s.stage is Keys,
        s.sel >= s.look.nets.len() || s.look.nets[s.sel as int].active is None,
    ensures
        0 <= i < s.look.nets.len() && s.look.nets[i].active is Some && (forall|j: int|
            0 <= j < i ==> (#[trigger] s.look.nets[j]).active is None) ==> next(
            s,
            EventView::Key("d"@),
            now,
        ) == (
            RoamView { stage: StageView::Leaving { ssid: s.look.nets[i].ssid }, ..s },
            ActView::Send {
                ask: AskView::Deactivate { active: s.look.nets[i].active->0 },
                show: false,
            },
        ),
        (forall|j: int|
            0 <= j < s.look.nets.len() ==> (#[trigger] s.look.nets[j]).active is None) ==> next(
            s,
            EventView::Key("d"@),
            now,
        ) == (
            RoamView { note: "not on any Wi-Fi"@, ..s },
            ActView::Listen { wait: patience(s.rescan_at, now) },
        ),
{
    keys_told();
    crate::roam_laws::live_net_finds(s.look.nets);
    let k = crate::roam::live_net(s.look.nets) as int;
    if 0 <= i < s.look.nets.len() && s.look.nets[i].active is Some && (forall|j: int|
        0 <= j < i ==> (#[trigger] s.look.nets[j]).active is None) {
        if k < i {
            assert(s.look.nets[k].active is None);
        } else if i < k {
            assert(s.look.nets[i].active is None);
        }
    }
    if k < s.look.nets.len() {
        assert(s.look.nets[k].active is Some);
    }
}

/// f asks before it forgets, and only of a saved network under the cursor.
pub proof fn forget_key_law(s: RoamView, now: u64)
    requires
        s.stage is Keys,
        s.sel <= usize::MAX,
    ensures
        ({
            let done = next(s, EventView::Key("f"@), now);
            let listen = ActView::Listen { wait: patience(s.rescan_at, now) };
            &&& s.sel < s.look.nets.len() ==> {
                let net = s.look.nets[s.sel as int];
                done == match net.saved {
                    Some(conn) => (
                        RoamView {
                            note: "forget "@ + net.ssid + ", password and all? y/n"@,
                            stage: StageView::Confirming { ssid: net.ssid, conn },
                            ..s
                        },
                        ActView::Listen { wait: 60_000 },
                    ),
                    None => (RoamView { note: net.ssid + " is not saved"@, ..s }, listen),
                }
            }
            &&& s.sel >= s.look.nets.len() ==> done == (
                RoamView { note: "only a saved Wi-Fi network can be forgotten here"@, ..s },
                listen,
            )
        }),
{
    keys_told();
    rows_law(s.look, s.sel as int);
}

/// A yes forgets the connection that was asked about; any other key, and no
/// key in time, keeps it and takes the question away.
pub proof fn confirm_law(
    s: RoamView,
    ssid: Seq<char>,
    conn: Seq<char>,
    key: Seq<char>,
    now: u64,
)
    requires
        s.stage == (StageView::Confirming { ssid, conn }),
    ensures
        next(s, EventView::Key("y"@), now) == (
            RoamView { stage: StageView::Forgetting { ssid }, ..s },
            ActView::Send { ask: AskView::Delete { conn }, show: false },
        ),
        key != "y"@ ==> next(s, EventView::Key(key), now) == (
            RoamView { note: Seq::empty(), stage: StageView::Keys, ..s },
            ActView::Listen { wait: patience(s.rescan_at, now) },
        ),
        next(s, EventView::Quiet, now) == (
            RoamView { note: Seq::empty(), stage: StageView::Keys, ..s },
            ActView::Listen { wait: patience(s.rescan_at, now) },
        ),
{
}

/// m reads the settings of a saved network under the cursor.
pub proof fn mark_key_law(s: RoamView, now: u64)
    requires
        s.stage is Keys,
        s.sel <= usize::MAX,
    ensures
        ({
            let done = next(s, EventView::Key("m"@), now);
            let listen = ActView::Listen { wait: patience(s.rescan_at, now) };
            &&& s.sel < s.look.nets.len() ==> {
                let net = s.look.nets[s.sel as int];
                done == match net.saved {
                    Some(conn) => (
                        RoamView { stage: StageView::Reading { ssid: net.ssid, conn }, ..s },
                        ActView::Send { ask: AskView::Settings { conn }, show: false },
                    ),
                    None => (RoamView { note: net.ssid + " is not saved"@, ..s }, listen),
                }
            }
            &&& s.sel >= s.look.nets.len() ==> done == (
                RoamView { note: "only a saved Wi-Fi network can be marked here"@, ..s },
                listen,
            )
        }),
{
    keys_told();
    rows_law(s.look, s.sel as int);
}

/// Settings that hold the number one for being metered have the mark taken
/// off, all others are marked; and it is said how it stands.
pub proof fn marking_law(
    s: RoamView,
    ssid: Seq<char>,
    conn: Seq<char>,
    entries: Seq<EntryView>,
    answer: AnswerView,
    metered: bool,
    now: u64,
)
    ensures
        s.stage == (StageView::Reading { ssid, conn }) ==> {
            let mark = setting(entries, "connection"@, "metered"@) != Some(SettingView::Int(1));
            next(s, EventView::Answer(AnswerView::Settings(entries)), now) == (
                RoamView { stage: StageView::Marking { ssid, metered: mark }, ..s },
                ActView::Send { ask: AskView::Mark { conn, metered: mark }, show: false },
            )
        },
        s.stage == (StageView::Reading { ssid, conn }) ==> (answer matches AnswerView::Refused(why)
            ==> next(s, EventView::Answer(answer), now) == (
            RoamView {
                note: ssid + " stayed as it was: "@ + why,
                stage: StageView::Looking,
                ..s
            },
            ActView::Look { pause: 0 },
        )),
        s.stage == (StageView::Reading { ssid, conn }) && !(answer is Settings) && !(answer
            is Refused) ==> next(s, EventView::Answer(answer), now) == (
            RoamView { note: ssid + " stayed as it was"@, stage: StageView::Looking, ..s },
            ActView::Look { pause: 0 },
        ),
        s.stage == (StageView::Marking { ssid, metered }) ==> (answer matches AnswerView::Refused(why)
            ==> next(s, EventView::Answer(answer), now) == (
            RoamView {
                note: ssid + " stayed as it was: "@ + why,
                stage: StageView::Looking,
                ..s
            },
            ActView::Look { pause: 0 },
        )),
        s.stage == (StageView::Marking { ssid, metered }) && !(answer is Refused) ==> next(
            s,
            EventView::Answer(answer),
            now,
        ) == (
            RoamView {
                note: ssid + (if metered {
                    " is metered"@
                } else {
                    " is not metered"@
                }),
                stage: StageView::Looking,
                ..s
            },
            ActView::Look { pause: 0 },
        ),
{
}

/// r has the card look again, and looks itself three seconds later, whatever
/// is answered; without a card it looks again all the same.
pub proof fn scan_law(s: RoamView, answer: AnswerView, now: u64)
    requires
        now <= u64::MAX - 3_000,
    ensures
        s.stage is Keys && s.card is Some ==> next(s, EventView::Key("r"@), now) == (
            RoamView { stage: StageView::Scanning, ..s },
            ActView::Send { ask: AskView::Scan { card: s.card->0 }, show: false },
        ),
        s.stage is Scanning ==> next(s, EventView::Answer(answer), now) == (
            RoamView {
                note: "looking for networks…"@,
                rescan_at: Some((now + 3_000) as u64),
                stage: StageView::Keys,
                ..s
            },
            ActView::Listen { wait: 3_000 },
        ),
        s.stage is Keys && s.card is None ==> next(s, EventView::Key("r"@), now) == (
            RoamView {
                note: "looking for networks…"@,
                rescan_at: Some((now + 3_000) as u64),
                ..s
            },
            ActView::Listen { wait: 3_000 },
        ),
{
    keys_told();
}

/// When the answer to a scan should be in and no key was pressed, a new look
/// is taken; before that, and without a scan, nothing happens.
pub proof fn rescan_law(s: RoamView, now: u64)
    requires
        s.stage is Keys,
    ensures
        s.rescan_at is Some && now >= s.rescan_at->0 ==> next(s, EventView::Quiet, now) == (
            RoamView {
                note: "looked again"@,
                rescan_at: None,
                stage: StageView::Looking,
                ..s
            },
            ActView::Look { pause: 0 },
        ),
        s.rescan_at is None || now < s.rescan_at->0 ==> next(s, EventView::Quiet, now) == (
            s,
            ActView::Listen { wait: patience(s.rescan_at, now) },
        ),
{
}

/// w asks for the radio to be what it is not, and says how it stands after a
/// while.
pub proof fn radio_law(s: RoamView, answer: AnswerView, on: bool, now: u64)
    ensures
        s.stage is Keys ==> next(s, EventView::Key("w"@), now) == (
            RoamView { stage: StageView::Switching { on: !s.look.wifi_on }, ..s },
            ActView::Send { ask: AskView::Radio { on: !s.look.wifi_on }, show: false },
        ),
        s.stage == (StageView::Switching { on }) ==> next(s, EventView::Answer(answer), now) == (
            RoamView {
                note: match answer {
                    AnswerView::Refused(why) => "Wi-Fi stayed as it was: "@ + why,
                    _ => if on {
                        "Wi-Fi on"@
                    } else {
                        "Wi-Fi off"@
                    },
                },
                stage: StageView::Looking,
                ..s
            },
            ActView::Look { pause: 400 },
        ),
{
    keys_told();
}

/// ? shows the keys, and closing the box goes back to them.
pub proof fn help_law(s: RoamView, now: u64)
    ensures
        s.stage is Keys ==> next(s, EventView::Key("?"@), now) == (
            RoamView { stage: StageView::Helping, ..s },
            ActView::Help,
        ),
        next(s, EventView::Closed, now) == (
            RoamView { stage: StageView::Keys, ..s },
            ActView::Listen { wait: patience(s.rescan_at, now) },
        ),
{
    keys_told();
}

/// A password that was typed adds the network with it; none, or an empty
/// one, leaves the network alone.
pub proof fn typed_law(s: RoamView, net: NetView, text: Option<Seq<char>>, now: u64)
    requires
        s.stage == (StageView::Password { net }),
        net.saved is None,
    ensures
        text is None || text->0.len() == 0 ==> next(s, EventView::Typed(text), now) == (
            RoamView { note: Seq::empty(), stage: StageView::Keys, ..s },
            ActView::Listen { wait: patience(s.rescan_at, now) },
        ),
        text is Some && text->0.len() > 0 && s.card is Some ==> next(s, EventView::Typed(text), now)
            == (
            RoamView {
                note: "joining "@ + net.ssid + "…"@,
                stage: StageView::Joining { ssid: net.ssid, asked: true },
                ..s
            },
            ActView::Send {
                ask: AskView::Add {
                    security: Some(
                        SecurityView {
                            key_mgmt: if net.lock == Lock::Sae {
                                "sae"@
                            } else {
                                "wpa-psk"@
                            },
                            psk: text->0,
                        },
                    ),
                    card: s.card->0,
                    ap: net.ap,
                },
                show: true,
            },
        ),
        text is Some && text->0.len() > 0 && s.card is None ==> next(s, EventView::Typed(text), now)
            == (
            RoamView {
                note: "could not join "@ + net.ssid + ": "@ + "no Wi-Fi card"@,
                stage: StageView::Looking,
                ..s
            },
            ActView::Look { pause: 0 },
        ),
{
}

/// A network that is coming up is waited for twenty-five seconds; one that
/// was refused is told with the reason.
pub proof fn joining_law(
    s: RoamView,
    ssid: Seq<char>,
    asked: bool,
    answer: AnswerView,
    now: u64,
)
    requires
        s.stage == (StageView::Joining { ssid, asked }),
    ensures
        answer matches AnswerView::Rising { active, made } ==> next(
            s,
            EventView::Answer(answer),
            now,
        ) == (
            RoamView { stage: StageView::Waiting { ssid, asked, made }, ..s },
            ActView::Wait { active, limit: 25_000 },
        ),
        answer matches AnswerView::Refused(why) ==> next(s, EventView::Answer(answer), now) == (
            RoamView {
                note: "could not join "@ + ssid + ": "@ + why,
                stage: StageView::Looking,
                ..s
            },
            ActView::Look { pause: 0 },
        ),
        !(answer is Rising) && !(answer is Refused) ==> next(s, EventView::Answer(answer), now) == (
            RoamView { note: "could not join "@ + ssid, stage: StageView::Looking, ..s },
            ActView::Look { pause: 0 },
        ),
{
}

/// How the wait for a network ends: up, or still coming up, and what was
/// saved for it stays; or failed, and what was saved for it is forgotten
/// before it is told, with the password blamed where one was asked for.
pub proof fn joined_law(
    s: RoamView,
    ssid: Seq<char>,
    asked: bool,
    made: Option<Seq<char>>,
    answer: AnswerView,
    now: u64,
)
    requires
        s.stage == (StageView::Waiting { ssid, asked, made }),
    ensures
        next(s, EventView::Ended(Outcome::Up), now) == (
            RoamView { note: "on "@ + ssid, stage: StageView::Looking, ..s },
            ActView::Look { pause: 0 },
        ),
        next(s, EventView::Ended(Outcome::Slow), now) == (
            RoamView { note: ssid + " is still coming up"@, stage: StageView::Looking, ..s },
            ActView::Look { pause: 0 },
        ),
        ({
            let note = if asked {
                ssid + " did not take that password"@
            } else {
                "could not join "@ + ssid
            };
            let told = (
                RoamView { note, stage: StageView::Looking, ..s },
                ActView::Look { pause: 0 },
            );
            &&& made is None ==> next(s, EventView::Ended(Outcome::Failed), now) == told
            &&& made matches Some(conn) ==> next(s, EventView::Ended(Outcome::Failed), now) == (
                RoamView { stage: StageView::Cleaning { note }, ..s },
                ActView::Send { ask: AskView::Delete { conn }, show: false },
            ) && next(
                RoamView { stage: StageView::Cleaning { note }, ..s },
                EventView::Answer(answer),
                now,
            ) == told
        }),
{
}

/// A VPN that was asked to go down did, or stayed up and why.
pub proof fn dropped_law(s: RoamView, name: Seq<char>, answer: AnswerView, now: u64)
    requires
        s.stage == (StageView::Dropping { name }),
    ensures
        next(s, EventView::Answer(answer), now) == (
            RoamView {
                note: match answer {
                    AnswerView::Refused(why) => name + " stayed up: "@ + why,
                    _ => name + " down"@,
                },
                stage: StageView::Looking,
                ..s
            },
            ActView::Look { pause: 0 },
        ),
{
}

/// A VPN that is coming up is waited for thirty seconds, and told by how
/// that ends; one that was refused is told with the reason.
pub proof fn started_law(s: RoamView, name: Seq<char>, answer: AnswerView, end: Outcome, now: u64)
    ensures
        s.stage == (StageView::Starting { name }) ==> (answer matches AnswerView::Rising {
            active,
            ..
        } ==> next(s, EventView::Answer(answer), now) == (
            RoamView { stage: StageView::Rising { name }, ..s },
            ActView::Wait { active, limit: 30_000 },
        )),
        s.stage == (StageView::Starting { name }) ==> (answer matches AnswerView::Refused(why)
            ==> next(s, EventView::Answer(answer), now) == (
            RoamView {
                note: name + " would not start: "@ + why,
                stage: StageView::Looking,
                ..s
            },
            ActView::Look { pause: 0 },
        )),
        s.stage == (StageView::Starting { name }) && !(answer is Rising) && !(answer is Refused)
            ==> next(s, EventView::Answer(answer), now) == (
            RoamView {
                note: name + " would not come up"@,
                stage: StageView::Looking,
                ..s
            },
            ActView::Look { pause: 0 },
        ),
        s.stage == (StageView::Rising { name }) ==> next(s, EventView::Ended(end), now) == (
            RoamView {
                note: match end {
                    Outcome::Up => name + " up"@,
                    Outcome::Failed => name + " would not come up"@,
                    Outcome::Slow => name + " is still coming up"@,
                },
                stage: StageView::Looking,
                ..s
            },
            ActView::Look { pause: 0 },
        ),
{
}

/// A network that was asked to go down did, or stayed and why, looked at
/// after a while; one that was to be forgotten was, or was kept and why.
pub proof fn left_law(s: RoamView, ssid: Seq<char>, answer: AnswerView, now: u64)
    ensures
        s.stage == (StageView::Leaving { ssid }) ==> next(s, EventView::Answer(answer), now) == (
            RoamView {
                note: match answer {
                    AnswerView::Refused(why) => "still on "@ + ssid + ": "@ + why,
                    _ => "left "@ + ssid,
                },
                stage: StageView::Looking,
                ..s
            },
            ActView::Look { pause: 400 },
        ),
        s.stage == (StageView::Forgetting { ssid }) ==> next(s, EventView::Answer(answer), now) == (
            RoamView {
                note: match answer {
                    AnswerView::Refused(why) => "kept "@ + ssid + ": "@ + why,
                    _ => "forgot "@ + ssid,
                },
                stage: StageView::Looking,
                ..s
            },
            ActView::Look { pause: 0 },
        ),
{
}

/// A new look that was asked for is shown; the cursor stays where it is, or
/// goes to the last row where there are fewer, or to the start where there
/// is none. The note and all else stay.
pub proof fn looked_law(s: RoamView, look: LookView, now: u64)
    requires
        s.stage is Looking,
    ensures
        ({
            let rows = look.nets.len() + look.vpns.len();
            next(s, EventView::Looked(look), now) == (
                RoamView {
                    look,
                    sel: if s.sel < rows {
                        s.sel
                    } else if rows == 0 {
                        0
                    } else {
                        (rows - 1) as nat
                    },
                    stage: StageView::Keys,
                    ..s
                },
                ActView::Listen { wait: patience(s.rescan_at, now) },
            )
        }),
{
}

/// What nothing waits for changes nothing but that the keys are listened for
/// again.
pub proof fn stray_law(s: RoamView, event: EventView, now: u64)
    requires
        match event {
            EventView::Key(_) => !(s.stage is Keys) && !(s.stage is Confirming),
            EventView::Quiet => !(s.stage is Keys) && !(s.stage is Confirming),
            EventView::Typed(_) => !(s.stage is Password),
            EventView::Answer(_) => s.stage is Keys || s.stage is Password || s.stage is Waiting
                || s.stage is Rising || s.stage is Confirming || s.stage is Looking || s.stage
                is Helping,
            EventView::Ended(_) => !(s.stage is Waiting) && !(s.stage is Rising),
            EventView::Looked(_) => !(s.stage is Looking),
            EventView::Closed => true,
        },
    ensures
        next(s, event, now) == (
            RoamView { stage: StageView::Keys, ..s },
            ActView::Listen { wait: patience(s.rescan_at, now) },
        ),
{
}

} // verus!
