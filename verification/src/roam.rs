//! The list under your hands: what each key does, one step at a time. A
//! step says what to do next; what comes of that is the next event.

use vstd::prelude::*;
use vstd::string::*;

use crate::bus::{Answer, AnswerView, Ask, AskView};
use crate::nm::{joining, nowhere, Lock, Look, LookView, Net, NetView, Nm, Outcome, Vpn, VpnView};
use crate::reading::{is_marked_metered, marked_metered};
use crate::screen::{frame, frame_drawn, list_height, scroll, scrolled};
use crate::text::same;

verus! {

/// A row you can put the cursor on.
#[derive(Clone, Copy, PartialEq, Eq, Debug, Structural)]
pub enum Row {
    Net(usize),
    Vpn(usize),
}

/// What is under way.
pub enum Stage {
    /// Nothing: the next key decides.
    Keys,
    /// The password for a network is being typed.
    Password { net: Net },
    /// A network was asked for, with a password or without.
    Joining { ssid: String, asked: bool },
    /// A network is coming up; `made` is what was saved for it.
    Waiting { ssid: String, asked: bool, made: Option<String> },
    /// What a failed first try left is being forgotten.
    Cleaning { note: String },
    /// A VPN was asked to go down.
    Dropping { name: String },
    /// A VPN was asked for.
    Starting { name: String },
    /// A VPN is coming up.
    Rising { name: String },
    /// A network was asked to go down.
    Leaving { ssid: String },
    /// Whether to forget a network is to be answered.
    Confirming { ssid: String, conn: String },
    /// A network is being forgotten.
    Forgetting { ssid: String },
    /// The radio was asked to go on or off.
    Switching { on: bool },
    /// The card was asked to look for networks.
    Scanning,
    /// The settings of a network are being read.
    Reading { ssid: String, conn: String },
    /// A network is being marked, or its mark taken off.
    Marking { ssid: String, metered: bool },
    /// A new look was asked for.
    Looking,
    /// The keys are shown in a box.
    Helping,
}

/// What a `Stage` says.
pub enum StageView {
    Keys,
    Password { net: NetView },
    Joining { ssid: Seq<char>, asked: bool },
    Waiting { ssid: Seq<char>, asked: bool, made: Option<Seq<char>> },
    Cleaning { note: Seq<char> },
    Dropping { name: Seq<char> },
    Starting { name: Seq<char> },
    Rising { name: Seq<char> },
    Leaving { ssid: Seq<char> },
    Confirming { ssid: Seq<char>, conn: Seq<char> },
    Forgetting { ssid: Seq<char> },
    Switching { on: bool },
    Scanning,
    Reading { ssid: Seq<char>, conn: Seq<char> },
    Marking { ssid: Seq<char>, metered: bool },
    Looking,
    Helping,
}

impl DeepView for Stage {
    type V = StageView;

    open spec fn deep_view(&self) -> StageView {
        match *self {
            Stage::Keys => StageView::Keys,
            Stage::Password { net } => StageView::Password { net: net.deep_view() },
            Stage::Joining { ssid, asked } => StageView::Joining { ssid: ssid@, asked },
            Stage::Waiting { ssid, asked, made } => StageView::Waiting {
                ssid: ssid@,
                asked,
                made: made.deep_view(),
            },
            Stage::Cleaning { note } => StageView::Cleaning { note: note@ },
            Stage::Dropping { name } => StageView::Dropping { name: name@ },
            Stage::Starting { name } => StageView::Starting { name: name@ },
            Stage::Rising { name } => StageView::Rising { name: name@ },
            Stage::Leaving { ssid } => StageView::Leaving { ssid: ssid@ },
            Stage::Confirming { ssid, conn } => StageView::Confirming { ssid: ssid@, conn: conn@ },
            Stage::Forgetting { ssid } => StageView::Forgetting { ssid: ssid@ },
            Stage::Switching { on } => StageView::Switching { on },
            Stage::Scanning => StageView::Scanning,
            Stage::Reading { ssid, conn } => StageView::Reading { ssid: ssid@, conn: conn@ },
            Stage::Marking { ssid, metered } => StageView::Marking { ssid: ssid@, metered },
            Stage::Looking => StageView::Looking,
            Stage::Helping => StageView::Helping,
        }
    }
}

/// What happened.
pub enum Event {
    /// A key was pressed.
    Key(String),
    /// The wait for a key was over.
    Quiet,
    /// A password was typed, or not.
    Typed(Option<String>),
    /// What was sent was answered.
    Answer(Answer),
    /// The wait for a connection was over.
    Ended(Outcome),
    /// A new look was taken.
    Looked(Look),
    /// The box with the keys was closed.
    Closed,
}

/// What an `Event` says.
pub enum EventView {
    Key(Seq<char>),
    Quiet,
    Typed(Option<Seq<char>>),
    Answer(AnswerView),
    Ended(Outcome),
    Looked(LookView),
    Closed,
}

impl DeepView for Event {
    type V = EventView;

    open spec fn deep_view(&self) -> EventView {
        match *self {
            Event::Key(key) => EventView::Key(key@),
            Event::Quiet => EventView::Quiet,
            Event::Typed(text) => EventView::Typed(text.deep_view()),
            Event::Answer(answer) => EventView::Answer(answer.deep_view()),
            Event::Ended(outcome) => EventView::Ended(outcome),
            Event::Looked(look) => EventView::Looked(look.deep_view()),
            Event::Closed => EventView::Closed,
        }
    }
}

/// What to do next. Times are in milliseconds.
pub enum Act {
    /// End the program.
    Quit,
    /// Draw the screen and wait so long for a key.
    Listen { wait: u64 },
    /// Ask for a password, hidden as it is typed.
    Password { prompt: String },
    /// Draw the screen if it is to be shown, and send this to
    /// NetworkManager.
    Send { ask: Ask, show: bool },
    /// Wait so long for a connection to come up or fail.
    Wait { active: String, limit: u64 },
    /// Pause so long, then take a new look.
    Look { pause: u64 },
    /// Show the keys in a box.
    Help,
}

/// What an `Act` says.
pub enum ActView {
    Quit,
    Listen { wait: u64 },
    Password { prompt: Seq<char> },
    Send { ask: AskView, show: bool },
    Wait { active: Seq<char>, limit: u64 },
    Look { pause: u64 },
    Help,
}

impl DeepView for Act {
    type V = ActView;

    open spec fn deep_view(&self) -> ActView {
        match *self {
            Act::Quit => ActView::Quit,
            Act::Listen { wait } => ActView::Listen { wait },
            Act::Password { prompt } => ActView::Password { prompt: prompt@ },
            Act::Send { ask, show } => ActView::Send { ask: ask.deep_view(), show },
            Act::Wait { active, limit } => ActView::Wait { active: active@, limit },
            Act::Look { pause } => ActView::Look { pause },
            Act::Help => ActView::Help,
        }
    }
}

/// The list and what is under way with it.
pub struct Roam {
    pub nm: Nm,
    pub look: Look,
    pub sel: usize,
    pub top: usize,
    pub note: String,
    /// When a scan was asked for, the moment its answer should be in.
    pub rescan_at: Option<u64>,
    pub stage: Stage,
}

/// What a `Roam` says.
pub struct RoamView {
    pub card: Option<Seq<char>>,
    pub look: LookView,
    pub sel: nat,
    pub top: nat,
    pub note: Seq<char>,
    pub rescan_at: Option<u64>,
    pub stage: StageView,
}

impl View for Roam {
    type V = RoamView;

    open spec fn view(&self) -> RoamView {
        RoamView {
            card: self.nm@,
            look: self.look.deep_view(),
            sel: self.sel as nat,
            top: self.top as nat,
            note: self.note@,
            rescan_at: self.rescan_at,
            stage: self.stage.deep_view(),
        }
    }
}

/// How many rows there are.
pub open spec fn row_count(look: LookView) -> nat {
    look.nets.len() + look.vpns.len()
}

/// The row at a place: the networks, then the VPNs.
pub open spec fn row_at(look: LookView, k: int) -> Option<Row> {
    if 0 <= k < look.nets.len() {
        Some(Row::Net(k as usize))
    } else if 0 <= k < row_count(look) {
        Some(Row::Vpn((k - look.nets.len()) as usize))
    } else {
        None
    }
}

/// How long to wait for a key: until the answer to a scan should be in, or
/// for long.
pub open spec fn patience(rescan_at: Option<u64>, now: u64) -> u64 {
    match rescan_at {
        Some(at) => if at > now {
            (at - now) as u64
        } else {
            1
        },
        None => 600_000,
    }
}

/// Nothing under way, waiting for a key.
pub open spec fn listening(s: RoamView, now: u64) -> (RoamView, ActView) {
    (
        RoamView { stage: StageView::Keys, ..s },
        ActView::Listen { wait: patience(s.rescan_at, now) },
    )
}

/// With a note, waiting for a key.
pub open spec fn noting(s: RoamView, note: Seq<char>, now: u64) -> (RoamView, ActView) {
    listening(RoamView { note, ..s }, now)
}

/// With a note, taking a new look.
pub open spec fn looking(s: RoamView, note: Seq<char>, pause: u64) -> (RoamView, ActView) {
    (RoamView { note, stage: StageView::Looking, ..s }, ActView::Look { pause })
}

/// Something is sent.
pub open spec fn sending(s: RoamView, stage: StageView, ask: AskView, show: bool) -> (
    RoamView,
    ActView,
) {
    (RoamView { stage, ..s }, ActView::Send { ask, show })
}

/// A new look is in: the cursor stays on a row.
pub open spec fn refreshed(s: RoamView, look: LookView) -> RoamView {
    RoamView {
        look,
        sel: if s.sel < row_count(look) {
            s.sel
        } else if row_count(look) == 0 {
            0
        } else {
            (row_count(look) - 1) as nat
        },
        ..s
    }
}

/// A network is asked for.
pub open spec fn connecting(s: RoamView, net: NetView, password: Option<Seq<char>>) -> (
    RoamView,
    ActView,
) {
    match s.card {
        Some(card) => sending(
            RoamView { note: "joining "@ + net.ssid + "…"@, ..s },
            StageView::Joining { ssid: net.ssid, asked: password is Some },
            joining(net, card, password),
            true,
        ),
        None => looking(s, "could not join "@ + net.ssid + ": "@ + "no Wi-Fi card"@, 0),
    }
}

/// Enter on a network. A password only for a locked network nobody has
/// saved.
pub open spec fn join_pressed(s: RoamView, net: NetView, now: u64) -> (RoamView, ActView) {
    if net.active is Some {
        noting(s, "already on "@ + net.ssid, now)
    } else if net.lock == Lock::Enterprise && net.saved is None {
        noting(
            s,
            net.ssid + " wants a user name and a certificate; roam cannot set that up yet"@,
            now,
        )
    } else if net.saved is None && net.lock != Lock::Open {
        (
            RoamView { stage: StageView::Password { net }, ..s },
            ActView::Password { prompt: " Password for "@ + net.ssid + ": "@ },
        )
    } else {
        connecting(s, net, None)
    }
}

/// Enter on a VPN: up or down.
pub open spec fn vpn_pressed(s: RoamView, vpn: VpnView) -> (RoamView, ActView) {
    match vpn.active {
        Some(active) => sending(
            s,
            StageView::Dropping { name: vpn.name },
            AskView::Deactivate { active },
            false,
        ),
        None => sending(
            RoamView { note: "bringing "@ + vpn.name + " up…"@, ..s },
            StageView::Starting { name: vpn.name },
            AskView::Activate { conn: vpn.conn, card: nowhere(), ap: nowhere() },
            true,
        ),
    }
}

/// Enter: join the network under the cursor, or switch a VPN.
pub open spec fn enter_pressed(s: RoamView, now: u64) -> (RoamView, ActView) {
    match row_at(s.look, s.sel as int) {
        None => listening(s, now),
        Some(Row::Net(i)) => join_pressed(s, s.look.nets[i as int], now),
        Some(Row::Vpn(i)) => vpn_pressed(s, s.look.vpns[i as int]),
    }
}

/// Where the first live network stands, or the length when none is live.
pub open spec fn live_net(nets: Seq<NetView>) -> nat
    decreases nets.len(),
{
    if nets.len() == 0 || nets[0].active is Some {
        0
    } else {
        1 + live_net(nets.drop_first())
    }
}

/// The network to leave: the one under the cursor if it is live, or else
/// the first live one; the length when none is live.
pub open spec fn net_to_leave(s: RoamView) -> nat {
    if s.sel < s.look.nets.len() && s.look.nets[s.sel as int].active is Some {
        s.sel
    } else {
        live_net(s.look.nets)
    }
}

/// d: leave the network under the cursor if it is the live one, or the live
/// one wherever the cursor is.
pub open spec fn leave_pressed(s: RoamView, now: u64) -> (RoamView, ActView) {
    let k = net_to_leave(s) as int;
    if k >= s.look.nets.len() {
        noting(s, "not on any Wi-Fi"@, now)
    } else {
        match s.look.nets[k].active {
            Some(active) => sending(
                s,
                StageView::Leaving { ssid: s.look.nets[k].ssid },
                AskView::Deactivate { active },
                false,
            ),
            None => listening(s, now),
        }
    }
}

/// f: forget a saved network, after a yes.
pub open spec fn forget_pressed(s: RoamView, now: u64) -> (RoamView, ActView) {
    match row_at(s.look, s.sel as int) {
        Some(Row::Net(i)) => {
            let net = s.look.nets[i as int];
            match net.saved {
                Some(conn) => (
                    RoamView {
                        note: "forget "@ + net.ssid + ", password and all? y/n"@,
                        stage: StageView::Confirming { ssid: net.ssid, conn },
                        ..s
                    },
                    ActView::Listen { wait: 60_000 },
                ),
                None => noting(s, net.ssid + " is not saved"@, now),
            }
        },
        _ => noting(s, "only a saved Wi-Fi network can be forgotten here"@, now),
    }
}

/// m: mark a saved network metered, or take the mark off. What it is marked
/// now is read first.
pub open spec fn mark_pressed(s: RoamView, now: u64) -> (RoamView, ActView) {
    match row_at(s.look, s.sel as int) {
        Some(Row::Net(i)) => {
            let net = s.look.nets[i as int];
            match net.saved {
                Some(conn) => sending(
                    s,
                    StageView::Reading { ssid: net.ssid, conn },
                    AskView::Settings { conn },
                    false,
                ),
                None => noting(s, net.ssid + " is not saved"@, now),
            }
        },
        _ => noting(s, "only a saved Wi-Fi network can be marked here"@, now),
    }
}

/// A scan was asked for: its answer should be in three seconds from now.
pub open spec fn scanned(s: RoamView, now: u64) -> (RoamView, ActView) {
    noting(
        RoamView {
            rescan_at: Some(
                if now <= u64::MAX - 3_000 {
                    (now + 3_000) as u64
                } else {
                    u64::MAX
                },
            ),
            ..s
        },
        "looking for networks…"@,
        now,
    )
}

/// r: look for networks again.
pub open spec fn scan_pressed(s: RoamView, now: u64) -> (RoamView, ActView) {
    match s.card {
        Some(card) => sending(s, StageView::Scanning, AskView::Scan { card }, false),
        None => scanned(s, now),
    }
}

/// What a key does.
pub open spec fn pressed(s: RoamView, key: Seq<char>, now: u64) -> (RoamView, ActView) {
    if key == "q"@ || key == "ESC"@ {
        (s, ActView::Quit)
    } else if key == "j"@ || key == "DOWN"@ {
        listening(
            RoamView {
                sel: if s.sel + 1 < row_count(s.look) {
                    s.sel + 1
                } else {
                    s.sel
                },
                ..s
            },
            now,
        )
    } else if key == "k"@ || key == "UP"@ {
        listening(
            RoamView {
                sel: if s.sel > 0 {
                    (s.sel - 1) as nat
                } else {
                    0
                },
                ..s
            },
            now,
        )
    } else if key == "g"@ || key == "HOME"@ {
        listening(RoamView { sel: 0, ..s }, now)
    } else if key == "G"@ || key == "END"@ {
        listening(
            RoamView {
                sel: if row_count(s.look) > 0 {
                    (row_count(s.look) - 1) as nat
                } else {
                    0
                },
                ..s
            },
            now,
        )
    } else if key == "ENTER"@ {
        enter_pressed(s, now)
    } else if key == "d"@ {
        leave_pressed(s, now)
    } else if key == "f"@ {
        forget_pressed(s, now)
    } else if key == "m"@ {
        mark_pressed(s, now)
    } else if key == "r"@ {
        scan_pressed(s, now)
    } else if key == "w"@ {
        sending(
            s,
            StageView::Switching { on: !s.look.wifi_on },
            AskView::Radio { on: !s.look.wifi_on },
            false,
        )
    } else if key == "?"@ {
        (RoamView { stage: StageView::Helping, ..s }, ActView::Help)
    } else {
        listening(s, now)
    }
}

/// What an answer leads to.
pub open spec fn answered(s: RoamView, answer: AnswerView, now: u64) -> (RoamView, ActView) {
    match s.stage {
        StageView::Joining { ssid, asked } => match answer {
            AnswerView::Rising { active, made } => (
                RoamView { stage: StageView::Waiting { ssid, asked, made }, ..s },
                ActView::Wait { active, limit: 25_000 },
            ),
            AnswerView::Refused(why) => looking(s, "could not join "@ + ssid + ": "@ + why, 0),
            _ => looking(s, "could not join "@ + ssid, 0),
        },
        StageView::Cleaning { note } => looking(s, note, 0),
        StageView::Dropping { name } => match answer {
            AnswerView::Refused(why) => looking(s, name + " stayed up: "@ + why, 0),
            _ => looking(s, name + " down"@, 0),
        },
        StageView::Starting { name } => match answer {
            AnswerView::Rising { active, .. } => (
                RoamView { stage: StageView::Rising { name }, ..s },
                ActView::Wait { active, limit: 30_000 },
            ),
            AnswerView::Refused(why) => looking(s, name + " would not start: "@ + why, 0),
            _ => looking(s, name + " would not come up"@, 0),
        },
        StageView::Leaving { ssid } => match answer {
            AnswerView::Refused(why) => looking(s, "still on "@ + ssid + ": "@ + why, 400),
            _ => looking(s, "left "@ + ssid, 400),
        },
        StageView::Forgetting { ssid } => match answer {
            AnswerView::Refused(why) => looking(s, "kept "@ + ssid + ": "@ + why, 0),
            _ => looking(s, "forgot "@ + ssid, 0),
        },
        StageView::Switching { on } => match answer {
            AnswerView::Refused(why) => looking(s, "Wi-Fi stayed as it was: "@ + why, 400),
            _ => looking(
                s,
                if on {
                    "Wi-Fi on"@
                } else {
                    "Wi-Fi off"@
                },
                400,
            ),
        },
        StageView::Scanning => scanned(s, now),
        StageView::Reading { ssid, conn } => match answer {
            AnswerView::Settings(entries) => sending(
                s,
                StageView::Marking { ssid, metered: !marked_metered(entries) },
                AskView::Mark { conn, metered: !marked_metered(entries) },
                false,
            ),
            AnswerView::Refused(why) => looking(s, ssid + " stayed as it was: "@ + why, 0),
            _ => looking(s, ssid + " stayed as it was"@, 0),
        },
        StageView::Marking { ssid, metered } => match answer {
            AnswerView::Refused(why) => looking(s, ssid + " stayed as it was: "@ + why, 0),
            _ => looking(
                s,
                ssid + (if metered {
                    " is metered"@
                } else {
                    " is not metered"@
                }),
                0,
            ),
        },
        _ => listening(s, now),
    }
}

/// What the end of a wait leads to. A first try that failed leaves nothing
/// behind, so the next try asks for the password again.
pub open spec fn ended(s: RoamView, outcome: Outcome, now: u64) -> (RoamView, ActView) {
    match s.stage {
        StageView::Waiting { ssid, asked, made } => match outcome {
            Outcome::Up => looking(s, "on "@ + ssid, 0),
            Outcome::Slow => looking(s, ssid + " is still coming up"@, 0),
            Outcome::Failed => {
                let note = if asked {
                    ssid + " did not take that password"@
                } else {
                    "could not join "@ + ssid
                };
                match made {
                    Some(conn) => sending(
                        s,
                        StageView::Cleaning { note },
                        AskView::Delete { conn },
                        false,
                    ),
                    None => looking(s, note, 0),
                }
            },
        },
        StageView::Rising { name } => match outcome {
            Outcome::Up => looking(s, name + " up"@, 0),
            Outcome::Failed => looking(s, name + " would not come up"@, 0),
            Outcome::Slow => looking(s, name + " is still coming up"@, 0),
        },
        _ => listening(s, now),
    }
}

/// What an event leads to: how the list stands, and what to do next. An
/// event that nothing waits for leads back to the keys.
pub open spec fn next(s: RoamView, event: EventView, now: u64) -> (RoamView, ActView) {
    match event {
        EventView::Key(key) => match s.stage {
            StageView::Keys => pressed(s, key, now),
            StageView::Confirming { ssid, conn } => if key == "y"@ {
                sending(s, StageView::Forgetting { ssid }, AskView::Delete { conn }, false)
            } else {
                noting(s, seq![], now)
            },
            _ => listening(s, now),
        },
        EventView::Quiet => match (s.stage, s.rescan_at) {
            (StageView::Keys, Some(at)) if now >= at => looking(
                RoamView { rescan_at: None, ..s },
                "looked again"@,
                0,
            ),
            (StageView::Confirming { .. }, _) => noting(s, seq![], now),
            _ => listening(s, now),
        },
        EventView::Typed(text) => match (s.stage, text) {
            (StageView::Password { net }, Some(password)) if password.len() > 0 => connecting(
                s,
                net,
                Some(password),
            ),
            (StageView::Password { .. }, _) => noting(s, seq![], now),
            _ => listening(s, now),
        },
        EventView::Answer(answer) => answered(s, answer, now),
        EventView::Ended(outcome) => ended(s, outcome, now),
        EventView::Looked(look) => match s.stage {
            StageView::Looking => listening(refreshed(s, look), now),
            _ => listening(s, now),
        },
        EventView::Closed => listening(s, now),
    }
}

/// The list as it was first read.
pub open spec fn opened(card: Option<Seq<char>>, look: LookView) -> RoamView {
    RoamView {
        card,
        look,
        sel: 0,
        top: 0,
        note: match card {
            Some(_) => seq![],
            None => "no Wi-Fi card here; VPNs only"@,
        },
        rescan_at: None,
        stage: StageView::Keys,
    }
}

impl Roam {
    /// The list as it was first read.
    pub fn new(nm: Nm, look: Look) -> (roam: Roam)
        ensures
            roam@ == (RoamView {
                card: nm@,
                look: look.deep_view(),
                sel: 0,
                top: 0,
                note: if nm@ is Some {
                    seq![]
                } else {
                    "no Wi-Fi card here; VPNs only"@
                },
                rescan_at: None,
                stage: StageView::Keys,
            }),
            roam@ == opened(nm@, look.deep_view()),
    {
        let note = if nm.has_wifi() {
            String::new()
        } else {
            "no Wi-Fi card here; VPNs only".to_string()
        };
        Roam { nm, look, sel: 0, top: 0, note, rescan_at: None, stage: Stage::Keys }
    }

    /// The rows you can put the cursor on: the networks, then the VPNs.
    pub fn rows(&self) -> (rows: Vec<Row>)
        ensures
            rows@.len() == row_count(self@.look),
            forall|k: int|
                0 <= k < rows@.len() ==> Some(#[trigger] rows@[k]) == row_at(self@.look, k),
    {
        let mut rows: Vec<Row> = Vec::new();
        let mut i: usize = 0;
        while i < self.look.nets.len()
            invariant
                i <= self.look.nets@.len(),
                rows@.len() == i,
                forall|k: int|
                    0 <= k < rows@.len() ==> Some(#[trigger] rows@[k]) == row_at(self@.look, k),
            decreases self.look.nets@.len() - i,
        {
            rows.push(Row::Net(i));
            i = i + 1;
        }
        let mut j: usize = 0;
        while j < self.look.vpns.len()
            invariant
                j <= self.look.vpns@.len(),
                rows@.len() == self.look.nets@.len() + j,
                forall|k: int|
                    0 <= k < rows@.len() ==> Some(#[trigger] rows@[k]) == row_at(self@.look, k),
            decreases self.look.vpns@.len() - j,
        {
            rows.push(Row::Vpn(j));
            j = j + 1;
        }
        rows
    }

    /// The row under the cursor.
    fn row(&self) -> (row: Option<Row>)
        ensures
            row == row_at(self@.look, self@.sel as int),
    {
        let rows = self.rows();
        if self.sel < rows.len() {
            Some(rows[self.sel])
        } else {
            None
        }
    }

    /// Waits for a key.
    pub fn listen(&mut self, now: u64) -> (act: Act)
        ensures
            (final(self)@, act.deep_view()) == listening(old(self)@, now),
    {
        self.stage = Stage::Keys;
        let wait = match self.rescan_at {
            Some(at) => if at > now {
                at - now
            } else {
                1
            },
            None => 600_000,
        };
        Act::Listen { wait }
    }

    /// Puts a line in the status bar and waits for a key.
    fn say(&mut self, note: String, now: u64) -> (act: Act)
        ensures
            (final(self)@, act.deep_view()) == noting(old(self)@, note@, now),
    {
        self.note = note;
        self.listen(now)
    }

    /// Puts a line in the status bar and takes a new look.
    fn look_again(&mut self, note: String, pause: u64) -> (act: Act)
        ensures
            (final(self)@, act.deep_view()) == looking(old(self)@, note@, pause),
    {
        self.note = note;
        self.stage = Stage::Looking;
        Act::Look { pause }
    }

    /// Takes in a new look.
    fn refresh(&mut self, look: Look)
        ensures
            final(self)@ == refreshed(old(self)@, look.deep_view()),
    {
        self.look = look;
        let n = self.rows().len();
        if self.sel >= n {
            self.sel = n.saturating_sub(1);
        }
    }

    /// Enter: join the network under the cursor, or switch a VPN.
    fn enter(&mut self, now: u64) -> (act: Act)
        ensures
            (final(self)@, act.deep_view()) == enter_pressed(old(self)@, now),
    {
        match self.row() {
            None => self.listen(now),
            Some(Row::Net(i)) => self.join(i, now),
            Some(Row::Vpn(i)) => {
                let vpn = self.look.vpns[i].clone();
                match &vpn.active {
                    Some(active) => {
                        self.stage = Stage::Dropping { name: vpn.name.clone() };
                        Act::Send { ask: self.nm.disconnect(active.as_str()), show: false }
                    },
                    None => {
                        self.note = "bringing ".to_string().concat(vpn.name.as_str()).concat(
                            " up…",
                        );
                        self.stage = Stage::Starting { name: vpn.name.clone() };
                        Act::Send { ask: self.nm.vpn_up(vpn.conn.as_str()), show: true }
                    },
                }
            },
        }
    }

    /// Joins a network. A password only for a locked network nobody has
    /// saved.
    fn join(&mut self, i: usize, now: u64) -> (act: Act)
        requires
            i < old(self)@.look.nets.len(),
        ensures
            (final(self)@, act.deep_view()) == join_pressed(
                old(self)@,
                old(self)@.look.nets[i as int],
                now,
            ),
    {
        let net = self.look.nets[i].clone();
        if net.active.is_some() {
            return self.say("already on ".to_string().concat(net.ssid.as_str()), now);
        }
        if net.lock == Lock::Enterprise && net.saved.is_none() {
            return self.say(
                net.ssid.clone().concat(
                    " wants a user name and a certificate; roam cannot set that up yet",
                ),
                now,
            );
        }
        if net.saved.is_none() && net.lock != Lock::Open {
            let prompt = " Password for ".to_string().concat(net.ssid.as_str()).concat(": ");
            self.stage = Stage::Password { net };
            return Act::Password { prompt };
        }
        self.connect(&net, None)
    }

    /// Asks for a network.
    fn connect(&mut self, net: &Net, password: Option<&str>) -> (act: Act)
        ensures
            (final(self)@, act.deep_view()) == connecting(
                old(self)@,
                net.deep_view(),
                password.deep_view(),
            ),
    {
        match self.nm.connect(net, password) {
            Ok(ask) => {
                self.note = "joining ".to_string().concat(net.ssid.as_str()).concat("…");
                self.stage = Stage::Joining { ssid: net.ssid.clone(), asked: password.is_some() };
                Act::Send { ask, show: true }
            },
            Err(why) => self.look_again(
                "could not join ".to_string().concat(net.ssid.as_str()).concat(": ").concat(
                    why.as_str(),
                ),
                0,
            ),
        }
    }

    /// d: leave the network under the cursor if it is the live one, or the
    /// live one wherever the cursor is.
    fn leave(&mut self, now: u64) -> (act: Act)
        ensures
            (final(self)@, act.deep_view()) == leave_pressed(old(self)@, now),
    {
        let k = self.find_live();
        if k >= self.look.nets.len() {
            return self.say("not on any Wi-Fi".to_string(), now);
        }
        let net = self.look.nets[k].clone();
        match &net.active {
            Some(active) => {
                self.stage = Stage::Leaving { ssid: net.ssid.clone() };
                Act::Send { ask: self.nm.disconnect(active.as_str()), show: false }
            },
            None => self.listen(now),
        }
    }

    /// The network to leave.
    fn find_live(&self) -> (at: usize)
        ensures
            at == net_to_leave(self@),
    {
        let nets = &self.look.nets;
        if self.sel < nets.len() && nets[self.sel].active.is_some() {
            return self.sel;
        }
        let ghost all = nets.deep_view();
        let mut k: usize = 0;
        assert(all.skip(0) =~= all);
        while k < nets.len() && nets[k].active.is_none()
            invariant
                k <= nets@.len(),
                all == nets.deep_view(),
                k + live_net(all.skip(k as int)) == live_net(all),
            ensures
                k <= nets@.len(),
                k + live_net(all.skip(k as int)) == live_net(all),
                k < nets@.len() ==> all[k as int].active is Some,
            decreases nets@.len() - k,
        {
            assert(all.skip(k as int).drop_first() =~= all.skip(k + 1));
            k = k + 1;
        }
        k
    }

    /// f: forget a saved network, after a yes.
    fn forget(&mut self, now: u64) -> (act: Act)
        ensures
            (final(self)@, act.deep_view()) == forget_pressed(old(self)@, now),
    {
        match self.row() {
            Some(Row::Net(i)) => {
                let net = self.look.nets[i].clone();
                match &net.saved {
                    Some(conn) => {
                        self.note = "forget ".to_string().concat(net.ssid.as_str()).concat(
                            ", password and all? y/n",
                        );
                        self.stage = Stage::Confirming {
                            ssid: net.ssid.clone(),
                            conn: conn.clone(),
                        };
                        Act::Listen { wait: 60_000 }
                    },
                    None => self.say(net.ssid.clone().concat(" is not saved"), now),
                }
            },
            _ => self.say("only a saved Wi-Fi network can be forgotten here".to_string(), now),
        }
    }

    /// m: mark a saved network metered, or take the mark off.
    fn mark(&mut self, now: u64) -> (act: Act)
        ensures
            (final(self)@, act.deep_view()) == mark_pressed(old(self)@, now),
    {
        match self.row() {
            Some(Row::Net(i)) => {
                let net = self.look.nets[i].clone();
                match &net.saved {
                    Some(conn) => {
                        self.stage = Stage::Reading { ssid: net.ssid.clone(), conn: conn.clone() };
                        Act::Send { ask: Ask::Settings { conn: conn.clone() }, show: false }
                    },
                    None => self.say(net.ssid.clone().concat(" is not saved"), now),
                }
            },
            _ => self.say("only a saved Wi-Fi network can be marked here".to_string(), now),
        }
    }

    /// Notes that a scan was asked for.
    fn scan_asked(&mut self, now: u64) -> (act: Act)
        ensures
            (final(self)@, act.deep_view()) == scanned(old(self)@, now),
    {
        self.rescan_at = Some(now.saturating_add(3_000));
        self.say("looking for networks…".to_string(), now)
    }

    /// r: look for networks again.
    fn scan(&mut self, now: u64) -> (act: Act)
        ensures
            (final(self)@, act.deep_view()) == scan_pressed(old(self)@, now),
    {
        match self.nm.scan() {
            Some(ask) => {
                self.stage = Stage::Scanning;
                Act::Send { ask, show: false }
            },
            None => self.scan_asked(now),
        }
    }

    /// What a key does.
    fn press(&mut self, key: &str, now: u64) -> (act: Act)
        ensures
            (final(self)@, act.deep_view()) == pressed(old(self)@, key@, now),
    {
        if same(key, "q") || same(key, "ESC") {
            Act::Quit
        } else if same(key, "j") || same(key, "DOWN") {
            let n = self.rows().len();
            if self.sel < n && n - self.sel > 1 {
                self.sel = self.sel + 1;
            }
            self.listen(now)
        } else if same(key, "k") || same(key, "UP") {
            self.sel = self.sel.saturating_sub(1);
            self.listen(now)
        } else if same(key, "g") || same(key, "HOME") {
            self.sel = 0;
            self.listen(now)
        } else if same(key, "G") || same(key, "END") {
            self.sel = self.rows().len().saturating_sub(1);
            self.listen(now)
        } else if same(key, "ENTER") {
            self.enter(now)
        } else if same(key, "d") {
            self.leave(now)
        } else if same(key, "f") {
            self.forget(now)
        } else if same(key, "m") {
            self.mark(now)
        } else if same(key, "r") {
            self.scan(now)
        } else if same(key, "w") {
            let on = !self.look.wifi_on;
            self.stage = Stage::Switching { on };
            Act::Send { ask: self.nm.set_wifi(on), show: false }
        } else if same(key, "?") {
            self.stage = Stage::Helping;
            Act::Help
        } else {
            self.listen(now)
        }
    }

    /// What is under way, which is then over.
    fn take_stage(&mut self) -> (stage: Stage)
        ensures
            stage.deep_view() == old(self)@.stage,
            final(self)@ == (RoamView { stage: StageView::Keys, ..old(self)@ }),
    {
        let mut stage = Stage::Keys;
        std::mem::swap(&mut stage, &mut self.stage);
        stage
    }

    /// What an answer leads to.
    fn answer(&mut self, answer: Answer, now: u64) -> (act: Act)
        ensures
            (final(self)@, act.deep_view()) == answered(old(self)@, answer.deep_view(), now),
    {
        match self.take_stage() {
            Stage::Joining { ssid, asked } => match answer {
                Answer::Rising { active, made } => {
                    self.stage = Stage::Waiting { ssid, asked, made };
                    Act::Wait { active, limit: 25_000 }
                },
                Answer::Refused(why) => self.look_again(
                    "could not join ".to_string().concat(ssid.as_str()).concat(": ").concat(
                        why.as_str(),
                    ),
                    0,
                ),
                _ => self.look_again("could not join ".to_string().concat(ssid.as_str()), 0),
            },
            Stage::Cleaning { note } => self.look_again(note, 0),
            Stage::Dropping { name } => match answer {
                Answer::Refused(why) => self.look_again(
                    name.concat(" stayed up: ").concat(why.as_str()),
                    0,
                ),
                _ => self.look_again(name.concat(" down"), 0),
            },
            Stage::Starting { name } => match answer {
                Answer::Rising { active, .. } => {
                    self.stage = Stage::Rising { name };
                    Act::Wait { active, limit: 30_000 }
                },
                Answer::Refused(why) => self.look_again(
                    name.concat(" would not start: ").concat(why.as_str()),
                    0,
                ),
                _ => self.look_again(name.concat(" would not come up"), 0),
            },
            Stage::Leaving { ssid } => match answer {
                Answer::Refused(why) => self.look_again(
                    "still on ".to_string().concat(ssid.as_str()).concat(": ").concat(
                        why.as_str(),
                    ),
                    400,
                ),
                _ => self.look_again("left ".to_string().concat(ssid.as_str()), 400),
            },
            Stage::Forgetting { ssid } => match answer {
                Answer::Refused(why) => self.look_again(
                    "kept ".to_string().concat(ssid.as_str()).concat(": ").concat(why.as_str()),
                    0,
                ),
                _ => self.look_again("forgot ".to_string().concat(ssid.as_str()), 0),
            },
            Stage::Switching { on } => match answer {
                Answer::Refused(why) => self.look_again(
                    "Wi-Fi stayed as it was: ".to_string().concat(why.as_str()),
                    400,
                ),
                _ => {
                    let note = if on {
                        "Wi-Fi on"
                    } else {
                        "Wi-Fi off"
                    };
                    self.look_again(note.to_string(), 400)
                },
            },
            Stage::Scanning => self.scan_asked(now),
            Stage::Reading { ssid, conn } => match answer {
                Answer::Settings(entries) => {
                    let metered = !is_marked_metered(&entries);
                    self.stage = Stage::Marking { ssid, metered };
                    Act::Send { ask: Ask::Mark { conn, metered }, show: false }
                },
                Answer::Refused(why) => self.look_again(
                    ssid.concat(" stayed as it was: ").concat(why.as_str()),
                    0,
                ),
                _ => self.look_again(ssid.concat(" stayed as it was"), 0),
            },
            Stage::Marking { ssid, metered } => match answer {
                Answer::Refused(why) => self.look_again(
                    ssid.concat(" stayed as it was: ").concat(why.as_str()),
                    0,
                ),
                _ => {
                    let how = if metered {
                        " is metered"
                    } else {
                        " is not metered"
                    };
                    self.look_again(ssid.concat(how), 0)
                },
            },
            _ => self.listen(now),
        }
    }

    /// What the end of a wait leads to.
    fn end(&mut self, outcome: Outcome, now: u64) -> (act: Act)
        ensures
            (final(self)@, act.deep_view()) == ended(old(self)@, outcome, now),
    {
        match self.take_stage() {
            Stage::Waiting { ssid, asked, made } => match outcome {
                Outcome::Up => self.look_again("on ".to_string().concat(ssid.as_str()), 0),
                Outcome::Slow => self.look_again(ssid.concat(" is still coming up"), 0),
                Outcome::Failed => {
                    let note = if asked {
                        ssid.concat(" did not take that password")
                    } else {
                        "could not join ".to_string().concat(ssid.as_str())
                    };
                    match made {
                        Some(conn) => {
                            self.stage = Stage::Cleaning { note };
                            Act::Send { ask: self.nm.forget(conn.as_str()), show: false }
                        },
                        None => self.look_again(note, 0),
                    }
                },
            },
            Stage::Rising { name } => match outcome {
                Outcome::Up => self.look_again(name.concat(" up"), 0),
                Outcome::Failed => self.look_again(name.concat(" would not come up"), 0),
                Outcome::Slow => self.look_again(name.concat(" is still coming up"), 0),
            },
            _ => self.listen(now),
        }
    }

    /// Takes in an event, `now` on a clock of milliseconds, and says what to
    /// do next.
    pub fn step(&mut self, event: Event, now: u64) -> (act: Act)
        ensures
            (final(self)@, act.deep_view()) == next(old(self)@, event.deep_view(), now),
    {
        match event {
            Event::Key(key) => match self.take_stage() {
                Stage::Keys => self.press(key.as_str(), now),
                Stage::Confirming { ssid, conn } => if same(key.as_str(), "y") {
                    self.stage = Stage::Forgetting { ssid };
                    Act::Send { ask: self.nm.forget(conn.as_str()), show: false }
                } else {
                    self.say(String::new(), now)
                },
                _ => self.listen(now),
            },
            Event::Quiet => match self.take_stage() {
                Stage::Keys => match self.rescan_at {
                    Some(at) => if now >= at {
                        self.rescan_at = None;
                        self.look_again("looked again".to_string(), 0)
                    } else {
                        self.listen(now)
                    },
                    None => self.listen(now),
                },
                Stage::Confirming { .. } => self.say(String::new(), now),
                _ => self.listen(now),
            },
            Event::Typed(text) => match self.take_stage() {
                Stage::Password { net } => match text {
                    Some(password) => if password.as_str().is_empty() {
                        self.say(String::new(), now)
                    } else {
                        self.connect(&net, Some(password.as_str()))
                    },
                    None => self.say(String::new(), now),
                },
                _ => self.listen(now),
            },
            Event::Answer(answer) => self.answer(answer, now),
            Event::Ended(outcome) => self.end(outcome, now),
            Event::Looked(look) => match self.take_stage() {
                Stage::Looking => {
                    self.refresh(look);
                    self.listen(now)
                },
                _ => self.listen(now),
            },
            Event::Closed => self.listen(now),
        }
    }

    /// The screen as it is to be drawn, the list scrolled so the cursor
    /// stays in view.
    pub fn draw(&mut self, cols: u16, rows: u16, version: &str) -> (out: String)
        ensures
            final(self)@ == (RoamView {
                top: scrolled(old(self)@.sel, old(self)@.top, list_height(rows)),
                ..old(self)@
            }),
            out@ == frame_drawn(
                old(self)@.look,
                old(self)@.sel,
                final(self)@.top,
                old(self)@.note,
                version@,
                cols,
                rows,
            ),
    {
        let height: u16 = rows.saturating_sub(4);
        self.top = scroll(self.sel, self.top, height as usize);
        frame(&self.look, self.sel, self.top, self.note.as_str(), version, cols, rows)
    }
}

} // verus!
