//! The watcher: leave a metered network when a better saved one comes into
//! range, and bring back the VPN that was up.
//!
//! It sleeps on signals. On an unmetered network it hears only
//! NetworkManager's own properties changing, which they do when the
//! connection changes. On a metered one it also hears each access point
//! that NetworkManager's own scans turn up; it never scans by itself.
//!
//! A step takes in an event and says what to do next; what comes of that is
//! the next event.

use vstd::prelude::*;
use vstd::string::*;

use crate::better::{
    best_in_air, best_of, better, better_of, find_better, place_of, skip_better, skipping, ups,
    vpns_up, wifi_now, wifi_on, Better, BetterView,
};
use crate::bus::{Answer, AnswerView, Ask, AskView, NM_PATH};
use crate::nm::{again, nowhere, Nm, Outcome};
use crate::reading::{vpns_of, Active, ActiveView, Ap, ApView, Saved, SavedView};
use crate::text::{holds, lines_of, same};
use crate::watch::{
    any_tunnel, portals, rc_from, read_rc, tunnel_up, Link, LinkView, Rc, RcView,
};

verus! {

/// A message on the bus, as far as its body could be read.
pub struct Message {
    /// Whether it is a signal.
    pub signal: bool,
    pub member: Option<String>,
    pub path: Option<String>,
    /// The properties that changed, where it tells of some.
    pub changed: Option<Vec<String>>,
    /// The access point, where it tells of one.
    pub ap: Option<String>,
}

/// What a `Message` says.
pub struct MessageView {
    pub signal: bool,
    pub member: Option<Seq<char>>,
    pub path: Option<Seq<char>>,
    pub changed: Option<Seq<Seq<char>>>,
    pub ap: Option<Seq<char>>,
}

impl DeepView for Message {
    type V = MessageView;

    open spec fn deep_view(&self) -> MessageView {
        MessageView {
            signal: self.signal,
            member: self.member.deep_view(),
            path: self.path.deep_view(),
            changed: self.changed.deep_view(),
            ap: self.ap.deep_view(),
        }
    }
}

/// What is in the air and what is up, when a better network is in range.
pub struct Survey {
    pub aps: Vec<Ap>,
    pub saved: Vec<Saved>,
    pub actives: Vec<Active>,
    pub links: Vec<Link>,
}

/// What a `Survey` says.
pub struct SurveyView {
    pub aps: Seq<ApView>,
    pub saved: Seq<SavedView>,
    pub actives: Seq<ActiveView>,
    pub links: Seq<LinkView>,
}

impl DeepView for Survey {
    type V = SurveyView;

    open spec fn deep_view(&self) -> SurveyView {
        SurveyView {
            aps: self.aps.deep_view(),
            saved: self.saved.deep_view(),
            actives: self.actives.deep_view(),
            links: self.links.deep_view(),
        }
    }
}

/// A move to a better network, and what to bring back after it.
pub struct Plan {
    pub to: Better,
    /// The access point to go through.
    pub ap: String,
    /// The name of the network that is left.
    pub from: String,
    /// The saved connection to go back to.
    pub back: Option<String>,
    /// The VPNs that were up.
    pub vpns: Vec<String>,
    /// Whether a tunnel was up that NetworkManager does not run.
    pub tunnel: bool,
}

/// What a `Plan` says.
pub struct PlanView {
    pub to: BetterView,
    pub ap: Seq<char>,
    pub from: Seq<char>,
    pub back: Option<Seq<char>>,
    pub vpns: Seq<Seq<char>>,
    pub tunnel: bool,
}

impl DeepView for Plan {
    type V = PlanView;

    open spec fn deep_view(&self) -> PlanView {
        PlanView {
            to: self.to.deep_view(),
            ap: self.ap@,
            from: self.from@,
            back: self.back.deep_view(),
            vpns: self.vpns.deep_view(),
            tunnel: self.tunnel,
        }
    }
}

/// What is under way.
pub enum Phase {
    /// Nothing: the next message decides.
    Idle,
    /// Whether the network is metered is being read.
    Asking,
    /// The saved networks and the two files are being read.
    Learning,
    /// The bus is told which signals to pass on.
    Tuning,
    /// A new access point is being read.
    Naming,
    /// The air and what is up are being read.
    Surveying,
    /// The tunnel is being taken down.
    Dropping { plan: Plan },
    /// The better network was asked for.
    Moving { plan: Plan },
    /// The better network is coming up.
    Settling { plan: Plan },
    /// Whether a login page stands in the way is being read.
    Probing { plan: Plan },
    /// A captive portal is being written down.
    Remembering { plan: Plan },
    /// The network that was left was asked for.
    Returning { plan: Plan, portal: bool },
    /// The network that was left is coming up.
    Landing { plan: Plan, portal: bool },
    /// You are being told.
    Telling { vpns: Vec<String>, tunnel: bool },
    /// A VPN was asked for; these are left.
    Raising { vpns: Vec<String>, tunnel: bool },
    /// A VPN is coming up; these are left.
    Rising { vpns: Vec<String>, tunnel: bool },
    /// The tunnel is being started.
    Spawning,
}

/// What a `Phase` says.
pub enum PhaseView {
    Idle,
    Asking,
    Learning,
    Tuning,
    Naming,
    Surveying,
    Dropping { plan: PlanView },
    Moving { plan: PlanView },
    Settling { plan: PlanView },
    Probing { plan: PlanView },
    Remembering { plan: PlanView },
    Returning { plan: PlanView, portal: bool },
    Landing { plan: PlanView, portal: bool },
    Telling { vpns: Seq<Seq<char>>, tunnel: bool },
    Raising { vpns: Seq<Seq<char>>, tunnel: bool },
    Rising { vpns: Seq<Seq<char>>, tunnel: bool },
    Spawning,
}

impl DeepView for Phase {
    type V = PhaseView;

    open spec fn deep_view(&self) -> PhaseView {
        match *self {
            Phase::Idle => PhaseView::Idle,
            Phase::Asking => PhaseView::Asking,
            Phase::Learning => PhaseView::Learning,
            Phase::Tuning => PhaseView::Tuning,
            Phase::Naming => PhaseView::Naming,
            Phase::Surveying => PhaseView::Surveying,
            Phase::Dropping { plan } => PhaseView::Dropping { plan: plan.deep_view() },
            Phase::Moving { plan } => PhaseView::Moving { plan: plan.deep_view() },
            Phase::Settling { plan } => PhaseView::Settling { plan: plan.deep_view() },
            Phase::Probing { plan } => PhaseView::Probing { plan: plan.deep_view() },
            Phase::Remembering { plan } => PhaseView::Remembering { plan: plan.deep_view() },
            Phase::Returning { plan, portal } => PhaseView::Returning {
                plan: plan.deep_view(),
                portal,
            },
            Phase::Landing { plan, portal } => PhaseView::Landing {
                plan: plan.deep_view(),
                portal,
            },
            Phase::Telling { vpns, tunnel } => PhaseView::Telling {
                vpns: vpns.deep_view(),
                tunnel,
            },
            Phase::Raising { vpns, tunnel } => PhaseView::Raising {
                vpns: vpns.deep_view(),
                tunnel,
            },
            Phase::Rising { vpns, tunnel } => PhaseView::Rising { vpns: vpns.deep_view(), tunnel },
            Phase::Spawning => PhaseView::Spawning,
        }
    }
}

/// What happened.
pub enum News {
    /// A message came in.
    Heard(Message),
    /// NetworkManager's word on whether the network is metered.
    Metered(Option<u32>),
    /// The saved connections, and the texts of `~/.roam/portals` and
    /// `~/.roamrc`.
    Learned { saved: Vec<Saved>, portals: String, rc: String },
    /// The access point that was asked about.
    Named(Ap),
    /// The air and what is up.
    Surveyed(Survey),
    /// What was sent was answered.
    Answer(Answer),
    /// The wait for a connection was over.
    Ended(Outcome),
    /// NetworkManager's word on what lies beyond the network.
    Connectivity(Option<u32>),
    /// Done, well or not.
    Done,
}

/// What `News` say.
pub enum NewsView {
    Heard(MessageView),
    Metered(Option<u32>),
    Learned { saved: Seq<SavedView>, portals: Seq<char>, rc: Seq<char> },
    Named(ApView),
    Surveyed(SurveyView),
    Answer(AnswerView),
    Ended(Outcome),
    Connectivity(Option<u32>),
    Done,
}

impl DeepView for News {
    type V = NewsView;

    open spec fn deep_view(&self) -> NewsView {
        match *self {
            News::Heard(message) => NewsView::Heard(message.deep_view()),
            News::Metered(n) => NewsView::Metered(n),
            News::Learned { saved, portals, rc } => NewsView::Learned {
                saved: saved.deep_view(),
                portals: portals@,
                rc: rc@,
            },
            News::Named(ap) => NewsView::Named(ap.deep_view()),
            News::Surveyed(survey) => NewsView::Surveyed(survey.deep_view()),
            News::Answer(answer) => NewsView::Answer(answer.deep_view()),
            News::Ended(outcome) => NewsView::Ended(outcome),
            News::Connectivity(n) => NewsView::Connectivity(n),
            News::Done => NewsView::Done,
        }
    }
}

/// What to do next. Times are in milliseconds.
pub enum Task {
    /// Sleep until the next message.
    Sleep,
    /// Read whether the network is metered.
    ReadMetered,
    /// Read the saved connections and the two files.
    ReadSaved,
    /// Have the bus pass on new access points.
    Subscribe,
    /// Have the bus keep new access points to itself.
    Unsubscribe,
    /// Read an access point.
    ReadAp { path: String },
    /// Read the air and what is up.
    Survey,
    /// Run a command and wait for its end.
    Run { command: String },
    /// Send this to NetworkManager.
    Send { ask: Ask },
    /// Wait so long for a connection to come up or fail.
    Wait { active: String, limit: u64 },
    /// Read what lies beyond the network.
    ReadConnectivity,
    /// Write down a captive portal.
    Remember { ssid: String },
    /// Tell the one at the screen.
    Tell { body: String },
    /// Start a command and leave it to run.
    Spawn { command: String },
}

/// What a `Task` says.
pub enum TaskView {
    Sleep,
    ReadMetered,
    ReadSaved,
    Subscribe,
    Unsubscribe,
    ReadAp { path: Seq<char> },
    Survey,
    Run { command: Seq<char> },
    Send { ask: AskView },
    Wait { active: Seq<char>, limit: u64 },
    ReadConnectivity,
    Remember { ssid: Seq<char> },
    Tell { body: Seq<char> },
    Spawn { command: Seq<char> },
}

impl DeepView for Task {
    type V = TaskView;

    open spec fn deep_view(&self) -> TaskView {
        match *self {
            Task::Sleep => TaskView::Sleep,
            Task::ReadMetered => TaskView::ReadMetered,
            Task::ReadSaved => TaskView::ReadSaved,
            Task::Subscribe => TaskView::Subscribe,
            Task::Unsubscribe => TaskView::Unsubscribe,
            Task::ReadAp { path } => TaskView::ReadAp { path: path@ },
            Task::Survey => TaskView::Survey,
            Task::Run { command } => TaskView::Run { command: command@ },
            Task::Send { ask } => TaskView::Send { ask: ask.deep_view() },
            Task::Wait { active, limit } => TaskView::Wait { active: active@, limit },
            Task::ReadConnectivity => TaskView::ReadConnectivity,
            Task::Remember { ssid } => TaskView::Remember { ssid: ssid@ },
            Task::Tell { body } => TaskView::Tell { body: body@ },
            Task::Spawn { command } => TaskView::Spawn { command: command@ },
        }
    }
}

/// The watcher and what is under way with it.
pub struct Watch {
    pub nm: Nm,
    pub metered: bool,
    /// While metered: the saved networks worth switching to.
    pub better: Vec<Better>,
    pub rc: Rc,
    pub phase: Phase,
}

/// What a `Watch` says.
pub struct WatchView {
    /// The Wi-Fi card.
    pub card: Option<Seq<char>>,
    pub metered: bool,
    pub better: Seq<BetterView>,
    pub rc: RcView,
    pub phase: PhaseView,
}

/// A card, or nowhere.
pub open spec fn card_or_nowhere(card: Option<Seq<char>>) -> Seq<char> {
    match card {
        Some(card) => card,
        None => nowhere(),
    }
}

impl View for Watch {
    type V = WatchView;

    open spec fn view(&self) -> WatchView {
        WatchView {
            card: self.nm@,
            metered: self.metered,
            better: self.better.deep_view(),
            rc: self.rc.deep_view(),
            phase: self.phase.deep_view(),
        }
    }
}

/// NetworkManager's numbers for a metered network: it is marked so, or it
/// is guessed to be one.
pub open spec fn says_metered(n: Option<u32>) -> bool {
    n == Some(1u32) || n == Some(3u32)
}

/// NetworkManager's number for a login page in the way.
pub const PORTAL: u32 = 2;

/// In a phase, with something to do.
pub open spec fn going(s: WatchView, phase: PhaseView, task: TaskView) -> (WatchView, TaskView) {
    (WatchView { phase, ..s }, task)
}

/// Finding out whether the network is metered.
pub open spec fn syncing(s: WatchView) -> (WatchView, TaskView) {
    going(s, PhaseView::Asking, TaskView::ReadMetered)
}

/// Nothing under way.
pub open spec fn resting(s: WatchView) -> (WatchView, TaskView) {
    going(s, PhaseView::Idle, TaskView::Sleep)
}

/// Whether a message tells that NetworkManager's word on being metered
/// changed.
pub open spec fn tells_metered(m: MessageView) -> bool {
    &&& m.signal
    &&& m.member == Some("PropertiesChanged"@)
    &&& m.path == Some(NM_PATH@)
    &&& m.changed matches Some(keys) && keys.contains("Metered"@)
}

/// Whether a message tells of a new access point.
pub open spec fn tells_ap(m: MessageView) -> bool {
    &&& m.signal
    &&& m.member == Some("AccessPointAdded"@)
    &&& m.ap is Some
}

/// What a message leads to while nothing is under way.
pub open spec fn heard(s: WatchView, m: MessageView) -> (WatchView, TaskView) {
    if tells_metered(m) {
        syncing(s)
    } else if s.metered && tells_ap(m) {
        going(s, PhaseView::Naming, TaskView::ReadAp { path: m.ap->0 })
    } else {
        (s, TaskView::Sleep)
    }
}

/// New access points are listened for only while on a metered network.
pub open spec fn synced(s: WatchView, now: bool) -> (WatchView, TaskView) {
    if now == s.metered {
        resting(s)
    } else if now {
        going(WatchView { metered: true, ..s }, PhaseView::Learning, TaskView::ReadSaved)
    } else {
        going(
            WatchView { metered: false, better: seq![], ..s },
            PhaseView::Tuning,
            TaskView::Unsubscribe,
        )
    }
}

/// The move to make, if there is one: to the best network in range.
pub open spec fn planned(s: WatchView, survey: SurveyView) -> Option<PlanView> {
    match best_of(s.better, survey.aps) {
        None => None,
        Some((to, ap)) => {
            let before = wifi_on(survey.saved, survey.actives);
            let vpns = ups(vpns_of(survey.saved, survey.actives));
            Some(
                PlanView {
                    to,
                    ap: ap.path,
                    from: match before {
                        Some((_, name)) => name,
                        None => seq![],
                    },
                    back: match before {
                        Some((conn, _)) => Some(conn),
                        None => None,
                    },
                    vpns,
                    // A tunnel of its own is openfortivpn's; one under a VPN
                    // NetworkManager runs is that VPN's.
                    tunnel: vpns.len() == 0 && any_tunnel(survey.links) && s.rc.vpn_up is Some,
                },
            )
        },
    }
}

/// The better network is asked for.
pub open spec fn moving(s: WatchView, plan: PlanView) -> (WatchView, TaskView) {
    going(
        s,
        PhaseView::Moving { plan },
        TaskView::Send {
            ask: AskView::Activate {
                conn: plan.to.conn,
                card: card_or_nowhere(s.card),
                ap: plan.ap,
            },
        },
    )
}

/// What a survey leads to.
pub open spec fn surveyed(s: WatchView, survey: SurveyView) -> (WatchView, TaskView) {
    match planned(s, survey) {
        None => syncing(s),
        Some(plan) => match s.rc.vpn_down {
            Some(command) if plan.tunnel => going(
                s,
                PhaseView::Dropping { plan },
                TaskView::Run { command },
            ),
            _ => moving(s, plan),
        },
    }
}

/// The words for a move that was made.
pub open spec fn moved_words(plan: PlanView) -> Seq<char> {
    "Left "@ + plan.from + " for "@ + plan.to.ssid + (if plan.tunnel || plan.vpns.len() > 0 {
        "; bringing the VPN back"@
    } else {
        ""@
    })
}

/// The words for a move that came to nothing.
pub open spec fn back_words(plan: PlanView, portal: bool) -> Seq<char> {
    plan.to.ssid + " had "@ + (if portal {
        "a login page; it is skipped from now on"@
    } else {
        "no way in"@
    }) + "; back on "@ + plan.from
}

/// Telling, with the VPNs still to be brought back.
pub open spec fn telling(s: WatchView, plan: PlanView, body: Seq<char>) -> (WatchView, TaskView) {
    going(
        s,
        PhaseView::Telling { vpns: plan.vpns, tunnel: plan.tunnel },
        TaskView::Tell { body },
    )
}

/// Back where it was.
pub open spec fn going_back(s: WatchView, plan: PlanView, portal: bool) -> (WatchView, TaskView) {
    match plan.back {
        Some(conn) => going(
            s,
            PhaseView::Returning { plan, portal },
            TaskView::Send {
                ask: AskView::Activate { conn, card: card_or_nowhere(s.card), ap: nowhere() },
            },
        ),
        None => telling(s, plan, back_words(plan, portal)),
    }
}

/// The VPNs are brought back, one by one, and then the tunnel.
pub open spec fn raising(s: WatchView, vpns: Seq<Seq<char>>, tunnel: bool) -> (
    WatchView,
    TaskView,
) {
    if vpns.len() > 0 {
        going(
            s,
            PhaseView::Raising { vpns: vpns.drop_first(), tunnel },
            TaskView::Send {
                ask: AskView::Activate { conn: vpns[0], card: nowhere(), ap: nowhere() },
            },
        )
    } else {
        match s.rc.vpn_up {
            Some(command) if tunnel => going(
                s,
                PhaseView::Spawning,
                TaskView::Spawn { command },
            ),
            _ => syncing(s),
        }
    }
}

/// What an answer leads to.
pub open spec fn answered(s: WatchView, answer: AnswerView) -> (WatchView, TaskView) {
    match s.phase {
        PhaseView::Moving { plan } => match answer {
            AnswerView::Rising { active, .. } => going(
                s,
                PhaseView::Settling { plan },
                TaskView::Wait { active, limit: 25_000 },
            ),
            _ => going_back(s, plan, false),
        },
        PhaseView::Returning { plan, portal } => match answer {
            AnswerView::Rising { active, .. } => going(
                s,
                PhaseView::Landing { plan, portal },
                TaskView::Wait { active, limit: 25_000 },
            ),
            _ => telling(s, plan, back_words(plan, portal)),
        },
        PhaseView::Raising { vpns, tunnel } => match answer {
            AnswerView::Rising { active, .. } => going(
                s,
                PhaseView::Rising { vpns, tunnel },
                TaskView::Wait { active, limit: 30_000 },
            ),
            _ => raising(s, vpns, tunnel),
        },
        _ => (s, TaskView::Sleep),
    }
}

/// What the end of a wait leads to.
pub open spec fn ended(s: WatchView, outcome: Outcome) -> (WatchView, TaskView) {
    match s.phase {
        PhaseView::Settling { plan } => if outcome == Outcome::Up {
            going(s, PhaseView::Probing { plan }, TaskView::ReadConnectivity)
        } else {
            going_back(s, plan, false)
        },
        PhaseView::Landing { plan, portal } => telling(s, plan, back_words(plan, portal)),
        PhaseView::Rising { vpns, tunnel } => raising(s, vpns, tunnel),
        _ => (s, TaskView::Sleep),
    }
}

/// What the end of something else leads to.
pub open spec fn done(s: WatchView) -> (WatchView, TaskView) {
    match s.phase {
        PhaseView::Tuning => resting(s),
        PhaseView::Dropping { plan } => moving(s, plan),
        PhaseView::Remembering { plan } => going_back(s, plan, true),
        PhaseView::Telling { vpns, tunnel } => raising(s, vpns, tunnel),
        PhaseView::Spawning => syncing(s),
        _ => (s, TaskView::Sleep),
    }
}

/// What news lead to: how the watcher stands, and what to do next. News
/// that nothing waits for change nothing.
pub open spec fn next(s: WatchView, news: NewsView) -> (WatchView, TaskView) {
    match news {
        NewsView::Heard(m) => match s.phase {
            PhaseView::Idle => heard(s, m),
            _ => (s, TaskView::Sleep),
        },
        NewsView::Metered(n) => match s.phase {
            PhaseView::Asking => synced(s, says_metered(n)),
            _ => (s, TaskView::Sleep),
        },
        NewsView::Learned { saved, portals, rc } => match s.phase {
            PhaseView::Learning => going(
                WatchView { better: better_of(saved, lines_of(portals)), rc: rc_from(rc), ..s },
                PhaseView::Tuning,
                TaskView::Subscribe,
            ),
            _ => (s, TaskView::Sleep),
        },
        NewsView::Named(ap) => match s.phase {
            PhaseView::Naming => if place_of(s.better, ap.name()) < s.better.len() {
                going(s, PhaseView::Surveying, TaskView::Survey)
            } else {
                resting(s)
            },
            _ => (s, TaskView::Sleep),
        },
        NewsView::Surveyed(survey) => match s.phase {
            PhaseView::Surveying => surveyed(s, survey),
            _ => (s, TaskView::Sleep),
        },
        NewsView::Answer(answer) => answered(s, answer),
        NewsView::Ended(outcome) => ended(s, outcome),
        NewsView::Connectivity(n) => match s.phase {
            PhaseView::Probing { plan } => if n == Some(PORTAL) {
                going(
                    WatchView { better: skipping(s.better, plan.to.ssid), ..s },
                    PhaseView::Remembering { plan },
                    TaskView::Remember { ssid: plan.to.ssid },
                )
            } else {
                telling(s, plan, moved_words(plan))
            },
            _ => (s, TaskView::Sleep),
        },
        NewsView::Done => done(s),
    }
}

/// A watcher as it starts on the card there is, and the first thing to do.
pub open spec fn starting(card: Option<Seq<char>>) -> Option<(WatchView, TaskView)> {
    match card {
        Some(_) => Some(
            (
                WatchView {
                    card,
                    metered: false,
                    better: seq![],
                    rc: RcView { vpn_up: None, vpn_down: None },
                    phase: PhaseView::Asking,
                },
                TaskView::ReadMetered,
            ),
        ),
        None => None,
    }
}

impl Watch {
    /// A watcher on a Wi-Fi card, if there is one to watch, and the first
    /// thing to do.
    pub fn new(nm: Nm) -> (watch: Option<(Watch, Task)>)
        ensures
            match (nm@, watch) {
                (Some(card), Some((watch, task))) => (watch@, task.deep_view()) == syncing(
                    WatchView {
                        card: Some(card),
                        metered: false,
                        better: seq![],
                        rc: RcView { vpn_up: None, vpn_down: None },
                        phase: PhaseView::Idle,
                    },
                ),
                (None, None) => true,
                _ => false,
            },
            match watch {
                Some((watch, task)) => starting(nm@) == Some((watch@, task.deep_view())),
                None => starting(nm@) is None,
            },
    {
        if !nm.has_wifi() {
            return None;
        }
        let better: Vec<Better> = Vec::new();
        assert(better.deep_view() =~= Seq::<BetterView>::empty());
        let mut watch = Watch {
            nm,
            metered: false,
            better,
            rc: Rc { vpn_up: None, vpn_down: None },
            phase: Phase::Idle,
        };
        let task = watch.check();
        Some((watch, task))
    }

    /// Finds out whether the network is metered.
    fn check(&mut self) -> (task: Task)
        ensures
            (final(self)@, task.deep_view()) == syncing(old(self)@),
    {
        self.phase = Phase::Asking;
        Task::ReadMetered
    }

    /// Nothing under way.
    fn rest(&mut self) -> (task: Task)
        ensures
            (final(self)@, task.deep_view()) == resting(old(self)@),
    {
        self.phase = Phase::Idle;
        Task::Sleep
    }

    /// What a message leads to while nothing is under way.
    fn hear(&mut self, message: &Message) -> (task: Task)
        ensures
            (final(self)@, task.deep_view()) == heard(old(self)@, message.deep_view()),
    {
        let (changed, added) = match (&message.member, message.signal) {
            (Some(member), true) => (
                same(member.as_str(), "PropertiesChanged"),
                same(member.as_str(), "AccessPointAdded"),
            ),
            _ => (false, false),
        };
        let here = match &message.path {
            Some(path) => same(path.as_str(), NM_PATH),
            None => false,
        };
        let metered = match &message.changed {
            Some(keys) => holds(keys, "Metered"),
            None => false,
        };
        if changed && here && metered {
            return self.check();
        }
        match &message.ap {
            Some(ap) => {
                if self.metered && added {
                    self.phase = Phase::Naming;
                    return Task::ReadAp { path: ap.clone() };
                }
            },
            None => {},
        }
        Task::Sleep
    }

    /// Listens for new access points only while on a metered network, which
    /// `now` says it is or is not. A second time changes nothing.
    pub fn sync(&mut self, now: bool) -> (task: Task)
        ensures
            (final(self)@, task.deep_view()) == synced(old(self)@, now),
            final(self)@.metered == now,
            (old(self)@.metered || old(self)@.better.len() == 0) ==> (final(self)@.metered
                || final(self)@.better.len() == 0),
            old(self)@.metered == now ==> task is Sleep && final(self)@ == (WatchView {
                phase: PhaseView::Idle,
                ..old(self)@
            }),
            old(self)@.metered && !now ==> task is Unsubscribe,
            !old(self)@.metered && now ==> task is ReadSaved,
    {
        if now == self.metered {
            return self.rest();
        }
        self.metered = now;
        if now {
            self.phase = Phase::Learning;
            Task::ReadSaved
        } else {
            self.better = Vec::new();
            assert(self.better.deep_view() =~= Seq::<BetterView>::empty());
            self.phase = Phase::Tuning;
            Task::Unsubscribe
        }
    }

    /// The better network in range that NetworkManager would pick first:
    /// highest priority, then the one used last, then the strongest.
    fn best_in_air(&self, aps: &Vec<Ap>) -> (best: Option<(Better, String)>)
        ensures
            best.deep_view() == match best_of(self@.better, aps.deep_view()) {
                Some((b, ap)) => Some((b, ap.path)),
                None => None,
            },
    {
        best_in_air(&self.better, aps)
    }

    /// The move to make, if there is one.
    fn plan(&self, survey: &Survey) -> (plan: Option<Plan>)
        ensures
            plan.deep_view() == planned(self@, survey.deep_view()),
    {
        match self.best_in_air(&survey.aps) {
            None => None,
            Some((to, ap)) => {
                let (from, back) = match wifi_now(&survey.saved, &survey.actives) {
                    Some((conn, name)) => (name, Some(conn)),
                    None => (String::new(), None),
                };
                let vpns = vpns_up(&survey.saved, &survey.actives);
                let tunnel = vpns.len() == 0 && tunnel_up(&survey.links) && self.rc.vpn_up.is_some();
                Some(Plan { to, ap, from, back, vpns, tunnel })
            },
        }
    }

    /// Asks for the better network.
    fn go(&mut self, plan: Plan) -> (task: Task)
        ensures
            (final(self)@, task.deep_view()) == moving(old(self)@, plan.deep_view()),
    {
        let ask = self.nm.activate(plan.to.conn.as_str(), Some(plan.ap.as_str()));
        self.phase = Phase::Moving { plan };
        Task::Send { ask }
    }

    /// Moves to the best network in range.
    fn switch(&mut self, survey: &Survey) -> (task: Task)
        ensures
            (final(self)@, task.deep_view()) == surveyed(old(self)@, survey.deep_view()),
    {
        match self.plan(survey) {
            None => self.check(),
            Some(plan) => {
                if plan.tunnel {
                    let command = again(&self.rc.vpn_down);
                    match command {
                        Some(command) => {
                            self.phase = Phase::Dropping { plan };
                            return Task::Run { command };
                        },
                        None => {},
                    }
                }
                self.go(plan)
            },
        }
    }

    /// Tells of a move that was made.
    fn tell_moved(&mut self, plan: Plan) -> (task: Task)
        ensures
            (final(self)@, task.deep_view()) == telling(
                old(self)@,
                plan.deep_view(),
                moved_words(plan.deep_view()),
            ),
    {
        let vpn = if plan.tunnel || plan.vpns.len() > 0 {
            "; bringing the VPN back"
        } else {
            ""
        };
        let body = "Left ".to_string().concat(plan.from.as_str()).concat(" for ").concat(
            plan.to.ssid.as_str(),
        ).concat(vpn);
        self.phase = Phase::Telling { vpns: plan.vpns, tunnel: plan.tunnel };
        Task::Tell { body }
    }

    /// Tells of a move that came to nothing.
    fn tell_back(&mut self, plan: Plan, portal: bool) -> (task: Task)
        ensures
            (final(self)@, task.deep_view()) == telling(
                old(self)@,
                plan.deep_view(),
                back_words(plan.deep_view(), portal),
            ),
    {
        let why = if portal {
            "a login page; it is skipped from now on"
        } else {
            "no way in"
        };
        let body = plan.to.ssid.concat(" had ").concat(why).concat("; back on ").concat(
            plan.from.as_str(),
        );
        self.phase = Phase::Telling { vpns: plan.vpns, tunnel: plan.tunnel };
        Task::Tell { body }
    }

    /// Goes back where it was.
    fn go_back(&mut self, plan: Plan, portal: bool) -> (task: Task)
        ensures
            (final(self)@, task.deep_view()) == going_back(old(self)@, plan.deep_view(), portal),
    {
        let back = again(&plan.back);
        match back {
            Some(conn) => {
                let ask = self.nm.activate(conn.as_str(), None);
                self.phase = Phase::Returning { plan, portal };
                Task::Send { ask }
            },
            None => self.tell_back(plan, portal),
        }
    }

    /// Brings the VPNs back, one by one, and then the tunnel.
    fn raise(&mut self, vpns: Vec<String>, tunnel: bool) -> (task: Task)
        ensures
            (final(self)@, task.deep_view()) == raising(old(self)@, vpns.deep_view(), tunnel),
    {
        let mut vpns = vpns;
        let ghost all = vpns.deep_view();
        if vpns.len() > 0 {
            let conn = vpns.remove(0);
            assert(vpns.deep_view() =~= all.drop_first());
            self.phase = Phase::Raising { vpns, tunnel };
            return Task::Send { ask: self.nm.vpn_up(conn.as_str()) };
        }
        if tunnel {
            let command = again(&self.rc.vpn_up);
            match command {
                Some(command) => {
                    self.phase = Phase::Spawning;
                    return Task::Spawn { command };
                },
                None => {},
            }
        }
        self.check()
    }

    /// What is under way, which is then over.
    fn take_phase(&mut self) -> (phase: Phase)
        ensures
            phase.deep_view() == old(self)@.phase,
            final(self)@ == (WatchView { phase: PhaseView::Idle, ..old(self)@ }),
    {
        let mut phase = Phase::Idle;
        std::mem::swap(&mut phase, &mut self.phase);
        phase
    }

    /// Keeps on with what is under way.
    fn stay(&mut self, phase: Phase) -> (task: Task)
        ensures
            (final(self)@, task.deep_view()) == going(
                old(self)@,
                phase.deep_view(),
                TaskView::Sleep,
            ),
    {
        self.phase = phase;
        Task::Sleep
    }

    /// What an answer leads to.
    fn answer(&mut self, answer: Answer) -> (task: Task)
        ensures
            (final(self)@, task.deep_view()) == answered(old(self)@, answer.deep_view()),
    {
        match self.take_phase() {
            Phase::Moving { plan } => match answer {
                Answer::Rising { active, .. } => {
                    self.phase = Phase::Settling { plan };
                    Task::Wait { active, limit: 25_000 }
                },
                _ => self.go_back(plan, false),
            },
            Phase::Returning { plan, portal } => match answer {
                Answer::Rising { active, .. } => {
                    self.phase = Phase::Landing { plan, portal };
                    Task::Wait { active, limit: 25_000 }
                },
                _ => self.tell_back(plan, portal),
            },
            Phase::Raising { vpns, tunnel } => match answer {
                Answer::Rising { active, .. } => {
                    self.phase = Phase::Rising { vpns, tunnel };
                    Task::Wait { active, limit: 30_000 }
                },
                _ => self.raise(vpns, tunnel),
            },
            phase => self.stay(phase),
        }
    }

    /// What the end of a wait leads to.
    fn end(&mut self, outcome: Outcome) -> (task: Task)
        ensures
            (final(self)@, task.deep_view()) == ended(old(self)@, outcome),
    {
        match self.take_phase() {
            Phase::Settling { plan } => if outcome == Outcome::Up {
                self.phase = Phase::Probing { plan };
                Task::ReadConnectivity
            } else {
                self.go_back(plan, false)
            },
            Phase::Landing { plan, portal } => self.tell_back(plan, portal),
            Phase::Rising { vpns, tunnel } => self.raise(vpns, tunnel),
            phase => self.stay(phase),
        }
    }

    /// What the end of something else leads to.
    fn finish(&mut self) -> (task: Task)
        ensures
            (final(self)@, task.deep_view()) == done(old(self)@),
    {
        match self.take_phase() {
            Phase::Tuning => self.rest(),
            Phase::Dropping { plan } => self.go(plan),
            Phase::Remembering { plan } => self.go_back(plan, true),
            Phase::Telling { vpns, tunnel } => self.raise(vpns, tunnel),
            Phase::Spawning => self.check(),
            phase => self.stay(phase),
        }
    }

    /// Takes in news, and says what to do next.
    pub fn step(&mut self, news: News) -> (task: Task)
        ensures
            (final(self)@, task.deep_view()) == next(old(self)@, news.deep_view()),
    {
        match news {
            News::Answer(answer) => self.answer(answer),
            News::Ended(outcome) => self.end(outcome),
            News::Done => self.finish(),
            News::Heard(message) => match self.take_phase() {
                Phase::Idle => self.hear(&message),
                phase => self.stay(phase),
            },
            News::Metered(n) => match self.take_phase() {
                Phase::Asking => {
                    let now = match n {
                        Some(n) => n == 1 || n == 3,
                        None => false,
                    };
                    self.sync(now)
                },
                phase => self.stay(phase),
            },
            News::Learned { saved, portals: names, rc } => match self.take_phase() {
                Phase::Learning => {
                    self.better = better(&saved, &portals(names.as_str()));
                    self.rc = read_rc(rc.as_str());
                    self.phase = Phase::Tuning;
                    Task::Subscribe
                },
                phase => self.stay(phase),
            },
            News::Named(ap) => match self.take_phase() {
                Phase::Naming => if find_better(&self.better, ap.name().as_str())
                    < self.better.len() {
                    self.phase = Phase::Surveying;
                    Task::Survey
                } else {
                    self.rest()
                },
                phase => self.stay(phase),
            },
            News::Surveyed(survey) => match self.take_phase() {
                Phase::Surveying => self.switch(&survey),
                phase => self.stay(phase),
            },
            News::Connectivity(n) => match self.take_phase() {
                Phase::Probing { plan } => {
                    let portal = match n {
                        Some(n) => n == PORTAL,
                        None => false,
                    };
                    if portal {
                        let ssid = plan.to.ssid.clone();
                        self.better = skip_better(&self.better, ssid.as_str());
                        self.phase = Phase::Remembering { plan };
                        Task::Remember { ssid }
                    } else {
                        self.tell_moved(plan)
                    }
                },
                phase => self.stay(phase),
            },
        }
    }
}

} // verus!
