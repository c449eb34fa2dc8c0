//! What holds of the watcher whatever comes in.

use vstd::prelude::*;

use crate::better::{
    best_law, best_of, better_named_law, place_of, place_of_finds, serves, skipping_law,
    BetterView,
};
use crate::bus::AskView;
use crate::nm::{nowhere, Outcome};
use crate::reading::{ApView, SavedView};
use crate::text::lines_of;
use crate::watcher::{
    back_words, card_or_nowhere, going, moved_words, moving, next, planned, says_metered, syncing,
    tells_ap, tells_metered, MessageView, NewsView, PhaseView, PlanView, SurveyView, TaskView,
    WatchView, PORTAL,
};

verus! {

/// The move under way, until it is told of.
pub open spec fn plan_of(phase: PhaseView) -> Option<PlanView> {
    match phase {
        PhaseView::Dropping { plan } => Some(plan),
        PhaseView::Moving { plan } => Some(plan),
        PhaseView::Settling { plan } => Some(plan),
        PhaseView::Probing { plan } => Some(plan),
        PhaseView::Remembering { plan } => Some(plan),
        PhaseView::Returning { plan, .. } => Some(plan),
        PhaseView::Landing { plan, .. } => Some(plan),
        _ => None,
    }
}

/// The VPNs still to be brought back.
pub open spec fn owed(phase: PhaseView) -> Seq<Seq<char>> {
    match phase {
        PhaseView::Telling { vpns, .. } => vpns,
        PhaseView::Raising { vpns, .. } => vpns,
        PhaseView::Rising { vpns, .. } => vpns,
        _ => match plan_of(phase) {
            Some(plan) => plan.vpns,
            None => seq![],
        },
    }
}

/// How many tunnels are still to be started again.
pub open spec fn tunnels_owed(phase: PhaseView) -> nat {
    let tunnel = match phase {
        PhaseView::Telling { tunnel, .. } => tunnel,
        PhaseView::Raising { tunnel, .. } => tunnel,
        PhaseView::Rising { tunnel, .. } => tunnel,
        _ => match plan_of(phase) {
            Some(plan) => plan.tunnel,
            None => false,
        },
    };
    if tunnel {
        1
    } else {
        0
    }
}

/// Whether the move under way turned out to lead to a captive portal.
pub open spec fn portal_met(phase: PhaseView) -> bool {
    match phase {
        PhaseView::Remembering { .. } => true,
        PhaseView::Returning { portal, .. } => portal,
        PhaseView::Landing { portal, .. } => portal,
        _ => false,
    }
}

/// How a watcher always stands: on an unmetered network it knows of nothing
/// better and no move is under way, a move goes to a network on the list
/// unless that was just struck off, a tunnel is owed only where there is a
/// command to start it, and every network on the list has a name.
pub open spec fn sound(s: WatchView) -> bool {
    &&& card_or_nowhere(s.card) != nowhere()
    &&& !s.metered ==> s.better.len() == 0 && (s.phase is Idle || s.phase is Asking || s.phase
        is Tuning)
    &&& plan_of(s.phase) matches Some(plan) ==> (portal_met(s.phase) || s.better.contains(plan.to))
    &&& tunnels_owed(s.phase) > 0 ==> s.rc.vpn_up is Some
    &&& forall|b: BetterView| #[trigger] s.better.contains(b) ==> b.ssid.len() > 0
}

/// The best network in range is on the list.
proof fn best_is_listed(list: Seq<BetterView>, aps: Seq<ApView>)
    ensures
        best_of(list, aps) matches Some((b, _)) ==> list.contains(b),
{
    best_law(list, aps);
    match best_of(list, aps) {
        Some((b, ap)) => {
            place_of_finds(list, ap.name());
            assert(serves(list, ap) == Some(b));
            assert(list[place_of(list, ap.name()) as int] == b);
        },
        None => {},
    }
}

/// A watcher starts sound.
pub proof fn starts_sound_law(card: Seq<char>, s: WatchView)
    requires
        card != nowhere(),
        s.card == Some(card),
        !s.metered,
        s.better.len() == 0,
        s.phase is Idle,
    ensures
        sound(syncing(s).0),
{
}

/// A watcher stays sound, whatever comes in.
pub proof fn stays_sound_law(s: WatchView, news: NewsView)
    requires
        sound(s),
    ensures
        sound(next(s, news).0),
        next(s, news).0.card == s.card,
{
    match (s.phase, news) {
        (_, NewsView::Surveyed(survey)) => best_is_listed(s.better, survey.aps),
        (_, NewsView::Learned { saved, portals, .. }) => {
            better_named_law(saved, lines_of(portals));
        },
        (PhaseView::Probing { plan }, _) => skipping_law(s.better, plan.to.ssid),
        _ => {},
    }
}

/// On an unmetered network the watcher does nothing at all until
/// NetworkManager tells that its word on being metered changed.
pub proof fn unmetered_law(s: WatchView, m: MessageView)
    requires
        sound(s),
        s.phase is Idle,
        !s.metered,
    ensures
        next(s, NewsView::Heard(m)) == if tells_metered(m) {
            syncing(s)
        } else {
            (s, TaskView::Sleep)
        },
{
}

/// On a metered network it wakes for a new access point too, and goes no
/// further when that is of no network on the list.
pub proof fn metered_law(s: WatchView, m: MessageView, ap: ApView)
    requires
        s.phase is Idle,
        s.metered,
        !tells_metered(m),
    ensures
        next(s, NewsView::Heard(m)).1 == if tells_ap(m) {
            TaskView::ReadAp { path: m.ap->0 }
        } else {
            TaskView::Sleep
        },
        tells_ap(m) && (forall|i: int|
            0 <= i < s.better.len() ==> (#[trigger] s.better[i]).ssid != ap.name()) ==> next(
            next(s, NewsView::Heard(m)).0,
            NewsView::Named(ap),
        ) == (s, TaskView::Sleep),
{
    place_of_finds(s.better, ap.name());
}

/// The network that an access point belongs to is found, when it is on the
/// list.
proof fn listed_is_served(list: Seq<BetterView>, b: BetterView, ap: ApView)
    requires
        list.contains(b),
        b.ssid.len() > 0,
        ap.name() == b.ssid,
    ensures
        place_of(list, ap.name()) < list.len(),
        serves(list, ap) is Some,
{
    place_of_finds(list, ap.name());
    let i = choose|i: int| 0 <= i < list.len() && list[i] == b;
    if place_of(list, ap.name()) >= list.len() {
        assert(list[i].ssid != ap.name());
    }
}

/// When a network on the list comes into range of a metered one, and is
/// still there when the air is looked at, the watcher sets out for a
/// network on the list; a tunnel that it can take down it takes down
/// first.
pub proof fn switches_law(
    s: WatchView,
    m: MessageView,
    ap: ApView,
    b: BetterView,
    survey: SurveyView,
)
    requires
        sound(s),
        s.phase is Idle,
        s.metered,
        tells_ap(m),
        !tells_metered(m),
        s.better.contains(b),
        ap.name() == b.ssid,
        survey.aps.contains(ap),
    ensures
        ({
            let named = next(s, NewsView::Heard(m)).0;
            let (surveying, task) = next(named, NewsView::Named(ap));
            &&& task is Survey
            &&& planned(surveying, survey) matches Some(plan) && s.better.contains(plan.to)
                && next(surveying, NewsView::Surveyed(survey)) == if plan.tunnel && s.rc.vpn_down
                is Some {
                going(s, PhaseView::Dropping { plan }, TaskView::Run { command: s.rc.vpn_down->0 })
            } else {
                moving(s, plan)
            }
        }),
{
    listed_is_served(s.better, b, ap);
    best_law(s.better, survey.aps);
    best_is_listed(s.better, survey.aps);
    let c = choose|c: int| 0 <= c < survey.aps.len() && survey.aps[c] == ap;
    assert(serves(s.better, survey.aps[c]) is Some);
}

/// New access points are listened for when the network turns metered, once
/// it is known what would do better, and no longer when it turns unmetered.
pub proof fn listening_law(
    s: WatchView,
    n: Option<u32>,
    saved: Seq<SavedView>,
    portals: Seq<char>,
    rc: Seq<char>,
)
    requires
        s.phase is Asking,
    ensures
        ({
            let (now, task) = next(s, NewsView::Metered(n));
            &&& now.metered == says_metered(n)
            &&& task == if s.metered == says_metered(n) {
                TaskView::Sleep
            } else if says_metered(n) {
                TaskView::ReadSaved
            } else {
                TaskView::Unsubscribe
            }
            &&& task is ReadSaved ==> next(now, NewsView::Learned { saved, portals, rc }).1
                is Subscribe
        }),
{
}

/// Whether new access points are listened for: while metered, from when it
/// is known what would do better.
pub open spec fn listening(s: WatchView) -> bool {
    s.metered && !(s.phase is Learning)
}

/// Whether the bus passes on new access points after some news, `from` what
/// it did before.
pub open spec fn passed_on(s: WatchView, all: Seq<NewsView>, from: bool) -> bool
    decreases all.len(),
{
    if all.len() == 0 {
        from
    } else {
        match next(after(s, all.drop_last()), all.last()).1 {
            TaskView::Subscribe => true,
            TaskView::Unsubscribe => false,
            _ => passed_on(s, all.drop_last(), from),
        }
    }
}

/// The rule for new access points is added only where it is not there, and
/// removed only where it is; nothing else changes whether it is there.
pub proof fn rule_once_law(s: WatchView, news: NewsView)
    requires
        sound(s),
    ensures
        next(s, news).1 is Subscribe ==> !listening(s) && listening(next(s, news).0),
        next(s, news).1 is Unsubscribe ==> listening(s) && !listening(next(s, news).0),
        !(next(s, news).1 is Subscribe) && !(next(s, news).1 is Unsubscribe) ==> listening(
            next(s, news).0,
        ) == listening(s),
{
}

/// Whatever comes in, new access points are passed on exactly while they
/// are listened for; so while nothing is under way, exactly on a metered
/// network.
pub proof fn only_while_metered_law(s: WatchView, all: Seq<NewsView>)
    requires
        sound(s),
    ensures
        passed_on(s, all, listening(s)) == listening(after(s, all)),
        after(s, all).phase is Idle ==> passed_on(s, all, listening(s)) == after(s, all).metered,
    decreases all.len(),
{
    if all.len() > 0 {
        only_while_metered_law(s, all.drop_last());
        after_sound(s, all.drop_last());
        rule_once_law(after(s, all.drop_last()), all.last());
    }
}

/// Being told again what is known of the network changes nothing: a second
/// time touches no rule and forgets nothing.
pub proof fn sync_law(s: WatchView, n: Option<u32>, m: Option<u32>)
    requires
        s.phase is Asking,
        says_metered(n) == says_metered(m),
    ensures
        ({
            let (first, _) = next(s, NewsView::Metered(n));
            let again = WatchView { phase: PhaseView::Asking, ..first };
            &&& first.metered == says_metered(n)
            &&& next(again, NewsView::Metered(m)) == (
                WatchView { phase: PhaseView::Idle, ..first },
                TaskView::Sleep,
            )
        }),
{
}

/// The watcher asks NetworkManager for connections to come up and for
/// nothing else; it never has the card look for networks.
pub proof fn never_scans_law(s: WatchView, news: NewsView)
    ensures
        next(s, news).1 matches TaskView::Send { ask } ==> ask is Activate,
{
}

/// Whether a task asks for the Wi-Fi card to go elsewhere.
pub open spec fn leaves_for(task: TaskView, conn: Seq<char>) -> bool {
    task matches TaskView::Send { ask: AskView::Activate { conn: it, card, .. } } && card
        != nowhere() && it == conn
}

/// The card goes to a network on the list, through an access point of it,
/// or back to the network that was left for it; nowhere else.
pub proof fn only_better_law(s: WatchView, news: NewsView, conn: Seq<char>)
    requires
        sound(s),
        leaves_for(next(s, news).1, conn),
    ensures
        s.metered,
        plan_of(next(s, news).0.phase) matches Some(plan) && ((plan.to.conn == conn
            && s.better.contains(plan.to) && next(s, news) == moving(s, plan)) || (plan.back
            == Some(conn) && plan_of(s.phase) == Some(plan))),
{
    match news {
        NewsView::Surveyed(survey) => best_is_listed(s.better, survey.aps),
        _ => {},
    }
}

/// A move under way is kept as it was planned until it is told of, and then
/// what it left to bring back is still to be brought back.
pub proof fn plan_kept_law(s: WatchView, news: NewsView, plan: PlanView)
    requires
        plan_of(s.phase) == Some(plan),
    ensures
        plan_of(next(s, news).0.phase) == Some(plan) || (next(s, news).1 is Tell && next(
            s,
            news,
        ).0.phase == (PhaseView::Telling { vpns: plan.vpns, tunnel: plan.tunnel })),
{
}

/// What you are told is that the network was left for the better one, or
/// that the better one had no way in or a login page.
pub proof fn told_law(s: WatchView, news: NewsView, body: Seq<char>)
    requires
        next(s, news).1 == (TaskView::Tell { body }),
    ensures
        plan_of(s.phase) matches Some(plan) && (body == moved_words(plan) <== s.phase is Probing)
            && (s.phase is Probing || body == back_words(plan, portal_met(s.phase))),
{
}

/// Whether news tell that the move under way failed.
pub open spec fn move_failed(phase: PhaseView, news: NewsView) -> bool {
    match (phase, news) {
        (PhaseView::Moving { .. }, NewsView::Answer(answer)) => !(answer is Rising),
        (PhaseView::Settling { .. }, NewsView::Ended(outcome)) => outcome != Outcome::Up,
        _ => false,
    }
}

/// A move that fails goes back to the network that was left, if there was
/// one.
pub proof fn failed_move_law(s: WatchView, plan: PlanView, conn: Seq<char>, news: NewsView)
    requires
        plan_of(s.phase) == Some(plan),
        plan.back == Some(conn),
        move_failed(s.phase, news),
    ensures
        next(s, news).1 == (TaskView::Send {
            ask: AskView::Activate { conn, card: card_or_nowhere(s.card), ap: nowhere() },
        }),
{
}

/// A network that shows a login page is written down, struck off the list,
/// and left again for the network before it.
pub proof fn portal_law(s: WatchView, plan: PlanView, conn: Seq<char>, b: BetterView)
    requires
        s.phase == (PhaseView::Probing { plan }),
        plan.back == Some(conn),
    ensures
        ({
            let (struck, task) = next(s, NewsView::Connectivity(Some(PORTAL)));
            &&& task == (TaskView::Remember { ssid: plan.to.ssid })
            &&& struck.better.contains(b) <==> s.better.contains(b) && b.ssid != plan.to.ssid
            &&& next(struck, NewsView::Done).1 == (TaskView::Send {
                ask: AskView::Activate { conn, card: card_or_nowhere(s.card), ap: nowhere() },
            })
        }),
{
    skipping_law(s.better, plan.to.ssid);
}

/// A network that is not on the list is not moved to.
pub proof fn skipped_law(s: WatchView, survey: SurveyView, ssid: Seq<char>)
    requires
        forall|b: BetterView| #[trigger] s.better.contains(b) ==> b.ssid != ssid,
    ensures
        planned(s, survey) matches Some(plan) ==> plan.to.ssid != ssid,
{
    best_is_listed(s.better, survey.aps);
}

/// A network that was struck off the list stays off it, until the saved
/// networks are read anew.
pub proof fn stays_struck_law(s: WatchView, news: NewsView, ssid: Seq<char>)
    requires
        forall|b: BetterView| #[trigger] s.better.contains(b) ==> b.ssid != ssid,
        !(news is Learned),
    ensures
        forall|b: BetterView| #[trigger] next(s, news).0.better.contains(b) ==> b.ssid != ssid,
{
    match (s.phase, news) {
        (PhaseView::Probing { plan }, NewsView::Connectivity(_)) => skipping_law(
            s.better,
            plan.to.ssid,
        ),
        _ => {},
    }
}

/// A tunnel is taken down only where there is a command to start it again,
/// and where no VPN that NetworkManager runs is up.
pub proof fn tunnel_dropped_law(s: WatchView, news: NewsView, command: Seq<char>)
    requires
        next(s, news).1 == (TaskView::Run { command }),
    ensures
        s.rc.vpn_down == Some(command),
        s.rc.vpn_up is Some,
        plan_of(next(s, news).0.phase) matches Some(plan) && plan.tunnel && plan.vpns.len() == 0,
{
}

/// How the watcher stands after some news.
pub open spec fn after(s: WatchView, all: Seq<NewsView>) -> WatchView
    decreases all.len(),
{
    if all.len() == 0 {
        s
    } else {
        next(after(s, all.drop_last()), all.last()).0
    }
}

/// The VPN that a task asks for, if it asks for one.
pub open spec fn vpn_asked(task: TaskView) -> Seq<Seq<char>> {
    match task {
        TaskView::Send { ask: AskView::Activate { conn, card, .. } } if card == nowhere() => seq![
            conn,
        ],
        _ => seq![],
    }
}

/// The VPNs asked for while some news came in.
pub open spec fn vpns_asked(s: WatchView, all: Seq<NewsView>) -> Seq<Seq<char>>
    decreases all.len(),
{
    if all.len() == 0 {
        seq![]
    } else {
        vpns_asked(s, all.drop_last()) + vpn_asked(
            next(after(s, all.drop_last()), all.last()).1,
        )
    }
}

/// The VPNs that a move began with.
pub open spec fn vpns_met(s: WatchView, news: NewsView) -> Seq<Seq<char>> {
    match (s.phase, news) {
        (PhaseView::Surveying, NewsView::Surveyed(survey)) => match planned(s, survey) {
            Some(plan) => plan.vpns,
            None => seq![],
        },
        _ => seq![],
    }
}

/// The VPNs that the moves began with that began while some news came in.
pub open spec fn all_vpns_met(s: WatchView, all: Seq<NewsView>) -> Seq<Seq<char>>
    decreases all.len(),
{
    if all.len() == 0 {
        seq![]
    } else {
        all_vpns_met(s, all.drop_last()) + vpns_met(after(s, all.drop_last()), all.last())
    }
}

/// The watcher stays sound through all news.
proof fn after_sound(s: WatchView, all: Seq<NewsView>)
    requires
        sound(s),
    ensures
        sound(after(s, all)),
    decreases all.len(),
{
    if all.len() > 0 {
        after_sound(s, all.drop_last());
        stays_sound_law(after(s, all.drop_last()), all.last());
    }
}

/// In one step, what was owed and what is met is asked for or still owed.
proof fn vpns_step(s: WatchView, news: NewsView)
    requires
        sound(s),
    ensures
        owed(s.phase) + vpns_met(s, news) == vpn_asked(next(s, news).1) + owed(
            next(s, news).0.phase,
        ),
{
    let left = owed(s.phase) + vpns_met(s, news);
    let right = vpn_asked(next(s, news).1) + owed(next(s, news).0.phase);
    assert(left =~= right);
}

/// The VPNs that were up when a network was left are asked for again, each
/// once and in order, but for those still to be brought back.
pub proof fn vpns_back_law(s: WatchView, all: Seq<NewsView>)
    requires
        sound(s),
    ensures
        owed(s.phase) + all_vpns_met(s, all) == vpns_asked(s, all) + owed(after(s, all).phase),
    decreases all.len(),
{
    if all.len() == 0 {
        assert(owed(s.phase) + all_vpns_met(s, all) =~= vpns_asked(s, all) + owed(
            after(s, all).phase,
        ));
    } else {
        let before = all.drop_last();
        let mid = after(s, before);
        vpns_back_law(s, before);
        after_sound(s, before);
        vpns_step(mid, all.last());
        let met = vpns_met(mid, all.last());
        let asked = vpn_asked(next(mid, all.last()).1);
        assert(owed(s.phase) + all_vpns_met(s, all) =~= (owed(s.phase) + all_vpns_met(s, before))
            + met);
        assert((vpns_asked(s, before) + owed(mid.phase)) + met =~= vpns_asked(s, before) + (owed(
            mid.phase,
        ) + met));
        assert(vpns_asked(s, before) + (asked + owed(after(s, all).phase)) =~= vpns_asked(s, all)
            + owed(after(s, all).phase));
    }
}

/// By the time nothing is under way again, every VPN that was up when a
/// network was left was asked for again.
pub proof fn vpns_all_back_law(s: WatchView, all: Seq<NewsView>)
    requires
        sound(s),
        s.phase is Idle,
        after(s, all).phase is Idle,
    ensures
        all_vpns_met(s, all) == vpns_asked(s, all),
{
    vpns_back_law(s, all);
    assert(owed(s.phase) + all_vpns_met(s, all) =~= all_vpns_met(s, all));
    assert(vpns_asked(s, all) + owed(after(s, all).phase) =~= vpns_asked(s, all));
}

/// How many tunnels a task starts.
pub open spec fn tunnel_started(task: TaskView) -> nat {
    if task is Spawn {
        1
    } else {
        0
    }
}

/// How many tunnels were started while some news came in.
pub open spec fn tunnels_started(s: WatchView, all: Seq<NewsView>) -> nat
    decreases all.len(),
{
    if all.len() == 0 {
        0
    } else {
        tunnels_started(s, all.drop_last()) + tunnel_started(
            next(after(s, all.drop_last()), all.last()).1,
        )
    }
}

/// How many tunnels were up when the moves began that began while some news
/// came in.
pub open spec fn tunnels_met(s: WatchView, all: Seq<NewsView>) -> nat
    decreases all.len(),
{
    if all.len() == 0 {
        0
    } else {
        let mid = after(s, all.drop_last());
        tunnels_met(s, all.drop_last()) + match (mid.phase, all.last()) {
            (PhaseView::Surveying, NewsView::Surveyed(survey)) => match planned(mid, survey) {
                Some(plan) => if plan.tunnel {
                    1nat
                } else {
                    0nat
                },
                None => 0nat,
            },
            _ => 0nat,
        }
    }
}

/// A tunnel that was up when a network was left, and that there is a command
/// to start, is started again, once for each time, but for one still to be
/// brought back.
pub proof fn tunnels_back_law(s: WatchView, all: Seq<NewsView>)
    requires
        sound(s),
    ensures
        tunnels_owed(s.phase) + tunnels_met(s, all) == tunnels_started(s, all) + tunnels_owed(
            after(s, all).phase,
        ),
    decreases all.len(),
{
    if all.len() > 0 {
        tunnels_back_law(s, all.drop_last());
        after_sound(s, all.drop_last());
    }
}

} // verus!
