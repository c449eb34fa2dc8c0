//! What each piece of news does to the watcher, one by one: how it stands
//! afterwards and what is to be done.

use vstd::prelude::*;

use crate::better::{best_of, better_of, skipping, ups, wifi_on, BetterView};
use crate::bus::{AnswerView, AskView};
use crate::nm::Outcome;
use crate::reading::{vpns_of, ApView, SavedView};
use crate::text::lines_of;
use crate::watch::{any_tunnel, rc_from};
use crate::watcher::{
    next, planned, says_metered, starting, MessageView, NewsView, PhaseView, PlanView, SurveyView,
    TaskView, WatchView,
};

verus! {

/// A watcher starts only on a card, knowing of no better network and no
/// command, taking the network for unmetered, and first asks whether it is.
pub proof fn starting_law(card: Option<Seq<char>>)
    ensures
        starting(card) is Some <==> card is Some,
        starting(card) matches Some((s, task)) ==> s.card == card && !s.metered && s.better.len()
            == 0 && s.rc.vpn_up is None && s.rc.vpn_down is None && s.phase is Asking && task
            is ReadMetered,
{
}

/// NetworkManager says that a network is metered with the numbers one and
/// three, and with no other.
pub proof fn says_metered_law(n: u32)
    ensures
        says_metered(Some(n)) <==> n == 1 || n == 3,
        !says_metered(None),
{
}

/// While nothing is under way, a signal that NetworkManager's own properties
/// changed, being metered among them, has that read again.
pub proof fn changed_law(s: WatchView, m: MessageView, keys: Seq<Seq<char>>)
    requires
        s.phase is Idle,
        m.signal,
        m.member == Some("PropertiesChanged"@),
        m.path == Some("/org/freedesktop/NetworkManager"@),
        m.changed == Some(keys),
        keys.contains("Metered"@),
    ensures
        next(s, NewsView::Heard(m)) == (
            WatchView { phase: PhaseView::Asking, ..s },
            TaskView::ReadMetered,
        ),
{
}

/// A signal of a new access point has that one read, on a metered network
/// and on no other.
pub proof fn added_law(s: WatchView, m: MessageView, ap: Seq<char>)
    requires
        s.phase is Idle,
        m.signal,
        m.member == Some("AccessPointAdded"@),
        m.ap == Some(ap),
    ensures
        s.metered ==> next(s, NewsView::Heard(m)) == (
            WatchView { phase: PhaseView::Naming, ..s },
            TaskView::ReadAp { path: ap },
        ),
        !s.metered ==> next(s, NewsView::Heard(m)) == (s, TaskView::Sleep),
{
    reveal_strlit("AccessPointAdded");
    reveal_strlit("PropertiesChanged");
    assert("AccessPointAdded"@.len() == 16 && "PropertiesChanged"@.len() == 17);
}

/// Every other message is passed over.
pub proof fn unheard_law(s: WatchView, m: MessageView)
    requires
        s.phase is Idle,
        !m.signal || m.member is None || (m.member != Some("PropertiesChanged"@) && m.member
            != Some("AccessPointAdded"@)) || (m.member == Some("PropertiesChanged"@) && (m.path
            != Some("/org/freedesktop/NetworkManager"@) || m.changed is None
            || !m.changed->0.contains("Metered"@))) || (m.member == Some("AccessPointAdded"@)
            && m.ap is None),
    ensures
        next(s, NewsView::Heard(m)) == (s, TaskView::Sleep),
{
    reveal_strlit("AccessPointAdded");
    reveal_strlit("PropertiesChanged");
    assert("AccessPointAdded"@.len() == 16 && "PropertiesChanged"@.len() == 17);
}

/// A network that turns metered has the saved networks and the files read;
/// one that turns unmetered has them forgotten and new access points no
/// longer passed on; one that stays as it was changes nothing.
pub proof fn turned_law(s: WatchView, n: Option<u32>)
    requires
        s.phase is Asking,
    ensures
        ({
            let now = n == Some(1u32) || n == Some(3u32);
            &&& now == s.metered ==> next(s, NewsView::Metered(n)) == (
                WatchView { phase: PhaseView::Idle, ..s },
                TaskView::Sleep,
            )
            &&& now && !s.metered ==> next(s, NewsView::Metered(n)) == (
                WatchView { metered: true, phase: PhaseView::Learning, ..s },
                TaskView::ReadSaved,
            )
            &&& !now && s.metered ==> next(s, NewsView::Metered(n)) == (
                WatchView {
                    metered: false,
                    better: Seq::empty(),
                    phase: PhaseView::Tuning,
                    ..s
                },
                TaskView::Unsubscribe,
            )
        }),
{
}

/// What was read is known from then on: the networks that would do better,
/// without the portals of the file, and the commands of the other; and new
/// access points are passed on.
pub proof fn learned_law(s: WatchView, saved: Seq<SavedView>, portals: Seq<char>, rc: Seq<char>)
    requires
        s.phase is Learning,
    ensures
        next(s, NewsView::Learned { saved, portals, rc }) == (
            WatchView {
                better: better_of(saved, lines_of(portals)),
                rc: rc_from(rc),
                phase: PhaseView::Tuning,
                ..s
            },
            TaskView::Subscribe,
        ),
        next(WatchView { phase: PhaseView::Tuning, ..s }, NewsView::Done) == (
            WatchView { phase: PhaseView::Idle, ..s },
            TaskView::Sleep,
        ),
{
}

/// A new access point of a network on the list has the air looked at; one of
/// any other network, or without a name on the list, is let be.
pub proof fn named_law(s: WatchView, ap: ApView)
    requires
        s.phase is Naming,
    ensures
        (exists|i: int| 0 <= i < s.better.len() && (#[trigger] s.better[i]).ssid == ap.name())
            ==> next(s, NewsView::Named(ap)) == (
            WatchView { phase: PhaseView::Surveying, ..s },
            TaskView::Survey,
        ),
        (forall|i: int| 0 <= i < s.better.len() ==> (#[trigger] s.better[i]).ssid != ap.name())
            ==> next(s, NewsView::Named(ap)) == (
            WatchView { phase: PhaseView::Idle, ..s },
            TaskView::Sleep,
        ),
{
    crate::better::place_of_finds(s.better, ap.name());
    let k = crate::better::place_of(s.better, ap.name()) as int;
    if exists|i: int| 0 <= i < s.better.len() && (#[trigger] s.better[i]).ssid == ap.name() {
        let i = choose|i: int| 0 <= i < s.better.len() && (#[trigger] s.better[i]).ssid == ap.name();
        if k >= s.better.len() {
            assert(s.better[i].ssid != ap.name());
        }
    }
}

/// A move is planned exactly when a network on the list is in the air, and
/// goes to the best one through its access point. It comes from the network
/// the machine is on, and goes back there; it has the VPNs that are up
/// brought back, or, where none is, a tunnel that is up and has a command.
pub proof fn planned_law(s: WatchView, survey: SurveyView)
    ensures
        planned(s, survey) is None <==> best_of(s.better, survey.aps) is None,
        planned(s, survey) matches Some(plan) ==> {
            let up = ups(vpns_of(survey.saved, survey.actives));
            &&& best_of(s.better, survey.aps) matches Some((b, ap)) && plan.to == b && plan.ap
                == ap.path
            &&& wifi_on(survey.saved, survey.actives) is None ==> plan.back is None
                && plan.from.len() == 0
            &&& wifi_on(survey.saved, survey.actives) matches Some((conn, name)) ==> plan.back
                == Some(conn) && plan.from == name
            &&& plan.vpns == up
            &&& plan.tunnel <==> up.len() == 0 && any_tunnel(survey.links) && s.rc.vpn_up is Some
        },
{
}

/// Without a move to make it goes back to whether the network is metered.
/// Else a tunnel that was up is taken down first, where there is a command
/// for that, and then, or at once, the better network is asked for.
pub proof fn setting_out_law(s: WatchView, survey: SurveyView, card: Seq<char>)
    requires
        s.phase is Surveying,
        s.card == Some(card),
    ensures
        planned(s, survey) is None ==> next(s, NewsView::Surveyed(survey)) == (
            WatchView { phase: PhaseView::Asking, ..s },
            TaskView::ReadMetered,
        ),
        planned(s, survey) matches Some(plan) ==> {
            let moving = (
                WatchView { phase: PhaseView::Moving { plan }, ..s },
                TaskView::Send {
                    ask: AskView::Activate { conn: plan.to.conn, card, ap: plan.ap },
                },
            );
            let dropping = WatchView { phase: PhaseView::Dropping { plan }, ..s };
            &&& plan.tunnel && s.rc.vpn_down is Some ==> next(s, NewsView::Surveyed(survey)) == (
                dropping,
                TaskView::Run { command: s.rc.vpn_down->0 },
            )
            &&& !plan.tunnel || s.rc.vpn_down is None ==> next(s, NewsView::Surveyed(survey))
                == moving
            &&& next(dropping, NewsView::Done) == moving
        },
{
}

/// The better network is waited for twenty-five seconds, and when it is up
/// what lies beyond it is read.
pub proof fn arriving_law(s: WatchView, plan: PlanView, active: Seq<char>, made: Option<Seq<char>>)
    ensures
        s.phase == (PhaseView::Moving { plan }) ==> next(
            s,
            NewsView::Answer(AnswerView::Rising { active, made }),
        ) == (
            WatchView { phase: PhaseView::Settling { plan }, ..s },
            TaskView::Wait { active, limit: 25_000 },
        ),
        s.phase == (PhaseView::Settling { plan }) ==> next(s, NewsView::Ended(Outcome::Up)) == (
            WatchView { phase: PhaseView::Probing { plan }, ..s },
            TaskView::ReadConnectivity,
        ),
{
}

/// Whether a move came to nothing: it was refused, or did not come up.
pub open spec fn came_to_nothing(s: WatchView, news: NewsView, plan: PlanView) -> bool {
    match news {
        NewsView::Answer(answer) => s.phase == (PhaseView::Moving { plan }) && !(answer is Rising),
        NewsView::Ended(outcome) => s.phase == (PhaseView::Settling { plan }) && (outcome
            == Outcome::Failed || outcome == Outcome::Slow),
        _ => false,
    }
}

/// A move that came to nothing goes back to where it came from, and where it
/// came from nowhere is told of at once.
pub proof fn nothing_law(s: WatchView, news: NewsView, plan: PlanView, card: Seq<char>)
    requires
        came_to_nothing(s, news, plan),
        s.card == Some(card),
    ensures
        plan.back matches Some(conn) ==> next(s, news) == (
            WatchView { phase: PhaseView::Returning { plan, portal: false }, ..s },
            TaskView::Send { ask: AskView::Activate { conn, card, ap: "/"@ } },
        ),
        plan.back is None ==> next(s, news) == (
            WatchView {
                phase: PhaseView::Telling { vpns: plan.vpns, tunnel: plan.tunnel },
                ..s
            },
            TaskView::Tell {
                body: plan.to.ssid + " had "@ + "no way in"@ + "; back on "@ + plan.from,
            },
        ),
{
}

/// The number two for what lies beyond is a login page: the network is
/// struck off and written down, and then left. Every other number, and none,
/// is a move that was made, and told.
pub proof fn beyond_law(s: WatchView, plan: PlanView, n: Option<u32>, card: Seq<char>)
    requires
        s.phase == (PhaseView::Probing { plan }),
        s.card == Some(card),
    ensures
        n == Some(2u32) ==> {
            let struck = WatchView {
                better: skipping(s.better, plan.to.ssid),
                phase: PhaseView::Remembering { plan },
                ..s
            };
            &&& next(s, NewsView::Connectivity(n)) == (
                struck,
                TaskView::Remember { ssid: plan.to.ssid },
            )
            &&& plan.back matches Some(conn) ==> next(struck, NewsView::Done) == (
                WatchView { phase: PhaseView::Returning { plan, portal: true }, ..struck },
                TaskView::Send { ask: AskView::Activate { conn, card, ap: "/"@ } },
            )
            &&& plan.back is None ==> next(struck, NewsView::Done) == (
                WatchView {
                    phase: PhaseView::Telling { vpns: plan.vpns, tunnel: plan.tunnel },
                    ..struck
                },
                TaskView::Tell {
                    body: plan.to.ssid + " had "@ + "a login page; it is skipped from now on"@
                        + "; back on "@ + plan.from,
                },
            )
        },
        n != Some(2u32) ==> next(s, NewsView::Connectivity(n)) == (
            WatchView {
                phase: PhaseView::Telling { vpns: plan.vpns, tunnel: plan.tunnel },
                ..s
            },
            TaskView::Tell {
                body: "Left "@ + plan.from + " for "@ + plan.to.ssid + (if plan.tunnel
                    || plan.vpns.len() > 0 {
                    "; bringing the VPN back"@
                } else {
                    ""@
                }),
            },
        ),
{
}

/// The network that is gone back to is waited for twenty-five seconds, and
/// however that ends it is told why it went back.
pub proof fn back_law(
    s: WatchView,
    plan: PlanView,
    portal: bool,
    answer: AnswerView,
    end: Outcome,
)
    ensures
        ({
            let told = (
                WatchView {
                    phase: PhaseView::Telling { vpns: plan.vpns, tunnel: plan.tunnel },
                    ..s
                },
                TaskView::Tell {
                    body: plan.to.ssid + " had "@ + (if portal {
                        "a login page; it is skipped from now on"@
                    } else {
                        "no way in"@
                    }) + "; back on "@ + plan.from,
                },
            );
            &&& s.phase == (PhaseView::Returning { plan, portal }) ==> next(
                s,
                NewsView::Answer(answer),
            ) == match answer {
                AnswerView::Rising { active, .. } => (
                    WatchView { phase: PhaseView::Landing { plan, portal }, ..s },
                    TaskView::Wait { active, limit: 25_000 },
                ),
                _ => told,
            }
            &&& s.phase == (PhaseView::Landing { plan, portal }) ==> next(s, NewsView::Ended(end))
                == told
        }),
{
}

/// Whether it is time for the next VPN: it was told, or the VPN before was
/// refused, or the wait for it is over.
pub open spec fn next_vpn(
    s: WatchView,
    news: NewsView,
    vpns: Seq<Seq<char>>,
    tunnel: bool,
) -> bool {
    match news {
        NewsView::Done => s.phase == (PhaseView::Telling { vpns, tunnel }),
        NewsView::Answer(answer) => s.phase == (PhaseView::Raising { vpns, tunnel }) && !(answer
            is Rising),
        NewsView::Ended(_) => s.phase == (PhaseView::Rising { vpns, tunnel }),
        _ => false,
    }
}

/// The VPNs are brought back one by one, each waited for thirty seconds;
/// then the tunnel is started, where one was up; and then it goes back to
/// whether the network is metered.
pub proof fn raising_law(
    s: WatchView,
    news: NewsView,
    vpns: Seq<Seq<char>>,
    tunnel: bool,
    active: Seq<char>,
)
    ensures
        next_vpn(s, news, vpns, tunnel) ==> {
            &&& vpns.len() > 0 ==> next(s, news) == (
                WatchView { phase: PhaseView::Raising { vpns: vpns.drop_first(), tunnel }, ..s },
                TaskView::Send {
                    ask: AskView::Activate { conn: vpns[0], card: "/"@, ap: "/"@ },
                },
            )
            &&& vpns.len() == 0 && tunnel && s.rc.vpn_up is Some ==> next(s, news) == (
                WatchView { phase: PhaseView::Spawning, ..s },
                TaskView::Spawn { command: s.rc.vpn_up->0 },
            )
            &&& vpns.len() == 0 && (!tunnel || s.rc.vpn_up is None) ==> next(s, news) == (
                WatchView { phase: PhaseView::Asking, ..s },
                TaskView::ReadMetered,
            )
        },
        s.phase == (PhaseView::Raising { vpns, tunnel }) ==> next(
            s,
            NewsView::Answer(AnswerView::Rising { active, made: None }),
        ) == (
            WatchView { phase: PhaseView::Rising { vpns, tunnel }, ..s },
            TaskView::Wait { active, limit: 30_000 },
        ),
        s.phase is Spawning ==> next(s, NewsView::Done) == (
            WatchView { phase: PhaseView::Asking, ..s },
            TaskView::ReadMetered,
        ),
{
}

/// While something is under way messages change nothing.
pub proof fn busy_law(s: WatchView, m: MessageView)
    requires
        !(s.phase is Idle),
    ensures
        next(s, NewsView::Heard(m)) == (s, TaskView::Sleep),
{
}

/// From end to end: on a metered network with a better one in the air, with
/// VPNs up and all going well, the better network is asked for, told of, and
/// the first VPN asked for again.
pub proof fn journey_law(
    s: WatchView,
    survey: SurveyView,
    card: Seq<char>,
    active: Seq<char>,
    b: BetterView,
    ap: ApView,
)
    requires
        s.phase is Surveying,
        s.card == Some(card),
        best_of(s.better, survey.aps) == Some((b, ap)),
        ups(vpns_of(survey.saved, survey.actives)).len() > 0,
    ensures
        ({
            let up = ups(vpns_of(survey.saved, survey.actives));
            let first = next(s, NewsView::Surveyed(survey));
            let second = next(
                first.0,
                NewsView::Answer(AnswerView::Rising { active, made: None }),
            );
            let third = next(second.0, NewsView::Ended(Outcome::Up));
            let fourth = next(third.0, NewsView::Connectivity(Some(4u32)));
            let fifth = next(fourth.0, NewsView::Done);
            &&& first.1 == (TaskView::Send {
                ask: AskView::Activate { conn: b.conn, card, ap: ap.path },
            })
            &&& second.1 == (TaskView::Wait { active, limit: 25_000 })
            &&& third.1 is ReadConnectivity
            &&& fourth.1 is Tell
            &&& fifth.1 == (TaskView::Send {
                ask: AskView::Activate { conn: up[0], card: "/"@, ap: "/"@ },
            })
        }),
{
}

} // verus!
