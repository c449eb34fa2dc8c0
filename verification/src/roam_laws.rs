//! What holds of the list whatever is pressed and whatever comes back.

use vstd::prelude::*;

use crate::bus::{AnswerView, AskView};
use crate::nm::{joining, nowhere, Lock, NetView, Outcome};
use crate::reading::{marked_metered, EntryView};
use crate::roam::{
    enter_pressed, forget_pressed, leave_pressed, live_net, mark_pressed, net_to_leave, next,
    row_at, row_count, scan_pressed, ActView, EventView, RoamView, Row, StageView,
};

verus! {

/// Whether the cursor is on a row, or at the start when there is none.
pub open spec fn on_row(s: RoamView) -> bool {
    s.sel < row_count(s.look) || s.sel == 0
}

/// The cursor stays on a row, whatever happens.
pub proof fn cursor_stays_law(s: RoamView, event: EventView, now: u64)
    requires
        on_row(s),
    ensures
        on_row(next(s, event, now).0),
{
}

/// What is shown changes only when a new look that was asked for is in, and
/// is then that look.
pub proof fn only_looks_show_law(s: RoamView, event: EventView, now: u64)
    ensures
        next(s, event, now).0.card == s.card,
        match (s.stage, event) {
            (StageView::Looking, EventView::Looked(look)) => next(s, event, now).0.look == look,
            _ => next(s, event, now).0.look == s.look,
        },
{
}

/// The program ends when q or Escape is pressed while nothing is under way,
/// and only then.
pub proof fn quit_law(s: RoamView, event: EventView, now: u64)
    ensures
        next(s, event, now).1 is Quit <==> s.stage is Keys && (event == EventView::Key("q"@)
            || event == EventView::Key("ESC"@)),
{
}

/// Every key does its own work: Enter joins or switches, d leaves, f
/// forgets, m marks, r looks again, w switches the radio, ? shows the keys.
pub proof fn keys_law(s: RoamView, now: u64)
    requires
        s.stage is Keys,
    ensures
        next(s, EventView::Key("ENTER"@), now) == enter_pressed(s, now),
        next(s, EventView::Key("d"@), now) == leave_pressed(s, now),
        next(s, EventView::Key("f"@), now) == forget_pressed(s, now),
        next(s, EventView::Key("m"@), now) == mark_pressed(s, now),
        next(s, EventView::Key("r"@), now) == scan_pressed(s, now),
        next(s, EventView::Key("w"@), now).1 == (ActView::Send {
            ask: AskView::Radio { on: !s.look.wifi_on },
            show: false,
        }),
        next(s, EventView::Key("?"@), now).1 is Help,
{
    reveal_strlit("ENTER");
    reveal_strlit("q");
    reveal_strlit("ESC");
    reveal_strlit("j");
    reveal_strlit("DOWN");
    reveal_strlit("k");
    reveal_strlit("UP");
    reveal_strlit("g");
    reveal_strlit("HOME");
    reveal_strlit("G");
    reveal_strlit("END");
    reveal_strlit("d");
    reveal_strlit("f");
    reveal_strlit("m");
    reveal_strlit("r");
    reveal_strlit("w");
    reveal_strlit("?");
    assert("ENTER"@.len() == 5 && "DOWN"@.len() == 4 && "HOME"@.len() == 4);
    assert("ESC"@.len() == 3 && "END"@.len() == 3 && "UP"@.len() == 2);
    assert("q"@[0] == 'q' && "j"@[0] == 'j' && "k"@[0] == 'k' && "g"@[0] == 'g' && "G"@[0] == 'G');
    assert("d"@[0] == 'd' && "f"@[0] == 'f' && "m"@[0] == 'm' && "r"@[0] == 'r');
    assert("w"@[0] == 'w' && "?"@[0] == '?');
    assert("q"@.len() == 1 && "j"@.len() == 1 && "k"@.len() == 1 && "g"@.len() == 1);
    assert("d"@.len() == 1 && "f"@.len() == 1 && "m"@.len() == 1 && "r"@.len() == 1);
    assert("w"@.len() == 1 && "?"@.len() == 1 && "G"@.len() == 1);
}

/// Leaving takes down a live network, the one under the cursor if that is
/// live; without a live network nothing is asked.
pub proof fn leave_law(s: RoamView, now: u64)
    requires
        s.stage is Keys,
    ensures
        match next(s, EventView::Key("d"@), now).1 {
            ActView::Send { ask, .. } => exists|i: int|
                0 <= i < s.look.nets.len() && (#[trigger] s.look.nets[i]).active is Some && ask == (
                AskView::Deactivate { active: s.look.nets[i].active->0 }) && (s.sel
                    < s.look.nets.len() && s.look.nets[s.sel as int].active is Some ==> i == s.sel),
            _ => forall|i: int|
                0 <= i < s.look.nets.len() ==> (#[trigger] s.look.nets[i]).active is None,
        },
{
    keys_law(s, now);
    live_net_finds(s.look.nets);
    let k = net_to_leave(s) as int;
    if k < s.look.nets.len() {
        assert(s.look.nets[k].active is Some);
    }
}

/// At `live_net` stands a live network, and none before it.
pub proof fn live_net_finds(nets: Seq<NetView>)
    ensures
        live_net(nets) <= nets.len(),
        live_net(nets) < nets.len() ==> nets[live_net(nets) as int].active is Some,
        forall|i: int| 0 <= i < live_net(nets) ==> (#[trigger] nets[i]).active is None,
    decreases nets.len(),
{
    if nets.len() > 0 && nets[0].active is None {
        live_net_finds(nets.drop_first());
        assert forall|i: int| 0 <= i < live_net(nets) implies (#[trigger] nets[i]).active
            is None by {
            if i > 0 {
                assert(nets[i] == nets.drop_first()[i - 1]);
            }
        }
    }
}

/// Enter on a VPN takes it down when it is up, and brings it up when it is
/// down.
pub proof fn vpn_law(s: RoamView, i: usize, now: u64)
    requires
        s.stage is Keys,
        row_at(s.look, s.sel as int) == Some(Row::Vpn(i)),
    ensures
        next(s, EventView::Key("ENTER"@), now).1 matches ActView::Send { ask, .. } && ask == (
        match s.look.vpns[i as int].active {
            Some(active) => AskView::Deactivate { active },
            None => AskView::Activate {
                conn: s.look.vpns[i as int].conn,
                card: nowhere(),
                ap: nowhere(),
            },
        }),
{
    keys_law(s, now);
}

/// Whether joining a network takes a password: a locked network nobody has
/// saved, that a password alone unlocks.
pub open spec fn wants_password(net: NetView) -> bool {
    net.active is None && net.saved is None && (net.lock == Lock::Psk || net.lock == Lock::Sae)
}

/// Enter on a network asks for a password exactly when joining it takes
/// one.
pub proof fn password_asked_law(s: RoamView, i: usize, now: u64)
    requires
        s.stage is Keys,
        row_at(s.look, s.sel as int) == Some(Row::Net(i)),
    ensures
        next(s, EventView::Key("ENTER"@), now).1 is Password <==> wants_password(
            s.look.nets[i as int],
        ),
{
    keys_law(s, now);
}

/// Nothing but Enter on such a network asks for a password.
pub proof fn password_only_law(s: RoamView, event: EventView, now: u64)
    requires
        next(s, event, now).1 is Password,
    ensures
        s.stage is Keys,
        event == EventView::Key("ENTER"@),
        row_at(s.look, s.sel as int) matches Some(Row::Net(i)) && wants_password(
            s.look.nets[i as int],
        ),
{
}

/// A saved network joins without asking: it comes up as it was saved.
pub proof fn saved_joins_law(s: RoamView, i: usize, card: Seq<char>, conn: Seq<char>, now: u64)
    requires
        s.stage is Keys,
        s.card == Some(card),
        row_at(s.look, s.sel as int) == Some(Row::Net(i)),
        s.look.nets[i as int].active is None,
        s.look.nets[i as int].saved == Some(conn),
    ensures
        next(s, EventView::Key("ENTER"@), now).1 == (ActView::Send {
            ask: AskView::Activate { conn, card, ap: s.look.nets[i as int].ap },
            show: true,
        }),
{
    keys_law(s, now);
}

/// A password travels inside one call to NetworkManager: what was typed for
/// a network goes into what is sent for it.
pub proof fn password_sent_law(
    s: RoamView,
    net: NetView,
    card: Seq<char>,
    password: Seq<char>,
    now: u64,
)
    requires
        s.stage == (StageView::Password { net }),
        s.card == Some(card),
        password.len() > 0,
    ensures
        next(s, EventView::Typed(Some(password)), now).1 == (ActView::Send {
            ask: joining(net, card, Some(password)),
            show: true,
        }),
{
}

/// A password stays nowhere: how the list stands afterwards is the same
/// whatever was typed.
pub proof fn password_kept_nowhere_law(s: RoamView, one: Seq<char>, other: Seq<char>, now: u64)
    requires
        one.len() > 0,
        other.len() > 0,
    ensures
        next(s, EventView::Typed(Some(one)), now).0 == next(
            s,
            EventView::Typed(Some(other)),
            now,
        ).0,
{
}

/// No other event sends a password.
pub proof fn password_sent_once_law(s: RoamView, event: EventView, now: u64)
    requires
        next(s, event, now).1 matches ActView::Send { ask: AskView::Add { security: Some(_), .. }, .. },
    ensures
        event is Typed,
        s.stage is Password,
{
}

/// A first try that fails leaves nothing behind: the connection that was
/// saved for it is forgotten, and then a new look is taken.
pub proof fn failed_try_law(
    s: RoamView,
    ssid: Seq<char>,
    asked: bool,
    conn: Seq<char>,
    answer: AnswerView,
    now: u64,
    later: u64,
)
    requires
        s.stage == (StageView::Waiting { ssid, asked, made: Some(conn) }),
    ensures
        next(s, EventView::Ended(Outcome::Failed), now).1 == (ActView::Send {
            ask: AskView::Delete { conn },
            show: false,
        }),
        next(
            next(s, EventView::Ended(Outcome::Failed), now).0,
            EventView::Answer(answer),
            later,
        ).1 == (ActView::Look { pause: 0 }),
{
}

/// A saved connection is forgotten after a yes to the question about it, or
/// because a first try at it failed; never otherwise.
pub proof fn forgotten_law(s: RoamView, event: EventView, now: u64, conn: Seq<char>)
    requires
        next(s, event, now).1 matches ActView::Send { ask: AskView::Delete { conn: it }, .. } && it
            == conn,
    ensures
        (s.stage matches StageView::Confirming { conn: it, .. } && it == conn && event
            == EventView::Key("y"@)) || (s.stage matches StageView::Waiting { made, .. } && made
            == Some(conn) && event == EventView::Ended(Outcome::Failed)),
{
}

/// The question whether to forget is about the saved network under the
/// cursor.
pub proof fn forget_asked_law(s: RoamView, event: EventView, now: u64)
    requires
        next(s, event, now).0.stage is Confirming,
    ensures
        s.stage is Keys,
        event == EventView::Key("f"@),
        row_at(s.look, s.sel as int) matches Some(Row::Net(i)) && next(s, event, now).0.stage == (
        StageView::Confirming {
            ssid: s.look.nets[i as int].ssid,
            conn: s.look.nets[i as int].saved->0,
        }) && s.look.nets[i as int].saved is Some,
{
}

/// Marking turns the mark round: what is asked for is the opposite of what
/// the settings say.
pub proof fn mark_law(
    s: RoamView,
    ssid: Seq<char>,
    conn: Seq<char>,
    entries: Seq<EntryView>,
    now: u64,
)
    requires
        s.stage == (StageView::Reading { ssid, conn }),
    ensures
        next(s, EventView::Answer(AnswerView::Settings(entries)), now).1 == (ActView::Send {
            ask: AskView::Mark { conn, metered: !marked_metered(entries) },
            show: false,
        }),
{
}

/// Nothing wakes the wait for a key but a key, or the moment a scan asked
/// for should have its answer.
pub proof fn quiet_law(s: RoamView, now: u64)
    requires
        s.stage is Keys,
    ensures
        match s.rescan_at {
            Some(at) => next(s, EventView::Quiet, now).1 is Look <==> now >= at,
            None => next(s, EventView::Quiet, now) == (s, ActView::Listen { wait: 600_000 }),
        },
{
}

} // verus!
