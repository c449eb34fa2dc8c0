//! What is asked of NetworkManager, where on the bus it goes, and what
//! comes back.

use vstd::prelude::*;
use vstd::string::*;

use crate::reading::{
    mark_number, mark_of, mark_read_law, marked_metered, setting, Entry, EntryView, Setting,
    SettingView,
};
use crate::text::{last_part, shortened};

verus! {

pub const NM: &'static str = "org.freedesktop.NetworkManager";

pub const NM_PATH: &'static str = "/org/freedesktop/NetworkManager";

pub const WIRELESS: &'static str = "org.freedesktop.NetworkManager.Device.Wireless";

pub const CONNECTION: &'static str = "org.freedesktop.NetworkManager.Settings.Connection";

/// How a new network is unlocked.
pub struct Security {
    pub key_mgmt: String,
    pub psk: String,
}

/// What a `Security` says.
pub struct SecurityView {
    pub key_mgmt: Seq<char>,
    pub psk: Seq<char>,
}

impl DeepView for Security {
    type V = SecurityView;

    open spec fn deep_view(&self) -> SecurityView {
        SecurityView { key_mgmt: self.key_mgmt@, psk: self.psk@ }
    }
}

/// One thing asked of NetworkManager.
pub enum Ask {
    /// Let the card look for networks.
    Scan { card: String },
    /// Bring up a saved connection.
    Activate { conn: String, card: String, ap: String },
    /// Save a new connection and bring it up.
    Add { security: Option<Security>, card: String, ap: String },
    /// Take a live connection down.
    Deactivate { active: String },
    /// Forget a saved connection.
    Delete { conn: String },
    /// Switch the Wi-Fi radio.
    Radio { on: bool },
    /// Read the settings of a saved connection.
    Settings { conn: String },
    /// Mark a saved connection metered, or take the mark off.
    Mark { conn: String, metered: bool },
}

/// What an `Ask` says.
pub enum AskView {
    Scan { card: Seq<char> },
    Activate { conn: Seq<char>, card: Seq<char>, ap: Seq<char> },
    Add { security: Option<SecurityView>, card: Seq<char>, ap: Seq<char> },
    Deactivate { active: Seq<char> },
    Delete { conn: Seq<char> },
    Radio { on: bool },
    Settings { conn: Seq<char> },
    Mark { conn: Seq<char>, metered: bool },
}

impl DeepView for Ask {
    type V = AskView;

    open spec fn deep_view(&self) -> AskView {
        match *self {
            Ask::Scan { card } => AskView::Scan { card: card@ },
            Ask::Activate { conn, card, ap } => AskView::Activate {
                conn: conn@,
                card: card@,
                ap: ap@,
            },
            Ask::Add { security, card, ap } => AskView::Add {
                security: security.deep_view(),
                card: card@,
                ap: ap@,
            },
            Ask::Deactivate { active } => AskView::Deactivate { active: active@ },
            Ask::Delete { conn } => AskView::Delete { conn: conn@ },
            Ask::Radio { on } => AskView::Radio { on },
            Ask::Settings { conn } => AskView::Settings { conn: conn@ },
            Ask::Mark { conn, metered } => AskView::Mark { conn: conn@, metered },
        }
    }
}

/// Where on the bus something is asked.
pub struct Target {
    pub path: String,
    pub interface: &'static str,
    /// The method called, or the property set.
    pub member: &'static str,
}

/// What a `Target` says.
pub struct TargetView {
    pub path: Seq<char>,
    pub interface: Seq<char>,
    pub member: Seq<char>,
}

impl DeepView for Target {
    type V = TargetView;

    open spec fn deep_view(&self) -> TargetView {
        TargetView { path: self.path@, interface: self.interface@, member: self.member@ }
    }
}

impl AskView {
    /// Where on the bus it goes.
    pub open spec fn target(self) -> TargetView {
        match self {
            AskView::Scan { card } => TargetView {
                path: card,
                interface: WIRELESS@,
                member: "RequestScan"@,
            },
            AskView::Activate { .. } => TargetView {
                path: NM_PATH@,
                interface: NM@,
                member: "ActivateConnection"@,
            },
            AskView::Add { .. } => TargetView {
                path: NM_PATH@,
                interface: NM@,
                member: "AddAndActivateConnection"@,
            },
            AskView::Deactivate { .. } => TargetView {
                path: NM_PATH@,
                interface: NM@,
                member: "DeactivateConnection"@,
            },
            AskView::Delete { conn } => TargetView {
                path: conn,
                interface: CONNECTION@,
                member: "Delete"@,
            },
            AskView::Radio { .. } => TargetView {
                path: NM_PATH@,
                interface: NM@,
                member: "WirelessEnabled"@,
            },
            AskView::Settings { conn } => TargetView {
                path: conn,
                interface: CONNECTION@,
                member: "GetSettings"@,
            },
            AskView::Mark { conn, .. } => TargetView {
                path: conn,
                interface: CONNECTION@,
                member: "Update"@,
            },
        }
    }

    /// The settings it carries: how a new network is unlocked, or the mark.
    pub open spec fn settings(self) -> Seq<EntryView> {
        match self {
            AskView::Add { security: Some(s), .. } => seq![
                EntryView {
                    group: "802-11-wireless-security"@,
                    key: "key-mgmt"@,
                    value: SettingView::Text(s.key_mgmt),
                },
                EntryView {
                    group: "802-11-wireless-security"@,
                    key: "psk"@,
                    value: SettingView::Text(s.psk),
                },
            ],
            AskView::Mark { metered, .. } => seq![
                EntryView {
                    group: "connection"@,
                    key: "metered"@,
                    value: SettingView::Int(mark_of(metered)),
                },
            ],
            _ => seq![],
        }
    }

    /// What to say when that place cannot be reached.
    pub open spec fn unreachable_words(self) -> Seq<char> {
        match self {
            AskView::Delete { .. } => "no such connection"@,
            AskView::Settings { .. } => "no such connection"@,
            AskView::Mark { .. } => "no such connection"@,
            _ => "no NetworkManager"@,
        }
    }
}

impl Ask {
    /// Where on the bus it goes.
    pub fn target(&self) -> (target: Target)
        ensures
            target.deep_view() == self.deep_view().target(),
    {
        match self {
            Ask::Scan { card } => Target {
                path: card.clone(),
                interface: WIRELESS,
                member: "RequestScan",
            },
            Ask::Activate { .. } => Target {
                path: NM_PATH.to_string(),
                interface: NM,
                member: "ActivateConnection",
            },
            Ask::Add { .. } => Target {
                path: NM_PATH.to_string(),
                interface: NM,
                member: "AddAndActivateConnection",
            },
            Ask::Deactivate { .. } => Target {
                path: NM_PATH.to_string(),
                interface: NM,
                member: "DeactivateConnection",
            },
            Ask::Delete { conn } => Target {
                path: conn.clone(),
                interface: CONNECTION,
                member: "Delete",
            },
            Ask::Radio { .. } => Target {
                path: NM_PATH.to_string(),
                interface: NM,
                member: "WirelessEnabled",
            },
            Ask::Settings { conn } => Target {
                path: conn.clone(),
                interface: CONNECTION,
                member: "GetSettings",
            },
            Ask::Mark { conn, .. } => Target {
                path: conn.clone(),
                interface: CONNECTION,
                member: "Update",
            },
        }
    }

    /// The settings it carries: how a new network is unlocked, or the mark.
    pub fn settings(&self) -> (entries: Vec<Entry>)
        ensures
            entries.deep_view() == self.deep_view().settings(),
    {
        let mut entries: Vec<Entry> = Vec::new();
        match self {
            Ask::Add { security: Some(s), .. } => {
                let group = "802-11-wireless-security";
                entries.push(
                    Entry {
                        group: group.to_string(),
                        key: "key-mgmt".to_string(),
                        value: Setting::Text(s.key_mgmt.clone()),
                    },
                );
                entries.push(
                    Entry {
                        group: group.to_string(),
                        key: "psk".to_string(),
                        value: Setting::Text(s.psk.clone()),
                    },
                );
            },
            Ask::Mark { metered, .. } => {
                entries.push(
                    Entry {
                        group: "connection".to_string(),
                        key: "metered".to_string(),
                        value: Setting::Int(mark_number(*metered)),
                    },
                );
            },
            _ => {},
        }
        assert(entries.deep_view() =~= self.deep_view().settings());
        entries
    }

    /// What to say when that place cannot be reached.
    pub fn unreachable_text(&self) -> (words: &'static str)
        ensures
            words@ == self.deep_view().unreachable_words(),
    {
        match self {
            Ask::Delete { .. } => "no such connection",
            Ask::Settings { .. } => "no such connection",
            Ask::Mark { .. } => "no such connection",
            _ => "no NetworkManager",
        }
    }
}

/// Marking a connection carries the mark that is then read from it.
pub proof fn mark_sent_law(conn: Seq<char>, metered: bool)
    ensures
        marked_metered((AskView::Mark { conn, metered }).settings()) == metered,
{
    let entries = (AskView::Mark { conn, metered }).settings();
    assert(entries[0].group == "connection"@ && entries[0].key == "metered"@);
    assert(setting(entries, "connection"@, "metered"@) == Some(
        SettingView::Int(mark_of(metered)),
    ));
    mark_read_law(entries, metered);
}

/// What came back.
pub enum Answer {
    /// A connection is coming up; `made` is the saved connection that was
    /// made for it.
    Rising { active: String, made: Option<String> },
    /// The settings that were asked for.
    Settings(Vec<Entry>),
    /// Done, and nothing to tell.
    Done,
    /// Not done, and why.
    Refused(String),
}

/// What an `Answer` says.
pub enum AnswerView {
    Rising { active: Seq<char>, made: Option<Seq<char>> },
    Settings(Seq<EntryView>),
    Done,
    Refused(Seq<char>),
}

impl DeepView for Answer {
    type V = AnswerView;

    open spec fn deep_view(&self) -> AnswerView {
        match *self {
            Answer::Rising { active, made } => AnswerView::Rising {
                active: active@,
                made: made.deep_view(),
            },
            Answer::Settings(entries) => AnswerView::Settings(entries.deep_view()),
            Answer::Done => AnswerView::Done,
            Answer::Refused(why) => AnswerView::Refused(why@),
        }
    }
}

/// `zbus::Error`, which carries what went wrong on the bus.
#[verifier::external_type_specification]
#[verifier::external_body]
pub struct ExBusError(zbus::Error);

/// A D-Bus error without the D-Bus: just what went wrong, which is what
/// stands after the last `": "` of the error as text.
pub fn short(e: &zbus::Error) -> (words: String)
    ensures
        exists|said: String| #[trigger]
            to_string_from_display_ensures::<zbus::Error>(e, said) && words@ == shortened(
                said@,
            ),
{
    let said = e.to_string();
    last_part(said.as_str())
}

} // verus!
