//! The tray icon: what its menu entries ask for, and which colour it has.
//!
//! The icon follows three subscriptions: the subsystems of the server, the
//! state of the SPN, and the setting that switches the SPN on. Receiving
//! from them and drawing the icon are the caller's part.

use crate::message::Payload;
use crate::subsystem::{Subsystem, FAILURE_ERROR, FAILURE_NONE, FAILURE_WARNING};
use crate::text::same_text;
use crate::types::Response;
use vstd::prelude::*;

verus! {

/// The query that follows the subsystems.
pub const SUBSYSTEMS_QUERY: &'static str = "query runtime:subsystems/";

/// The query that follows the state of the SPN.
pub const SPN_STATUS_QUERY: &'static str = "query runtime:spn/status";

/// The query that follows the setting that switches the SPN on.
pub const SPN_ENABLE_QUERY: &'static str = "query config:spn/enable";

/// What an entry of the tray menu asks for.
#[derive(Clone, Copy, PartialEq, Eq, Debug, Structural)]
pub enum MenuAction {
    /// Ask whether to quit, and quit on "yes".
    Close,
    /// Open the window.
    Open,
    /// Open the window and load the user interface anew.
    Reload,
    /// Make the main window, load the user interface and show it.
    ForceShow,
    /// Switch the SPN to what the entry now shows.
    Spn,
    /// Nothing: the entry is not known.
    Unknown,
}

/// What the menu entry named `id` asks for.
pub open spec fn menu_action_of(id: Seq<char>) -> MenuAction {
    if id == "close"@ {
        MenuAction::Close
    } else if id == "open"@ {
        MenuAction::Open
    } else if id == "reload"@ {
        MenuAction::Reload
    } else if id == "force-show"@ {
        MenuAction::ForceShow
    } else if id == "spn"@ {
        MenuAction::Spn
    } else {
        MenuAction::Unknown
    }
}

/// What the menu entry named `id` asks for.
pub fn menu_action(id: &str) -> (action: MenuAction)
    ensures
        action == menu_action_of(id@),
{
    if same_text(id, "close") {
        MenuAction::Close
    } else if same_text(id, "open") {
        MenuAction::Open
    } else if same_text(id, "reload") {
        MenuAction::Reload
    } else if same_text(id, "force-show") {
        MenuAction::ForceShow
    } else if same_text(id, "spn") {
        MenuAction::Spn
    } else {
        MenuAction::Unknown
    }
}

/// The colours of the tray icon.
#[derive(Clone, Copy, PartialEq, Eq, Debug, Structural)]
pub enum IconColor {
    Blue,
    Red,
    Yellow,
    Green,
}

/// The worst failure among `failures`: the largest of them, or none where
/// there are none.
pub open spec fn worst_failure(failures: Seq<u8>) -> u8
    decreases failures.len(),
{
    if failures.len() == 0 {
        FAILURE_NONE
    } else {
        let before = worst_failure(failures.drop_last());
        if failures.last() > before {
            failures.last()
        } else {
            before
        }
    }
}

/// The colour that shows a worst failure and a state of the SPN: yellow for
/// a warning, red for an error; else blue while the SPN is connected or
/// connecting, and green otherwise.
pub open spec fn icon_color_of(failure: u8, spn_status: Seq<char>) -> IconColor {
    if failure == FAILURE_WARNING {
        IconColor::Yellow
    } else if failure == FAILURE_ERROR {
        IconColor::Red
    } else if spn_status == "connected"@ || spn_status == "connecting"@ {
        IconColor::Blue
    } else {
        IconColor::Green
    }
}

/// The failures that the subsystems report, in their order.
pub open spec fn failures_of(subsystems: Seq<Subsystem>) -> Seq<u8> {
    subsystems.map_values(|s: Subsystem| s.failure_status)
}

/// The worst failure is the largest of the failures, and it is none or one
/// of them.
pub proof fn lemma_worst_failure(failures: Seq<u8>)
    ensures
        forall|i: int|
            0 <= i < failures.len() ==> #[trigger] failures[i] <= worst_failure(failures),
        worst_failure(failures) == FAILURE_NONE || exists|i: int|
            0 <= i < failures.len() && #[trigger] failures[i] == worst_failure(failures),
    decreases failures.len(),
{
    if failures.len() > 0 {
        let front = failures.drop_last();
        lemma_worst_failure(front);
        assert forall|i: int| 0 <= i < failures.len() implies #[trigger] failures[i]
            <= worst_failure(failures) by {
            if i < front.len() {
                assert(front[i] == failures[i]);
            }
        }
        if worst_failure(failures) != FAILURE_NONE {
            if failures.last() > worst_failure(front) {
                assert(failures[failures.len() - 1] == worst_failure(failures));
            } else {
                let i = choose|i: int|
                    0 <= i < front.len() && #[trigger] front[i] == worst_failure(front);
                assert(failures[i] == worst_failure(failures));
            }
        }
    }
}

/// The colour of the tray icon for the subsystems `subsystems` and the
/// state `spn_status` of the SPN.
pub fn update_icon(subsystems: &Vec<Subsystem>, spn_status: &str) -> (color: IconColor)
    ensures
        color == icon_color_of(worst_failure(failures_of(subsystems@)), spn_status@),
{
    let mut failure: u8 = FAILURE_NONE;
    let mut i: usize = 0;
    while i < subsystems.len()
        invariant
            i <= subsystems.len(),
            failure == worst_failure(failures_of(subsystems@).take(i as int)),
        decreases subsystems.len() - i,
    {
        let s: u8 = subsystems[i].failure_status;
        assert(failures_of(subsystems@).take(i + 1).drop_last() =~= failures_of(subsystems@).take(
            i as int,
        ));
        if s > failure {
            failure = s;
        }
        i = i + 1;
    }
    assert(failures_of(subsystems@).take(i as int) =~= failures_of(subsystems@));
    if failure == FAILURE_WARNING {
        IconColor::Yellow
    } else if failure == FAILURE_ERROR {
        IconColor::Red
    } else if same_text(spn_status, "connected") || same_text(spn_status, "connecting") {
        IconColor::Blue
    } else {
        IconColor::Green
    }
}

/// The record that a response brings: its key and its payload. Only a
/// result, a new record and a changed record bring one.
pub fn record_of(response: Response) -> (record: Option<(String, Payload)>)
    ensures
        record == match response {
            Response::OK(key, payload) => Some((key, payload)),
            Response::New(key, payload) => Some((key, payload)),
            Response::Update(key, payload) => Some((key, payload)),
            _ => None::<(String, Payload)>,
        },
{
    match response {
        Response::OK(key, payload) => Some((key, payload)),
        Response::New(key, payload) => Some((key, payload)),
        Response::Update(key, payload) => Some((key, payload)),
        _ => None,
    }
}

/// The colour of the icon while the server is connected and nothing else
/// is known.
pub const CONNECTED_ICON: IconColor = IconColor::Blue;

/// The colour of the icon while the server is not connected.
pub const DISCONNECTED_ICON: IconColor = IconColor::Red;

/// The first place in `subsystems` of the subsystem named `id`, or the
/// length of `subsystems` where it has none.
pub open spec fn place_of(subsystems: Seq<Subsystem>, id: Seq<char>) -> int
    decreases subsystems.len(),
{
    if subsystems.len() == 0 {
        0
    } else if subsystems[0].id@ == id {
        0
    } else {
        1 + place_of(subsystems.drop_first(), id)
    }
}

/// `subsystems` after `subsystem` was reported: it stands in place of the
/// one of the same name, or behind all others where there is none.
pub open spec fn reported(subsystems: Seq<Subsystem>, subsystem: Subsystem) -> Seq<Subsystem> {
    let place = place_of(subsystems, subsystem.id@);
    if 0 <= place < subsystems.len() {
        subsystems.update(place, subsystem)
    } else {
        subsystems.push(subsystem)
    }
}

/// Whether no two of `subsystems` have the same name.
pub open spec fn names_apart(subsystems: Seq<Subsystem>) -> bool {
    forall|i: int, j: int|
        0 <= i < subsystems.len() && 0 <= j < subsystems.len() && i != j ==> (
        #[trigger] subsystems[i]).id@ != (#[trigger] subsystems[j]).id@
}

/// Where the place of a name lies: the subsystem there has the name, and
/// none before it has.
pub proof fn lemma_place_of(subsystems: Seq<Subsystem>, id: Seq<char>)
    ensures
        0 <= place_of(subsystems, id) <= subsystems.len(),
        place_of(subsystems, id) < subsystems.len() ==> subsystems[place_of(subsystems, id)].id@
            == id,
        forall|i: int| 0 <= i < place_of(subsystems, id) ==> (#[trigger] subsystems[i]).id@ != id,
    decreases subsystems.len(),
{
    if subsystems.len() > 0 && subsystems[0].id@ != id {
        let rest = subsystems.drop_first();
        lemma_place_of(rest, id);
        assert forall|i: int| 0 <= i < place_of(subsystems, id) implies (
        #[trigger] subsystems[i]).id@ != id by {
            if i > 0 {
                assert(rest[i - 1] == subsystems[i]);
            }
        }
    }
}

/// Each subsystem is kept once: as long as no two have the same name, a
/// report leaves it so.
pub proof fn lemma_reported_names_apart(subsystems: Seq<Subsystem>, subsystem: Subsystem)
    requires
        names_apart(subsystems),
    ensures
        names_apart(reported(subsystems, subsystem)),
{
    lemma_place_of(subsystems, subsystem.id@);
    let place = place_of(subsystems, subsystem.id@);
    let after = reported(subsystems, subsystem);
    assert forall|i: int, j: int|
        0 <= i < after.len() && 0 <= j < after.len() && i != j implies (#[trigger] after[i]).id@
        != (#[trigger] after[j]).id@ by {
        if place < subsystems.len() {
            if i != place && j != place {
                assert(subsystems[i].id@ != subsystems[j].id@);
            } else if i == place {
                assert(subsystems[i].id@ != subsystems[j].id@);
            } else {
                assert(subsystems[i].id@ != subsystems[j].id@);
            }
        } else {
            if i < subsystems.len() && j < subsystems.len() {
                assert(subsystems[i].id@ != subsystems[j].id@);
            }
        }
    }
}

/// What the tray knows of the server.
pub struct Tray {
    subsystems: Vec<Subsystem>,
    spn_status: String,
}

/// What the tray knows, as a mathematical value.
pub struct TrayView {
    /// The subsystems that were reported, each in the place of its first
    /// report.
    pub subsystems: Seq<Subsystem>,
    /// The state of the SPN as it was last reported.
    pub spn_status: Seq<char>,
}

impl TrayView {
    /// The colour that shows what the tray knows.
    pub open spec fn color(self) -> IconColor {
        icon_color_of(worst_failure(failures_of(self.subsystems)), self.spn_status)
    }
}

impl View for Tray {
    type V = TrayView;

    closed spec fn view(&self) -> TrayView {
        TrayView { subsystems: self.subsystems@, spn_status: self.spn_status@ }
    }
}

impl Tray {
    /// A tray that knows nothing yet.
    pub fn new() -> (tray: Tray)
        ensures
            tray@.subsystems.len() == 0,
            tray@.spn_status.len() == 0,
    {
        Tray { subsystems: Vec::new(), spn_status: String::new() }
    }

    /// The colour that shows what the tray knows.
    pub fn color(&self) -> (color: IconColor)
        ensures
            color == self@.color(),
    {
        update_icon(&self.subsystems, self.spn_status.as_str())
    }

    /// Takes the report of a subsystem, and says which colour the icon has
    /// from now on.
    pub fn on_subsystem(&mut self, subsystem: Subsystem) -> (color: IconColor)
        ensures
            final(self)@.subsystems == reported(old(self)@.subsystems, subsystem),
            final(self)@.spn_status == old(self)@.spn_status,
            color == final(self)@.color(),
    {
        let ghost before = self.subsystems@;
        let mut place: usize = 0;
        assert(before.skip(0) =~= before);
        while place < self.subsystems.len() && !same_text(
            self.subsystems[place].id.as_str(),
            subsystem.id.as_str(),
        )
            invariant
                place <= self.subsystems.len(),
                self.subsystems@ == before,
                self.spn_status == old(self).spn_status,
                place_of(before, subsystem.id@) == place + place_of(
                    before.skip(place as int),
                    subsystem.id@,
                ),
            decreases self.subsystems.len() - place,
        {
            assert(before.skip(place as int).drop_first() =~= before.skip(place + 1));
            place = place + 1;
        }
        assert(place_of(before, subsystem.id@) == place) by {
            if place < before.len() {
                assert(before.skip(place as int)[0] == before[place as int]);
            }
        }
        if place < self.subsystems.len() {
            self.subsystems.set(place, subsystem);
        } else {
            self.subsystems.push(subsystem);
        }
        self.color()
    }

    /// Takes the report of the state of the SPN, and says which colour the
    /// icon has from now on.
    pub fn on_spn_status(&mut self, status: String) -> (color: IconColor)
        ensures
            final(self)@.subsystems == old(self)@.subsystems,
            final(self)@.spn_status == status@,
            color == final(self)@.color(),
    {
        self.spn_status = status;
        self.color()
    }
}

/// Whether the menu entry of the SPN is checked, given the setting as it
/// was reported: a setting without a value counts as switched off.
pub fn spn_checked(setting: Option<bool>) -> (checked: bool)
    ensures
        checked == match setting {
            Some(value) => value,
            None => false,
        },
{
    if let Some(value) = setting {
        value
    } else {
        false
    }
}

} // verus!
