//! The overlay coordinator's decisions: a state machine from the current state
//! and an event (a menu action, a notification, a timer, the outcome of a
//! system call) to the next state and the actions the application performs,
//! in order.
//!
//! The application runs the loop: it performs each action and hands back the
//! events that outside work produces (the battery poll, the login-item
//! registration). Changes of the overlay intensity, a fraction, are applied by
//! the application directly.

use vstd::prelude::*;
use crate::catalog::{catalog, catalog_view, CATALOG_LEN};
use crate::exclusion::{should_suppress, suppressed};
use crate::settings::{Preferences, PreferencesView};

verus! {

/// What the application does in response to an event.
#[derive(Clone, Copy, Debug, PartialEq, Eq, Structural)]
pub enum Action {
    /// Hide and drop the overlay panels, and build one per screen anew.
    RebuildPanels,
    /// Show (`true`) or hide (`false`) the overlay panels.
    SetVisible(bool),
    /// Create the menu-bar status item with its menu.
    BuildStatusItem,
    /// Rebuild the menu so that it reflects the preferences.
    RebuildMenu,
    /// Observe application activation and Space changes.
    RegisterObservers,
    /// Start the repeating battery poll timer.
    StartPowerTimer,
    /// Read the power source and hand back `Event::PowerPolled`.
    PollPower,
    /// Save the preferences (with the intensity) to disk.
    Persist,
    /// Re-bake the panels' grain pattern for the selected texture.
    ApplyTexture,
    /// After the given number of minutes, hand back `Event::EndSnooze`.
    ScheduleEndSnooze(isize),
    /// Register (`true`) or unregister (`false`) the login item and hand back
    /// `Event::LoginItemSet` with the achieved state.
    SetLoginItem(bool),
    /// Quit the application.
    Terminate,
}

/// Something that happened to the application.
#[derive(Debug)]
pub enum Event {
    /// The application finished launching.
    Launched,
    /// The attached screens changed.
    ScreenParametersChanged,
    /// The "Enabled" menu item was chosen.
    ToggleEnabled,
    /// A texture menu item was chosen; its tag is the catalog index.
    PickTexture(isize),
    /// A snooze menu item was chosen; its tag is the number of minutes.
    Snooze(isize),
    /// The snooze timer fired.
    EndSnooze,
    /// The "Pause on Battery" menu item was chosen.
    TogglePauseOnBattery,
    /// The "Launch at Login" menu item was chosen.
    ToggleLoginItem,
    /// The login-item registration ended in the given state.
    LoginItemSet(bool),
    /// The power source was read: `true` when on battery.
    PowerPolled(bool),
    /// Another application became frontmost (its bundle id, if it has one).
    AppActivated(Option<String>),
    /// The active Space changed.
    ActiveSpaceChanged,
    /// "Quit" was chosen.
    Quit,
}

/// All decision-relevant runtime state.
pub struct AppState {
    /// The persisted preferences.
    pub prefs: Preferences,
    /// True while snoozed (overlay temporarily forced hidden).
    pub snoozed: bool,
    /// True while suppressed by an excluded frontmost app.
    pub suppressed_by_app: bool,
    /// True while paused due to running on battery.
    pub paused_by_battery: bool,
}

/// The state as plain values.
pub struct AppStateView {
    pub prefs: PreferencesView,
    pub snoozed: bool,
    pub suppressed_by_app: bool,
    pub paused_by_battery: bool,
}

impl View for AppState {
    type V = AppStateView;

    open spec fn view(&self) -> AppStateView {
        AppStateView {
            prefs: self.prefs@,
            snoozed: self.snoozed,
            suppressed_by_app: self.suppressed_by_app,
            paused_by_battery: self.paused_by_battery,
        }
    }
}

/// The overlay is visible iff enabled and none of the suppressors (snooze,
/// exclusion, battery) is active.
pub open spec fn shows(s: AppStateView) -> bool {
    s.prefs.enabled && !s.snoozed && !s.suppressed_by_app && !s.paused_by_battery
}

/// The view of an optional bundle id.
pub open spec fn bundle_view(f: Option<String>) -> Option<Seq<char>> {
    match f {
        Some(s) => Some(s@),
        None => None,
    }
}

/// A tag that names a catalog entry.
pub open spec fn is_catalog_tag(tag: isize) -> bool {
    0 <= tag < CATALOG_LEN
}

/// The next state and the actions, in order, for event `e` in state `s`.
pub open spec fn step(s: AppStateView, e: Event) -> (AppStateView, Seq<Action>) {
    match e {
        Event::Launched => (
            s,
            seq![
                Action::RebuildPanels,
                Action::SetVisible(shows(s)),
                Action::BuildStatusItem,
                Action::RegisterObservers,
                Action::StartPowerTimer,
                Action::PollPower,
            ],
        ),
        Event::ScreenParametersChanged => (s, seq![Action::RebuildPanels, Action::SetVisible(shows(s))]),
        Event::ToggleEnabled => {
            let t = AppStateView { prefs: PreferencesView { enabled: !s.prefs.enabled, ..s.prefs }, ..s };
            (t, seq![Action::Persist, Action::SetVisible(shows(t)), Action::RebuildMenu])
        },
        Event::PickTexture(tag) => {
            if is_catalog_tag(tag) {
                let t = AppStateView {
                    prefs: PreferencesView { texture: catalog_view()[tag as int].0, ..s.prefs },
                    ..s
                };
                (t, seq![Action::ApplyTexture, Action::Persist, Action::RebuildMenu])
            } else {
                (s, seq![])
            }
        },
        Event::Snooze(minutes) => {
            let t = AppStateView { snoozed: true, ..s };
            (t, seq![Action::SetVisible(shows(t)), Action::ScheduleEndSnooze(minutes)])
        },
        Event::EndSnooze => {
            let t = AppStateView { snoozed: false, ..s };
            (t, seq![Action::SetVisible(shows(t))])
        },
        Event::TogglePauseOnBattery => {
            let t = AppStateView {
                prefs: PreferencesView { pause_on_battery: !s.prefs.pause_on_battery, ..s.prefs },
                ..s
            };
            (t, seq![Action::Persist, Action::PollPower, Action::RebuildMenu])
        },
        Event::ToggleLoginItem => (s, seq![Action::SetLoginItem(!s.prefs.login_item)]),
        Event::LoginItemSet(achieved) => {
            let t = AppStateView { prefs: PreferencesView { login_item: achieved, ..s.prefs }, ..s };
            (t, seq![Action::Persist, Action::RebuildMenu])
        },
        Event::PowerPolled(on_battery) => {
            let t = AppStateView { paused_by_battery: s.prefs.pause_on_battery && on_battery, ..s };
            (t, seq![Action::SetVisible(shows(t))])
        },
        Event::AppActivated(frontmost) => {
            let t = AppStateView {
                suppressed_by_app: suppressed(bundle_view(frontmost), s.prefs.exclusion_list),
                ..s
            };
            (t, seq![Action::SetVisible(shows(t))])
        },
        Event::ActiveSpaceChanged => (s, seq![Action::SetVisible(shows(s))]),
        Event::Quit => (s, seq![Action::Terminate]),
    }
}

/// Whatever happens, every show/hide the coordinator asks for agrees with
/// the state it leaves behind: the overlay is shown iff enabled and neither
/// snoozed, nor suppressed by an excluded app, nor paused on battery.
pub proof fn lemma_visibility_follows_state(s: AppStateView, e: Event)
    ensures
        forall|i: int| 0 <= i < step(s, e).1.len() ==>
            (#[trigger] step(s, e).1[i] matches Action::SetVisible(v) ==> v == shows(step(s, e).0)),
        shows(s) <==> (s.prefs.enabled && !s.snoozed && !s.suppressed_by_app && !s.paused_by_battery),
{
}

/// Every event that changes the preferences asks for them to be saved and
/// for the menu to be rebuilt, so what is on disk and what the menu shows
/// keep up with every change.
pub proof fn lemma_preference_changes_are_persisted(s: AppStateView, e: Event)
    ensures
        step(s, e).0.prefs != s.prefs ==> step(s, e).1.contains(Action::Persist)
            && step(s, e).1.contains(Action::RebuildMenu),
{
    let r = step(s, e).1;
    match e {
        Event::ToggleEnabled => {
            assert(r[0] == Action::Persist);
            assert(r[2] == Action::RebuildMenu);
        },
        Event::PickTexture(tag) => {
            if is_catalog_tag(tag) {
                assert(r[1] == Action::Persist);
                assert(r[2] == Action::RebuildMenu);
            }
        },
        Event::TogglePauseOnBattery => {
            assert(r[0] == Action::Persist);
            assert(r[2] == Action::RebuildMenu);
        },
        Event::LoginItemSet(_) => {
            assert(r[0] == Action::Persist);
            assert(r[1] == Action::RebuildMenu);
        },
        _ => {},
    }
}

/// Snoozing and then the end of the snooze restore the state from before
/// the snooze, and the overlay's visibility with it.
pub proof fn lemma_snooze_round_trip(s: AppStateView, minutes: isize)
    requires
        !s.snoozed,
    ensures
        step(step(s, Event::Snooze(minutes)).0, Event::EndSnooze).0 == s,
        step(step(s, Event::Snooze(minutes)).0, Event::EndSnooze).1 == seq![Action::SetVisible(shows(s))],
        !shows(step(s, Event::Snooze(minutes)).0),
{
}

/// Toggling "Enabled" twice, or "Pause on Battery" twice, restores the state.
pub proof fn lemma_toggles_are_involutions(s: AppStateView)
    ensures
        step(step(s, Event::ToggleEnabled).0, Event::ToggleEnabled).0 == s,
        step(step(s, Event::TogglePauseOnBattery).0, Event::TogglePauseOnBattery).0 == s,
{
}

/// The battery pauses the overlay only when "Pause on Battery" is on and the
/// machine runs on battery; a battery reading never touches the preferences.
pub proof fn lemma_battery_pause(s: AppStateView, on_battery: bool)
    ensures
        step(s, Event::PowerPolled(on_battery)).0.paused_by_battery == (s.prefs.pause_on_battery && on_battery),
        step(s, Event::PowerPolled(on_battery)).0.prefs == s.prefs,
{
}

/// At launch, with nothing yet suppressing it, the overlay is shown iff it is
/// enabled, and the battery is polled once everything is set up.
pub proof fn lemma_launch(prefs: PreferencesView)
    ensures
        ({
            let s = AppStateView { prefs, snoozed: false, suppressed_by_app: false, paused_by_battery: false };
            &&& step(s, Event::Launched).1[1] == Action::SetVisible(prefs.enabled)
            &&& step(s, Event::Launched).1.last() == Action::PollPower
        }),
{
}

/// Choosing a catalog texture selects that entry's key; any other tag changes
/// nothing and asks for nothing.
pub proof fn lemma_pick_texture(s: AppStateView, tag: isize)
    ensures
        is_catalog_tag(tag) ==> step(s, Event::PickTexture(tag)).0.prefs.texture == catalog_view()[tag as int].0,
        !is_catalog_tag(tag) ==> step(s, Event::PickTexture(tag)).0 == s && step(s, Event::PickTexture(tag)).1.len() == 0,
{
}

/// Snoozing for `minutes` hides the overlay at once and schedules its end
/// after exactly those minutes; only the snooze flag changes. Ending the
/// snooze clears just that flag and shows the overlay again unless it is
/// disabled, suppressed by an excluded app or paused on battery.
pub proof fn lemma_snooze_schedules_chosen_minutes(s: AppStateView, minutes: isize)
    ensures
        step(s, Event::Snooze(minutes)).1 == seq![Action::SetVisible(false), Action::ScheduleEndSnooze(minutes)],
        step(s, Event::Snooze(minutes)).1.last() == Action::ScheduleEndSnooze(minutes),
        step(s, Event::Snooze(minutes)).0 == (AppStateView { snoozed: true, ..s }),
        step(s, Event::EndSnooze).0 == (AppStateView { snoozed: false, ..s }),
        step(s, Event::EndSnooze).1 == seq![
            Action::SetVisible(s.prefs.enabled && !s.suppressed_by_app && !s.paused_by_battery),
        ],
{
}

/// When another app becomes frontmost, the overlay is suppressed exactly
/// when that app has a bundle id that occurs anywhere in the exclusion list;
/// nothing else in the state changes, and the overlay is shown or hidden to
/// match.
pub proof fn lemma_activation_honours_whole_exclusion_list(s: AppStateView, frontmost: Option<String>)
    ensures
        frontmost is None ==> !step(s, Event::AppActivated(frontmost)).0.suppressed_by_app,
        frontmost matches Some(id) ==> (step(s, Event::AppActivated(frontmost)).0.suppressed_by_app
            <==> exists|i: int| 0 <= i < s.prefs.exclusion_list.len() && s.prefs.exclusion_list[i] == id@),
        step(s, Event::AppActivated(frontmost)).0.prefs == s.prefs,
        step(s, Event::AppActivated(frontmost)).0.snoozed == s.snoozed,
        step(s, Event::AppActivated(frontmost)).0.paused_by_battery == s.paused_by_battery,
        step(s, Event::AppActivated(frontmost)).1 == seq![Action::SetVisible(
            s.prefs.enabled && !s.snoozed && !s.paused_by_battery
                && !step(s, Event::AppActivated(frontmost)).0.suppressed_by_app,
        )],
{
    match frontmost {
        Some(id) => {
            crate::exclusion::lemma_suppression_cases(Some(id@), s.prefs.exclusion_list);
        },
        None => {},
    }
}

/// Each menu toggle flips exactly its own preference and nothing else, and
/// asks for the actions that make the change visible and durable; the login
/// item is only requested (the opposite of its current state), and the
/// registration's outcome is what gets stored.
pub proof fn lemma_menu_toggles(s: AppStateView, achieved: bool)
    ensures
        step(s, Event::ToggleEnabled).0 == (AppStateView {
            prefs: PreferencesView { enabled: !s.prefs.enabled, ..s.prefs },
            ..s
        }),
        step(s, Event::ToggleEnabled).1 == seq![
            Action::Persist,
            Action::SetVisible(!s.prefs.enabled && !s.snoozed && !s.suppressed_by_app && !s.paused_by_battery),
            Action::RebuildMenu,
        ],
        step(s, Event::TogglePauseOnBattery).0 == (AppStateView {
            prefs: PreferencesView { pause_on_battery: !s.prefs.pause_on_battery, ..s.prefs },
            ..s
        }),
        step(s, Event::TogglePauseOnBattery).1 == seq![Action::Persist, Action::PollPower, Action::RebuildMenu],
        step(s, Event::ToggleLoginItem).0 == s,
        step(s, Event::ToggleLoginItem).1 == seq![Action::SetLoginItem(!s.prefs.login_item)],
        step(s, Event::LoginItemSet(achieved)).0 == (AppStateView {
            prefs: PreferencesView { login_item: achieved, ..s.prefs },
            ..s
        }),
        step(s, Event::LoginItemSet(achieved)).1 == seq![Action::Persist, Action::RebuildMenu],
{
}

/// A battery reading sets the pause flag to "pause on battery is on and the
/// machine is on battery", changes nothing else, and shows or hides the
/// overlay to match.
pub proof fn lemma_power_reading(s: AppStateView, on_battery: bool)
    ensures
        step(s, Event::PowerPolled(on_battery)).0 == (AppStateView {
            paused_by_battery: s.prefs.pause_on_battery && on_battery,
            ..s
        }),
        step(s, Event::PowerPolled(on_battery)).1 == seq![Action::SetVisible(
            s.prefs.enabled && !s.snoozed && !s.suppressed_by_app && !(s.prefs.pause_on_battery && on_battery),
        )],
{
}

/// Launching, a change of screens, a change of Space and quitting leave the
/// state alone; the first three re-show or re-hide the overlay by the current
/// state, and launching also sets up the menu, observers and battery poll.
pub proof fn lemma_state_preserving_events(s: AppStateView)
    ensures
        ({
            let visible = s.prefs.enabled && !s.snoozed && !s.suppressed_by_app && !s.paused_by_battery;
            &&& step(s, Event::Launched).0 == s
            &&& step(s, Event::Launched).1 == seq![
                Action::RebuildPanels,
                Action::SetVisible(visible),
                Action::BuildStatusItem,
                Action::RegisterObservers,
                Action::StartPowerTimer,
                Action::PollPower,
            ]
            &&& step(s, Event::ScreenParametersChanged).0 == s
            &&& step(s, Event::ScreenParametersChanged).1 == seq![Action::RebuildPanels, Action::SetVisible(visible)]
            &&& step(s, Event::ActiveSpaceChanged).0 == s
            &&& step(s, Event::ActiveSpaceChanged).1 == seq![Action::SetVisible(visible)]
            &&& step(s, Event::Quit).0 == s
            &&& step(s, Event::Quit).1 == seq![Action::Terminate]
        }),
{
}

/// The three texture tags select classic matte, whisper weave and sunbaked
/// parchment, in that order, and change nothing but the texture.
pub proof fn lemma_texture_tags(s: AppStateView, tag: isize)
    requires
        0 <= tag < 3,
    ensures
        step(s, Event::PickTexture(tag)).0 == (AppStateView {
            prefs: PreferencesView {
                texture: if tag == 0 {
                    "classic-matte"@
                } else if tag == 1 {
                    "whisper-weave"@
                } else {
                    "sunbaked-parchment"@
                },
                ..s.prefs
            },
            ..s
        }),
        step(s, Event::PickTexture(tag)).1 == seq![Action::ApplyTexture, Action::Persist, Action::RebuildMenu],
{
}

impl AppState {
    /// The state at launch: the loaded preferences, nothing suppressing.
    pub fn new(prefs: Preferences) -> (r: AppState)
        ensures
            r@ == (AppStateView { prefs: prefs@, snoozed: false, suppressed_by_app: false, paused_by_battery: false }),
    {
        AppState { prefs, snoozed: false, suppressed_by_app: false, paused_by_battery: false }
    }

    /// The overlay should be visible iff enabled and none of the suppressors
    /// (snooze, exclusion, battery) are active.
    pub fn should_show(&self) -> (r: bool)
        ensures
            r == shows(self@),
    {
        self.prefs.enabled && !self.snoozed && !self.suppressed_by_app && !self.paused_by_battery
    }

    /// Apply `event`: update the state and return the actions to perform, in
    /// order.
    pub fn handle(&mut self, event: Event) -> (actions: Vec<Action>)
        ensures
            final(self)@ == step(old(self)@, event).0,
            actions@ == step(old(self)@, event).1,
    {
        match event {
            Event::Launched => {
                let show = self.should_show();
                vec![
                    Action::RebuildPanels,
                    Action::SetVisible(show),
                    Action::BuildStatusItem,
                    Action::RegisterObservers,
                    Action::StartPowerTimer,
                    Action::PollPower,
                ]
            },
            Event::ScreenParametersChanged => {
                let show = self.should_show();
                vec![Action::RebuildPanels, Action::SetVisible(show)]
            },
            Event::ToggleEnabled => {
                self.prefs.enabled = !self.prefs.enabled;
                let show = self.should_show();
                vec![Action::Persist, Action::SetVisible(show), Action::RebuildMenu]
            },
            Event::PickTexture(tag) => {
                if 0 <= tag && tag < CATALOG_LEN as isize {
                    let entries = catalog();
                    let index = tag as usize;
                    self.prefs.texture = entries[index].key.to_owned();
                    vec![Action::ApplyTexture, Action::Persist, Action::RebuildMenu]
                } else {
                    Vec::new()
                }
            },
            Event::Snooze(minutes) => {
                self.snoozed = true;
                let show = self.should_show();
                vec![Action::SetVisible(show), Action::ScheduleEndSnooze(minutes)]
            },
            Event::EndSnooze => {
                self.snoozed = false;
                let show = self.should_show();
                vec![Action::SetVisible(show)]
            },
            Event::TogglePauseOnBattery => {
                self.prefs.pause_on_battery = !self.prefs.pause_on_battery;
                vec![Action::Persist, Action::PollPower, Action::RebuildMenu]
            },
            Event::ToggleLoginItem => {
                vec![Action::SetLoginItem(!self.prefs.login_item)]
            },
            Event::LoginItemSet(achieved) => {
                self.prefs.login_item = achieved;
                vec![Action::Persist, Action::RebuildMenu]
            },
            Event::PowerPolled(on_battery) => {
                self.paused_by_battery = self.prefs.pause_on_battery && on_battery;
                let show = self.should_show();
                vec![Action::SetVisible(show)]
            },
            Event::AppActivated(frontmost) => {
                let suppress = match &frontmost {
                    Some(id) => should_suppress(Some(id.as_str()), self.prefs.exclusion_list.as_slice()),
                    None => should_suppress(None, self.prefs.exclusion_list.as_slice()),
                };
                self.suppressed_by_app = suppress;
                let show = self.should_show();
                vec![Action::SetVisible(show)]
            },
            Event::ActiveSpaceChanged => {
                let show = self.should_show();
                vec![Action::SetVisible(show)]
            },
            Event::Quit => vec![Action::Terminate],
        }
    }
}

} // verus!
