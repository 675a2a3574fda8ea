use papier::coordinator::{Action, AppState, Event};
use papier::settings::Preferences;

fn fresh() -> AppState {
    AppState::new(Preferences::default())
}

fn flags(s: &AppState) -> (bool, bool, bool, bool) {
    (s.prefs.enabled, s.snoozed, s.suppressed_by_app, s.paused_by_battery)
}

#[test]
fn launch_sets_everything_up_then_polls_power() {
    let mut s = fresh();
    let actions = s.handle(Event::Launched);
    assert_eq!(
        actions,
        vec![
            Action::RebuildPanels,
            Action::SetVisible(true),
            Action::BuildStatusItem,
            Action::RegisterObservers,
            Action::StartPowerTimer,
            Action::PollPower,
        ]
    );
    assert!(s.should_show());
}

#[test]
fn launch_while_disabled_hides() {
    let mut p = Preferences::default();
    p.enabled = false;
    let mut s = AppState::new(p);
    let actions = s.handle(Event::Launched);
    assert_eq!(actions[1], Action::SetVisible(false));
}

#[test]
fn toggle_enabled_persists_and_reconciles() {
    let mut s = fresh();
    assert_eq!(
        s.handle(Event::ToggleEnabled),
        vec![Action::Persist, Action::SetVisible(false), Action::RebuildMenu]
    );
    assert!(!s.prefs.enabled);
    assert_eq!(
        s.handle(Event::ToggleEnabled),
        vec![Action::Persist, Action::SetVisible(true), Action::RebuildMenu]
    );
    assert_eq!(flags(&s), flags(&fresh()));
}

#[test]
fn snooze_hides_until_it_ends() {
    let mut s = fresh();
    assert_eq!(
        s.handle(Event::Snooze(15)),
        vec![Action::SetVisible(false), Action::ScheduleEndSnooze(15)]
    );
    assert!(s.snoozed && !s.should_show());
    assert_eq!(s.handle(Event::ActiveSpaceChanged), vec![Action::SetVisible(false)]);
    assert_eq!(s.handle(Event::EndSnooze), vec![Action::SetVisible(true)]);
    assert_eq!(flags(&s), flags(&fresh()));
}

#[test]
fn excluded_app_suppresses_and_restores() {
    let mut p = Preferences::default();
    p.exclusion_list = vec!["com.figma.Desktop".to_string()];
    let mut s = AppState::new(p);
    assert_eq!(
        s.handle(Event::AppActivated(Some("com.figma.Desktop".to_string()))),
        vec![Action::SetVisible(false)]
    );
    assert!(s.suppressed_by_app);
    assert_eq!(
        s.handle(Event::AppActivated(Some("com.apple.Safari".to_string()))),
        vec![Action::SetVisible(true)]
    );
    s.handle(Event::AppActivated(Some("com.figma.Desktop".to_string())));
    assert_eq!(s.handle(Event::AppActivated(None)), vec![Action::SetVisible(true)]);
    assert!(!s.suppressed_by_app);
}

#[test]
fn battery_pauses_only_when_enabled_in_preferences() {
    let mut s = fresh();
    assert_eq!(s.handle(Event::PowerPolled(true)), vec![Action::SetVisible(true)]);
    assert!(!s.paused_by_battery);
    assert_eq!(
        s.handle(Event::TogglePauseOnBattery),
        vec![Action::Persist, Action::PollPower, Action::RebuildMenu]
    );
    assert!(s.prefs.pause_on_battery);
    assert_eq!(s.handle(Event::PowerPolled(true)), vec![Action::SetVisible(false)]);
    assert!(s.paused_by_battery);
    assert_eq!(s.handle(Event::PowerPolled(false)), vec![Action::SetVisible(true)]);
    s.handle(Event::PowerPolled(true));
    s.handle(Event::TogglePauseOnBattery);
    assert_eq!(s.handle(Event::PowerPolled(true)), vec![Action::SetVisible(true)]);
}

#[test]
fn picking_textures() {
    let mut s = fresh();
    assert_eq!(
        s.handle(Event::PickTexture(2)),
        vec![Action::ApplyTexture, Action::Persist, Action::RebuildMenu]
    );
    assert_eq!(s.prefs.texture, "sunbaked-parchment");
    s.handle(Event::PickTexture(1));
    assert_eq!(s.prefs.texture, "whisper-weave");
    assert!(s.handle(Event::PickTexture(3)).is_empty());
    assert!(s.handle(Event::PickTexture(-1)).is_empty());
    assert!(s.handle(Event::PickTexture(isize::MIN)).is_empty());
    assert_eq!(s.prefs.texture, "whisper-weave");
}

#[test]
fn login_item_goes_through_registration() {
    let mut s = fresh();
    assert_eq!(s.handle(Event::ToggleLoginItem), vec![Action::SetLoginItem(true)]);
    assert!(!s.prefs.login_item);
    assert_eq!(s.handle(Event::LoginItemSet(true)), vec![Action::Persist, Action::RebuildMenu]);
    assert!(s.prefs.login_item);
    assert_eq!(s.handle(Event::ToggleLoginItem), vec![Action::SetLoginItem(false)]);
    s.handle(Event::LoginItemSet(false));
    assert!(!s.prefs.login_item);
}

#[test]
fn screen_change_rebuilds_and_quit_terminates() {
    let mut s = fresh();
    s.handle(Event::Snooze(30));
    assert_eq!(
        s.handle(Event::ScreenParametersChanged),
        vec![Action::RebuildPanels, Action::SetVisible(false)]
    );
    assert_eq!(s.handle(Event::Quit), vec![Action::Terminate]);
}
