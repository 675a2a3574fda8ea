use papier::coordinator::{AppState, Event};
use papier::menu::{menu_layout, MenuAction, MenuEntry, MenuItem, SLIDER_TAG, WARMTH_SLIDER_TAG};
use papier::settings::Preferences;

fn item_of(e: &MenuEntry) -> &MenuItem {
    match e {
        MenuEntry::Item(it) => it,
        _ => panic!("not an item"),
    }
}

#[test]
fn menu_layout_for_defaults() {
    let m = menu_layout(&Preferences::default());
    assert_eq!(m.len(), 16);
    let enabled = item_of(&m[0]);
    assert_eq!((enabled.title, enabled.action, enabled.checked, enabled.tag), ("Enabled", MenuAction::ToggleEnabled, true, 0));
    assert!(matches!(m[1], MenuEntry::Separator));
    assert!(matches!(m[2], MenuEntry::Label("Intensity")));
    assert!(matches!(m[3], MenuEntry::IntensitySlider { tag: SLIDER_TAG }));
    assert!(matches!(m[4], MenuEntry::Label("Warmth")));
    assert!(matches!(m[5], MenuEntry::WarmthSlider { tag: WARMTH_SLIDER_TAG }));
    assert!(matches!(m[6], MenuEntry::Separator));
    let titles: Vec<(&str, bool, isize)> = m[7..10].iter().map(|e| {
        let it = item_of(e);
        assert_eq!(it.action, MenuAction::PickTexture);
        (it.title, it.checked, it.tag)
    }).collect();
    assert_eq!(titles, vec![("Classic Matte", true, 0), ("Whisper Weave", false, 1), ("Sunbaked Parchment", false, 2)]);
    assert!(matches!(m[10], MenuEntry::Separator));
    match &m[11] {
        MenuEntry::Submenu { title, items } => {
            assert_eq!(*title, "Snooze");
            let s: Vec<(&str, MenuAction, bool, isize)> = items.iter().map(|i| (i.title, i.action, i.checked, i.tag)).collect();
            assert_eq!(s, vec![
                ("15 minutes", MenuAction::Snooze, false, 15),
                ("30 minutes", MenuAction::Snooze, false, 30),
                ("60 minutes", MenuAction::Snooze, false, 60),
            ]);
        }
        _ => panic!("expected the snooze submenu"),
    }
    let pause = item_of(&m[12]);
    assert_eq!((pause.title, pause.action, pause.checked), ("Pause on Battery", MenuAction::TogglePauseOnBattery, false));
    let login = item_of(&m[13]);
    assert_eq!((login.title, login.action, login.checked), ("Launch at Login", MenuAction::ToggleLoginItem, false));
    assert!(matches!(m[14], MenuEntry::Separator));
    let quit = item_of(&m[15]);
    assert_eq!((quit.title, quit.action, quit.checked), ("Quit Papier", MenuAction::Quit, false));
}

#[test]
fn menu_checks_follow_preferences() {
    let p = Preferences {
        enabled: false,
        texture: "nope".into(),
        exclusion_list: Vec::new(),
        pause_on_battery: true,
        login_item: true,
    };
    let m = menu_layout(&p);
    assert!(!item_of(&m[0]).checked);
    assert!(m[7..10].iter().all(|e| !item_of(e).checked));
    assert!(item_of(&m[12]).checked);
    assert!(item_of(&m[13]).checked);
}

#[test]
fn picked_texture_is_the_only_checked_one() {
    let mut s = AppState::new(Preferences::default());
    s.handle(Event::PickTexture(1));
    let m = menu_layout(&s.prefs);
    let checked: Vec<bool> = m[7..10].iter().map(|e| item_of(e).checked).collect();
    assert_eq!(checked, vec![false, true, false]);
}
