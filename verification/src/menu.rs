//! The menu-bar menu as plain values: which items it holds, in which order,
//! which are checked and which tag each carries. The application renders it.

use vstd::prelude::*;
use crate::catalog::{catalog, catalog_view, CATALOG_LEN};
use crate::settings::{Preferences, PreferencesView};
use crate::text::str_eq;

verus! {

/// Tag of the intensity slider, so that the action handler can find it.
pub const SLIDER_TAG: isize = 9001;
/// Tag of the warmth slider.
pub const WARMTH_SLIDER_TAG: isize = 9002;

/// The handler a menu control invokes.
#[derive(Clone, Copy, Debug, PartialEq, Eq, Structural)]
pub enum MenuAction {
    ToggleEnabled,
    IntensityChanged,
    WarmthChanged,
    PickTexture,
    Snooze,
    TogglePauseOnBattery,
    ToggleLoginItem,
    Quit,
}

/// A menu item that invokes an action.
pub struct MenuItem {
    pub title: &'static str,
    pub action: MenuAction,
    /// Shown with a check mark.
    pub checked: bool,
    /// Argument of the action (catalog index, snooze minutes), else 0.
    pub tag: isize,
}

/// One line of the menu.
pub enum MenuEntry {
    Item(MenuItem),
    Separator,
    /// A disabled caption.
    Label(&'static str),
    /// The intensity slider (range and value come from the intensity setting).
    IntensitySlider { tag: isize },
    /// The warmth slider, neutral to warm cream (value from the warmth setting).
    WarmthSlider { tag: isize },
    /// A titled submenu of items.
    Submenu { title: &'static str, items: Vec<MenuItem> },
}

/// A menu item as plain values: title, action, checked, tag.
pub type ItemView = (Seq<char>, MenuAction, bool, isize);

/// A menu line as plain values.
pub enum EntryView {
    Item(ItemView),
    Separator,
    Label(Seq<char>),
    IntensitySlider(isize),
    WarmthSlider(isize),
    Submenu(Seq<char>, Seq<ItemView>),
}

impl View for MenuItem {
    type V = ItemView;

    open spec fn view(&self) -> ItemView {
        (self.title@, self.action, self.checked, self.tag)
    }
}

impl View for MenuEntry {
    type V = EntryView;

    open spec fn view(&self) -> EntryView {
        match self {
            MenuEntry::Item(item) => EntryView::Item(item@),
            MenuEntry::Separator => EntryView::Separator,
            MenuEntry::Label(title) => EntryView::Label(title@),
            MenuEntry::IntensitySlider { tag } => EntryView::IntensitySlider(*tag),
            MenuEntry::WarmthSlider { tag } => EntryView::WarmthSlider(*tag),
            MenuEntry::Submenu { title, items } => EntryView::Submenu(
                title@,
                items@.map_values(|i: MenuItem| i@),
            ),
        }
    }
}

/// The item that picks catalog entry `i`, checked when it is the selected texture.
pub open spec fn texture_item(prefs: PreferencesView, i: int) -> EntryView {
    EntryView::Item((catalog_view()[i].1, MenuAction::PickTexture, catalog_view()[i].0 == prefs.texture, i as isize))
}

/// The snooze choices, in minutes.
pub open spec fn snooze_items() -> Seq<ItemView> {
    seq![
        ("15 minutes"@, MenuAction::Snooze, false, 15isize),
        ("30 minutes"@, MenuAction::Snooze, false, 30isize),
        ("60 minutes"@, MenuAction::Snooze, false, 60isize),
    ]
}

/// The whole menu for the given preferences.
pub open spec fn menu_view(prefs: PreferencesView) -> Seq<EntryView> {
    seq![
        EntryView::Item(("Enabled"@, MenuAction::ToggleEnabled, prefs.enabled, 0isize)),
        EntryView::Separator,
        EntryView::Label("Intensity"@),
        EntryView::IntensitySlider(SLIDER_TAG),
        EntryView::Label("Warmth"@),
        EntryView::WarmthSlider(WARMTH_SLIDER_TAG),
        EntryView::Separator,
        texture_item(prefs, 0),
        texture_item(prefs, 1),
        texture_item(prefs, 2),
        EntryView::Separator,
        EntryView::Submenu("Snooze"@, snooze_items()),
        EntryView::Item(("Pause on Battery"@, MenuAction::TogglePauseOnBattery, prefs.pause_on_battery, 0isize)),
        EntryView::Item(("Launch at Login"@, MenuAction::ToggleLoginItem, prefs.login_item, 0isize)),
        EntryView::Separator,
        EntryView::Item(("Quit Papier"@, MenuAction::Quit, false, 0isize)),
    ]
}

/// Position of the first texture item in the menu.
pub open spec fn texture_items_start() -> int {
    7
}

/// Whether texture item `i` (catalog index) of the menu is checked.
pub open spec fn texture_checked(prefs: PreferencesView, i: int) -> bool {
    menu_view(prefs)[texture_items_start() + i] matches EntryView::Item(it) && it.2
}

/// The texture picker checks exactly the selected texture: item `i` is
/// checked iff the selection is catalog entry `i`, so at most one item is
/// checked, and exactly one when the selection is a catalog key.
pub proof fn lemma_texture_picker_checks_selection(prefs: PreferencesView)
    ensures
        forall|i: int| 0 <= i < CATALOG_LEN ==>
            (#[trigger] texture_checked(prefs, i) <==> crate::catalog::catalog_index(prefs.texture) == Some(i)),
        forall|i: int, j: int| 0 <= i < CATALOG_LEN && 0 <= j < CATALOG_LEN && #[trigger] texture_checked(prefs, i)
            && #[trigger] texture_checked(prefs, j) ==> i == j,
{
    crate::catalog::lemma_catalog_keys_are_known_and_distinct();
}

/// After a catalog texture is chosen, the rebuilt menu checks that texture's
/// item and no other.
pub proof fn lemma_picked_texture_is_checked(s: crate::coordinator::AppStateView, tag: isize)
    requires
        crate::coordinator::is_catalog_tag(tag),
    ensures
        forall|i: int| 0 <= i < CATALOG_LEN ==>
            (#[trigger] texture_checked(crate::coordinator::step(s, crate::coordinator::Event::PickTexture(tag)).0.prefs, i)
                <==> i == tag),
{
    lemma_texture_picker_checks_selection(crate::coordinator::step(s, crate::coordinator::Event::PickTexture(tag)).0.prefs);
    crate::catalog::lemma_catalog_keys_are_known_and_distinct();
}

/// Every toggle in the menu is checked exactly when its own preference is on
/// ("Enabled", "Pause on Battery", "Launch at Login"), "Quit Papier" is never
/// checked, and the toggles stand at the top and at the bottom of the menu,
/// in that order.
pub proof fn lemma_menu_check_marks(p: PreferencesView)
    ensures
        menu_view(p).len() == 16,
        forall|i: int| 0 <= i < menu_view(p).len() ==> match #[trigger] menu_view(p)[i] {
            EntryView::Item(it) => {
                &&& it.1 == MenuAction::ToggleEnabled ==> it.2 == p.enabled && it.0 == "Enabled"@
                &&& it.1 == MenuAction::TogglePauseOnBattery ==> it.2 == p.pause_on_battery
                    && it.0 == "Pause on Battery"@
                &&& it.1 == MenuAction::ToggleLoginItem ==> it.2 == p.login_item && it.0 == "Launch at Login"@
                &&& it.1 == MenuAction::Quit ==> !it.2 && it.0 == "Quit Papier"@
            },
            _ => true,
        },
        menu_view(p)[0] == EntryView::Item(("Enabled"@, MenuAction::ToggleEnabled, p.enabled, 0isize)),
        menu_view(p)[12] == EntryView::Item(("Pause on Battery"@, MenuAction::TogglePauseOnBattery, p.pause_on_battery, 0isize)),
        menu_view(p)[13] == EntryView::Item(("Launch at Login"@, MenuAction::ToggleLoginItem, p.login_item, 0isize)),
        menu_view(p)[15] == EntryView::Item(("Quit Papier"@, MenuAction::Quit, false, 0isize)),
{
    assert forall|i: int| 0 <= i < menu_view(p).len() implies match #[trigger] menu_view(p)[i] {
        EntryView::Item(it) => {
            &&& it.1 == MenuAction::ToggleEnabled ==> it.2 == p.enabled && it.0 == "Enabled"@
            &&& it.1 == MenuAction::TogglePauseOnBattery ==> it.2 == p.pause_on_battery
                && it.0 == "Pause on Battery"@
            &&& it.1 == MenuAction::ToggleLoginItem ==> it.2 == p.login_item && it.0 == "Launch at Login"@
            &&& it.1 == MenuAction::Quit ==> !it.2 && it.0 == "Quit Papier"@
        },
        _ => true,
    } by {
        assert(0 <= i < 16);
    }
}

/// The menu offers the two sliders, the three catalog textures in catalog
/// order (each tagged with its index and checked iff it is the selected
/// texture) and a "Snooze" submenu of 15, 30 and 60 minutes, each item
/// tagged with its number of minutes and never checked.
pub proof fn lemma_menu_controls(p: PreferencesView)
    ensures
        menu_view(p)[1] == EntryView::Separator && menu_view(p)[6] == EntryView::Separator
            && menu_view(p)[10] == EntryView::Separator && menu_view(p)[14] == EntryView::Separator,
        menu_view(p)[2] == EntryView::Label("Intensity"@),
        menu_view(p)[4] == EntryView::Label("Warmth"@),
        menu_view(p)[3] == EntryView::IntensitySlider(SLIDER_TAG),
        menu_view(p)[5] == EntryView::WarmthSlider(WARMTH_SLIDER_TAG),
        menu_view(p)[7] == EntryView::Item(("Classic Matte"@, MenuAction::PickTexture, p.texture == "classic-matte"@, 0isize)),
        menu_view(p)[8] == EntryView::Item(("Whisper Weave"@, MenuAction::PickTexture, p.texture == "whisper-weave"@, 1isize)),
        menu_view(p)[9] == EntryView::Item(("Sunbaked Parchment"@, MenuAction::PickTexture, p.texture == "sunbaked-parchment"@, 2isize)),
        menu_view(p)[11] matches EntryView::Submenu(title, items) && title == "Snooze"@ && items == seq![
            ("15 minutes"@, MenuAction::Snooze, false, 15isize),
            ("30 minutes"@, MenuAction::Snooze, false, 30isize),
            ("60 minutes"@, MenuAction::Snooze, false, 60isize),
        ],
{
}

/// The views of a list of menu lines.
pub open spec fn entry_views(entries: Seq<MenuEntry>) -> Seq<EntryView> {
    entries.map_values(|e: MenuEntry| e@)
}

fn item(title: &'static str, action: MenuAction, checked: bool, tag: isize) -> (r: MenuEntry)
    ensures
        r@ == EntryView::Item((title@, action, checked, tag)),
{
    MenuEntry::Item(MenuItem { title, action, checked, tag })
}

fn snooze_submenu() -> (r: MenuEntry)
    ensures
        r@ == EntryView::Submenu("Snooze"@, snooze_items()),
{
    let mut items: Vec<MenuItem> = Vec::new();
    items.push(MenuItem { title: "15 minutes", action: MenuAction::Snooze, checked: false, tag: 15 });
    items.push(MenuItem { title: "30 minutes", action: MenuAction::Snooze, checked: false, tag: 30 });
    items.push(MenuItem { title: "60 minutes", action: MenuAction::Snooze, checked: false, tag: 60 });
    assert(items@.map_values(|i: MenuItem| i@) =~= snooze_items());
    MenuEntry::Submenu { title: "Snooze", items }
}

/// Lay out the menu: the "Enabled" toggle, the intensity and the warmth
/// captions and sliders, one item per catalog texture (checked for the
/// selected one, tagged with its index), the snooze submenu (15, 30, 60 minutes), the "Pause on Battery"
/// and "Launch at Login" toggles and "Quit Papier", with separators between
/// the groups.
pub fn menu_layout(prefs: &Preferences) -> (r: Vec<MenuEntry>)
    ensures
        entry_views(r@) == menu_view(prefs@),
{
    let mut menu: Vec<MenuEntry> = Vec::new();
    menu.push(item("Enabled", MenuAction::ToggleEnabled, prefs.enabled, 0));
    menu.push(MenuEntry::Separator);
    menu.push(MenuEntry::Label("Intensity"));
    menu.push(MenuEntry::IntensitySlider { tag: SLIDER_TAG });
    menu.push(MenuEntry::Label("Warmth"));
    menu.push(MenuEntry::WarmthSlider { tag: WARMTH_SLIDER_TAG });
    menu.push(MenuEntry::Separator);
    let entries = catalog();
    let mut i: usize = 0;
    while i < entries.len()
        invariant
            i <= entries@.len(),
            entries@.len() == CATALOG_LEN,
            forall|j: int| 0 <= j < entries@.len() ==> (#[trigger] entries@[j].key@, entries@[j].display@) == catalog_view()[j],
            menu@.len() == 7 + i,
            forall|j: int| 0 <= j < 7 + i ==> #[trigger] entry_views(menu@)[j] == menu_view(prefs@)[j],
        decreases entries@.len() - i,
    {
        let checked = str_eq(entries[i].key, prefs.texture.as_str());
        let e = item(entries[i].display, MenuAction::PickTexture, checked, i as isize);
        let ghost prev = menu@;
        menu.push(e);
        assert(entries@[i as int].key@ == catalog_view()[i as int].0);
        assert(entry_views(menu@)[7 + i] == menu_view(prefs@)[7 + i]);
        assert forall|j: int| 0 <= j < 7 + i + 1 implies #[trigger] entry_views(menu@)[j] == menu_view(prefs@)[j] by {
            if j < 7 + i {
                assert(entry_views(prev)[j] == menu_view(prefs@)[j]);
                assert(menu@[j] == prev[j]);
            }
        }
        i = i + 1;
    }
    let ghost after_textures = menu@;
    menu.push(MenuEntry::Separator);
    menu.push(snooze_submenu());
    menu.push(item("Pause on Battery", MenuAction::TogglePauseOnBattery, prefs.pause_on_battery, 0));
    menu.push(item("Launch at Login", MenuAction::ToggleLoginItem, prefs.login_item, 0));
    menu.push(MenuEntry::Separator);
    menu.push(item("Quit Papier", MenuAction::Quit, false, 0));
    assert forall|j: int| 0 <= j < 16 implies #[trigger] entry_views(menu@)[j] == menu_view(prefs@)[j] by {
        if j < 10 {
            assert(menu@[j] == after_textures[j]);
            assert(entry_views(after_textures)[j] == menu_view(prefs@)[j]);
        }
    }
    assert(entry_views(menu@) =~= menu_view(prefs@));
    menu
}

} // verus!
