//! The application menu and the tray menu: their layout, and what each of
//! their items does when chosen.

use vstd::prelude::*;
use crate::text::text_eq;
use crate::zoom::ZOOM_STEP;

verus! {

/// One entry of a menu.
pub enum MenuSlot {
    /// An item of the library's own, found again by its id.
    Item { id: String, label: String, accelerator: Option<String> },
    /// An item with a check mark.
    CheckItem { id: String, label: String, checked: bool },
    Separator,
    /// The platform's "About" item, with the given label.
    About { label: String },
    Hide,
    HideOthers,
    ShowAll,
    Quit,
    Undo,
    Redo,
    Cut,
    Copy,
    Paste,
    SelectAll,
    Minimize,
    Maximize,
    CloseWindow,
}

/// Mathematical view of a [`MenuSlot`].
pub enum SlotView {
    Item { id: Seq<char>, label: Seq<char>, accelerator: Option<Seq<char>> },
    CheckItem { id: Seq<char>, label: Seq<char>, checked: bool },
    Separator,
    About { label: Seq<char> },
    Hide,
    HideOthers,
    ShowAll,
    Quit,
    Undo,
    Redo,
    Cut,
    Copy,
    Paste,
    SelectAll,
    Minimize,
    Maximize,
    CloseWindow,
}

impl View for MenuSlot {
    type V = SlotView;

    open spec fn view(&self) -> SlotView {
        match self {
            MenuSlot::Item { id, label, accelerator } => SlotView::Item {
                id: id@,
                label: label@,
                accelerator: crate::web_url::opt_text_view(*accelerator),
            },
            MenuSlot::CheckItem { id, label, checked } => SlotView::CheckItem {
                id: id@,
                label: label@,
                checked: *checked,
            },
            MenuSlot::Separator => SlotView::Separator,
            MenuSlot::About { label } => SlotView::About { label: label@ },
            MenuSlot::Hide => SlotView::Hide,
            MenuSlot::HideOthers => SlotView::HideOthers,
            MenuSlot::ShowAll => SlotView::ShowAll,
            MenuSlot::Quit => SlotView::Quit,
            MenuSlot::Undo => SlotView::Undo,
            MenuSlot::Redo => SlotView::Redo,
            MenuSlot::Cut => SlotView::Cut,
            MenuSlot::Copy => SlotView::Copy,
            MenuSlot::Paste => SlotView::Paste,
            MenuSlot::SelectAll => SlotView::SelectAll,
            MenuSlot::Minimize => SlotView::Minimize,
            MenuSlot::Maximize => SlotView::Maximize,
            MenuSlot::CloseWindow => SlotView::CloseWindow,
        }
    }
}

/// A titled submenu of the application menu.
pub struct Submenu {
    pub title: String,
    pub slots: Vec<MenuSlot>,
}

/// Mathematical view of a [`Submenu`].
pub struct SubmenuView {
    pub title: Seq<char>,
    pub slots: Seq<SlotView>,
}

pub open spec fn slots_view(slots: Seq<MenuSlot>) -> Seq<SlotView> {
    slots.map_values(|s: MenuSlot| s@)
}

impl View for Submenu {
    type V = SubmenuView;

    open spec fn view(&self) -> SubmenuView {
        SubmenuView { title: self.title@, slots: slots_view(self.slots@) }
    }
}

pub open spec fn menu_view(menu: Seq<Submenu>) -> Seq<SubmenuView> {
    menu.map_values(|s: Submenu| s@)
}

pub open spec fn item_view(id: Seq<char>, label: Seq<char>, accelerator: Option<Seq<char>>) -> SlotView {
    SlotView::Item { id, label, accelerator }
}

/// The application menu submenu named after the app. macOS adds the
/// hide and show items; elsewhere a link to the project page is offered.
pub open spec fn app_submenu_spec(is_mac: bool) -> SubmenuView {
    let about = SlotView::About { label: "About Chatto"@ };
    let check = item_view("menu_check_updates"@, "Check for Updates…"@, None);
    let settings = item_view("menu_settings"@, "Settings…"@, Some("CmdOrCtrl+,"@));
    if is_mac {
        SubmenuView {
            title: "Chatto"@,
            slots: seq![
                about,
                SlotView::Separator,
                check,
                SlotView::Separator,
                settings,
                SlotView::Separator,
                SlotView::Hide,
                SlotView::HideOthers,
                SlotView::ShowAll,
                SlotView::Separator,
                SlotView::Quit,
            ],
        }
    } else {
        SubmenuView {
            title: "Chatto"@,
            slots: seq![
                about,
                item_view("menu_github"@, "GitHub…"@, None),
                SlotView::Separator,
                check,
                SlotView::Separator,
                settings,
                SlotView::Separator,
                SlotView::Quit,
            ],
        }
    }
}

pub open spec fn edit_submenu_spec() -> SubmenuView {
    SubmenuView {
        title: "Edit"@,
        slots: seq![
            SlotView::Undo,
            SlotView::Redo,
            SlotView::Separator,
            SlotView::Cut,
            SlotView::Copy,
            SlotView::Paste,
            SlotView::SelectAll,
        ],
    }
}

pub open spec fn view_submenu_spec() -> SubmenuView {
    SubmenuView {
        title: "View"@,
        slots: seq![
            item_view("menu_back"@, "Back"@, Some("CmdOrCtrl+["@)),
            item_view("menu_forward"@, "Forward"@, Some("CmdOrCtrl+]"@)),
            SlotView::Separator,
            item_view("menu_zoom_in"@, "Zoom In"@, Some("CmdOrCtrl+="@)),
            item_view("menu_zoom_out"@, "Zoom Out"@, Some("CmdOrCtrl+-"@)),
            item_view("menu_zoom_reset"@, "Actual Size"@, Some("CmdOrCtrl+0"@)),
            SlotView::Separator,
            item_view("menu_reload"@, "Reload"@, Some("CmdOrCtrl+R"@)),
        ],
    }
}

pub open spec fn window_submenu_spec() -> SubmenuView {
    SubmenuView {
        title: "Window"@,
        slots: seq![
            SlotView::Minimize,
            SlotView::Maximize,
            SlotView::Separator,
            SlotView::CloseWindow,
        ],
    }
}

/// The whole application menu, submenu by submenu.
pub open spec fn app_menu_spec(is_mac: bool) -> Seq<SubmenuView> {
    seq![app_submenu_spec(is_mac), edit_submenu_spec(), view_submenu_spec(), window_submenu_spec()]
}

fn item(id: &str, label: &str, accelerator: Option<&str>) -> (r: MenuSlot)
    ensures
        r@ == item_view(
            id@,
            label@,
            match accelerator {
                Some(a) => Some(a@),
                None => None,
            },
        ),
{
    let acc = match accelerator {
        Some(a) => Some(String::from_str(a)),
        None => None,
    };
    MenuSlot::Item { id: String::from_str(id), label: String::from_str(label), accelerator: acc }
}

fn app_submenu(is_mac: bool) -> (r: Submenu)
    ensures
        r@ == app_submenu_spec(is_mac),
{
    let mut slots: Vec<MenuSlot> = Vec::new();
    slots.push(MenuSlot::About { label: String::from_str("About Chatto") });
    if !is_mac {
        slots.push(item("menu_github", "GitHub…", None));
    }
    slots.push(MenuSlot::Separator);
    slots.push(item("menu_check_updates", "Check for Updates…", None));
    slots.push(MenuSlot::Separator);
    slots.push(item("menu_settings", "Settings…", Some("CmdOrCtrl+,")));
    slots.push(MenuSlot::Separator);
    if is_mac {
        slots.push(MenuSlot::Hide);
        slots.push(MenuSlot::HideOthers);
        slots.push(MenuSlot::ShowAll);
        slots.push(MenuSlot::Separator);
    }
    slots.push(MenuSlot::Quit);
    let r = Submenu { title: String::from_str("Chatto"), slots };
    assert(r@.slots =~= app_submenu_spec(is_mac).slots);
    r
}

fn edit_submenu() -> (r: Submenu)
    ensures
        r@ == edit_submenu_spec(),
{
    let slots = vec![
        MenuSlot::Undo,
        MenuSlot::Redo,
        MenuSlot::Separator,
        MenuSlot::Cut,
        MenuSlot::Copy,
        MenuSlot::Paste,
        MenuSlot::SelectAll,
    ];
    let r = Submenu { title: String::from_str("Edit"), slots };
    assert(r@.slots =~= edit_submenu_spec().slots);
    r
}

fn view_submenu() -> (r: Submenu)
    ensures
        r@ == view_submenu_spec(),
{
    let slots = vec![
        item("menu_back", "Back", Some("CmdOrCtrl+[")),
        item("menu_forward", "Forward", Some("CmdOrCtrl+]")),
        MenuSlot::Separator,
        item("menu_zoom_in", "Zoom In", Some("CmdOrCtrl+=")),
        item("menu_zoom_out", "Zoom Out", Some("CmdOrCtrl+-")),
        item("menu_zoom_reset", "Actual Size", Some("CmdOrCtrl+0")),
        MenuSlot::Separator,
        item("menu_reload", "Reload", Some("CmdOrCtrl+R")),
    ];
    let r = Submenu { title: String::from_str("View"), slots };
    assert(r@.slots =~= view_submenu_spec().slots);
    r
}

fn window_submenu() -> (r: Submenu)
    ensures
        r@ == window_submenu_spec(),
{
    let slots = vec![
        MenuSlot::Minimize,
        MenuSlot::Maximize,
        MenuSlot::Separator,
        MenuSlot::CloseWindow,
    ];
    let r = Submenu { title: String::from_str("Window"), slots };
    assert(r@.slots =~= window_submenu_spec().slots);
    r
}

/// The application menu (on macOS the menu bar).
pub fn app_menu(is_mac: bool) -> (r: Vec<Submenu>)
    ensures
        menu_view(r@) == app_menu_spec(is_mac),
{
    let r = vec![app_submenu(is_mac), edit_submenu(), view_submenu(), window_submenu()];
    assert(menu_view(r@) =~= app_menu_spec(is_mac));
    r
}

/// What an item of the application menu does.
#[derive(PartialEq, Eq, Structural, Debug, Clone, Copy)]
pub enum AppMenuAction {
    CheckForUpdates,
    Settings,
    Github,
    Back,
    Forward,
    ZoomIn,
    ZoomOut,
    ZoomReset,
    Reload,
}

/// The action of the application-menu item with this id, if any.
pub open spec fn app_menu_action_spec(id: Seq<char>) -> Option<AppMenuAction> {
    if id == "menu_check_updates"@ {
        Some(AppMenuAction::CheckForUpdates)
    } else if id == "menu_settings"@ {
        Some(AppMenuAction::Settings)
    } else if id == "menu_github"@ {
        Some(AppMenuAction::Github)
    } else if id == "menu_back"@ {
        Some(AppMenuAction::Back)
    } else if id == "menu_forward"@ {
        Some(AppMenuAction::Forward)
    } else if id == "menu_zoom_in"@ {
        Some(AppMenuAction::ZoomIn)
    } else if id == "menu_zoom_out"@ {
        Some(AppMenuAction::ZoomOut)
    } else if id == "menu_zoom_reset"@ {
        Some(AppMenuAction::ZoomReset)
    } else if id == "menu_reload"@ {
        Some(AppMenuAction::Reload)
    } else {
        None
    }
}

/// Finds the action of a chosen application-menu item; unknown ids do
/// nothing.
pub fn app_menu_action(id: &str) -> (r: Option<AppMenuAction>)
    ensures
        r == app_menu_action_spec(id@),
        r matches Some(a) ==> id@ == app_menu_id(a),
        forall|a: AppMenuAction| id@ == app_menu_id(a) ==> r == Some(a),
{
    proof {
        law_app_menu_ids_name_their_actions();
    }
    if text_eq(id, "menu_check_updates") {
        Some(AppMenuAction::CheckForUpdates)
    } else if text_eq(id, "menu_settings") {
        Some(AppMenuAction::Settings)
    } else if text_eq(id, "menu_github") {
        Some(AppMenuAction::Github)
    } else if text_eq(id, "menu_back") {
        Some(AppMenuAction::Back)
    } else if text_eq(id, "menu_forward") {
        Some(AppMenuAction::Forward)
    } else if text_eq(id, "menu_zoom_in") {
        Some(AppMenuAction::ZoomIn)
    } else if text_eq(id, "menu_zoom_out") {
        Some(AppMenuAction::ZoomOut)
    } else if text_eq(id, "menu_zoom_reset") {
        Some(AppMenuAction::ZoomReset)
    } else if text_eq(id, "menu_reload") {
        Some(AppMenuAction::Reload)
    } else {
        None
    }
}

/// The id under which each application-menu action is found.
pub open spec fn app_menu_id(a: AppMenuAction) -> Seq<char> {
    match a {
        AppMenuAction::CheckForUpdates => "menu_check_updates"@,
        AppMenuAction::Settings => "menu_settings"@,
        AppMenuAction::Github => "menu_github"@,
        AppMenuAction::Back => "menu_back"@,
        AppMenuAction::Forward => "menu_forward"@,
        AppMenuAction::ZoomIn => "menu_zoom_in"@,
        AppMenuAction::ZoomOut => "menu_zoom_out"@,
        AppMenuAction::ZoomReset => "menu_zoom_reset"@,
        AppMenuAction::Reload => "menu_reload"@,
    }
}

/// The action that a menu item's visible label promises.
pub open spec fn action_named_by_label(label: Seq<char>) -> Option<AppMenuAction> {
    if label == "Check for Updates…"@ {
        Some(AppMenuAction::CheckForUpdates)
    } else if label == "Settings…"@ {
        Some(AppMenuAction::Settings)
    } else if label == "GitHub…"@ {
        Some(AppMenuAction::Github)
    } else if label == "Back"@ {
        Some(AppMenuAction::Back)
    } else if label == "Forward"@ {
        Some(AppMenuAction::Forward)
    } else if label == "Zoom In"@ {
        Some(AppMenuAction::ZoomIn)
    } else if label == "Zoom Out"@ {
        Some(AppMenuAction::ZoomOut)
    } else if label == "Actual Size"@ {
        Some(AppMenuAction::ZoomReset)
    } else if label == "Reload"@ {
        Some(AppMenuAction::Reload)
    } else {
        None
    }
}

/// Each application-menu id dispatches to the action it names, and to no
/// other: the ids and the actions correspond one to one.
pub proof fn law_app_menu_ids_name_their_actions()
    ensures
        forall|a: AppMenuAction| #[trigger] app_menu_action_spec(app_menu_id(a)) == Some(a),
        forall|id: Seq<char>|
            #[trigger] app_menu_action_spec(id) is Some ==> id == app_menu_id(
                app_menu_action_spec(id)->0,
            ),
        forall|a: AppMenuAction, b: AppMenuAction|
            #[trigger] app_menu_id(a) == #[trigger] app_menu_id(b) ==> a == b,
{
    reveal_strlit("menu_check_updates");
    reveal_strlit("menu_settings");
    reveal_strlit("menu_github");
    reveal_strlit("menu_back");
    reveal_strlit("menu_forward");
    reveal_strlit("menu_zoom_in");
    reveal_strlit("menu_zoom_out");
    reveal_strlit("menu_zoom_reset");
    reveal_strlit("menu_reload");
    assert("menu_zoom_in"@[10] != "menu_zoom_out"@[10]);
    assert("menu_zoom_in"@[10] != "menu_zoom_reset"@[10]);
    assert("menu_back"@[5] != "menu_github"@[5]);
    assert("menu_forward"@[5] != "menu_settings"@[5]);
    assert("menu_reload"@[5] != "menu_settings"@[5]);
    assert(forall|a: AppMenuAction| #[trigger] app_menu_action_spec(app_menu_id(a)) == Some(a)) by {
        assert(app_menu_action_spec(app_menu_id(AppMenuAction::CheckForUpdates)) == Some(AppMenuAction::CheckForUpdates));
        assert(app_menu_action_spec(app_menu_id(AppMenuAction::Settings)) == Some(AppMenuAction::Settings));
        assert(app_menu_action_spec(app_menu_id(AppMenuAction::Github)) == Some(AppMenuAction::Github));
        assert(app_menu_action_spec(app_menu_id(AppMenuAction::Back)) == Some(AppMenuAction::Back));
        assert(app_menu_action_spec(app_menu_id(AppMenuAction::Forward)) == Some(AppMenuAction::Forward));
        assert(app_menu_action_spec(app_menu_id(AppMenuAction::ZoomIn)) == Some(AppMenuAction::ZoomIn));
        assert(app_menu_action_spec(app_menu_id(AppMenuAction::ZoomOut)) == Some(AppMenuAction::ZoomOut));
        assert(app_menu_action_spec(app_menu_id(AppMenuAction::ZoomReset)) == Some(AppMenuAction::ZoomReset));
        assert(app_menu_action_spec(app_menu_id(AppMenuAction::Reload)) == Some(AppMenuAction::Reload));
    }
}

/// Every item of the application menu dispatches to the action its label
/// promises: "Zoom In" zooms in, "Zoom Out" zooms out, "Actual Size" resets,
/// "Back" goes back, and so on.
pub proof fn law_app_menu_labels_match_actions(is_mac: bool, i: int, j: int)
    requires
        0 <= i < app_menu_spec(is_mac).len(),
        0 <= j < app_menu_spec(is_mac)[i].slots.len(),
        app_menu_spec(is_mac)[i].slots[j] is Item,
    ensures
        ({
            let slot = app_menu_spec(is_mac)[i].slots[j];
            &&& action_named_by_label(slot->Item_label) is Some
            &&& app_menu_action_spec(slot->Item_id) == action_named_by_label(slot->Item_label)
        }),
{
    law_app_menu_ids_name_their_actions();
    reveal_strlit("Check for Updates…");
    reveal_strlit("Settings…");
    reveal_strlit("GitHub…");
    reveal_strlit("Back");
    reveal_strlit("Forward");
    reveal_strlit("Zoom In");
    reveal_strlit("Zoom Out");
    reveal_strlit("Actual Size");
    reveal_strlit("Reload");
    assert("Check for Updates…"@.len() == 18);
    assert("Settings…"@.len() == 9);
    assert("GitHub…"@.len() == 7);
    assert("Back"@.len() == 4);
    assert("Forward"@.len() == 7);
    assert("Zoom In"@.len() == 7);
    assert("Zoom Out"@.len() == 8);
    assert("Actual Size"@.len() == 11);
    assert("Reload"@.len() == 6);
    assert("GitHub…"@[0] != "Forward"@[0] && "GitHub…"@[0] != "Zoom In"@[0] && "Forward"@[0] != "Zoom In"@[0]);
    assert("Back"@[0] != "Forward"@[0]);
    assert("Reload"@[0] != "Settings…"@[0]);
    let app = app_submenu_spec(is_mac);
    let view = view_submenu_spec();
    assert(app_menu_spec(is_mac)[0] == app);
    assert(app_menu_spec(is_mac)[2] == view);
    assert(app_menu_action_spec(app_menu_id(AppMenuAction::ZoomIn)) == Some(AppMenuAction::ZoomIn));
    assert(app_menu_action_spec(app_menu_id(AppMenuAction::ZoomOut)) == Some(AppMenuAction::ZoomOut));
    assert(app_menu_action_spec(app_menu_id(AppMenuAction::ZoomReset)) == Some(AppMenuAction::ZoomReset));
    assert(app_menu_action_spec(app_menu_id(AppMenuAction::Back)) == Some(AppMenuAction::Back));
    assert(app_menu_action_spec(app_menu_id(AppMenuAction::Forward)) == Some(AppMenuAction::Forward));
    assert(app_menu_action_spec(app_menu_id(AppMenuAction::Reload)) == Some(AppMenuAction::Reload));
    assert(app_menu_action_spec(app_menu_id(AppMenuAction::Github)) == Some(AppMenuAction::Github));
    assert(app_menu_action_spec(app_menu_id(AppMenuAction::Settings)) == Some(AppMenuAction::Settings));
    assert(app_menu_action_spec(app_menu_id(AppMenuAction::CheckForUpdates)) == Some(AppMenuAction::CheckForUpdates));
}

/// The project page that the "GitHub…" item opens.
pub open spec fn project_page_spec() -> Seq<char> {
    "https://github.com/teal-bauer/chatto-tauri"@
}

/// What carrying out an application-menu action amounts to.
pub enum MenuEffect {
    /// Run an update check that reports every outcome.
    CheckForUpdates,
    /// Show the settings page in the main window.
    OpenSettings,
    /// Open this address in the system browser.
    OpenExternal(String),
    /// Evaluate this script in the main window.
    RunScript(String),
    /// Apply a zoom step of this many percent (0 resets).
    Zoom(i32),
}

/// The effect of each application-menu action.
pub fn menu_effect(action: AppMenuAction) -> (r: MenuEffect)
    ensures
        match action {
            AppMenuAction::CheckForUpdates => r is CheckForUpdates,
            AppMenuAction::Settings => r is OpenSettings,
            AppMenuAction::Github => r matches MenuEffect::OpenExternal(u) && u@ == project_page_spec(),
            AppMenuAction::Back => r matches MenuEffect::RunScript(s) && s@ == "history.back()"@,
            AppMenuAction::Forward => r matches MenuEffect::RunScript(s) && s@ == "history.forward()"@,
            AppMenuAction::Reload => r matches MenuEffect::RunScript(s) && s@ == "location.reload()"@,
            AppMenuAction::ZoomIn => r matches MenuEffect::Zoom(d) && d == ZOOM_STEP,
            AppMenuAction::ZoomOut => r matches MenuEffect::Zoom(d) && d == -ZOOM_STEP,
            AppMenuAction::ZoomReset => r matches MenuEffect::Zoom(d) && d == 0,
        },
{
    match action {
        AppMenuAction::CheckForUpdates => MenuEffect::CheckForUpdates,
        AppMenuAction::Settings => MenuEffect::OpenSettings,
        AppMenuAction::Github => MenuEffect::OpenExternal(
            String::from_str("https://github.com/teal-bauer/chatto-tauri"),
        ),
        AppMenuAction::Back => MenuEffect::RunScript(String::from_str("history.back()")),
        AppMenuAction::Forward => MenuEffect::RunScript(String::from_str("history.forward()")),
        AppMenuAction::Reload => MenuEffect::RunScript(String::from_str("location.reload()")),
        AppMenuAction::ZoomIn => MenuEffect::Zoom(ZOOM_STEP),
        AppMenuAction::ZoomOut => MenuEffect::Zoom(-ZOOM_STEP),
        AppMenuAction::ZoomReset => MenuEffect::Zoom(0),
    }
}

/// The tray menu; the "Start at Login" item shows whether autostart is on.
pub open spec fn tray_menu_spec(autostart_enabled: bool) -> Seq<SlotView> {
    seq![
        item_view("show_hide"@, "Show/Hide"@, None),
        item_view("settings"@, "Settings…"@, None),
        SlotView::Separator,
        SlotView::CheckItem { id: "autostart"@, label: "Start at Login"@, checked: autostart_enabled },
        SlotView::Separator,
        item_view("quit"@, "Quit Chatto"@, None),
    ]
}

/// The tray menu.
pub fn tray_menu(autostart_enabled: bool) -> (r: Vec<MenuSlot>)
    ensures
        slots_view(r@) == tray_menu_spec(autostart_enabled),
{
    let r = vec![
        item("show_hide", "Show/Hide", None),
        item("settings", "Settings…", None),
        MenuSlot::Separator,
        MenuSlot::CheckItem {
            id: String::from_str("autostart"),
            label: String::from_str("Start at Login"),
            checked: autostart_enabled,
        },
        MenuSlot::Separator,
        item("quit", "Quit Chatto", None),
    ];
    assert(slots_view(r@) =~= tray_menu_spec(autostart_enabled));
    r
}

/// What an item of the tray menu does.
#[derive(PartialEq, Eq, Structural, Debug, Clone, Copy)]
pub enum TrayAction {
    /// Show the main window if hidden, hide it if shown.
    ToggleWindow,
    Settings,
    /// Turn start-at-login on if off, off if on.
    ToggleAutostart,
    Quit,
}

/// The action of the tray item with this id, if any.
pub open spec fn tray_action_spec(id: Seq<char>) -> Option<TrayAction> {
    if id == "show_hide"@ {
        Some(TrayAction::ToggleWindow)
    } else if id == "settings"@ {
        Some(TrayAction::Settings)
    } else if id == "autostart"@ {
        Some(TrayAction::ToggleAutostart)
    } else if id == "quit"@ {
        Some(TrayAction::Quit)
    } else {
        None
    }
}

/// The id under which each tray action is found.
pub open spec fn tray_id(a: TrayAction) -> Seq<char> {
    match a {
        TrayAction::ToggleWindow => "show_hide"@,
        TrayAction::Settings => "settings"@,
        TrayAction::ToggleAutostart => "autostart"@,
        TrayAction::Quit => "quit"@,
    }
}

/// Each tray id dispatches to the action it names and to no other; only the
/// "quit" item quits.
pub proof fn law_tray_ids_name_their_actions()
    ensures
        forall|a: TrayAction| #[trigger] tray_action_spec(tray_id(a)) == Some(a),
        forall|id: Seq<char>|
            #[trigger] tray_action_spec(id) is Some ==> id == tray_id(tray_action_spec(id)->0),
        forall|id: Seq<char>| tray_action_spec(id) == Some(TrayAction::Quit) <==> id == "quit"@,
        tray_action_spec("settings"@) == Some(TrayAction::Settings),
{
    reveal_strlit("show_hide");
    reveal_strlit("settings");
    reveal_strlit("autostart");
    reveal_strlit("quit");
    assert("autostart"@[0] != "show_hide"@[0]);
    assert("show_hide"@.len() == 9 && "settings"@.len() == 8 && "autostart"@.len() == 9 && "quit"@.len() == 4);
    assert(tray_action_spec(tray_id(TrayAction::ToggleWindow)) == Some(TrayAction::ToggleWindow));
    assert(tray_action_spec(tray_id(TrayAction::Settings)) == Some(TrayAction::Settings));
    assert(tray_action_spec(tray_id(TrayAction::ToggleAutostart)) == Some(TrayAction::ToggleAutostart));
    assert(tray_action_spec(tray_id(TrayAction::Quit)) == Some(TrayAction::Quit));
    assert forall|a: TrayAction| #[trigger] tray_action_spec(tray_id(a)) == Some(a) by {
        match a {
            TrayAction::ToggleWindow => {},
            TrayAction::Settings => {},
            TrayAction::ToggleAutostart => {},
            TrayAction::Quit => {},
        }
    }
}

/// Finds the action of a chosen tray item; unknown ids do nothing.
pub fn tray_action(id: &str) -> (r: Option<TrayAction>)
    ensures
        r == tray_action_spec(id@),
        r matches Some(a) ==> id@ == tray_id(a),
        forall|a: TrayAction| id@ == tray_id(a) ==> r == Some(a),
        r == Some(TrayAction::Quit) <==> id@ == "quit"@,
{
    proof {
        law_tray_ids_name_their_actions();
    }
    if text_eq(id, "show_hide") {
        Some(TrayAction::ToggleWindow)
    } else if text_eq(id, "settings") {
        Some(TrayAction::Settings)
    } else if text_eq(id, "autostart") {
        Some(TrayAction::ToggleAutostart)
    } else if text_eq(id, "quit") {
        Some(TrayAction::Quit)
    } else {
        None
    }
}

/// Whether start-at-login counts as on, from a reading of the launcher that
/// may have failed: a failed reading counts as off.
pub fn autostart_enabled(reading: Option<bool>) -> (r: bool)
    ensures
        r == (reading == Some(true)),
{
    match reading {
        Some(b) => b,
        None => false,
    }
}

/// Whether start-at-login is turned on by a toggle, given whether it was on.
pub fn autostart_toggle_target(was_enabled: bool) -> (r: bool)
    ensures
        r == !was_enabled,
{
    !was_enabled
}

/// The state the "Start at Login" check mark is set back to after a toggle:
/// when turning autostart on or off failed, the mark (which the menu flipped
/// by itself) returns to the previous state; otherwise it is left alone.
pub fn autostart_checkbox_after_toggle(was_enabled: bool, toggle_succeeded: bool) -> (r: Option<bool>)
    ensures
        toggle_succeeded ==> r is None,
        !toggle_succeeded ==> r == Some(was_enabled),
{
    if toggle_succeeded {
        None
    } else {
        Some(was_enabled)
    }
}

/// Every item of the application menu that is the library's own has an
/// action.
pub proof fn law_app_menu_items_have_actions(is_mac: bool, i: int, j: int)
    requires
        0 <= i < app_menu_spec(is_mac).len(),
        0 <= j < app_menu_spec(is_mac)[i].slots.len(),
        app_menu_spec(is_mac)[i].slots[j] is Item,
    ensures
        app_menu_action_spec(app_menu_spec(is_mac)[i].slots[j]->Item_id) is Some,
{
    reveal_strlit("menu_check_updates");
    reveal_strlit("menu_settings");
    reveal_strlit("menu_github");
    reveal_strlit("menu_back");
    reveal_strlit("menu_forward");
    reveal_strlit("menu_zoom_in");
    reveal_strlit("menu_zoom_out");
    reveal_strlit("menu_zoom_reset");
    reveal_strlit("menu_reload");
}

/// Every item of the tray menu has an action.
pub proof fn law_tray_items_have_actions(autostart_enabled: bool, j: int)
    requires
        0 <= j < tray_menu_spec(autostart_enabled).len(),
        tray_menu_spec(autostart_enabled)[j] is Item || tray_menu_spec(autostart_enabled)[j] is CheckItem,
    ensures
        tray_menu_spec(autostart_enabled)[j] is Item ==> tray_action_spec(
            tray_menu_spec(autostart_enabled)[j]->Item_id,
        ) is Some,
        tray_menu_spec(autostart_enabled)[j] is CheckItem ==> tray_action_spec(
            tray_menu_spec(autostart_enabled)[j]->CheckItem_id,
        ) == Some(TrayAction::ToggleAutostart),
{
    reveal_strlit("show_hide");
    reveal_strlit("settings");
    reveal_strlit("autostart");
    reveal_strlit("quit");
    let s = tray_menu_spec(autostart_enabled);
    assert(s[0] is Item && s[1] is Item && s[2] is Separator && s[3] is CheckItem && s[4] is Separator
        && s[5] is Item);
    assert("autostart"@[0] != "show_hide"@[0]);
    assert("autostart"@.len() != "settings"@.len());
    assert(tray_action_spec("autostart"@) == Some(TrayAction::ToggleAutostart));
    if j == 3 {
        assert(s[3]->CheckItem_id == "autostart"@);
    }
}

} // verus!
