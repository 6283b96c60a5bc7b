use chatto_desktop::badge::normalize_badge_count;
use chatto_desktop::file_drop::{drop_script, escape_js, file_entry_js, files_js, DroppedFile};
use chatto_desktop::menu::{
    app_menu, app_menu_action, autostart_checkbox_after_toggle, autostart_enabled, autostart_toggle_target,
    menu_effect, tray_action, tray_menu, AppMenuAction, MenuEffect, MenuSlot, TrayAction,
};
use chatto_desktop::updates::{install_failed_notice, install_precondition, plan_update_step, UpdateCheck};
use chatto_desktop::window::{
    focus_script, reopen_shows_window, tray_click_toggles_window, window_event_response, window_toggle,
    WindowEvent, WindowResponse, WindowToggle,
};

#[test]
fn badge_counts() {
    assert_eq!(normalize_badge_count(Some(3)), Some(3));
    assert_eq!(normalize_badge_count(Some(0)), None);
    assert_eq!(normalize_badge_count(Some(-2)), None);
    assert_eq!(normalize_badge_count(None), None);
    assert_eq!(normalize_badge_count(normalize_badge_count(Some(9))), Some(9));
}

#[test]
fn silent_update_check() {
    let s = plan_update_step(true, UpdateCheck::Failed("offline".to_string()), "1.0.0");
    assert!(s.notice.is_none() && !s.install);
    let s = plan_update_step(true, UpdateCheck::UpToDate, "1.0.0");
    assert!(s.notice.is_none() && !s.install);
    let s = plan_update_step(true, UpdateCheck::Available("1.2.0".to_string()), "1.0.0");
    let n = s.notice.unwrap();
    assert!(!s.install);
    assert_eq!(n.title, "Chatto update available");
    assert_eq!(n.body, "v1.2.0 is ready, use Chatto > Check for Updates to install");
}

#[test]
fn requested_update_check() {
    let s = plan_update_step(false, UpdateCheck::Failed("offline".to_string()), "1.0.0");
    let n = s.notice.unwrap();
    assert_eq!((n.title.as_str(), n.body.as_str()), ("Update check failed", "offline"));
    assert!(!s.install);
    let s = plan_update_step(false, UpdateCheck::UpToDate, "1.0.0");
    let n = s.notice.unwrap();
    assert_eq!((n.title.as_str(), n.body.as_str()), ("Chatto is up to date", "v1.0.0 is the latest version."));
    let s = plan_update_step(false, UpdateCheck::Available("1.2.0".to_string()), "1.0.0");
    let n = s.notice.unwrap();
    assert!(s.install);
    assert_eq!(n.title, "Downloading Chatto 1.2.0…");
    assert_eq!(n.body, "Chatto will restart when the update is ready.");
    let f = install_failed_notice("disk full");
    assert_eq!((f.title.as_str(), f.body.as_str()), ("Update failed", "disk full"));
    assert_eq!(install_precondition(true), Ok(()));
    assert_eq!(install_precondition(false), Err("No update available".to_string()));
}

#[test]
fn app_menu_dispatch() {
    assert_eq!(app_menu_action("menu_check_updates"), Some(AppMenuAction::CheckForUpdates));
    assert_eq!(app_menu_action("menu_zoom_out"), Some(AppMenuAction::ZoomOut));
    assert_eq!(app_menu_action("menu_unknown"), None);
    assert!(matches!(menu_effect(AppMenuAction::ZoomIn), MenuEffect::Zoom(10)));
    assert!(matches!(menu_effect(AppMenuAction::ZoomOut), MenuEffect::Zoom(-10)));
    assert!(matches!(menu_effect(AppMenuAction::ZoomReset), MenuEffect::Zoom(0)));
    match menu_effect(AppMenuAction::Back) {
        MenuEffect::RunScript(s) => assert_eq!(s, "history.back()"),
        _ => panic!("back runs a script"),
    }
    match menu_effect(AppMenuAction::Github) {
        MenuEffect::OpenExternal(u) => assert_eq!(u, "https://github.com/teal-bauer/chatto-tauri"),
        _ => panic!("github opens a page"),
    }
}

#[test]
fn every_menu_item_dispatches() {
    for mac in [true, false] {
        let menu = app_menu(mac);
        assert_eq!(menu.len(), 4);
        let mut ids = 0;
        for sub in &menu {
            for slot in &sub.slots {
                if let MenuSlot::Item { id, .. } = slot {
                    ids += 1;
                    assert!(app_menu_action(id).is_some(), "{id}");
                }
            }
        }
        assert_eq!(ids, if mac { 8 } else { 9 });
    }
    for slot in &tray_menu(true) {
        match slot {
            MenuSlot::Item { id, .. } => assert!(tray_action(id).is_some()),
            MenuSlot::CheckItem { id, checked, .. } => {
                assert_eq!(tray_action(id), Some(TrayAction::ToggleAutostart));
                assert!(*checked);
            }
            _ => {}
        }
    }
}

#[test]
fn app_menu_layout() {
    let menu = app_menu(false);
    assert_eq!(menu[0].title, "Chatto");
    assert!(matches!(&menu[0].slots[1], MenuSlot::Item { id, label, accelerator: None } if id == "menu_github" && label == "GitHub…"));
    assert!(matches!(&menu[2].slots[0], MenuSlot::Item { accelerator: Some(a), .. } if a == "CmdOrCtrl+["));
    let mac = app_menu(true);
    assert!(matches!(mac[0].slots[6], MenuSlot::Hide));
    assert_eq!(mac[3].title, "Window");
}

#[test]
fn tray_and_autostart() {
    assert_eq!(tray_action("show_hide"), Some(TrayAction::ToggleWindow));
    assert_eq!(tray_action("quit"), Some(TrayAction::Quit));
    assert_eq!(tray_action("other"), None);
    assert!(autostart_toggle_target(false));
    assert!(!autostart_toggle_target(true));
    assert_eq!(autostart_checkbox_after_toggle(true, false), Some(true));
    assert_eq!(autostart_checkbox_after_toggle(false, true), None);
    assert!(!autostart_enabled(None));
    assert!(autostart_enabled(Some(true)));
}

#[test]
fn window_events() {
    assert!(matches!(window_event_response(WindowEvent::CloseRequested), WindowResponse::HideInsteadOfClose));
    match window_event_response(WindowEvent::Focused(false)) {
        WindowResponse::RunScript(s) => assert_eq!(
            s,
            "window.__chattoWindowHidden=true;document.dispatchEvent(new Event('visibilitychange'));"
        ),
        _ => panic!("focus runs a script"),
    }
    assert_eq!(
        focus_script(true),
        "window.__chattoWindowHidden=false;document.dispatchEvent(new Event('visibilitychange'));"
    );
    assert!(matches!(window_event_response(WindowEvent::FilesDropped), WindowResponse::ForwardDrop));
    assert!(matches!(window_event_response(WindowEvent::Other), WindowResponse::Nothing));
    assert_eq!(window_toggle(Some(true)), WindowToggle::Hide);
    assert_eq!(window_toggle(Some(false)), WindowToggle::Reveal);
    assert_eq!(window_toggle(None), WindowToggle::Reveal);
    assert!(tray_click_toggles_window(true, true));
    assert!(!tray_click_toggles_window(true, false));
    assert!(!tray_click_toggles_window(false, true));
    assert!(reopen_shows_window(false));
    assert!(!reopen_shows_window(true));
}

#[test]
fn escapes_names_for_js() {
    assert_eq!(escape_js("plain.txt"), "plain.txt");
    assert_eq!(escape_js(r#"a"b\c.txt"#), r#"a\"b\\c.txt"#);
    assert_eq!(escape_js("ünïcødé \"x\""), "ünïcødé \\\"x\\\"");
    assert_eq!(escape_js(""), "");
}

#[test]
fn file_entry_encodes_contents() {
    let f = DroppedFile { name: "notes.txt".to_string(), contents: b"hello".to_vec() };
    assert_eq!(
        file_entry_js(&f),
        r#"(()=>{const s=atob("aGVsbG8=");const a=new Uint8Array(s.length);for(let i=0;i<s.length;i++)a[i]=s.charCodeAt(i);return new File([a],"notes.txt",{type:"text/plain"})})()"#
    );
    let g = DroppedFile { name: "README".to_string(), contents: vec![] };
    assert!(file_entry_js(&g).ends_with(r#"return new File([a],"README",{type:"application/octet-stream"})})()"#));
    assert!(file_entry_js(&g).starts_with(r#"(()=>{const s=atob("");"#));
    let h = DroppedFile { name: "photo.PNG".to_string(), contents: vec![0xff, 0xfe] };
    assert!(file_entry_js(&h).contains(r#"atob("//4=")"#));
    assert!(file_entry_js(&h).contains(r#"{type:"image/png"}"#));
}

#[test]
fn files_are_joined_with_commas() {
    let a = DroppedFile { name: "a.txt".to_string(), contents: b"a".to_vec() };
    let b = DroppedFile { name: "b.txt".to_string(), contents: b"b".to_vec() };
    let one = files_js(&vec![DroppedFile { name: "a.txt".to_string(), contents: b"a".to_vec() }]);
    let ea = file_entry_js(&a);
    let eb = file_entry_js(&b);
    assert_eq!(one, ea);
    assert_eq!(files_js(&vec![a, b]), format!("{ea},{eb}"));
    assert_eq!(files_js(&vec![]), "");
}

#[test]
fn drop_script_text() {
    assert_eq!(drop_script("", "1", "2"), None);
    let s = drop_script("X", "12.5", "40").unwrap();
    let expected = r#"(()=>{
            const files=[X];
            const dt=new DataTransfer();
            files.forEach(f=>dt.items.add(f));
            const el=document.elementFromPoint(12.5,40)||document.body;
            for(const t of['dragenter','dragover','drop']){
                el.dispatchEvent(new DragEvent(t,{bubbles:true,cancelable:true,dataTransfer:dt}));
            }
        })();"#;
    assert_eq!(s, expected);
}

fn read_back_js_literal(body: &str) -> String {
    let mut out = String::new();
    let mut chars = body.chars();
    while let Some(c) = chars.next() {
        if c == '\\' {
            if let Some(n) = chars.next() {
                out.push(n);
            }
        } else {
            out.push(c);
        }
    }
    out
}

#[test]
fn escaped_names_read_back_unchanged() {
    for name in ["plain", "quote\"d", "back\\slash", "\\\"\\\"", "trailing\\", "émoji 📎 \"x\".pdf", ""] {
        assert_eq!(read_back_js_literal(&escape_js(name)), name);
        assert!(!escape_js(name).ends_with('\\') || escape_js(name).ends_with("\\\\"));
    }
}
