# chatto_desktop

The decision logic of the Chatto desktop and mobile shell, verified with
Verus. `src/` is the library: which server the webview loads and whether a
new one is probed, how `chatto://` deep links become web addresses, the zoom
level, the settings store values, the unread badge, the update-check flow,
the application and tray menus, window events, and the script that forwards
dropped files into the page. Each module states its rules as spec functions
and proves the executable code against them, with the library's laws as
public proof functions.

`app/` is the Tauri shell around it: commands invoked by the page, the
window, tray and menu plumbing, the settings store, the reachability probe
and the updater. It performs that work and hands the outcomes to the library.

`tests/` exercises the library on concrete values.
