use sidecar_supervisor::lifecycle::ServerStatus;
use sidecar_supervisor::shell::{
    build_tray_menu, launch, menu_action, open_app_window,
    redirect_to_server, ExitAction, ExitIntent, Launch, MenuAction, Preferences,
};

#[test]
fn menu_entries_are_routed() {
    assert_eq!(menu_action("open"), MenuAction::Open);
    assert_eq!(menu_action("restart"), MenuAction::Restart);
    assert_eq!(menu_action("minimize_startup"), MenuAction::ToggleMinimize);
    assert_eq!(menu_action("startup"), MenuAction::ToggleStartup);
    assert_eq!(menu_action("quit"), MenuAction::Quit);
}

#[test]
fn unknown_menu_entries_are_ignored() {
    for id in ["", "Open", "open ", "exit", "minimize", "start", "quit\n"] {
        assert_eq!(menu_action(id), MenuAction::Ignore, "{:?}", id);
    }
}

#[test]
fn tray_menu_shows_the_flags() {
    let menu = build_tray_menu(Preferences { minimize_to_tray: true, startup_enabled: false });
    let rows: Vec<(&str, &str, Option<bool>)> =
        menu.iter().map(|e| (e.id, e.label, e.checked)).collect();
    assert_eq!(
        rows,
        vec![
            ("open", "Open", None),
            ("restart", "Restart Server", None),
            ("minimize_startup", "Minimize to Tray on Startup", Some(true)),
            ("startup", "Start on System Startup", Some(false)),
            ("quit", "Quit", None),
        ]
    );
    let menu = build_tray_menu(Preferences { minimize_to_tray: false, startup_enabled: true });
    assert_eq!(menu[2].checked, Some(false));
    assert_eq!(menu[3].checked, Some(true));
}

#[test]
fn every_tray_menu_entry_asks_for_something_of_its_own() {
    let menu = build_tray_menu(Preferences { minimize_to_tray: false, startup_enabled: false });
    let actions: Vec<MenuAction> = menu.iter().map(|e| menu_action(e.id)).collect();
    assert_eq!(
        actions,
        vec![
            MenuAction::Open,
            MenuAction::Restart,
            MenuAction::ToggleMinimize,
            MenuAction::ToggleStartup,
            MenuAction::Quit,
        ]
    );
}

#[test]
fn toggles_flip_one_flag_each() {
    let mut p = Preferences { minimize_to_tray: false, startup_enabled: false };
    assert!(p.toggle_minimize());
    assert_eq!(p, Preferences { minimize_to_tray: true, startup_enabled: false });
    assert!(p.toggle_startup());
    assert_eq!(p, Preferences { minimize_to_tray: true, startup_enabled: true });
    assert!(!p.toggle_minimize());
    assert_eq!(p, Preferences { minimize_to_tray: false, startup_enabled: true });
    assert!(!p.toggle_startup());
    assert_eq!(p, Preferences { minimize_to_tray: false, startup_enabled: false });
}

#[test]
fn window_stays_hidden_when_starting_minimized() {
    assert!(open_app_window(false));
    assert!(!open_app_window(true));
}

#[test]
fn redirect_script_names_the_address() {
    assert_eq!(
        redirect_to_server("http://127.0.0.1:8080/app"),
        "window.location.replace('http://127.0.0.1:8080/app')"
    );
    assert_eq!(redirect_to_server(""), "window.location.replace('')");
}

#[test]
fn first_exit_request_begins_the_cleanup() {
    let mut intent = ExitIntent::new();
    assert!(!intent.is_requested());
    assert!(intent.stop_on_exit());
    assert_eq!(intent.request(), ExitAction::Cleanup);
    assert!(intent.is_requested());
    assert!(!intent.stop_on_exit());
}

#[test]
fn later_exit_requests_proceed_without_cleanup() {
    let mut intent = ExitIntent::new();
    let mut cleanups = 0;
    for _ in 0..10 {
        if intent.request() == ExitAction::Cleanup {
            cleanups += 1;
        }
    }
    assert_eq!(cleanups, 1);
    assert_eq!(intent.request(), ExitAction::Proceed);
    assert!(intent.is_requested());
}

#[test]
fn holder_of_the_marker_supervises() {
    match launch(true, vec!["--port".to_string(), "1".to_string()]) {
        Launch::Primary { supervisor } => {
            assert_eq!(supervisor.status(), ServerStatus::Absent);
            assert_eq!(supervisor.record(), None);
        }
        Launch::Secondary { .. } => panic!("the holder of the marker is the primary instance"),
    }
}

#[test]
fn second_instance_forwards_its_arguments_and_has_no_supervisor() {
    let args = vec!["--port".to_string(), "9000".to_string(), "--run".to_string()];
    match launch(false, args.clone()) {
        Launch::Secondary { forward } => assert_eq!(forward, args),
        Launch::Primary { .. } => panic!("a second instance must not supervise"),
    }
    match launch(false, vec![]) {
        Launch::Secondary { forward } => assert!(forward.is_empty()),
        Launch::Primary { .. } => panic!("a second instance must not supervise"),
    }
}
