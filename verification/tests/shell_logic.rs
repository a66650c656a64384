use tiklay_shell::browser::{browser_error_message, opener_invocation, LaunchCommand, Platform};
use tiklay_shell::greeting::greet;
use tiklay_shell::menu::{tray_description, MenuPart};
use tiklay_shell::notification::{notification_error_message, notification_request};
use tiklay_shell::router::{
    exit_request, route_menu_event, route_tray_event, window_ops_for, RoutedAction,
    TrayInteraction, WindowOp,
};
use tiklay_shell::system_info::get_system_info;

#[test]
fn greet_world() {
    assert_eq!(greet("World"), "Hello, World! You've been greeted from Rust!");
}

#[test]
fn greet_empty_name() {
    assert_eq!(greet(""), "Hello, ! You've been greeted from Rust!");
}

#[test]
fn greet_is_deterministic() {
    assert_eq!(greet("Tiklay"), greet("Tiklay"));
}

#[test]
fn system_info_has_exactly_the_four_keys() {
    let info = get_system_info("linux", "x86_64", "0.1.0", "tiklay");
    let pairs = info.to_pairs();
    assert_eq!(pairs.len(), 4);
    assert_eq!(pairs[0].0, "platform");
    assert_eq!(pairs[0].1, "linux");
    assert_eq!(pairs[1].0, "arch");
    assert_eq!(pairs[1].1, "x86_64");
    assert_eq!(pairs[2].0, "version");
    assert_eq!(pairs[2].1, "0.1.0");
    assert_eq!(pairs[3].0, "app_name");
    assert_eq!(pairs[3].1, "tiklay");
}

#[test]
fn system_info_repeated_calls_identical() {
    let a = get_system_info("macos", "aarch64", "1.2.3", "tiklay").to_pairs();
    let b = get_system_info("macos", "aarch64", "1.2.3", "tiklay").to_pairs();
    assert_eq!(a, b);
}

#[test]
fn known_menu_ids_route_to_their_actions() {
    assert_eq!(route_menu_event("show"), RoutedAction::ShowMainWindow);
    assert_eq!(route_menu_event("hide"), RoutedAction::HideMainWindow);
    assert_eq!(route_menu_event("quit"), RoutedAction::ExitProcess);
}

#[test]
fn unknown_menu_ids_are_noops() {
    for id in ["", "settings", "Show", "quit ", "main-tray", "exit"] {
        let action = route_menu_event(id);
        assert_eq!(action, RoutedAction::Noop);
        assert_eq!(window_ops_for(action, true), Vec::<WindowOp>::new());
        assert_eq!(window_ops_for(action, false), Vec::<WindowOp>::new());
        assert_eq!(exit_request(action), None);
    }
}

#[test]
fn show_with_window_present_shows_focuses_centers() {
    let action = route_menu_event("show");
    let ops = window_ops_for(action, true);
    assert_eq!(ops, vec![WindowOp::Show, WindowOp::SetFocus, WindowOp::Center]);
    assert_eq!(exit_request(action), None);
}

#[test]
fn show_without_window_is_a_silent_noop() {
    let action = route_menu_event("show");
    assert_eq!(window_ops_for(action, false), Vec::<WindowOp>::new());
    assert_eq!(exit_request(action), None);
}

#[test]
fn hide_touches_only_a_present_window() {
    let action = route_menu_event("hide");
    assert_eq!(window_ops_for(action, true), vec![WindowOp::Hide]);
    assert_eq!(window_ops_for(action, false), Vec::<WindowOp>::new());
    assert_eq!(exit_request(action), None);
}

#[test]
fn quit_requests_exit_code_zero_whatever_came_before() {
    // The router is stateless: route a few events first, then quit.
    let _ = window_ops_for(route_menu_event("show"), true);
    let _ = window_ops_for(route_menu_event("hide"), true);
    let _ = window_ops_for(route_menu_event("show"), false);
    let action = route_menu_event("quit");
    assert_eq!(action, RoutedAction::ExitProcess);
    assert_eq!(exit_request(action), Some(0));
    assert_eq!(window_ops_for(action, true), Vec::<WindowOp>::new());
}

#[test]
fn tray_double_click_acts_as_show() {
    let by_tray = route_tray_event(TrayInteraction::DoubleClick);
    let by_menu = route_menu_event("show");
    assert_eq!(by_tray, by_menu);
    assert_eq!(
        window_ops_for(by_tray, true),
        vec![WindowOp::Show, WindowOp::SetFocus, WindowOp::Center]
    );
}

#[test]
fn other_tray_interactions_are_ignored() {
    for e in [
        TrayInteraction::Click,
        TrayInteraction::Enter,
        TrayInteraction::Move,
        TrayInteraction::Leave,
    ] {
        assert_eq!(route_tray_event(e), RoutedAction::Noop);
    }
}

#[test]
fn opener_command_on_windows() {
    let c: LaunchCommand = opener_invocation(Platform::Windows, "https://example.com");
    assert_eq!(c.program, "cmd");
    assert_eq!(c.args, vec!["/c", "start", "https://example.com"]);
}

#[test]
fn opener_command_on_macos() {
    let c = opener_invocation(Platform::MacOs, "https://example.com");
    assert_eq!(c.program, "open");
    assert_eq!(c.args, vec!["https://example.com"]);
}

#[test]
fn opener_command_on_linux() {
    let c = opener_invocation(Platform::Linux, "https://example.com");
    assert_eq!(c.program, "xdg-open");
    assert_eq!(c.args, vec!["https://example.com"]);
}

#[test]
fn opener_passes_empty_and_unparseable_urls_through() {
    let empty = opener_invocation(Platform::Linux, "");
    assert_eq!(empty.args, vec![""]);
    let odd = opener_invocation(Platform::Windows, "not a url");
    assert_eq!(odd.args, vec!["/c", "start", "not a url"]);
}

#[test]
fn browser_error_message_is_prefixed_and_non_empty() {
    let m = browser_error_message("No such file or directory (os error 2)");
    assert_eq!(m, "Failed to open browser: No such file or directory (os error 2)");
    assert!(!browser_error_message("").is_empty());
}

#[test]
fn notification_error_message_is_prefixed_and_non_empty() {
    let m = notification_error_message("permission denied");
    assert_eq!(m, "Failed to show notification: permission denied");
    assert!(!notification_error_message("").is_empty());
}

#[test]
fn notification_request_passes_title_and_body_through() {
    let r = notification_request("Tiklay", "Hay novedades");
    assert_eq!(r.title, "Tiklay");
    assert_eq!(r.body, "Hay novedades");
}

#[test]
fn tray_description_matches_the_fixed_layout() {
    let t = tray_description();
    assert_eq!(t.tray_id, "main-tray");
    assert_eq!(t.tooltip, "Tiklay - Sistema de Gestión");
    assert_eq!(t.menu.len(), 4);
    match &t.menu[0] {
        MenuPart::Item(e) => {
            assert_eq!(e.id, "show");
            assert_eq!(e.label, "Mostrar Tiklay");
            assert!(e.enabled);
        }
        MenuPart::Separator => panic!("expected the show item first"),
    }
    match &t.menu[1] {
        MenuPart::Item(e) => {
            assert_eq!(e.id, "hide");
            assert_eq!(e.label, "Ocultar Tiklay");
            assert!(e.enabled);
        }
        MenuPart::Separator => panic!("expected the hide item second"),
    }
    assert!(matches!(t.menu[2], MenuPart::Separator));
    match &t.menu[3] {
        MenuPart::Item(e) => {
            assert_eq!(e.id, "quit");
            assert_eq!(e.label, "Salir");
            assert!(e.enabled);
        }
        MenuPart::Separator => panic!("expected the quit item last"),
    }
}

#[test]
fn tray_menu_item_ids_are_unique() {
    let t = tray_description();
    let mut ids: Vec<String> = Vec::new();
    for part in &t.menu {
        if let MenuPart::Item(e) = part {
            assert!(!ids.contains(&e.id));
            ids.push(e.id.clone());
        }
    }
    assert_eq!(ids.len(), 3);
}
