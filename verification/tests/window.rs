use portapi::startup::{
    flag, react, Reaction, RunEvent, BACKGROUND_NOTICE, BACKGROUND_OPTION, EXIT_REQUESTED_EVENT,
    NOTIFICATIONS_OPTION, SINGLE_INSTANCE_EVENT,
};
use portapi::window::{
    may_navigate_to_ui, open_window, WindowChoice, DEVELOPMENT_UI_URL, MAIN_WINDOW, SPLASH_WINDOW,
    START_PAGE, UI_HOST, UI_URL, WINDOW_TITLE,
};

#[test]
fn constants_of_the_windows() {
    assert_eq!(MAIN_WINDOW, "main");
    assert_eq!(SPLASH_WINDOW, "splash");
    assert_eq!(WINDOW_TITLE, "Portmaster");
    assert_eq!(START_PAGE, "index.html");
    assert_eq!(UI_URL, "http://localhost:817");
    assert_eq!(DEVELOPMENT_UI_URL, "http://localhost:4200");
    assert_eq!(UI_HOST, "localhost");
    assert_eq!(BACKGROUND_OPTION, "background");
    assert_eq!(NOTIFICATIONS_OPTION, "with-notifications");
    assert_eq!(BACKGROUND_NOTICE, "Portmaster User Interface is running in the background");
    assert_eq!(EXIT_REQUESTED_EVENT, "exit-requested");
    assert_eq!(SINGLE_INSTANCE_EVENT, "single-instance");
}

#[test]
fn window_that_is_opened() {
    assert_eq!(open_window(true, true), WindowChoice::Main { create: false });
    assert_eq!(open_window(true, false), WindowChoice::Main { create: true });
    assert_eq!(open_window(false, true), WindowChoice::Splash);
    assert_eq!(open_window(false, false), WindowChoice::Splash);
}

#[test]
fn navigation_in_a_release_build() {
    let ui = Some("http://localhost:817".to_string());
    assert_eq!(may_navigate_to_ui(false, false, false, Some("tauri.localhost"), None), None);
    assert_eq!(may_navigate_to_ui(true, false, false, Some("tauri.localhost"), None), ui);
    assert_eq!(may_navigate_to_ui(true, false, false, None, None), ui);
    assert_eq!(may_navigate_to_ui(true, false, false, Some("localhost"), None), None);
    assert_eq!(may_navigate_to_ui(true, true, false, Some("localhost"), None), ui);
    assert_eq!(may_navigate_to_ui(false, true, false, Some("localhost"), None), ui);
    assert_eq!(
        may_navigate_to_ui(true, true, false, None, Some("http://elsewhere".to_string())),
        ui
    );
}

#[test]
fn navigation_in_a_development_build() {
    let dev = Some("http://localhost:4200".to_string());
    let named = Some("http://127.0.0.1:8080".to_string());
    assert_eq!(may_navigate_to_ui(false, false, true, None, named.clone()), None);
    assert_eq!(may_navigate_to_ui(true, false, true, Some("localhost"), None), dev);
    assert_eq!(may_navigate_to_ui(true, false, true, Some("localhost"), named.clone()), named);
    assert_eq!(may_navigate_to_ui(false, true, true, None, named.clone()), named);
    assert_eq!(may_navigate_to_ui(false, true, true, None, None), dev);
}

#[test]
fn switches_of_the_command_line() {
    assert!(flag(Some(Some(true))));
    assert!(!flag(Some(Some(false))));
    assert!(!flag(Some(None)));
    assert!(!flag(None));
}

#[test]
fn requests_to_close() {
    assert_eq!(react(RunEvent::CloseRequested { label: "main" }), Reaction::KeepWindow);
    assert_eq!(react(RunEvent::CloseRequested { label: "splash" }), Reaction::Ignore);
    assert_eq!(react(RunEvent::CloseRequested { label: "" }), Reaction::Ignore);
    assert_eq!(react(RunEvent::ExitRequested), Reaction::KeepRunning);
    assert_eq!(react(RunEvent::Other), Reaction::Ignore);
}
