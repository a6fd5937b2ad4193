use portapi::message::Payload;
use portapi::subsystem::{
    ModuleStatus, Subsystem, FAILURE_ERROR, FAILURE_HINT, FAILURE_NONE, FAILURE_WARNING,
};
use portapi::tray::{
    menu_action, record_of, spn_checked, update_icon, IconColor, MenuAction, Tray, CONNECTED_ICON,
    DISCONNECTED_ICON, SPN_ENABLE_QUERY, SPN_STATUS_QUERY, SUBSYSTEMS_QUERY,
};
use portapi::types::Response;

fn subsystem(id: &str, failure_status: u8) -> Subsystem {
    Subsystem {
        id: id.to_string(),
        name: id.to_uppercase(),
        description: String::new(),
        module_status: vec![ModuleStatus {
            name: "module".to_string(),
            enabled: true,
            status: 1,
            failure_status,
            failure_id: String::new(),
            failure_msg: String::new(),
        }],
        failure_status,
    }
}

#[test]
fn constants_of_the_tray() {
    assert_eq!((FAILURE_NONE, FAILURE_HINT, FAILURE_WARNING, FAILURE_ERROR), (0, 1, 2, 3));
    assert_eq!(SUBSYSTEMS_QUERY, "query runtime:subsystems/");
    assert_eq!(SPN_STATUS_QUERY, "query runtime:spn/status");
    assert_eq!(SPN_ENABLE_QUERY, "query config:spn/enable");
    assert_eq!(CONNECTED_ICON, IconColor::Blue);
    assert_eq!(DISCONNECTED_ICON, IconColor::Red);
}

#[test]
fn menu_entries() {
    assert_eq!(menu_action("close"), MenuAction::Close);
    assert_eq!(menu_action("open"), MenuAction::Open);
    assert_eq!(menu_action("reload"), MenuAction::Reload);
    assert_eq!(menu_action("force-show"), MenuAction::ForceShow);
    assert_eq!(menu_action("spn"), MenuAction::Spn);
    assert_eq!(menu_action(""), MenuAction::Unknown);
    assert_eq!(menu_action("Close"), MenuAction::Unknown);
    assert_eq!(menu_action("open "), MenuAction::Unknown);
}

#[test]
fn icon_color_follows_the_worst_failure() {
    let all = |failures: &[u8]| -> Vec<Subsystem> {
        failures.iter().enumerate().map(|(i, f)| subsystem(&format!("s{}", i), *f)).collect()
    };
    assert_eq!(update_icon(&all(&[]), ""), IconColor::Green);
    assert_eq!(update_icon(&all(&[]), "connected"), IconColor::Blue);
    assert_eq!(update_icon(&all(&[]), "connecting"), IconColor::Blue);
    assert_eq!(update_icon(&all(&[]), "disabled"), IconColor::Green);
    assert_eq!(update_icon(&all(&[]), "Connected"), IconColor::Green);
    assert_eq!(update_icon(&all(&[0, 1, 0]), "connected"), IconColor::Blue);
    assert_eq!(update_icon(&all(&[0, 1, 0]), "failed"), IconColor::Green);
    assert_eq!(update_icon(&all(&[0, 2, 1]), "connected"), IconColor::Yellow);
    assert_eq!(update_icon(&all(&[2, 0]), ""), IconColor::Yellow);
    assert_eq!(update_icon(&all(&[2, 3, 2]), "connected"), IconColor::Red);
    assert_eq!(update_icon(&all(&[3]), ""), IconColor::Red);
    assert_eq!(update_icon(&all(&[3, 4]), "connected"), IconColor::Blue);
    assert_eq!(update_icon(&all(&[2, 255]), ""), IconColor::Green);
}

#[test]
fn tray_keeps_each_subsystem_once() {
    let mut tray = Tray::new();
    assert_eq!(tray.color(), IconColor::Green);
    assert_eq!(tray.on_subsystem(subsystem("core", 0)), IconColor::Green);
    assert_eq!(tray.on_subsystem(subsystem("filter", 2)), IconColor::Yellow);
    assert_eq!(tray.on_subsystem(subsystem("spn", 3)), IconColor::Red);
    assert_eq!(tray.on_subsystem(subsystem("spn", 0)), IconColor::Yellow);
    assert_eq!(tray.on_subsystem(subsystem("filter", 1)), IconColor::Green);
    assert_eq!(tray.on_spn_status("connecting".to_string()), IconColor::Blue);
    assert_eq!(tray.on_subsystem(subsystem("core", 3)), IconColor::Red);
    assert_eq!(tray.on_subsystem(subsystem("core", 0)), IconColor::Blue);
    assert_eq!(tray.on_spn_status("disabled".to_string()), IconColor::Green);
    assert_eq!(tray.color(), IconColor::Green);
}

#[test]
fn records_of_responses() {
    let payload = || Payload::JSON("{}".to_string());
    let record = Some(("k".to_string(), payload()));
    assert_eq!(record_of(Response::OK("k".to_string(), payload())), record);
    assert_eq!(record_of(Response::New("k".to_string(), payload())), record);
    assert_eq!(record_of(Response::Update("k".to_string(), payload())), record);
    assert_eq!(record_of(Response::Delete("k".to_string())), None);
    assert_eq!(record_of(Response::Success), None);
    assert_eq!(record_of(Response::Error("k".to_string())), None);
    assert_eq!(record_of(Response::Warning("k".to_string())), None);
    assert_eq!(record_of(Response::Done), None);
}

#[test]
fn spn_entry_is_checked_by_the_setting() {
    assert!(spn_checked(Some(true)));
    assert!(!spn_checked(Some(false)));
    assert!(!spn_checked(None));
}
