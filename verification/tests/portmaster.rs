use portapi::commands::{
    get_state, response_id, response_id_or, set_state, should_handle_prompts, should_show,
    CommandError, RESPONSE_ID_LENGTH,
};
use portapi::message::Payload;
use portapi::portmaster::{Config, Handler, PortmasterPlugin, SHOW_EVENT, SPN_ENABLE_KEY};
use portapi::types::Request;
use std::cell::RefCell;
use std::rc::Rc;

#[derive(Clone, Debug, PartialEq)]
struct Handle(u32);

struct Listener {
    name: &'static str,
    log: Rc<RefCell<Vec<String>>>,
}

impl Handler<Handle> for Listener {
    fn on_connect(&mut self, cli: Handle) {
        self.log.borrow_mut().push(format!("{} connected {}", self.name, cli.0));
    }

    fn on_disconnect(&mut self) {
        self.log.borrow_mut().push(format!("{} disconnected", self.name));
    }
}

fn plugin() -> PortmasterPlugin<Handle, Listener> {
    PortmasterPlugin::new()
}

#[test]
fn plugin_starts_empty() {
    let plugin = plugin();
    assert!(!plugin.is_reachable());
    assert_eq!(plugin.get_api(), None);
    assert!(plugin.get_show_after_bootstrap());
    assert!(!plugin.handles_prompts());
    assert_eq!(plugin.get_state("anything".to_string()), None);
    assert_eq!(plugin.start_notification_handler(), None);
    assert_eq!(Config {}, Config {});
}

#[test]
fn plugin_stores_values_by_key() {
    let mut plugin = plugin();
    plugin.set_state("a".to_string(), "1".to_string());
    plugin.set_state("b".to_string(), "2".to_string());
    assert_eq!(plugin.get_state("a".to_string()), Some("1".to_string()));
    assert_eq!(plugin.get_state("b".to_string()), Some("2".to_string()));
    assert_eq!(plugin.get_state("c".to_string()), None);
    plugin.set_state("a".to_string(), "3".to_string());
    assert_eq!(plugin.get_state("a".to_string()), Some("3".to_string()));
    assert_eq!(plugin.get_state("b".to_string()), Some("2".to_string()));
    plugin.set_state("".to_string(), "".to_string());
    assert_eq!(plugin.get_state("".to_string()), Some("".to_string()));
    assert_eq!(plugin.get_state("A".to_string()), None);
}

#[test]
fn plugin_flags() {
    let mut plugin = plugin();
    plugin.set_show_after_bootstrap(false);
    assert!(!plugin.get_show_after_bootstrap());
    assert_eq!(plugin.show_window(), "portmaster:show");
    assert_eq!(SHOW_EVENT, "portmaster:show");
    assert!(plugin.get_show_after_bootstrap());
    plugin.with_connection_prompts(true);
    assert!(plugin.handles_prompts());
    plugin.with_connection_prompts(false);
    assert!(!plugin.handles_prompts());
}

#[test]
fn plugin_tells_handlers_of_connections() {
    let log = Rc::new(RefCell::new(Vec::new()));
    let mut plugin = plugin();
    plugin.register_handler(Listener { name: "first", log: log.clone() });
    assert_eq!(*log.borrow(), vec!["first disconnected"]);
    assert_eq!(plugin.on_connect(Handle(7)), None);
    assert!(plugin.is_reachable());
    assert_eq!(plugin.get_api(), Some(Handle(7)));
    plugin.register_handler(Listener { name: "second", log: log.clone() });
    plugin.on_disconnect();
    assert!(!plugin.is_reachable());
    assert_eq!(plugin.get_api(), None);
    plugin.on_connect(Handle(8));
    assert_eq!(
        *log.borrow(),
        vec![
            "first disconnected",
            "first connected 7",
            "second connected 7",
            "first disconnected",
            "second disconnected",
            "first connected 8",
            "second connected 8",
        ]
    );
}

#[test]
fn plugin_hands_out_the_handle_for_notifications() {
    let mut plugin = plugin();
    assert_eq!(plugin.with_notification_support(true), None);
    assert_eq!(plugin.on_connect(Handle(1)), Some(Handle(1)));
    assert_eq!(plugin.start_notification_handler(), Some(Handle(1)));
    assert_eq!(plugin.with_notification_support(false), None);
    assert_eq!(plugin.on_connect(Handle(2)), None);
    assert_eq!(plugin.with_notification_support(true), Some(Handle(2)));
    plugin.on_disconnect();
    assert_eq!(plugin.with_notification_support(true), None);
}

#[test]
fn plugin_orders_the_spn_setting() {
    let mut plugin = plugin();
    let body = || Ok(Payload::JSON("{\"Value\":true}".to_string()));
    assert_eq!(plugin.set_spn_enabled(body()), None);
    plugin.on_connect(Handle(3));
    assert_eq!(SPN_ENABLE_KEY, "config:spn/enable");
    assert_eq!(
        plugin.set_spn_enabled(body()),
        Some((
            Handle(3),
            Request::Update(
                "config:spn/enable".to_string(),
                Payload::JSON("{\"Value\":true}".to_string())
            )
        ))
    );
    let err = serde_json::from_str::<serde_json::Value>("{").unwrap_err();
    assert_eq!(plugin.set_spn_enabled(Err(err)), None);
}

#[test]
fn commands_answer_with_words() {
    let mut plugin = plugin();
    assert_eq!(should_show(&plugin), Ok("show".to_string()));
    assert_eq!(should_handle_prompts(&plugin), Ok("false".to_string()));
    plugin.set_show_after_bootstrap(false);
    plugin.with_connection_prompts(true);
    assert_eq!(should_show(&plugin), Ok("hide".to_string()));
    assert_eq!(should_handle_prompts(&plugin), Ok("true".to_string()));
}

#[test]
fn commands_store_and_read_state() {
    let mut plugin = plugin();
    assert_eq!(get_state(&plugin, "k".to_string()), Ok("".to_string()));
    assert_eq!(set_state(&mut plugin, "k".to_string(), "v".to_string()), Ok("".to_string()));
    assert_eq!(get_state(&plugin, "k".to_string()), Ok("v".to_string()));
    assert_eq!(plugin.get_state("k".to_string()), Some("v".to_string()));
    assert!(plugin.get_show_after_bootstrap());
}

#[test]
fn response_id_is_kept_or_made_up() {
    assert_eq!(response_id("abc".to_string()), "abc");
    assert_eq!(response_id_or("abc".to_string(), "fresh".to_string()), "abc");
    assert_eq!(response_id_or("".to_string(), "fresh".to_string()), "fresh");
    assert_eq!(response_id_or(" ".to_string(), "fresh".to_string()), " ");
    let first = response_id(String::new());
    let second = response_id(String::new());
    assert_eq!(RESPONSE_ID_LENGTH, 36);
    assert_eq!(first.chars().count(), 36);
    assert_eq!(second.chars().count(), 36);
    assert_ne!(first, second);
    assert!(uuid::Uuid::parse_str(&first).is_ok());
}

#[test]
fn command_error_holds_its_text() {
    let err = CommandError { error: "failed".to_string() };
    assert_eq!(err.clone(), err);
    assert_eq!(err.error, "failed");
}
