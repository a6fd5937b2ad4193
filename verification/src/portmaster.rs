//! What the application keeps of the Portmaster between its parts: values
//! that the user interface stores, whether the server is reachable, the
//! handle of the connection, and who wants to hear of its coming and going.

use crate::message::Payload;
use crate::store::Keyed;
use crate::types::{Request, RequestView};
use vstd::prelude::*;

verus! {

/// Someone who wants to hear when the connection to the server is made and
/// when it is lost.
pub trait Handler<A> {
    /// The connection was made; `cli` is a handle to it.
    fn on_connect(&mut self, cli: A);

    /// The connection was lost, or could not be made.
    fn on_disconnect(&mut self);
}

/// The settings of the plugin. There are none.
#[derive(Clone, Copy, PartialEq, Eq, Debug, Structural)]
pub struct Config {}

/// The event that tells the user interface to show its window.
pub const SHOW_EVENT: &'static str = "portmaster:show";

/// The key of the setting that switches the SPN on and off.
pub const SPN_ENABLE_KEY: &'static str = "config:spn/enable";

/// The texts of the values of `table`.
pub open spec fn texts_of(table: Map<Seq<char>, String>) -> Map<Seq<char>, Seq<char>> {
    Map::new(|key: Seq<char>| table.contains_key(key), |key: Seq<char>| table[key]@)
}

/// The state of the plugin. `A` is the handle of a connection, `H` someone
/// who listens for connections.
pub struct PortmasterPlugin<A, H> {
    state: Keyed<String>,
    is_reachable: bool,
    api: Option<A>,
    handlers: Vec<H>,
    handle_notifications: bool,
    handle_prompts: bool,
    should_show_after_bootstrap: bool,
}

/// The state of the plugin as a mathematical value.
pub struct PluginView<A, H> {
    /// The values that the user interface stored, by their keys.
    pub state: Map<Seq<char>, Seq<char>>,
    /// Whether the server is reachable.
    pub is_reachable: bool,
    /// The handle of the connection, while there is one.
    pub api: Option<A>,
    /// Those who listen for connections, in the order in which they came.
    pub handlers: Seq<H>,
    /// Whether notifications are shown by the application.
    pub handle_notifications: bool,
    /// Whether the user interface handles connection prompts.
    pub handle_prompts: bool,
    /// Whether the user interface shows its window once it has started.
    pub should_show_after_bootstrap: bool,
}

impl<A, H> View for PortmasterPlugin<A, H> {
    type V = PluginView<A, H>;

    closed spec fn view(&self) -> PluginView<A, H> {
        PluginView {
            state: texts_of(self.state@),
            is_reachable: self.is_reachable,
            api: self.api,
            handlers: self.handlers@,
            handle_notifications: self.handle_notifications,
            handle_prompts: self.handle_prompts,
            should_show_after_bootstrap: self.should_show_after_bootstrap,
        }
    }
}

impl<A, H> PortmasterPlugin<A, H> {
    /// The plugin as it starts: nothing is stored, the server is not
    /// reachable, nobody listens, notifications and prompts are left to
    /// others, and the window shows once the user interface has started.
    pub fn new() -> (plugin: Self)
        ensures
            plugin@ == (PluginView::<A, H> {
                state: Map::empty(),
                is_reachable: false,
                api: None,
                handlers: Seq::empty(),
                handle_notifications: false,
                handle_prompts: false,
                should_show_after_bootstrap: true,
            }),
    {
        let plugin = PortmasterPlugin {
            state: Keyed::new(),
            is_reachable: false,
            api: None,
            handlers: Vec::new(),
            handle_notifications: false,
            handle_prompts: false,
            should_show_after_bootstrap: true,
        };
        assert(plugin@.state =~= Map::empty());
        plugin
    }

    /// The value that is stored under `key`.
    pub fn get_state(&self, key: String) -> (value: Option<String>)
        ensures
            match value {
                Some(v) => self@.state.contains_key(key@) && self@.state[key@] == v@,
                None => !self@.state.contains_key(key@),
            },
    {
        match self.state.get(key.as_str()) {
            Some(value) => Some(value.clone()),
            None => None,
        }
    }

    /// Stores `value` under `key`, in place of what was stored there.
    pub fn set_state(&mut self, key: String, value: String)
        ensures
            final(self)@ == (PluginView {
                state: old(self)@.state.insert(key@, value@),
                ..old(self)@
            }),
    {
        self.state.insert(key, value);
        assert(texts_of(self.state@) =~= texts_of(old(self).state@).insert(key@, value@));
    }

    /// Whether the server is reachable.
    pub fn is_reachable(&self) -> (reachable: bool)
        ensures
            reachable == self@.is_reachable,
    {
        self.is_reachable
    }

    /// Says whether the user interface handles connection prompts.
    pub fn with_connection_prompts(&mut self, enable: bool)
        ensures
            final(self)@ == (PluginView { handle_prompts: enable, ..old(self)@ }),
    {
        self.handle_prompts = enable;
    }

    /// Whether the user interface handles connection prompts.
    pub fn handles_prompts(&self) -> (enabled: bool)
        ensures
            enabled == self@.handle_prompts,
    {
        self.handle_prompts
    }

    /// Says whether the user interface shows its window once it has
    /// started.
    pub fn set_show_after_bootstrap(&mut self, show: bool)
        ensures
            final(self)@ == (PluginView { should_show_after_bootstrap: show, ..old(self)@ }),
    {
        self.should_show_after_bootstrap = show;
    }

    /// Whether the user interface shows its window once it has started.
    pub fn get_show_after_bootstrap(&self) -> (show: bool)
        ensures
            show == self@.should_show_after_bootstrap,
    {
        self.should_show_after_bootstrap
    }

    /// Asks the user interface to show its window: it will do so once it
    /// has started, and the event that is returned tells it to do so now.
    pub fn show_window(&mut self) -> (event: &'static str)
        ensures
            final(self)@ == (PluginView { should_show_after_bootstrap: true, ..old(self)@ }),
            event@ == SHOW_EVENT@,
    {
        self.set_show_after_bootstrap(true);
        SHOW_EVENT
    }
}

/// Whether `copy` is a handle of the connection that `api` holds, if it
/// holds one: a clone of it.
pub open spec fn handle_of<A: Clone>(api: Option<A>, copy: Option<A>) -> bool {
    match (api, copy) {
        (Some(kept), Some(copy)) => cloned(kept, copy),
        (None, None) => true,
        _ => false,
    }
}

/// The request that switches the SPN on or off; `body` says which.
pub open spec fn spn_request(body: Payload) -> RequestView {
    RequestView::Update(SPN_ENABLE_KEY@, body@)
}

impl<A: Clone, H: Handler<A>> PortmasterPlugin<A, H> {
    /// A handle of the connection, while there is one.
    pub fn get_api(&self) -> (api: Option<A>)
        ensures
            handle_of(self@.api, api),
    {
        match &self.api {
            Some(api) => Some(api.clone()),
            None => None,
        }
    }

    /// Takes in someone who listens for connections, and tells them at
    /// once how things stand: that there is a connection, or that there is
    /// none.
    pub fn register_handler(&mut self, handler: H)
        ensures
            final(self)@.handlers.len() == old(self)@.handlers.len() + 1,
            final(self)@.handlers.drop_last() == old(self)@.handlers,
            final(self)@ == (PluginView { handlers: final(self)@.handlers, ..old(self)@ }),
    {
        let mut handler = handler;
        match self.get_api() {
            Some(api) => {
                handler.on_connect(api);
            },
            None => {
                handler.on_disconnect();
            },
        }
        self.handlers.push(handler);
        assert(self.handlers@.drop_last() =~= old(self).handlers@);
    }

    /// The handle with which the notifications are to be handled from now
    /// on, if there is a connection.
    pub fn start_notification_handler(&self) -> (cli: Option<A>)
        ensures
            handle_of(self@.api, cli),
    {
        self.get_api()
    }

    /// Says whether the application shows the notifications of the server.
    /// Where it does and there is a connection, the result is the handle
    /// with which they are to be handled from now on.
    pub fn with_notification_support(&mut self, enable: bool) -> (cli: Option<A>)
        ensures
            final(self)@ == (PluginView { handle_notifications: enable, ..old(self)@ }),
            enable ==> handle_of(old(self)@.api, cli),
            !enable ==> cli is None,
    {
        self.handle_notifications = enable;
        if enable {
            self.start_notification_handler()
        } else {
            None
        }
    }

    /// What is to be sent to switch the SPN on or off: through which
    /// handle, and which request. `body` is the new value of the setting as
    /// a payload, or the error that kept it from being written. Nothing is
    /// sent without a connection or without a payload.
    pub fn set_spn_enabled(&self, body: Result<Payload, serde_json::Error>) -> (order: Option<
        (A, Request),
    >)
        ensures
            match order {
                Some((cli, request)) => {
                    &&& self@.api matches Some(api)
                    &&& cloned(api, cli)
                    &&& body matches Ok(payload)
                    &&& request@ == spn_request(payload)
                },
                None => self@.api is None || body is Err,
            },
    {
        match self.get_api() {
            Some(api) => match body {
                Ok(payload) => Some((api, Request::Update(SPN_ENABLE_KEY.to_owned(), payload))),
                Err(_) => None,
            },
            None => None,
        }
    }

    /// Takes note of a new connection and tells all who listen. Where the
    /// application shows notifications, the result is the handle with which
    /// they are to be handled.
    pub fn on_connect(&mut self, api: A) -> (cli: Option<A>)
        ensures
            final(self)@.is_reachable,
            final(self)@.api matches Some(kept) && cloned(api, kept),
            final(self)@.handlers.len() == old(self)@.handlers.len(),
            final(self)@ == (PluginView {
                is_reachable: true,
                api: final(self)@.api,
                handlers: final(self)@.handlers,
                ..old(self)@
            }),
            old(self)@.handle_notifications ==> handle_of(final(self)@.api, cli),
            !old(self)@.handle_notifications ==> cli is None,
    {
        self.is_reachable = true;
        self.api = Some(api.clone());
        let cli = if self.handle_notifications {
            self.start_notification_handler()
        } else {
            None
        };
        let mut i: usize = 0;
        while i < self.handlers.len()
            invariant
                self.handlers.len() == old(self).handlers.len(),
                self.state == old(self).state,
                self.is_reachable,
                self.api matches Some(kept) && cloned(api, kept),
                self.handle_notifications == old(self).handle_notifications,
                self.handle_prompts == old(self).handle_prompts,
                self.should_show_after_bootstrap == old(self).should_show_after_bootstrap,
                old(self).handle_notifications ==> handle_of(self.api, cli),
                !old(self).handle_notifications ==> cli is None,
            decreases self.handlers.len() - i,
        {
            self.handlers[i].on_connect(api.clone());
            i = i + 1;
        }
        cli
    }

    /// Takes note that the connection is gone and tells all who listen.
    pub fn on_disconnect(&mut self)
        ensures
            final(self)@.handlers.len() == old(self)@.handlers.len(),
            final(self)@ == (PluginView {
                is_reachable: false,
                api: None,
                handlers: final(self)@.handlers,
                ..old(self)@
            }),
    {
        self.is_reachable = false;
        self.api = None;
        let mut i: usize = 0;
        while i < self.handlers.len()
            invariant
                self.handlers.len() == old(self).handlers.len(),
                self.state == old(self).state,
                !self.is_reachable,
                self.api is None,
                self.handle_notifications == old(self).handle_notifications,
                self.handle_prompts == old(self).handle_prompts,
                self.should_show_after_bootstrap == old(self).should_show_after_bootstrap,
            decreases self.handlers.len() - i,
        {
            self.handlers[i].on_disconnect();
            i = i + 1;
        }
    }
}

} // verus!
