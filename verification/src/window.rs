//! The windows of the application: which one is opened, and when the main
//! window loads the user interface from the server.

use crate::text::same_text;
use vstd::prelude::*;

verus! {

/// The label of the main window.
pub const MAIN_WINDOW: &'static str = "main";

/// The label of the window that is shown while the server is not reachable.
pub const SPLASH_WINDOW: &'static str = "splash";

/// The title of the windows.
pub const WINDOW_TITLE: &'static str = "Portmaster";

/// The page that a new window starts with.
pub const START_PAGE: &'static str = "index.html";

/// Where the server serves the user interface.
pub const UI_URL: &'static str = "http://localhost:817";

/// Where the user interface is served while it is being developed, unless
/// another place is named.
pub const DEVELOPMENT_UI_URL: &'static str = "http://localhost:4200";

/// The host from which the user interface is served.
pub const UI_HOST: &'static str = "localhost";

/// Which window is opened for the user.
#[derive(Clone, Copy, PartialEq, Eq, Debug, Structural)]
pub enum WindowChoice {
    /// The main window, which is told to show itself. `create` says whether
    /// it has to be made first.
    Main { create: bool },
    /// The splash window.
    Splash,
}

/// Which window is opened for the user: the main window while the server
/// is reachable, made first where there is none yet, and the splash window
/// while it is not.
pub fn open_window(reachable: bool, main_exists: bool) -> (choice: WindowChoice)
    ensures
        choice == if reachable {
            WindowChoice::Main { create: !main_exists }
        } else {
            WindowChoice::Splash
        },
{
    if reachable {
        WindowChoice::Main { create: !main_exists }
    } else {
        WindowChoice::Splash
    }
}

/// Where the main window is sent, if anywhere.
///
/// Without `force` the window stays where it is while the server is not
/// reachable, and also while it already shows a page of the user interface
/// host, unless the build is one for development. Else it is sent to the
/// user interface: that of the server, or in a development build the place
/// named by `override_url`, and the development place where none is named.
pub open spec fn navigation_target(
    reachable: bool,
    force: bool,
    development: bool,
    host: Option<Seq<char>>,
    override_url: Option<Seq<char>>,
) -> Option<Seq<char>> {
    if !reachable && !force {
        None
    } else if force || development || host != Some(UI_HOST@) {
        if development {
            match override_url {
                Some(url) => Some(url),
                None => Some(DEVELOPMENT_UI_URL@),
            }
        } else {
            Some(UI_URL@)
        }
    } else {
        None
    }
}

/// The text of an optional string.
pub open spec fn text_of(field: Option<String>) -> Option<Seq<char>> {
    match field {
        Some(text) => Some(text@),
        None => None,
    }
}

/// The text of an optional string slice.
pub open spec fn str_of(field: Option<&str>) -> Option<Seq<char>> {
    match field {
        Some(text) => Some(text@),
        None => None,
    }
}

/// Decides where the main window is sent, if anywhere. `host` is the host
/// of the page that the window shows, `development` says whether the build
/// is one for development, and `override_url` is the place that the
/// environment names for the user interface.
pub fn may_navigate_to_ui(
    reachable: bool,
    force: bool,
    development: bool,
    host: Option<&str>,
    override_url: Option<String>,
) -> (target: Option<String>)
    ensures
        text_of(target) == navigation_target(
            reachable,
            force,
            development,
            str_of(host),
            text_of(override_url),
        ),
{
    if !reachable && !force {
        return None;
    }
    let at_host = match host {
        Some(host) => same_text(host, UI_HOST),
        None => false,
    };
    if force || development || !at_host {
        if development {
            match override_url {
                Some(url) => Some(url),
                None => Some(DEVELOPMENT_UI_URL.to_owned()),
            }
        } else {
            Some(UI_URL.to_owned())
        }
    } else {
        None
    }
}

} // verus!
