use vstd::prelude::*;
use winit::event_loop::EventLoopBuilder;
use winit::window::Window;

use crate::platform::menubar;
pub use crate::platform::menubar::PlatformMenubar;

verus! {

/// A menubar is a hierarchical list of actions with attached titles and/or
/// keyboard shortcuts. It is attached to either the application instance
/// (macOS), the main window (Windows/Linux), or fully emulated (mobile/web).
///
/// Menus can also be contextual (a popup right-click menu) or accessed from
/// the system tray.
pub struct Blueprint {
    pub title: String,
    pub items: Vec<Item>,
}

impl Blueprint {
    /// A menu with the given title and no items.
    pub fn new(title: &str) -> (r: Self)
        ensures
            r.title@ == title@,
            r.items@ == Seq::<Item>::empty(),
    {
        Blueprint { title: title.to_owned(), items: Vec::new() }
    }
}

/// A menu item is either an action (with an optional keyboard shortcut) or a
/// submenu. The separator is a visual divider between groups of related menu
/// items.
pub enum Item {
    Separator,
    Entry { title: String, shortcut: Shortcut, action: Action },
    SubMenu(Blueprint),
}

/// A keyboard shortcut: a combination of modifier keys and the key to press.
/// Some shortcuts for common actions (copy, paste, quit) are system-wide and
/// cannot be overridden by the application.
#[derive(Clone, Copy)]
pub enum Shortcut {
    /// No shortcut.
    NoShortcut,
    System(SystemShortcut),
}

/// Shortcuts that vary from platform to platform but are expected to be the
/// same across all applications of one platform.
#[derive(Clone, Copy)]
pub enum SystemShortcut {
    Preferences,
    HideApp,
    HideOthers,
    QuitApp,
}

/// What selecting a menu item does.
pub enum Action {
    System(SystemAction),
}

/// Actions that the operating system implements.
pub enum SystemAction {
    LaunchAboutWindow,
    LaunchPreferences,
    ServicesMenu,
    HideApp,
    HideOthers,
    ShowAll,
    Terminate,
}

/// Configures the event loop with the platform's menu handling and returns
/// the platform's menubar handle; on this platform the builder is left as it
/// was.
pub fn platform_setup<T: Send>(event_loop_builder: &mut EventLoopBuilder<T>) -> (r: PlatformMenubar)
    ensures
        *final(event_loop_builder) == *old(event_loop_builder),
{
    menubar::configure_event_loop(event_loop_builder)
}

/// Attaches the menubar built from `blueprint` to the window (on this
/// platform there is no native menubar, and nothing is done).
pub fn attach_menubar_to_window(
    window: &Window,
    platform_menubar: &PlatformMenubar,
    blueprint: &Blueprint,
) {
    menubar::attach_to_window(window, platform_menubar, blueprint);
}

} // verus!
