//! Application core of atomCAD: the application object with its runner and
//! plugin registry, and the menu blueprints that the GUI attaches to windows.

pub mod app;
pub mod menu;
pub mod platform;
pub mod platform_impl;
pub mod plugin;

pub use app::{run_once, App, AppExit, AppRunner, AppView, ErrorStatus, Runner};
pub use menu::{Action, Blueprint, Item, PlatformMenubar, Shortcut, SystemAction, SystemShortcut};
pub use platform_impl::PlatformDetails;
pub use plugin::Plugin;
