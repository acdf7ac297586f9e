use vstd::prelude::*;
use winit::event_loop::EventLoopBuilder;
use winit::window::Window;

use crate::menu;

verus! {

#[verifier::external_type_specification]
#[verifier::external_body]
#[verifier::reject_recursive_types(T)]
pub struct ExEventLoopBuilder<T: 'static>(EventLoopBuilder<T>);

#[verifier::external_type_specification]
#[verifier::external_body]
pub struct ExWindow(Window);

/// The platform's handle on its menu allocations. On platforms without
/// native menubar support it holds nothing.
pub struct PlatformMenubar;

impl Default for PlatformMenubar {
    fn default() -> (r: Self)
        ensures
            r == PlatformMenubar,
    {
        PlatformMenubar
    }
}

/// Prepares the event loop for menus; on this platform the builder is left
/// as it was.
pub fn configure_event_loop<T: 'static>(event_loop_builder: &mut EventLoopBuilder<T>) -> (r: PlatformMenubar)
    ensures
        *final(event_loop_builder) == *old(event_loop_builder),
{
    let _ = event_loop_builder;
    PlatformMenubar
}

/// Attaches a copy of the menu to the window; on this platform there is no
/// menubar, and nothing is done.
pub fn attach_to_window(
    window: &Window,
    platform_menubar: &PlatformMenubar,
    blueprint: &menu::Blueprint,
) {
    let _ = (window, platform_menubar, blueprint);
}

} // verus!
