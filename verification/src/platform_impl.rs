use vstd::prelude::*;

verus! {

/// The web platform's adjustments to the application window: its canvas
/// follows the size of the browser window.
pub struct PlatformDetails;

} // verus!
