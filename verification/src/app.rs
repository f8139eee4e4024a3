//! The state of the studio's screens.

use crate::ditto_app_config::DittoAppConfig;
use vstd::prelude::*;

verus! {

/// The screen that the studio shows.
#[derive(Clone, Copy, Debug, PartialEq, Eq, Structural)]
pub enum CurrentScreen {
    AppListing,
    AppEditor,
    AppDeletion,
    Main,
}

/// What the studio has selected and where it stands.
#[derive(Debug)]
pub struct App {
    pub selected_app: Option<DittoAppConfig>,
    pub current_screen: CurrentScreen,
}

} // verus!
