//! The few UI-facing values whose content is the library's to specify: the
//! tab set and the greeting of the main menu.

use vstd::prelude::*;
use crate::text::concat3;

verus! {

/// The loader's tabs.
#[derive(Clone, Copy, Debug, PartialEq, Eq, Structural)]
pub enum AppTab {
    Home,
    Settings,
    About,
    Logs,
    Debug,
}

impl Default for AppTab {
    /// The loader opens on the home tab.
    fn default() -> (t: AppTab)
        ensures
            t == AppTab::Home,
    {
        AppTab::Home
    }
}

/// The greeting shown until a payload is selected.
pub fn default_main_menu_message(username: &str) -> (r: String)
    ensures
        r@ == "Hello "@ + username@ + "!\nPlease select a cheat from the list."@,
{
    concat3("Hello ", username, "!\nPlease select a cheat from the list.")
}

} // verus!
