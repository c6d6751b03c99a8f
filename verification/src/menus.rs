//! The menus that can lie over a screen.

use vstd::prelude::*;

pub mod settings;

verus! {

/// The menu that lies over the active screen. A menu is open only over the
/// title screen or over a paused game; everywhere else it is `Closed`.
#[derive(Clone, Copy, PartialEq, Eq, Structural, Debug, Hash)]
pub enum Menu {
    Closed,
    Main,
    Settings,
    Pause,
}

} // verus!
