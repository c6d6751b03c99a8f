//! The decisions behind a small 2D game's screens: which controls each screen
//! shows, what every input leads to, how the settings menu finds its way back,
//! how the credits are laid out, and which entity plays the credits music.
//!
//! Everything here is a function from plain values to plain values. The game
//! itself hands in what happened and carries out what comes back.

pub mod menus;
pub mod screens;
