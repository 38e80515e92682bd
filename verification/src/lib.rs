//! Core logic of a desktop shell: the settings cascade, the monitor registry,
//! the window-event dispatcher, the virtual-desktop switcher and the tiling
//! engine, each as a verified state machine over plain values.

pub mod commands;
pub mod constants;
pub mod error;
pub mod hook;
pub mod layout;
pub mod monitor;
pub mod settings;
pub mod state;
pub mod virtual_desk;
pub mod winevent;
pub mod wm;
