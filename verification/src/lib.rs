//! Shanka's logic: personas, configuration, hotkey routing, the clipboard
//! capture, the rewrite pipeline and its provider decisions, verified with Verus.

use vstd::prelude::*;

pub mod text;
pub mod persona;
pub mod persona_laws;
pub mod platform;
pub mod config;
pub mod selection;
pub mod rewrite;
pub mod pipeline;
pub mod history;
pub mod hud;
pub mod hotkey;
pub mod clipboard;
pub mod window;
pub mod tray;
pub mod autostart;
pub mod keychain;
pub mod keys;
