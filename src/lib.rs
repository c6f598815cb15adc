//! Word lookup: headword resolution over an in-memory store, rendering of
//! entries as display text, and the command bridge that lets other processes
//! drive the one running instance.

pub mod api;
pub mod matching;
pub mod render;
pub mod text;
pub mod dbus_service;
pub mod shortcut_handler;
pub mod clipboard_monitor;
