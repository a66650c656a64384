//! Logic of the native shell of the Tiklay desktop application.
//!
//! The shell wires a system tray icon with a three-item context menu to a
//! single main window, and exposes a handful of small command endpoints to
//! the embedded UI. This crate holds the decision-making part of that shell,
//! verified: the greeting endpoint, the system-information record, the static
//! menu and tray description, the event-to-action dispatch table, and the
//! platform-specific command for opening a URL in the default browser.
//! Performing the effects (window operations, process spawning, notification
//! display, process exit) is left to the surrounding GUI host.

pub mod browser;
pub mod greeting;
pub mod menu;
pub mod notification;
pub mod router;
pub mod system_info;
