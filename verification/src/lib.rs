//! Verified core of a Leptos client kit: class composition, component
//! class tables, reconnection controllers, the back-gesture stack, calendar
//! and picker arithmetic, command-palette matching, telemetry identity and
//! native palette tables.

pub mod text;
pub mod reconnect;
pub mod ws;
pub mod wt;
pub mod back;
pub mod dates;
pub mod calendar;
pub mod date_picker;
pub mod command;
pub mod otp;
pub mod stepper;
pub mod native_themes;
pub mod layout;
pub mod theme;
pub mod timeline;
pub mod router;
pub mod telemetry;
pub mod dnd;
pub mod status;
pub mod tabs;
pub mod overlay;
pub mod textarea;
pub mod widgets;
