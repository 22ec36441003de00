//! Guest-facing logic of an iPhone OS emulator: the native keyboard helper
//! API, the `dlfcn.h` symbol lookup rules, and the host-side state of
//! `UIAlertView` and `NSURLConnection` objects.

pub mod dlfcn;
pub mod guest;
pub mod keyboard;
pub mod ns_url_connection;
pub mod text;
pub mod ui_alert_view;
