//! Tray presentation controller for a pomodoro-style desktop timer.
//!
//! The library models the native side of the application: the single
//! OS tray icon whose title mirrors timer state pushed from the
//! frontend, the lock-protected store that owns that icon, the title
//! update protocol that falls back to a full rebuild when an in-place
//! update is rejected, and the router that turns tray, menu and window
//! events into window-visibility actions.

use vstd::prelude::*;
use vstd::string::StringExecFns;

pub mod menu;
pub mod router;
pub mod tray;

verus! {

/// Builds the greeting returned by the frontend's echo command.
pub fn greet(name: &str) -> (r: String)
    ensures
        r@ == "Hello, "@ + name@ + "! You've been greeted from Rust!"@,
{
    let mut r = "Hello, ".to_owned();
    r.append(name);
    r.append("! You've been greeted from Rust!");
    r
}

} // verus!
