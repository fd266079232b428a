//! Whether the application must restart itself under X11 settings on a
//! Wayland session, where its web view renders poorly.
use vstd::prelude::*;

use crate::text::{holds_text, setting_is};

verus! {

pub const WAYLAND_SESSION: &'static str = "wayland";

pub const X11_BACKEND: &'static str = "x11";

pub const COMPOSITING_DISABLED: &'static str = "1";

/// Whether a restart is needed: not restarted already, on a Wayland session
/// (by session type or display), and the X11 backend or the disabled
/// compositing mode not both set.
pub open spec fn restart_needed(
    already_restarted: bool,
    session_type: Option<&str>,
    wayland_display_set: bool,
    gdk_backend: Option<&str>,
    compositing_mode: Option<&str>,
) -> bool {
    &&& !already_restarted
    &&& holds_text(session_type, WAYLAND_SESSION@) || wayland_display_set
    &&& !holds_text(gdk_backend, X11_BACKEND@) || !holds_text(
        compositing_mode,
        COMPOSITING_DISABLED@,
    )
}

/// Decides, from the session's settings, whether to restart under X11.
pub fn wayland_restart_needed(
    already_restarted: bool,
    session_type: Option<&str>,
    wayland_display_set: bool,
    gdk_backend: Option<&str>,
    compositing_mode: Option<&str>,
) -> (r: bool)
    ensures
        r == restart_needed(
            already_restarted,
            session_type,
            wayland_display_set,
            gdk_backend,
            compositing_mode,
        ),
{
    if already_restarted {
        return false;
    }
    let is_wayland = setting_is(session_type, WAYLAND_SESSION) || wayland_display_set;
    if !is_wayland {
        return false;
    }
    !setting_is(gdk_backend, X11_BACKEND) || !setting_is(compositing_mode, COMPOSITING_DISABLED)
}

} // verus!
