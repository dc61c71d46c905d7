//! Recording backends: which one to use, and the decisions a recording makes.
pub mod wlr;
pub mod xdg_portal;

use vstd::prelude::*;

use crate::text::str_eq;
use self::wlr::WlrBackend;
use self::xdg_portal::XDGPortalBackend;

verus! {

broadcast use vstd::string::group_string_axioms;

/// Whether an executable of this name is on the `PATH`.
///
/// Trusted: `which::which`, which searches the directories of `PATH` for an
/// executable file of that name. What it finds depends on the environment
/// and the disk, so nothing is stated of the result.
#[verifier::external_body]
pub(crate) fn found_on_path(name: &str) -> bool {
    which::which(name).is_ok()
}

/// Why no backend could be had.
#[derive(Debug)]
pub enum BackendError {
    /// `--backend` named no known backend; holds the name.
    Unknown(String),
    /// Auto-detection found no usable backend.
    NoneAvailable,
}

/// The message shown for each `BackendError`.
pub open spec fn backend_error_message(e: BackendError) -> Seq<char> {
    match e {
        BackendError::Unknown(name) => "unknown backend: "@ + name@,
        BackendError::NoneAvailable => "no recording backend available\n  install either:\n    - xdg-desktop-portal + pipewire + gstreamer (recommended)\n    - wf-recorder (wlroots compositors only)"@,
    }
}

impl BackendError {
    /// The message shown to the user for this error.
    pub fn message(&self) -> (m: String)
        ensures
            m@ == backend_error_message(*self),
    {
        match self {
            BackendError::Unknown(name) => {
                let mut m = String::from_str("unknown backend: ");
                m.append(name.as_str());
                m
            },
            BackendError::NoneAvailable => String::from_str(
                "no recording backend available\n  install either:\n    - xdg-desktop-portal + pipewire + gstreamer (recommended)\n    - wf-recorder (wlroots compositors only)",
            ),
        }
    }
}

/// A recording backend.
#[derive(Debug, Clone, Copy)]
pub enum BackendKind {
    /// The XDG desktop portal backend.
    Portal(XDGPortalBackend),
    /// The wlroots backend.
    Wlr(WlrBackend),
}

/// The name each backend goes by.
pub open spec fn backend_name(b: BackendKind) -> Seq<char> {
    match b {
        BackendKind::Portal(_) => "xdg-desktop-portal"@,
        BackendKind::Wlr(_) => "wlroots"@,
    }
}

impl BackendKind {
    /// Backend name.
    pub fn name(&self) -> (n: &'static str)
        ensures
            n@ == backend_name(*self),
    {
        match self {
            BackendKind::Portal(p) => p.name(),
            BackendKind::Wlr(w) => w.name(),
        }
    }
}

/// The names that `--backend` accepts for the portal backend.
pub open spec fn names_portal(name: Seq<char>) -> bool {
    name == "xdg-desktop-portal"@ || name == "xdg-portal"@ || name == "portal"@
}

/// The names that `--backend` accepts for the wlroots backend.
pub open spec fn names_wlr(name: Seq<char>) -> bool {
    name == "wlr"@ || name == "wlroots"@
}

/// Get a specific backend by name.
pub fn by_name(name: &str) -> (r: Result<BackendKind, BackendError>)
    ensures
        names_portal(name@) ==> r matches Ok(BackendKind::Portal(_)),
        names_wlr(name@) ==> r matches Ok(BackendKind::Wlr(_)),
        !names_portal(name@) && !names_wlr(name@) ==> (r matches Err(BackendError::Unknown(n))
            && n@ == name@),
{
    proof {
        reveal_strlit("xdg-desktop-portal");
        reveal_strlit("xdg-portal");
        reveal_strlit("portal");
        reveal_strlit("wlr");
        reveal_strlit("wlroots");
        if names_wlr(name@) {
            assert(name@[0] == 'w');
            assert(!names_portal(name@));
        }
    }
    if str_eq(name, "xdg-desktop-portal") || str_eq(name, "xdg-portal") || str_eq(name, "portal") {
        Ok(BackendKind::Portal(XDGPortalBackend::new()))
    } else if str_eq(name, "wlr") || str_eq(name, "wlroots") {
        Ok(BackendKind::Wlr(WlrBackend::new()))
    } else {
        Err(BackendError::Unknown(String::from_str(name)))
    }
}

/// The backend that auto-detection picks: the portal when it is available,
/// else wlroots when it is, else none.
pub fn choose_backend(portal_ok: bool, wlr_ok: bool) -> (r: Result<BackendKind, BackendError>)
    ensures
        portal_ok ==> r matches Ok(BackendKind::Portal(_)),
        !portal_ok && wlr_ok ==> r matches Ok(BackendKind::Wlr(_)),
        !portal_ok && !wlr_ok ==> r matches Err(BackendError::NoneAvailable),
{
    if portal_ok {
        Ok(BackendKind::Portal(XDGPortalBackend::new()))
    } else if wlr_ok {
        Ok(BackendKind::Wlr(WlrBackend::new()))
    } else {
        Err(BackendError::NoneAvailable)
    }
}

/// Detect and return the best available backend, preferring the portal:
/// each backend's availability is checked (`plugins_found` tells whether
/// GStreamer has the portal's elements, see `xdg_portal::gstreamer_ready`),
/// and `choose_backend` picks.
pub fn detect(plugins_found: bool) -> (r: Result<BackendKind, BackendError>)
    ensures
        r is Err ==> r matches Err(BackendError::NoneAvailable),
        r matches Ok(BackendKind::Portal(_)) ==> plugins_found,
{
    let portal_ok = XDGPortalBackend::new().is_available(plugins_found).is_ok();
    let wlr_ok = WlrBackend::new().is_available().is_ok();
    choose_backend(portal_ok, wlr_ok)
}

} // verus!
