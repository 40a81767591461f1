//! The failures a keymap request can end in.

use vstd::prelude::*;
use vstd::string::*;
use crate::desktop::DesktopEnvironment;

verus! {

/// What went wrong. None of these is retried: each ends the request.
#[derive(Clone, Copy, Debug, PartialEq, Eq, Structural)]
pub enum ErrorKind {
    /// An external program could not be launched.
    SpawnError,
    /// An external program ran and reported a failure.
    NonZeroExit,
    /// A configuration file or store could not be written.
    ConfigWriteError,
    /// The desktop environment does not offer the operation.
    UnsupportedOperation,
    /// No backend exists for the desktop environment that is named.
    Unimplemented(DesktopEnvironment),
    /// The request lacks something the backend needs.
    InvalidRequest,
}

/// A failure: its kind, and a message for the user.
#[derive(Debug, PartialEq, Eq)]
pub struct KeymapError {
    pub kind: ErrorKind,
    pub message: String,
}

/// The mathematical model of a [`KeymapError`].
pub struct KeymapErrorView {
    pub kind: ErrorKind,
    pub message: Seq<char>,
}

impl View for KeymapError {
    type V = KeymapErrorView;

    open spec fn view(&self) -> KeymapErrorView {
        KeymapErrorView { kind: self.kind, message: self.message@ }
    }
}

impl DeepView for KeymapError {
    type V = KeymapErrorView;

    open spec fn deep_view(&self) -> KeymapErrorView {
        self@
    }
}

/// The failure reported for a desktop environment without a backend.
pub open spec fn unimplemented(desktop: DesktopEnvironment) -> KeymapErrorView {
    KeymapErrorView {
        kind: ErrorKind::Unimplemented(desktop),
        message: "settings keymap unimplemented for "@ + desktop.spec_name(),
    }
}

/// The model of a result: success, or the model of the failure.
pub open spec fn result_view(result: Result<(), KeymapError>) -> Result<(), KeymapErrorView> {
    match result {
        Ok(()) => Ok(()),
        Err(error) => Err(error@),
    }
}

impl Clone for KeymapError {
    fn clone(&self) -> (copy: Self)
        ensures
            copy@ == self@,
    {
        KeymapError { kind: self.kind, message: self.message.clone() }
    }
}

impl KeymapError {
    /// A failure of the given kind with the given message.
    pub fn new(kind: ErrorKind, message: &str) -> (error: KeymapError)
        ensures
            error@ == (KeymapErrorView { kind, message: message@ }),
    {
        KeymapError { kind, message: String::from_str(message) }
    }

    /// The failure reported for a desktop environment without a backend.
    pub fn unimplemented(desktop: DesktopEnvironment) -> (error: KeymapError)
        ensures
            error@ == unimplemented(desktop),
    {
        let message = String::from_str("settings keymap unimplemented for ").concat(desktop.name());
        KeymapError { kind: ErrorKind::Unimplemented(desktop), message }
    }
}

} // verus!
