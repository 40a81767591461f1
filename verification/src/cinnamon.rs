//! Cinnamon on Wayland cannot switch the keyboard layout yet, so its backend
//! touches nothing and says so.

use vstd::prelude::*;
use vstd::string::*;
use crate::error::{ErrorKind, KeymapError, KeymapErrorView};
use crate::step::{Session, Step, StepView};

verus! {

/// The failure that every request to Cinnamon ends in.
pub open spec fn cinnamon_unsupported() -> KeymapErrorView {
    KeymapErrorView {
        kind: ErrorKind::UnsupportedOperation,
        message: "As of June 2025 cinnamon wayland is still experimental and doesn't yet support switching\n the keyboard layout. You can check if that's still the case by opening the keyboard settings dialog\n and looking for an 'Layout' tab. In case this changed consider opening an issue or submitting a\n patch at https://github.com/derdilla/setwlkbmap."@,
    }
}

/// The next step of the Cinnamon backend: the request is over at once, with
/// [`cinnamon_unsupported`], and no effect is ever asked for.
pub fn set_keymap_cinnamon(
    _layout: Option<String>,
    _variant: Option<String>,
    _session: &Session,
) -> (step: Step)
    ensures
        step@ == StepView::Finished(Err(cinnamon_unsupported())),
{
    Step::Finished(
        Err(
            KeymapError::new(
                ErrorKind::UnsupportedOperation,
                "As of June 2025 cinnamon wayland is still experimental and doesn't yet support switching\n the keyboard layout. You can check if that's still the case by opening the keyboard settings dialog\n and looking for an 'Layout' tab. In case this changed consider opening an issue or submitting a\n patch at https://github.com/derdilla/setwlkbmap.",
            ),
        ),
    )
}

} // verus!
