//! COSMIC Epoch keeps the keyboard settings of its compositor as one entry
//! of a structured configuration store. Not every build of the caller can
//! reach that store; the session says whether this one can.

use vstd::prelude::*;
use vstd::string::*;
use crate::error::{ErrorKind, KeymapError, KeymapErrorView};
use crate::step::{
    follow,
    next_step,
    plan_new,
    plan_push,
    Effect,
    EffectView,
    Session,
    SessionView,
    Step,
    StepView,
    XkbUpdate,
    XkbUpdateView,
};

verus! {

/// The entry that holds the keyboard settings, with the new values for it.
pub open spec fn cosmic_update(layout: Option<Seq<char>>, variant: Option<Seq<char>>) -> XkbUpdateView {
    XkbUpdateView {
        store: "com.system76.CosmicComp"@,
        version: 1,
        key: "xkb_config"@,
        layout,
        variant,
    }
}

/// The failure of a request to a caller that cannot reach the store.
pub open spec fn cosmic_disabled() -> KeymapErrorView {
    KeymapErrorView {
        kind: ErrorKind::UnsupportedOperation,
        message: "COSMIC epoch support was disabled during build."@,
    }
}

/// The next step of the COSMIC Epoch backend. Where the caller cannot reach
/// the store the request is refused at once. Where it can, the backend has
/// one effect: the entry is read, the layout and the variant that are given
/// are written over its own, and the entry is written back.
pub open spec fn cosmic_epoch_step(
    layout: Option<Seq<char>>,
    variant: Option<Seq<char>>,
    session: SessionView,
) -> StepView {
    if session.cosmic_epoch {
        next_step(
            seq![EffectView::UpdateXkbConfig(cosmic_update(layout, variant))],
            session.outcomes,
        )
    } else {
        StepView::Finished(Err(cosmic_disabled()))
    }
}

/// The failure of a request to a caller that cannot reach the store. A
/// caller that is asked for the update all the same answers with it.
pub fn disabled() -> (error: KeymapError)
    ensures
        error@ == cosmic_disabled(),
{
    KeymapError::new(
        ErrorKind::UnsupportedOperation,
        "COSMIC epoch support was disabled during build.",
    )
}

/// The next step of the COSMIC Epoch backend, as [`cosmic_epoch_step`]
/// defines it.
pub fn set_keymap_cosmic_epoch(
    layout: Option<String>,
    variant: Option<String>,
    session: &Session,
) -> (step: Step)
    ensures
        step@ == cosmic_epoch_step(layout.deep_view(), variant.deep_view(), session@),
{
    if !session.cosmic_epoch {
        return Step::Finished(Err(disabled()));
    }
    let update = XkbUpdate {
        store: String::from_str("com.system76.CosmicComp"),
        version: 1,
        key: String::from_str("xkb_config"),
        layout,
        variant,
    };
    let mut plan = plan_new();
    plan_push(&mut plan, Effect::UpdateXkbConfig(update));
    follow(plan, &session.outcomes)
}

} // verus!
