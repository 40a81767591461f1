//! Sets the keyboard layout and variant of a Wayland session through the
//! desktop environment that runs it, since no single protocol covers all
//! compositors.
//!
//! The library decides and touches nothing. For a desktop environment and a
//! request it says which effect comes next, an [`step::Effect`], or that the
//! request is over. The caller performs the effect, records what came of it
//! in the [`step::Session`], and asks again.

use vstd::prelude::*;

pub mod cinnamon;
pub mod command;
pub mod cosmic;
pub mod desktop;
pub mod error;
pub mod gnome;
pub mod hyprland;
pub mod kde;
pub mod sources;
pub mod step;
pub mod sway;
pub mod text;
pub mod word;
pub mod xfce;

use crate::cinnamon::{cinnamon_unsupported, set_keymap_cinnamon};
use crate::cosmic::{cosmic_epoch_step, set_keymap_cosmic_epoch};
use crate::desktop::DesktopEnvironment;
use crate::error::{unimplemented, KeymapError};
use crate::gnome::{gnome_step, set_keymap_gnome};
use crate::hyprland::{hyprland_plan, set_keymap_hyprland};
use crate::kde::{kde_plan, set_keymap_kde};
use crate::step::{next_step, Session, SessionView, Step, StepView};
use crate::sway::{set_keymap_sway, sway_plan};
use crate::xfce::{set_keymap_xfce, xfce_plan};

verus! {

/// Something a keymap can be set on.
pub trait SetKeymap {
    /// The next step towards the layout `map` and the variant `variant`,
    /// after what the session has recorded.
    spec fn keymap_step(
        &self,
        map: Option<Seq<char>>,
        variant: Option<Seq<char>>,
        session: SessionView,
    ) -> StepView;

    /// Says how the request for the layout `map` and the variant `variant`
    /// goes on after what the session has recorded: with one more effect, or
    /// with its result.
    fn set_keymap(&self, map: Option<String>, variant: Option<String>, session: &Session) -> (step:
        Step)
        ensures
            step@ == self.keymap_step(map.deep_view(), variant.deep_view(), session@),
    ;
}

impl SetKeymap for DesktopEnvironment {
    /// Each desktop environment has its own backend, or none: then the
    /// request ends at once as unimplemented for it.
    open spec fn keymap_step(
        &self,
        map: Option<Seq<char>>,
        variant: Option<Seq<char>>,
        session: SessionView,
    ) -> StepView {
        match self {
            DesktopEnvironment::Cinnamon => StepView::Finished(Err(cinnamon_unsupported())),
            DesktopEnvironment::CosmicEpoch => cosmic_epoch_step(map, variant, session),
            DesktopEnvironment::Gnome => gnome_step(map, variant, session.outcomes),
            DesktopEnvironment::Hyprland => next_step(
                hyprland_plan(map, variant),
                session.outcomes,
            ),
            DesktopEnvironment::Kde => next_step(kde_plan(map, variant), session.outcomes),
            DesktopEnvironment::Sway => next_step(sway_plan(map, variant), session.outcomes),
            DesktopEnvironment::Xfce => next_step(xfce_plan(map, variant), session.outcomes),
            _ => StepView::Finished(Err(unimplemented(*self))),
        }
    }

    fn set_keymap(&self, map: Option<String>, variant: Option<String>, session: &Session) -> (step:
        Step) {
        match self {
            DesktopEnvironment::Cinnamon => set_keymap_cinnamon(map, variant, session),
            DesktopEnvironment::CosmicEpoch => set_keymap_cosmic_epoch(map, variant, session),
            DesktopEnvironment::Gnome => set_keymap_gnome(map, variant, session),
            DesktopEnvironment::Hyprland => set_keymap_hyprland(map, variant, session),
            DesktopEnvironment::Kde => set_keymap_kde(map, variant, session),
            DesktopEnvironment::Sway => set_keymap_sway(map, variant, session),
            DesktopEnvironment::Xfce => set_keymap_xfce(map, variant, session),
            DesktopEnvironment::Cosmic
            | DesktopEnvironment::Dde
            | DesktopEnvironment::Ede
            | DesktopEnvironment::Endless
            | DesktopEnvironment::Enlightenment
            | DesktopEnvironment::Lxde
            | DesktopEnvironment::Lxqt
            | DesktopEnvironment::MacOs
            | DesktopEnvironment::Mate
            | DesktopEnvironment::Old
            | DesktopEnvironment::Pantheon
            | DesktopEnvironment::Razor
            | DesktopEnvironment::Rox
            | DesktopEnvironment::Tde
            | DesktopEnvironment::Unity
            | DesktopEnvironment::Windows => Step::Finished(
                Err(KeymapError::unimplemented(*self)),
            ),
        }
    }
}

/// Every request comes to an end, on every desktop environment. Where the
/// environment has no backend, the request ends at once as unimplemented
/// for that environment, whatever it asks for. Where it has one, the request
/// is over at the latest when three effects have been performed, whatever
/// came of them.
pub proof fn lemma_every_request_ends(
    desktop: DesktopEnvironment,
    map: Option<Seq<char>>,
    variant: Option<Seq<char>>,
    session: SessionView,
)
    ensures
        !desktop.has_backend() ==> desktop.keymap_step(map, variant, session)
            == StepView::Finished(Err(unimplemented(desktop))),
        session.outcomes.len() >= 3 ==> desktop.keymap_step(map, variant, session) is Finished,
{
}

} // verus!
