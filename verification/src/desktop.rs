//! The desktop environments a keymap request can be addressed to.

use vstd::prelude::*;
use vstd::string::*;

verus! {

/// One tag for each desktop environment or compositor that can be named as
/// the target of a keymap request. Only some of them have a backend.
#[derive(Clone, Copy, Debug, PartialEq, Eq, Hash, Structural)]
pub enum DesktopEnvironment {
    Cinnamon,
    Cosmic,
    CosmicEpoch,
    Dde,
    Ede,
    Endless,
    Enlightenment,
    Gnome,
    Hyprland,
    Kde,
    Lxde,
    Lxqt,
    MacOs,
    Mate,
    Old,
    Pantheon,
    Razor,
    Rox,
    Sway,
    Tde,
    Unity,
    Windows,
    Xfce,
}

impl DesktopEnvironment {
    /// The tag's own name, as it is written in diagnostics.
    pub open spec fn spec_name(self) -> Seq<char> {
        match self {
            DesktopEnvironment::Cinnamon => "Cinnamon"@,
            DesktopEnvironment::Cosmic => "Cosmic"@,
            DesktopEnvironment::CosmicEpoch => "CosmicEpoch"@,
            DesktopEnvironment::Dde => "Dde"@,
            DesktopEnvironment::Ede => "Ede"@,
            DesktopEnvironment::Endless => "Endless"@,
            DesktopEnvironment::Enlightenment => "Enlightenment"@,
            DesktopEnvironment::Gnome => "Gnome"@,
            DesktopEnvironment::Hyprland => "Hyprland"@,
            DesktopEnvironment::Kde => "Kde"@,
            DesktopEnvironment::Lxde => "Lxde"@,
            DesktopEnvironment::Lxqt => "Lxqt"@,
            DesktopEnvironment::MacOs => "MacOs"@,
            DesktopEnvironment::Mate => "Mate"@,
            DesktopEnvironment::Old => "Old"@,
            DesktopEnvironment::Pantheon => "Pantheon"@,
            DesktopEnvironment::Razor => "Razor"@,
            DesktopEnvironment::Rox => "Rox"@,
            DesktopEnvironment::Sway => "Sway"@,
            DesktopEnvironment::Tde => "Tde"@,
            DesktopEnvironment::Unity => "Unity"@,
            DesktopEnvironment::Windows => "Windows"@,
            DesktopEnvironment::Xfce => "Xfce"@,
        }
    }

    /// Whether a backend exists for this environment.
    pub open spec fn spec_has_backend(self) -> bool {
        match self {
            DesktopEnvironment::Cinnamon
            | DesktopEnvironment::CosmicEpoch
            | DesktopEnvironment::Gnome
            | DesktopEnvironment::Hyprland
            | DesktopEnvironment::Kde
            | DesktopEnvironment::Sway
            | DesktopEnvironment::Xfce => true,
            _ => false,
        }
    }

    /// The tag's own name, as it is written in diagnostics.
    pub fn name(self) -> (name: &'static str)
        ensures
            name@ == self.spec_name(),
    {
        match self {
            DesktopEnvironment::Cinnamon => "Cinnamon",
            DesktopEnvironment::Cosmic => "Cosmic",
            DesktopEnvironment::CosmicEpoch => "CosmicEpoch",
            DesktopEnvironment::Dde => "Dde",
            DesktopEnvironment::Ede => "Ede",
            DesktopEnvironment::Endless => "Endless",
            DesktopEnvironment::Enlightenment => "Enlightenment",
            DesktopEnvironment::Gnome => "Gnome",
            DesktopEnvironment::Hyprland => "Hyprland",
            DesktopEnvironment::Kde => "Kde",
            DesktopEnvironment::Lxde => "Lxde",
            DesktopEnvironment::Lxqt => "Lxqt",
            DesktopEnvironment::MacOs => "MacOs",
            DesktopEnvironment::Mate => "Mate",
            DesktopEnvironment::Old => "Old",
            DesktopEnvironment::Pantheon => "Pantheon",
            DesktopEnvironment::Razor => "Razor",
            DesktopEnvironment::Rox => "Rox",
            DesktopEnvironment::Sway => "Sway",
            DesktopEnvironment::Tde => "Tde",
            DesktopEnvironment::Unity => "Unity",
            DesktopEnvironment::Windows => "Windows",
            DesktopEnvironment::Xfce => "Xfce",
        }
    }

    /// Whether a backend exists for this environment.
    #[verifier::when_used_as_spec(spec_has_backend)]
    pub fn has_backend(self) -> (b: bool)
        ensures
            b == self.spec_has_backend(),
    {
        match self {
            DesktopEnvironment::Cinnamon
            | DesktopEnvironment::CosmicEpoch
            | DesktopEnvironment::Gnome
            | DesktopEnvironment::Hyprland
            | DesktopEnvironment::Kde
            | DesktopEnvironment::Sway
            | DesktopEnvironment::Xfce => true,
            _ => false,
        }
    }
}

} // verus!
