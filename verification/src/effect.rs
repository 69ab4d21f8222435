//! The units of outside work that a callback can ask its host to perform.

use vstd::prelude::*;

verus! {

/// One request to the host. The host performs it and reports whether it
/// succeeded; an effect that cannot fail is reported as a success.
#[derive(Clone, Debug, PartialEq, Eq)]
pub enum Effect {
    /// Show `text` to the user in an alert.
    Alert { text: String },
    /// Capture the screen in the primary capture mode into directory `dir`.
    CapturePrimary { dir: String },
    /// Build a wake-on-LAN packet for `mac` and send it.
    SendWake { mac: [u8; 6] },
    /// Make the external display the active output.
    SetExternalDisplay,
    /// Turn the night light off.
    DisableNightLight,
    /// Make the internal display the active output.
    SetInternalDisplay,
    /// Empty the system clipboard.
    ClearClipboard,
    /// Terminate the desktop shell process, which the system then restarts.
    KillExplorer,
    /// Ask the foreground window to close.
    CloseTopWindow,
}

/// Mathematical model of an [`Effect`].
pub ghost enum EffectView {
    Alert { text: Seq<char> },
    CapturePrimary { dir: Seq<char> },
    SendWake { mac: Seq<u8> },
    SetExternalDisplay,
    DisableNightLight,
    SetInternalDisplay,
    ClearClipboard,
    KillExplorer,
    CloseTopWindow,
}

impl View for Effect {
    type V = EffectView;

    open spec fn view(&self) -> EffectView {
        match *self {
            Effect::Alert { text } => EffectView::Alert { text: text@ },
            Effect::CapturePrimary { dir } => EffectView::CapturePrimary { dir: dir@ },
            Effect::SendWake { mac } => EffectView::SendWake { mac: mac@ },
            Effect::SetExternalDisplay => EffectView::SetExternalDisplay,
            Effect::DisableNightLight => EffectView::DisableNightLight,
            Effect::SetInternalDisplay => EffectView::SetInternalDisplay,
            Effect::ClearClipboard => EffectView::ClearClipboard,
            Effect::KillExplorer => EffectView::KillExplorer,
            Effect::CloseTopWindow => EffectView::CloseTopWindow,
        }
    }
}

impl DeepView for Effect {
    type V = EffectView;

    open spec fn deep_view(&self) -> EffectView {
        self@
    }
}

impl EffectView {
    /// Whether the effects that follow this one in a callback depend on its
    /// success. Only the wake packet guards what comes after it.
    pub open spec fn guards(self) -> bool {
        self is SendWake
    }
}

impl Effect {
    /// Tells whether a failure of this effect ends the run of its callback.
    pub fn is_guard(&self) -> (guard: bool)
        ensures
            guard == self@.guards(),
    {
        match self {
            Effect::SendWake { .. } => true,
            _ => false,
        }
    }
}

} // verus!
