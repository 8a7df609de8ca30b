//! Key-toggled debug overlays, modelled as the toggle state they carry.
//!
//! The overlays themselves — a world inspector and the physics debug
//! renderer — belong to the engine; what this crate holds is their on/off
//! state and the rule that a press of the bound debug key flips it.

use vstd::prelude::*;

verus! {

/// The switchable world-inspector overlay: off at start, flipped by its
/// debug key.
pub struct SwitchableEguiInspectorPlugin {
    pub enabled: bool,
}

impl SwitchableEguiInspectorPlugin {
    /// The inspector starts hidden.
    pub fn new() -> (p: SwitchableEguiInspectorPlugin)
        ensures
            !p.enabled,
    {
        SwitchableEguiInspectorPlugin { enabled: false }
    }

    /// Flips the inspector exactly when its debug key was just pressed.
    pub fn update(&mut self, key_just_pressed: bool)
        ensures
            final(self).enabled == (old(self).enabled != key_just_pressed),
    {
        if key_just_pressed {
            self.enabled = !self.enabled;
        }
    }
}

/// The switchable physics debug renderer: flipped by its debug key whenever
/// the render context exists.
pub struct SwitchableRapierDebugPlugin {
    pub enabled: bool,
}

impl SwitchableRapierDebugPlugin {
    /// The debug renderer's toggle, starting from the renderer's current
    /// state.
    pub fn new(enabled: bool) -> (p: SwitchableRapierDebugPlugin)
        ensures
            p.enabled == enabled,
    {
        SwitchableRapierDebugPlugin { enabled }
    }

    /// Flips the renderer exactly when its debug key was just pressed and
    /// a render context is present.
    pub fn update(&mut self, context_present: bool, key_just_pressed: bool)
        ensures
            final(self).enabled == (old(self).enabled != (context_present && key_just_pressed)),
    {
        if context_present && key_just_pressed {
            self.enabled = !self.enabled;
        }
    }
}

} // verus!
