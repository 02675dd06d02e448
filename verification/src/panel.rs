//! The status panel of the left half.

use crate::ticks::duration_from_millis;
use crate::ticks::millis_to_ticks;
use vstd::prelude::*;

verus! {

/// The panel's longer side, in pixels.
pub const PANEL_LONG: u16 = 144;

/// The panel's shorter side, in pixels.
pub const PANEL_SHORT: u16 = 72;

/// Milliseconds between two drawings of the panel, at least: a drawing costs
/// some ten thousand pixel writes, and every key event asks for one.
pub const MIN_RENDER_INTERVAL_MS: u64 = 150;

/// How far the picture is turned on the panel.
#[derive(Clone, Copy, PartialEq, Eq, Structural, Debug)]
pub enum PanelRot {
    /// As the panel is mapped: landscape.
    R0,
    /// By a quarter: portrait.
    R90,
    /// By a half: landscape.
    R180,
    /// By three quarters: portrait.
    R270,
}

/// Width and height of the picture.
pub open spec fn canvas(rotation: PanelRot) -> (u16, u16) {
    match rotation {
        PanelRot::R0 => (PANEL_LONG, PANEL_SHORT),
        PanelRot::R90 => (PANEL_SHORT, PANEL_LONG),
        PanelRot::R180 => (PANEL_LONG, PANEL_SHORT),
        PanelRot::R270 => (PANEL_SHORT, PANEL_LONG),
    }
}

/// How the panel is drawn.
#[derive(Clone, Copy, PartialEq, Eq, Structural, Debug)]
pub struct PanelConfig {
    /// How far the picture is turned.
    pub rotation: PanelRot,
    /// Ticks between two drawings, at least.
    pub min_render_interval_ticks: u64,
}

/// This half's panel, which shows a portrait of 72 by 144 pixels.
pub fn panel_config() -> (config: PanelConfig)
    ensures
        config.rotation == PanelRot::R270,
        canvas(config.rotation) == (72u16, 144u16),
        config.min_render_interval_ticks == millis_to_ticks(MIN_RENDER_INTERVAL_MS as int),
        config.min_render_interval_ticks == 4916,
{
    PanelConfig {
        rotation: PanelRot::R270,
        min_render_interval_ticks: duration_from_millis(MIN_RENDER_INTERVAL_MS),
    }
}

/// The picture is 144 by 72 or, exactly when it is turned by an odd number of
/// quarters, 72 by 144.
pub proof fn law_odd_quarters_are_portrait(rotation: PanelRot)
    ensures
        rotation is R90 || rotation is R270 <==> canvas(rotation) == (72u16, 144u16),
        rotation is R0 || rotation is R180 <==> canvas(rotation) == (144u16, 72u16),
{
}

} // verus!
