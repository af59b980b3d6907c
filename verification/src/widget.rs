//! Markers of the colour-picker widget.

use vstd::prelude::*;

verus! {

/// Sets up the colour-picker widget.
#[derive(Debug, Default)]
pub struct ColorPickerPlugin;

/// Marker for hue wheels.
#[derive(Debug, Default, Clone, Copy)]
pub struct HueWheel;

/// Marker for saturation-value boxes.
#[derive(Debug, Default, Clone, Copy)]
pub struct SaturationValueBox;

} // verus!
