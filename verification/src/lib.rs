//! Telemetry-sampling and vector-graphic rendering core of a desktop
//! system-monitor applet: bounded sample history, rate normalization and
//! unit formatting, a four-slot color palette with a derived render cache,
//! pure SVG generation, and the color-picker edit session.

pub mod buffer;
pub mod colorpicker;
pub mod colors;
pub mod cpu;
pub mod network;
pub mod sensors;
pub mod strfmt;
pub mod svg;
