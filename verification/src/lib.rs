//! Driver core for a monochrome (optionally dual-layer) electrophoretic
//! display panel: a pure frame encoder that packs raster pixels into the
//! panel's bit-packed layer format, and a panel-protocol state machine that
//! plans the exact bus writes, control-line transitions and delays of the
//! vendor power-up / frame-transfer / refresh / power-down sequence.
//!
//! The crate itself performs no hardware access: the controller emits scripts
//! of [`protocol::HwAction`] values, and a thin integration layer executes
//! them against the serial bus and the GPIO lines.  The underlying physical
//! device must not be driven by two concurrent sessions; enforcing that
//! mutual exclusion is the integration layer's responsibility.

pub mod busy;
pub mod controller;
pub mod encoder;
pub mod errors;
pub mod frame;
pub mod geometry;
pub mod pixels;
pub mod protocol;
