//! A verified driver for a 7.5 inch HD e-paper panel (880 x 528 pixels, one
//! bit per pixel) driven over a 4-wire control bus.
//!
//! The crate is split in two layers, mirroring the hardware:
//!
//! * [`interface`] is the bus layer: a trait over the byte transport and the
//!   four control pins, whose contracts describe every action as an event of a
//!   ghost trace. [`recorder`] holds an in-memory implementation that records
//!   the trace, so the protocol can be exercised without a panel attached.
//! * [`epd7in5_hd`] is the controller driver: the power-up sequence, the
//!   sleep/wake lifecycle, frame transfer and activation, stated as exact
//!   event traces. [`registers`] models the controller-side registers that
//!   those traces address, and proves the bring-up sequence idempotent.

pub mod color;
pub mod command;
pub mod epd7in5_hd;
pub mod interface;
pub mod recorder;
pub mod registers;
