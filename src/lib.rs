//! A small bridge to serial (USB-CDC style) ports.
//!
//! The verified part of the bridge holds its decisions: which devices the port
//! directory reports and how they are described, and what the background
//! reader does after each read of the transport.

pub mod ports;
pub mod reader;
