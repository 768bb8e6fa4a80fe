//! The decisions of an image webhook: which requests are admitted, what a
//! multipart form submission amounts to, and what is logged and answered.
//!
//! Nothing here reads a socket or writes a file. The caller reads the
//! request, hands its parts over as plain values, and carries out what the
//! reply orders.

pub mod form;
pub mod handler;
pub mod log;
pub mod text;
