//! Session controller for the OATH (TOTP) credentials of a Solo 2 token:
//! the device handle's lifecycle, the actor that turns user intents into
//! applet commands, the TOTP window clock, secret checking, and the
//! published snapshot of labels and codes.

pub mod actor;
pub mod clock;
pub mod controller;
pub mod error;
pub mod oath;
pub mod render;
pub mod secret;
pub mod snapshot;
pub mod ui;
