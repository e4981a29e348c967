//! The decisions of a minimalist screen locker for Wayland.
//!
//! The locker takes the session lock, paints a background and an overlay
//! with a password box on every output, hands the password typed to a
//! worker that asks the credential service, and gives the lock up when the
//! worker grants it.
//!
//! This library holds what the locker decides, and proves it: how the
//! screen is laid out ([`render`], [`image`]), what a key does to the
//! password ([`seat`]), what a ready file descriptor leads to
//! ([`event`]), when a surface renders and which buffer it draws into
//! ([`surface`], [`buffer`]), how a submission and its answer change what
//! is shown ([`state`], [`auth`]), and how the configuration is resolved
//! ([`config`], [`args`], [`util`]). Lengths are fixed-point numbers
//! ([`fixed`]).
//!
//! The library talks to nobody. Its functions change the state that they
//! are given and say in their results what is to be done outside: which
//! operations to carry out on a canvas, which timer to arm, which request
//! to send.

pub mod args;
pub mod auth;
pub mod buffer;
pub mod config;
pub mod event;
pub mod fixed;
pub mod image;
pub mod render;
pub mod seat;
pub mod state;
pub mod surface;
pub mod util;
