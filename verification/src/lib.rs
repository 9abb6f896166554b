//! The input-routing core of a Wayland-style compositor.
//!
//! A [`seat::Seat`] multiplexes pointer, keyboard and touch input across
//! client surfaces. It tracks which surface holds the focus of each
//! capability, keeps the live touch points, hands out serials, and lets a
//! grab intercept the routing of one capability for a while. What the seat
//! sends to clients is collected as [`event::ClientEvent`]s; what it reports
//! to its owner is collected as [`event::SeatSignal`]s, which
//! [`compositor::dispatch`] delivers to a [`handler::SeatHandler`].
//!
//! Every operation is stated against a mathematical model of the seat and
//! proved to follow it.

pub mod capability;
pub mod compositor;
pub mod event;
pub mod grab;
pub mod handler;
pub mod laws;
pub mod request;
pub mod seat;
pub mod time;
pub mod touch;
pub mod tracker;
pub mod types;
