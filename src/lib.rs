//! Host side of a scripted particle simulator.
//!
//! The host owns the grid, the parameter text, the texture ramps and the frame
//! configuration; a guest script module owns the simulation rule. Every call
//! into the guest is described here as a [`lua_sim::GuestCall`] that the
//! surrounding program performs, and every answer comes back as a
//! [`lua_sim::Reply`]. The decisions in between are verified.

pub mod event;
pub mod grid;
pub mod error;
pub mod app;
pub mod lua_sim;
pub mod reconcile;
pub mod handler;
pub mod scheduler;
pub mod ui;
