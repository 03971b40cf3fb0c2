//! Self-update and relaunch for command-line programs.
//!
//! A program that embeds this library can look up the latest published
//! version of itself, ask whether to install it, have the package manager
//! install it, and hand over to the freshly installed binary.
//!
//! The library decides; it does not act. An attempt is an
//! [`orchestrator::Orchestrator`]: it names the next step as an
//! [`orchestrator::Action`], the caller carries the step out and reports the
//! result as an [`orchestrator::Event`], and so on until the attempt returns a
//! result or tells the caller to end the process. [`relaunch_program`] and
//! [`RSpawn`] begin an attempt.
//!
//! - [`orchestrator`]: the protocol as a state machine.
//! - [`laws`]: what holds of every run of the protocol.
//! - [`lock`]: the marker file that keeps a relaunched program from
//!   relaunching again.
//! - [`origin`]: whether the program was started through the search path.
//! - [`registry`], [`json`]: the address to query and the meaning of the reply.
//! - [`confirm`]: the default confirmation policy.
//! - [`install`]: the command lines of the package manager and of the new
//!   instance.
//! - [`outcome`]: results and errors.
//! - [`builder`]: optional settings and their defaults.
//! - [`paths`], [`text`]: helpers.

pub mod builder;
pub mod confirm;
pub mod install;
pub mod json;
pub mod laws;
pub mod lock;
pub mod origin;
pub mod orchestrator;
pub mod outcome;
pub mod paths;
pub mod registry;
pub mod text;

pub use crate::builder::{relaunch_program, RSpawn};
