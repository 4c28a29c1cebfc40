//! Sequential pump daemon for a drink dispenser.
//!
//! A fixed set of output lines, one per pump, is driven by a single
//! background worker. Callers enqueue jobs and read snapshots; the worker
//! takes jobs off the queue in submission order and holds the job's line
//! active for the job's duration. Everything in this crate is plain data and
//! verified decisions: the threads, clocks and drivers that carry the
//! decisions out live with the caller.
//!
//! - [`pump_service`]: the service itself, as a state machine with its
//!   invariant; [`laws`]: what holds of it over any run of calls.
//! - [`requests`]: from the text of a request to the job in the queue, and
//!   the messages for requests that are turned down.
//! - [`factory`]: the service that a configuration describes, and the lines
//!   that it asks for; [`mock`]: lines without hardware.
//! - [`resources`] and [`template`]: named strings and their rendering;
//!   [`messages`]: the lines for the log.
//! - [`settings`] and [`settings_service`]: the settings of the front end.
//! - [`text`]: blanks and decimal numbers; [`models`]: the values exchanged.

pub mod factory;
pub mod laws;
pub mod messages;
pub mod mock;
pub mod models;
pub mod pump_service;
pub mod requests;
pub mod resources;
pub mod settings;
pub mod settings_service;
pub mod template;
pub mod text;
