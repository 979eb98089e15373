//! A thin, verified command-recording core for a Vulkan-style graphics queue.
//!
//! The library records GPU operations as data instead of issuing them
//! immediately: a [`recorder::Recorder`] accumulates a sequence of
//! [`command::Command`]s and [`command::Barrier`]s, a [`pool::Pool`] recycles a
//! fixed set of native command buffers, and a [`queue::Queue`] mediates
//! acquisition and submission.  Submission turns the accumulated state into an
//! ordered replay plan; the native recording and submission calls themselves
//! are performed by unverified glue outside this crate, which hands native
//! handles in as plain integers.

pub mod adapter;
pub mod command;
pub mod error;
pub mod pool;
pub mod properties;
pub mod queue;
pub mod recorder;
pub mod state;
