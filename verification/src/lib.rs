//! A generic in-process concurrent state cell: one owned value, mutated only
//! by a single owner task, read and written by any number of callers through
//! a command queue, with the latest value republished to passive observers
//! over a watch channel.

pub mod chan;
pub mod state;
