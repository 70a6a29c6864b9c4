//! A single train on a line of track sections.
//!
//! A track is a sequence of sections. Each section either lets the train
//! through, moving it by its speed, or stops it for good. The train starts at
//! position 0 with speed 1 and takes the sections in order until one stops it
//! or the track ends.
//!
//! Positions lie on a line that runs from 0 to `usize::MAX`. A speed may be
//! negative and then moves the train backwards. A train cannot leave the
//! line: a move that would carry it past an end of the line stops at that end.

pub mod message;
pub mod mover;
pub mod runner;
pub mod section;
pub mod train;

pub use message::outcome_message;
pub use mover::move_train;
pub use runner::run_train_on_track;
pub use section::{TrackError, TrackResult, TrackSection};
pub use train::TrainState;
