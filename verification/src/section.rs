//! The kinds of track section and the ways a section can stop a train.

use vstd::prelude::*;

verus! {

/// One unit of track. Its kind fixes what happens to a train that enters it.
#[derive(Clone, Copy, Debug, PartialEq, Eq, Structural)]
pub enum TrackSection {
    /// Lets every train through.
    Straight,
    /// Lets a train through unless it stands at position 0, where it derails.
    Curve,
    /// Stops every train.
    Obstacle,
    /// Stops every train.
    Signal,
}

/// Why a train came to a halt. None of these can be recovered from.
#[derive(Clone, Copy, Debug, PartialEq, Eq, Structural)]
pub enum TrackError {
    /// The train ran into an obstacle.
    Obstacle,
    /// The train was held at a signal.
    Signal,
    /// The train left the rails.
    BrokenRail,
}

/// The result of an operation that a section can stop.
pub type TrackResult<T> = Result<T, TrackError>;

/// The error with which `section` stops a train that enters it at `position`,
/// or `None` where the section lets the train through.
pub open spec fn stop_at(section: TrackSection, position: int) -> Option<TrackError> {
    match section {
        TrackSection::Straight => None,
        TrackSection::Curve => if position == 0 {
            Some(TrackError::BrokenRail)
        } else {
            None
        },
        TrackSection::Obstacle => Some(TrackError::Obstacle),
        TrackSection::Signal => Some(TrackError::Signal),
    }
}

} // verus!
