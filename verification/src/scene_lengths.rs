//! Scene lengths of a scene detection setting, in frames.
use vstd::prelude::*;

use crate::commands::CoreSceneDetectionMethod;

verus! {

impl CoreSceneDetectionMethod {
    /// The minimum scene length of the setting, in frames.
    pub open spec fn min_length(self) -> usize {
        match self {
            CoreSceneDetectionMethod::NoDetection { minimum_length, .. } => minimum_length,
            CoreSceneDetectionMethod::AVSceneChange { minimum_length, .. } => minimum_length,
        }
    }

    /// The maximum scene length of the setting, in frames.
    pub open spec fn max_length(self) -> usize {
        match self {
            CoreSceneDetectionMethod::NoDetection { maximum_length, .. } => maximum_length,
            CoreSceneDetectionMethod::AVSceneChange { maximum_length, .. } => maximum_length,
        }
    }

    /// The minimum scene length of the setting, in frames.
    pub fn minimum_length(&self) -> (r: usize)
        ensures
            r == self.min_length(),
    {
        match self {
            CoreSceneDetectionMethod::NoDetection { minimum_length, .. } => *minimum_length,
            CoreSceneDetectionMethod::AVSceneChange { minimum_length, .. } => *minimum_length,
        }
    }

    /// The maximum scene length of the setting, in frames.
    pub fn maximum_length(&self) -> (r: usize)
        ensures
            r == self.max_length(),
    {
        match self {
            CoreSceneDetectionMethod::NoDetection { maximum_length, .. } => *maximum_length,
            CoreSceneDetectionMethod::AVSceneChange { maximum_length, .. } => *maximum_length,
        }
    }
}

/// The minimum and maximum scene lengths, in frames, after a scene detector
/// update: a length that is given replaces the one of `previous`; a length
/// not given is kept.
pub fn scene_lengths(previous: &CoreSceneDetectionMethod, min_frames: Option<usize>, max_frames: Option<usize>) -> (r: (usize, usize))
    ensures
        r.0 == (match min_frames {
            Some(m) => m,
            None => previous.min_length(),
        }),
        r.1 == (match max_frames {
            Some(m) => m,
            None => previous.max_length(),
        }),
{
    let min = match min_frames {
        Some(m) => m,
        None => previous.minimum_length(),
    };
    let max = match max_frames {
        Some(m) => m,
        None => previous.maximum_length(),
    };
    (min, max)
}

} // verus!
