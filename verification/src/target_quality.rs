//! Bookkeeping of target-quality probing: which probe pass runs, and how far
//! the probe encode and the quality comparison of the current pass are.
use vstd::prelude::*;

verus! {

/// Frame counters of the current probe pass. `current_pass` holds the
/// number of passes last announced.
#[derive(Debug, Clone, Copy, PartialEq, Eq, Structural)]
pub struct ProbeProgress {
    pub current_pass: u8,
    pub frames_encoded: u64,
    pub frames_compared: u64,
    pub total_frames: u64,
}

impl ProbeProgress {
    /// Nothing probed yet.
    pub fn new() -> (r: ProbeProgress)
        ensures
            r == (ProbeProgress {
                current_pass: 0,
                frames_encoded: 0,
                frames_compared: 0,
                total_frames: 0,
            }),
    {
        ProbeProgress { current_pass: 0, frames_encoded: 0, frames_compared: 0, total_frames: 0 }
    }

    /// Records an announcement of `total` probe passes.
    pub fn record_passes(&mut self, total: u8)
        ensures
            *final(self) == (ProbeProgress { current_pass: total, ..*old(self) }),
    {
        self.current_pass = total;
    }

    /// Records encode progress: `completed` of `total` frames encoded; the
    /// comparison of this pass has not started.
    pub fn record_encode(&mut self, completed: u64, total: u64)
        ensures
            *final(self) == (ProbeProgress {
                frames_encoded: completed,
                frames_compared: 0,
                total_frames: total,
                ..*old(self)
            }),
    {
        self.frames_compared = 0;
        self.frames_encoded = completed;
        self.total_frames = total;
    }

    /// Records comparison progress: `completed` of `total` frames compared.
    /// The start of a comparison (`completed` zero) means the encode is done:
    /// all `total` frames count as encoded.
    pub fn record_compare(&mut self, completed: u64, total: u64)
        ensures
            *final(self) == (ProbeProgress {
                frames_encoded: if completed == 0 {
                    total
                } else {
                    old(self).frames_encoded
                },
                frames_compared: completed,
                total_frames: total,
                ..*old(self)
            }),
    {
        if completed == 0 {
            self.frames_encoded = total;
        }
        self.frames_compared = completed;
        self.total_frames = total;
    }
}

/// Which part of a scene probes encode.
#[derive(Debug, Clone, Copy, PartialEq, Eq, Structural)]
pub enum ProbeStrategyChoice {
    /// The given number of frames from the middle of the scene.
    MiddleFrames(u32),
    /// The given percentage of the scene, from its middle.
    MiddlePercentage(u32),
    /// The whole scene.
    Whole,
}

/// How the per-frame scores of a probe are summarised.
#[derive(Debug, Clone, Copy, PartialEq, Eq, Structural)]
pub enum ProbeStatisticChoice {
    Mean,
    RootMeanSquare,
    /// The given percentile of the scores.
    Percentile(u32),
}

/// The probing a target-quality profile chooses. `inverse_metric` tells
/// whether lower scores of the metric mean better quality; the slow profile
/// then judges by the 90th percentile, otherwise by the 10th, so that it
/// always looks at the worst frames.
pub open spec fn profile_probing(profile: crate::commands::TargetQualityProfile, inverse_metric: bool) -> (
    ProbeStrategyChoice,
    ProbeStatisticChoice,
) {
    match profile {
        crate::commands::TargetQualityProfile::Fast => (
            ProbeStrategyChoice::MiddleFrames(11),
            ProbeStatisticChoice::Mean,
        ),
        crate::commands::TargetQualityProfile::Standard => (
            ProbeStrategyChoice::MiddlePercentage(25),
            ProbeStatisticChoice::RootMeanSquare,
        ),
        crate::commands::TargetQualityProfile::Slow => (
            ProbeStrategyChoice::Whole,
            ProbeStatisticChoice::Percentile(if inverse_metric { 90 } else { 10 }),
        ),
    }
}

/// The probing a target-quality profile chooses.
pub fn probing_for(profile: crate::commands::TargetQualityProfile, inverse_metric: bool) -> (r: (
    ProbeStrategyChoice,
    ProbeStatisticChoice,
))
    ensures
        r == profile_probing(profile, inverse_metric),
{
    match profile {
        crate::commands::TargetQualityProfile::Fast => (
            ProbeStrategyChoice::MiddleFrames(11),
            ProbeStatisticChoice::Mean,
        ),
        crate::commands::TargetQualityProfile::Standard => (
            ProbeStrategyChoice::MiddlePercentage(25),
            ProbeStatisticChoice::RootMeanSquare,
        ),
        crate::commands::TargetQualityProfile::Slow => (
            ProbeStrategyChoice::Whole,
            ProbeStatisticChoice::Percentile(if inverse_metric { 90 } else { 10 }),
        ),
    }
}

/// Whether target quality is configured after an update: it stays when it
/// was configured, and starts when a target score is given.
pub fn target_quality_active(configured: bool, target_given: bool) -> (r: bool)
    ensures
        r == (configured || target_given),
{
    configured || target_given
}

/// The quantizer range after an update: a bound that is given replaces the
/// current one.
pub fn quantizer_range(current: (u32, u32), minimum: Option<u8>, maximum: Option<u8>) -> (r: (
    u32,
    u32,
))
    ensures
        r.0 == (match minimum {
            Some(m) => m as u32,
            None => current.0,
        }),
        r.1 == (match maximum {
            Some(m) => m as u32,
            None => current.1,
        }),
{
    let low = match minimum {
        Some(m) => m as u32,
        None => current.0,
    };
    let high = match maximum {
        Some(m) => m as u32,
        None => current.1,
    };
    (low, high)
}

} // verus!
