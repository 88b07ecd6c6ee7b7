use condor::commands::TargetQualityProfile;
use condor::target_quality::{
    probing_for, quantizer_range, target_quality_active, ProbeProgress, ProbeStatisticChoice,
    ProbeStrategyChoice,
};

#[test]
fn encode_then_compare() {
    let mut p = ProbeProgress::new();
    p.record_passes(4);
    p.record_encode(30, 120);
    assert_eq!(p, ProbeProgress { current_pass: 4, frames_encoded: 30, frames_compared: 0, total_frames: 120 });
    p.record_compare(0, 120);
    assert_eq!(p, ProbeProgress { current_pass: 4, frames_encoded: 120, frames_compared: 0, total_frames: 120 });
    p.record_compare(60, 120);
    assert_eq!(p, ProbeProgress { current_pass: 4, frames_encoded: 120, frames_compared: 60, total_frames: 120 });
    p.record_encode(5, 100);
    assert_eq!(p, ProbeProgress { current_pass: 4, frames_encoded: 5, frames_compared: 0, total_frames: 100 });
}

#[test]
fn compare_in_progress_keeps_encode_count() {
    let mut p = ProbeProgress::new();
    p.record_encode(10, 50);
    p.record_compare(20, 50);
    assert_eq!(p.frames_encoded, 10);
    assert_eq!(p.frames_compared, 20);
}

#[test]
fn profiles_choose_probing() {
    assert_eq!(
        probing_for(TargetQualityProfile::Fast, false),
        (ProbeStrategyChoice::MiddleFrames(11), ProbeStatisticChoice::Mean)
    );
    assert_eq!(
        probing_for(TargetQualityProfile::Standard, true),
        (ProbeStrategyChoice::MiddlePercentage(25), ProbeStatisticChoice::RootMeanSquare)
    );
    assert_eq!(
        probing_for(TargetQualityProfile::Slow, false),
        (ProbeStrategyChoice::Whole, ProbeStatisticChoice::Percentile(10))
    );
    assert_eq!(
        probing_for(TargetQualityProfile::Slow, true),
        (ProbeStrategyChoice::Whole, ProbeStatisticChoice::Percentile(90))
    );
}

#[test]
fn quantizer_range_and_activation() {
    assert_eq!(quantizer_range((10, 50), None, None), (10, 50));
    assert_eq!(quantizer_range((10, 50), Some(15), None), (15, 50));
    assert_eq!(quantizer_range((10, 50), Some(0), Some(255)), (0, 255));
    assert!(target_quality_active(true, false));
    assert!(target_quality_active(false, true));
    assert!(!target_quality_active(false, false));
}
