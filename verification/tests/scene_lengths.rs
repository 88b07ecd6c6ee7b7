use condor::commands::{CoreSceneDetectionMethod, ScenecutMethod};
use condor::scene_lengths::scene_lengths;

#[test]
fn update_keeps_missing_lengths() {
    let previous = CoreSceneDetectionMethod::AVSceneChange {
        method: ScenecutMethod::Standard,
        minimum_length: 24,
        maximum_length: 240,
    };
    assert_eq!(scene_lengths(&previous, None, None), (24, 240));
    assert_eq!(scene_lengths(&previous, Some(60), None), (60, 240));
    assert_eq!(scene_lengths(&previous, None, Some(600)), (24, 600));
    assert_eq!(previous.minimum_length(), 24);
    assert_eq!(previous.maximum_length(), 240);
    let none = CoreSceneDetectionMethod::NoDetection { minimum_length: 1, maximum_length: 2 };
    assert_eq!(scene_lengths(&none, None, Some(9)), (1, 9));
}
