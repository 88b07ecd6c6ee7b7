use std::collections::BTreeMap;

use condor::parallel_encoder::{
    completed_scene_count, record_scene_completed, record_scene_progress, SceneProgress,
    SceneProgressInfo,
};

#[test]
fn progress_creates_then_updates_a_scene() {
    let mut active: BTreeMap<u64, SceneProgressInfo> = BTreeMap::new();
    record_scene_progress(&mut active, 3, 1, 2, 40, 240, 100);
    let info = active.get(&3).unwrap();
    assert_eq!((info.scene_index, info.current_pass, info.total_passes), (3, 1, 2));
    assert_eq!((info.frames_processed, info.total_frames, info.started), (40, 240, 100));

    record_scene_progress(&mut active, 3, 2, 2, 10, 999, 500);
    let info = active.get(&3).unwrap();
    assert_eq!((info.current_pass, info.total_passes, info.frames_processed), (2, 2, 10));
    assert_eq!(info.total_frames, 240, "frame total kept from the first report");
    assert_eq!(info.started, 100, "start time kept from the first report");
}

#[test]
fn completion_removes_the_scene() {
    let mut active: BTreeMap<u64, SceneProgressInfo> = BTreeMap::new();
    record_scene_progress(&mut active, 1, 1, 1, 0, 10, 0);
    record_scene_progress(&mut active, 2, 1, 1, 0, 10, 0);
    record_scene_completed(&mut active, 1);
    assert!(!active.contains_key(&1));
    assert!(active.contains_key(&2));
    record_scene_completed(&mut active, 7);
    assert_eq!(active.len(), 1);
}

#[test]
fn counts_scenes_with_known_nonzero_size() {
    assert_eq!(completed_scene_count(&[]), 0);
    assert_eq!(completed_scene_count(&[Some(10), None, Some(0), Some(1)]), 2);
}

#[test]
fn scene_progress_record() {
    let p = SceneProgress::new(9, 1, 2, 30, 60);
    assert_eq!(p.index, 9);
    assert_eq!(
        (p.current_pass(), p.total_passes(), p.current_frame(), p.total_frames()),
        (1, 2, 30, 60)
    );
}
