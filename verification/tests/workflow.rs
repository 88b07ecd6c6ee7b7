use condor::commands::CondorCliError;
use condor::workflow::{
    check_config_absent, check_config_present, respond_to_interrupt, run_stages, start_source,
    ConfigSource, InterruptResponse, RunSettings, Stage,
};

fn settings() -> RunSettings {
    RunSettings {
        skip_scene_detection: false,
        noise_detection: false,
        workers_set: true,
        target_quality: false,
        bitrate_threshold_set: false,
        speed_pairs: 0,
    }
}

#[test]
fn minimal_run() {
    assert_eq!(
        run_stages(settings()),
        vec![Stage::SceneDetection, Stage::ParallelEncoding, Stage::Concatenation]
    );
}

#[test]
fn full_run() {
    let s = RunSettings {
        skip_scene_detection: false,
        noise_detection: true,
        workers_set: false,
        target_quality: true,
        bitrate_threshold_set: true,
        speed_pairs: 2,
    };
    assert_eq!(
        run_stages(s),
        vec![
            Stage::SceneDetection,
            Stage::NoiseDetection,
            Stage::NoiseScaling,
            Stage::Benchmark,
            Stage::TargetQuality,
            Stage::BitrateOptimization,
            Stage::SpeedScaling,
            Stage::ParallelEncoding,
            Stage::Concatenation,
        ]
    );
}

#[test]
fn bitrate_threshold_needs_target_quality() {
    let s = RunSettings { skip_scene_detection: true, bitrate_threshold_set: true, speed_pairs: 1, ..settings() };
    assert_eq!(run_stages(s), vec![Stage::ParallelEncoding, Stage::Concatenation]);
}

#[test]
fn start_configuration_source() {
    assert!(matches!(start_source(false, false, true, false, false), Ok(ConfigSource::Load)));
    assert!(matches!(start_source(false, false, false, true, true), Ok(ConfigSource::Create)));
    assert!(matches!(start_source(true, false, false, true, true), Ok(ConfigSource::Create)));
    assert!(matches!(start_source(true, false, false, true, false), Err(CondorCliError::NoConfigOrInputOrOutput)));
    assert!(matches!(start_source(false, false, false, false, true), Err(CondorCliError::NoConfigOrInputOrOutput)));
    assert!(matches!(start_source(true, true, true, false, false), Ok(ConfigSource::Load)));
}

#[test]
fn config_presence_checks() {
    assert!(check_config_present(None, false, true).is_ok());
    assert!(matches!(check_config_present(None, false, false), Err(CondorCliError::NoConfig)));
    assert!(matches!(
        check_config_present(Some("x.json"), false, false),
        Err(CondorCliError::ConfigFileNotFound(ref p)) if p == "x.json"
    ));
    assert!(check_config_present(Some("x.json"), true, true).is_ok());
    assert!(check_config_absent("new.json", false).is_ok());
    assert!(matches!(
        check_config_absent("old.json", true),
        Err(CondorCliError::ConfigFileAlreadyExists(ref p)) if p == "old.json"
    ));
}

#[test]
fn interrupts() {
    assert_eq!(respond_to_interrupt(true, true), InterruptResponse::ForceQuit);
    assert_eq!(respond_to_interrupt(true, false), InterruptResponse::ForceQuit);
    assert_eq!(respond_to_interrupt(false, false), InterruptResponse::Notify);
    assert_eq!(respond_to_interrupt(false, true), InterruptResponse::Continue);
}
