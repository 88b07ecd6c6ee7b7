use std::str::FromStr;

use condor::commands::{
    ConcatenationMethod, CondorCliError, CoreSceneDetectionMethod, DecoderMethod, EncoderBase,
    EncoderMethod, SceneDetectionMethod, ScenecutMethod, TargetQualityMetric,
    TargetQualityProfile, DEFAULT_MAX_SCENE_LENGTH_SECONDS, DEFAULT_MIN_SCENE_LENGTH_FRAMES,
};

#[test]
fn scene_detection_method_mapping() {
    // NoDetection -> CoreSceneDetectionMethod::NoDetection
    let result = SceneDetectionMethod::NoDetection.as_core_method(Some(120), Some(240));
    assert!(matches!(result, CoreSceneDetectionMethod::NoDetection { .. }));
    if let CoreSceneDetectionMethod::NoDetection { minimum_length, maximum_length } = result {
        assert_eq!(minimum_length, 120);
        assert_eq!(maximum_length, 240);
    }

    // Fast -> AVSceneChange with Fast
    let result = SceneDetectionMethod::Fast.as_core_method(Some(60), Some(300));
    assert!(matches!(
        result,
        CoreSceneDetectionMethod::AVSceneChange { method: ScenecutMethod::Fast, .. }
    ));
    if let CoreSceneDetectionMethod::AVSceneChange { minimum_length, maximum_length, .. } = result
    {
        assert_eq!(minimum_length, 60);
        assert_eq!(maximum_length, 300);
    }

    // Standard -> AVSceneChange with Standard
    let result = SceneDetectionMethod::Standard.as_core_method(Some(120), Some(600));
    assert!(matches!(
        result,
        CoreSceneDetectionMethod::AVSceneChange { method: ScenecutMethod::Standard, .. }
    ));
    if let CoreSceneDetectionMethod::AVSceneChange { minimum_length, maximum_length, .. } = result
    {
        assert_eq!(minimum_length, 120);
        assert_eq!(maximum_length, 600);
    }
}

#[test]
fn scene_detection_method_default_lengths() {
    let result = SceneDetectionMethod::NoDetection.as_core_method(None, None);
    assert!(matches!(result, CoreSceneDetectionMethod::NoDetection { .. }));
    if let CoreSceneDetectionMethod::NoDetection { minimum_length, maximum_length } = result {
        assert_eq!(minimum_length, DEFAULT_MIN_SCENE_LENGTH_FRAMES);
        assert_eq!(
            maximum_length,
            DEFAULT_MAX_SCENE_LENGTH_SECONDS * DEFAULT_MIN_SCENE_LENGTH_FRAMES
        );
    }
}

#[test]
fn encoder_method_mapping() {
    assert!(matches!(EncoderMethod::AOM.as_encoder_base(), EncoderBase::AOM));
    assert!(matches!(EncoderMethod::RAV1E.as_encoder_base(), EncoderBase::RAV1E));
    assert!(matches!(EncoderMethod::VPX.as_encoder_base(), EncoderBase::VPX));
    assert!(matches!(EncoderMethod::SVTAV1.as_encoder_base(), EncoderBase::SVTAV1));
    assert!(matches!(EncoderMethod::AVM.as_encoder_base(), EncoderBase::AVM));
    assert!(matches!(EncoderMethod::X264.as_encoder_base(), EncoderBase::X264));
    assert!(matches!(EncoderMethod::X265.as_encoder_base(), EncoderBase::X265));
    assert!(matches!(EncoderMethod::VVenC.as_encoder_base(), EncoderBase::VVenC));
    assert!(matches!(EncoderMethod::FFmpeg.as_encoder_base(), EncoderBase::FFmpeg));
}

#[test]
fn decoder_method_strum_serialization() {
    assert_eq!(<&str>::from(&DecoderMethod::BestSource), "bestsource");
    assert_eq!(<&str>::from(&DecoderMethod::VSFFMS2), "vs-ffms2");
    assert_eq!(<&str>::from(&DecoderMethod::LSMASHWorks), "lsmash");
    assert_eq!(<&str>::from(&DecoderMethod::DGDecodeNV), "dgdecnv");
    assert_eq!(<&str>::from(&DecoderMethod::FFMS2), "ffms2");
}

#[test]
fn decoder_method_from_str() {
    assert!(matches!(DecoderMethod::from_str("bestsource"), Ok(DecoderMethod::BestSource)));
    assert!(matches!(DecoderMethod::from_str("vs-ffms2"), Ok(DecoderMethod::VSFFMS2)));
    assert!(matches!(DecoderMethod::from_str("lsmash"), Ok(DecoderMethod::LSMASHWorks)));
    assert!(matches!(DecoderMethod::from_str("dgdecnv"), Ok(DecoderMethod::DGDecodeNV)));
    assert!(matches!(DecoderMethod::from_str("ffms2"), Ok(DecoderMethod::FFMS2)));
    assert!(matches!(DecoderMethod::from_str("nonexistent"), Err(_)));
}

#[test]
fn concatenation_method_strum_serialization() {
    assert_eq!(<&str>::from(&ConcatenationMethod::MkvMerge), "mkvmerge");
    assert_eq!(<&str>::from(&ConcatenationMethod::FFmpeg), "ffmpeg");
    assert_eq!(<&str>::from(&ConcatenationMethod::Ivf), "ivf");
}

#[test]
fn encoder_method_strum_serialization() {
    assert_eq!(<&str>::from(&EncoderMethod::AOM), "aom");
    assert_eq!(<&str>::from(&EncoderMethod::RAV1E), "rav1e");
    assert_eq!(<&str>::from(&EncoderMethod::VPX), "vpx");
    assert_eq!(<&str>::from(&EncoderMethod::SVTAV1), "svt-av1");
    assert_eq!(<&str>::from(&EncoderMethod::AVM), "avm");
    assert_eq!(<&str>::from(&EncoderMethod::X264), "x264");
    assert_eq!(<&str>::from(&EncoderMethod::X265), "x265");
    assert_eq!(<&str>::from(&EncoderMethod::VVenC), "vvenc");
    assert_eq!(<&str>::from(&EncoderMethod::FFmpeg), "ffmpeg");
}

#[test]
fn target_quality_metric_strum_serialization() {
    assert_eq!(<&str>::from(&TargetQualityMetric::VMAF), "vmaf");
    assert_eq!(<&str>::from(&TargetQualityMetric::SSIMULACRA2), "ssimulacra2");
    assert_eq!(<&str>::from(&TargetQualityMetric::BUTTERAUGLI), "butteraugli");
    assert_eq!(<&str>::from(&TargetQualityMetric::BUTTERAUGLI3Norm), "butteraugli-3");
    assert_eq!(<&str>::from(&TargetQualityMetric::XPSNR), "xpsnr");
    assert_eq!(<&str>::from(&TargetQualityMetric::CVVDP), "cvvdp");
}

#[test]
fn target_quality_profile_strum_serialization() {
    assert_eq!(<&str>::from(&TargetQualityProfile::Fast), "fast");
    assert_eq!(<&str>::from(&TargetQualityProfile::Standard), "standard");
    assert_eq!(<&str>::from(&TargetQualityProfile::Slow), "slow");
}

#[test]
fn scene_detection_method_strum_serialization() {
    assert_eq!(<&str>::from(&SceneDetectionMethod::NoDetection), "none");
    assert_eq!(<&str>::from(&SceneDetectionMethod::Fast), "fast");
    assert_eq!(<&str>::from(&SceneDetectionMethod::Standard), "standard");
}

#[test]
fn names_read_back_to_the_same_option() {
    for m in [
        EncoderMethod::AOM,
        EncoderMethod::RAV1E,
        EncoderMethod::VPX,
        EncoderMethod::SVTAV1,
        EncoderMethod::AVM,
        EncoderMethod::X264,
        EncoderMethod::X265,
        EncoderMethod::VVenC,
        EncoderMethod::FFmpeg,
    ] {
        assert!(matches!(EncoderMethod::from_str(m.as_str()), Ok(n) if n == m));
        assert_eq!(m.to_string(), m.as_str());
    }
    for m in [TargetQualityProfile::Fast, TargetQualityProfile::Standard, TargetQualityProfile::Slow]
    {
        assert!(matches!(TargetQualityProfile::from_str(m.as_str()), Ok(n) if n == m));
    }
    assert!(matches!(
        SceneDetectionMethod::from_str("none"),
        Ok(SceneDetectionMethod::NoDetection)
    ));
    assert!(matches!(ConcatenationMethod::from_str("MKVMERGE"), Err(_)));
    assert!(matches!(TargetQualityMetric::from_str(""), Err(_)));
}

#[test]
fn cli_error_messages() {
    assert_eq!(
        CondorCliError::ConfigFileAlreadyExists("/tmp/condor.json".to_owned()).message(),
        "Cannot initialize over an existing config file: /tmp/condor.json"
    );
    assert_eq!(
        CondorCliError::ConfigFileNotFound("a.json".to_owned()).message(),
        "No config file found at: a.json"
    );
    assert_eq!(
        CondorCliError::ConfigLoadError("b.json".to_owned()).message(),
        "Failed to load config file: b.json"
    );
    assert_eq!(
        CondorCliError::NoConfigOrInput.message(),
        "Cannot start without a config file or without input path"
    );
    assert_eq!(
        CondorCliError::NoConfigOrInputOrOutput.message(),
        "Cannot start without a config file or without input and output paths"
    );
    assert_eq!(
        CondorCliError::DecoderWithoutInput.message(),
        "Cannot set Decoder without a valid Input path"
    );
    assert_eq!(
        CondorCliError::NoConfig.message(),
        "No config file found. Run 'condor init' to create a configuration."
    );
    assert_eq!(
        CondorCliError::NoScenes.message(),
        "No scenes found in the config. Run 'condor detect-scenes' to populate scenes"
    );
    assert_eq!(
        CondorCliError::InvalidVapourSynthScript("in.mkv".to_owned()).message(),
        "Input in.mkv must be a VapourSynth script (.vpy or .py)"
    );
}
