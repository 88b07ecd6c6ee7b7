//! The option vocabularies of the command line: scene detection, decoding,
//! encoding, concatenation and Target Quality settings, with their
//! command-line names and the settings of the encoding framework they select.
use vstd::prelude::*;

use crate::text::str_equal;

verus! {

/// A command-line name that names no option of the expected kind.
#[derive(Debug, Clone, Copy, PartialEq, Eq, Structural)]
pub struct UnknownVariant;

/// Scene detection strategy.
#[derive(Debug, Clone, Copy, PartialEq, Eq, Structural)]
pub enum SceneDetectionMethod {
    /// No scene detection, chunks scenes by maximum length
    NoDetection,
    /// Fast scene detection, uses av-scenechange with the fast algorithm
    Fast,
    /// Standard scene detection, uses av-scenechange with the standard algorithm
    Standard,
}

impl SceneDetectionMethod {
    /// The name under which the option is written on the command line.
    pub open spec fn name(self) -> Seq<char> {
        match self {
            SceneDetectionMethod::NoDetection => "none"@,
            SceneDetectionMethod::Fast => "fast"@,
            SceneDetectionMethod::Standard => "standard"@,
        }
    }

    /// The option written under `text`, if any.
    pub open spec fn from_name(text: Seq<char>) -> Option<SceneDetectionMethod> {
        if text == "none"@ {
            Some(SceneDetectionMethod::NoDetection)
        } else if text == "fast"@ {
            Some(SceneDetectionMethod::Fast)
        } else if text == "standard"@ {
            Some(SceneDetectionMethod::Standard)
        } else {
            None
        }
    }

    /// The command-line name of the option.
    pub fn as_str(&self) -> (r: &'static str)
        ensures
            r@ == self.name(),
    {
        match self {
            SceneDetectionMethod::NoDetection => "none",
            SceneDetectionMethod::Fast => "fast",
            SceneDetectionMethod::Standard => "standard",
        }
    }

    /// The command-line name of the option, as an owned string.
    pub fn to_string(&self) -> (r: String)
        ensures
            r@ == self.name(),
    {
        self.as_str().to_owned()
    }

    /// Reads an option from its command-line name.
    pub fn from_str(text: &str) -> (r: Result<SceneDetectionMethod, UnknownVariant>)
        ensures
            r matches Ok(m) ==> SceneDetectionMethod::from_name(text@) == Some(m),
            r is Err <==> SceneDetectionMethod::from_name(text@) is None,
    {
        if str_equal(text, "none") {
            return Ok(SceneDetectionMethod::NoDetection);
        }
        if str_equal(text, "fast") {
            return Ok(SceneDetectionMethod::Fast);
        }
        if str_equal(text, "standard") {
            return Ok(SceneDetectionMethod::Standard);
        }
        Err(UnknownVariant)
    }
}

impl<'a> From<&'a SceneDetectionMethod> for &'static str {
    fn from(method: &'a SceneDetectionMethod) -> (r: &'static str) {
        match method {
            SceneDetectionMethod::NoDetection => "none",
            SceneDetectionMethod::Fast => "fast",
            SceneDetectionMethod::Standard => "standard",
        }
    }
}

impl<'a> vstd::std_specs::convert::FromSpecImpl<&'a SceneDetectionMethod> for &'static str {
    open spec fn obeys_from_spec() -> bool {
        true
    }

    open spec fn from_spec(method: &'a SceneDetectionMethod) -> &'static str {
        match *method {
            SceneDetectionMethod::NoDetection => "none",
            SceneDetectionMethod::Fast => "fast",
            SceneDetectionMethod::Standard => "standard",
        }
    }
}

impl core::str::FromStr for SceneDetectionMethod {
    type Err = UnknownVariant;

    fn from_str(text: &str) -> (r: Result<Self, Self::Err>)
        ensures
            r matches Ok(m) ==> SceneDetectionMethod::from_name(text@) == Some(m),
            r is Err <==> SceneDetectionMethod::from_name(text@) is None,
    {
        SceneDetectionMethod::from_str(text)
    }
}

/// Input decoder.
#[derive(Debug, Clone, Copy, PartialEq, Eq, Structural)]
pub enum DecoderMethod {
    /// BestSource VapourSynth plugin
    BestSource,
    /// FFmpegSource VapourSynth plugin
    VSFFMS2,
    /// LSMASH VapourSynth plugin
    LSMASHWorks,
    /// DGDecodeNV VapourSynth plugin
    DGDecodeNV,
    /// FFmpegSource (integrated)
    FFMS2,
}

impl DecoderMethod {
    /// The name under which the option is written on the command line.
    pub open spec fn name(self) -> Seq<char> {
        match self {
            DecoderMethod::BestSource => "bestsource"@,
            DecoderMethod::VSFFMS2 => "vs-ffms2"@,
            DecoderMethod::LSMASHWorks => "lsmash"@,
            DecoderMethod::DGDecodeNV => "dgdecnv"@,
            DecoderMethod::FFMS2 => "ffms2"@,
        }
    }

    /// The option written under `text`, if any.
    pub open spec fn from_name(text: Seq<char>) -> Option<DecoderMethod> {
        if text == "bestsource"@ {
            Some(DecoderMethod::BestSource)
        } else if text == "vs-ffms2"@ {
            Some(DecoderMethod::VSFFMS2)
        } else if text == "lsmash"@ {
            Some(DecoderMethod::LSMASHWorks)
        } else if text == "dgdecnv"@ {
            Some(DecoderMethod::DGDecodeNV)
        } else if text == "ffms2"@ {
            Some(DecoderMethod::FFMS2)
        } else {
            None
        }
    }

    /// The command-line name of the option.
    pub fn as_str(&self) -> (r: &'static str)
        ensures
            r@ == self.name(),
    {
        match self {
            DecoderMethod::BestSource => "bestsource",
            DecoderMethod::VSFFMS2 => "vs-ffms2",
            DecoderMethod::LSMASHWorks => "lsmash",
            DecoderMethod::DGDecodeNV => "dgdecnv",
            DecoderMethod::FFMS2 => "ffms2",
        }
    }

    /// The command-line name of the option, as an owned string.
    pub fn to_string(&self) -> (r: String)
        ensures
            r@ == self.name(),
    {
        self.as_str().to_owned()
    }

    /// Reads an option from its command-line name.
    pub fn from_str(text: &str) -> (r: Result<DecoderMethod, UnknownVariant>)
        ensures
            r matches Ok(m) ==> DecoderMethod::from_name(text@) == Some(m),
            r is Err <==> DecoderMethod::from_name(text@) is None,
    {
        if str_equal(text, "bestsource") {
            return Ok(DecoderMethod::BestSource);
        }
        if str_equal(text, "vs-ffms2") {
            return Ok(DecoderMethod::VSFFMS2);
        }
        if str_equal(text, "lsmash") {
            return Ok(DecoderMethod::LSMASHWorks);
        }
        if str_equal(text, "dgdecnv") {
            return Ok(DecoderMethod::DGDecodeNV);
        }
        if str_equal(text, "ffms2") {
            return Ok(DecoderMethod::FFMS2);
        }
        Err(UnknownVariant)
    }
}

impl<'a> From<&'a DecoderMethod> for &'static str {
    fn from(method: &'a DecoderMethod) -> (r: &'static str) {
        match method {
            DecoderMethod::BestSource => "bestsource",
            DecoderMethod::VSFFMS2 => "vs-ffms2",
            DecoderMethod::LSMASHWorks => "lsmash",
            DecoderMethod::DGDecodeNV => "dgdecnv",
            DecoderMethod::FFMS2 => "ffms2",
        }
    }
}

impl<'a> vstd::std_specs::convert::FromSpecImpl<&'a DecoderMethod> for &'static str {
    open spec fn obeys_from_spec() -> bool {
        true
    }

    open spec fn from_spec(method: &'a DecoderMethod) -> &'static str {
        match *method {
            DecoderMethod::BestSource => "bestsource",
            DecoderMethod::VSFFMS2 => "vs-ffms2",
            DecoderMethod::LSMASHWorks => "lsmash",
            DecoderMethod::DGDecodeNV => "dgdecnv",
            DecoderMethod::FFMS2 => "ffms2",
        }
    }
}

impl core::str::FromStr for DecoderMethod {
    type Err = UnknownVariant;

    fn from_str(text: &str) -> (r: Result<Self, Self::Err>)
        ensures
            r matches Ok(m) ==> DecoderMethod::from_name(text@) == Some(m),
            r is Err <==> DecoderMethod::from_name(text@) is None,
    {
        DecoderMethod::from_str(text)
    }
}

/// Video encoder.
#[derive(Debug, Clone, Copy, PartialEq, Eq, Structural)]
pub enum EncoderMethod {
    /// Alliance for Open Media AV1 encoder
    AOM,
    /// Rust AV1 encoder
    RAV1E,
    /// Alliance for Open Media VP8/VP9
    VPX,
    /// Scalable Video Technology for AV1
    SVTAV1,
    /// Alliance for Open Media Video Model
    AVM,
    /// VideoLAN x264
    X264,
    /// MulticoreWare x265
    X265,
    /// Fraunhofer Versatile Video Encoder
    VVenC,
    /// FFmpeg
    FFmpeg,
}

impl EncoderMethod {
    /// The name under which the option is written on the command line.
    pub open spec fn name(self) -> Seq<char> {
        match self {
            EncoderMethod::AOM => "aom"@,
            EncoderMethod::RAV1E => "rav1e"@,
            EncoderMethod::VPX => "vpx"@,
            EncoderMethod::SVTAV1 => "svt-av1"@,
            EncoderMethod::AVM => "avm"@,
            EncoderMethod::X264 => "x264"@,
            EncoderMethod::X265 => "x265"@,
            EncoderMethod::VVenC => "vvenc"@,
            EncoderMethod::FFmpeg => "ffmpeg"@,
        }
    }

    /// The option written under `text`, if any.
    pub open spec fn from_name(text: Seq<char>) -> Option<EncoderMethod> {
        if text == "aom"@ {
            Some(EncoderMethod::AOM)
        } else if text == "rav1e"@ {
            Some(EncoderMethod::RAV1E)
        } else if text == "vpx"@ {
            Some(EncoderMethod::VPX)
        } else if text == "svt-av1"@ {
            Some(EncoderMethod::SVTAV1)
        } else if text == "avm"@ {
            Some(EncoderMethod::AVM)
        } else if text == "x264"@ {
            Some(EncoderMethod::X264)
        } else if text == "x265"@ {
            Some(EncoderMethod::X265)
        } else if text == "vvenc"@ {
            Some(EncoderMethod::VVenC)
        } else if text == "ffmpeg"@ {
            Some(EncoderMethod::FFmpeg)
        } else {
            None
        }
    }

    /// The command-line name of the option.
    pub fn as_str(&self) -> (r: &'static str)
        ensures
            r@ == self.name(),
    {
        match self {
            EncoderMethod::AOM => "aom",
            EncoderMethod::RAV1E => "rav1e",
            EncoderMethod::VPX => "vpx",
            EncoderMethod::SVTAV1 => "svt-av1",
            EncoderMethod::AVM => "avm",
            EncoderMethod::X264 => "x264",
            EncoderMethod::X265 => "x265",
            EncoderMethod::VVenC => "vvenc",
            EncoderMethod::FFmpeg => "ffmpeg",
        }
    }

    /// The command-line name of the option, as an owned string.
    pub fn to_string(&self) -> (r: String)
        ensures
            r@ == self.name(),
    {
        self.as_str().to_owned()
    }

    /// Reads an option from its command-line name.
    pub fn from_str(text: &str) -> (r: Result<EncoderMethod, UnknownVariant>)
        ensures
            r matches Ok(m) ==> EncoderMethod::from_name(text@) == Some(m),
            r is Err <==> EncoderMethod::from_name(text@) is None,
    {
        if str_equal(text, "aom") {
            return Ok(EncoderMethod::AOM);
        }
        if str_equal(text, "rav1e") {
            return Ok(EncoderMethod::RAV1E);
        }
        if str_equal(text, "vpx") {
            return Ok(EncoderMethod::VPX);
        }
        if str_equal(text, "svt-av1") {
            return Ok(EncoderMethod::SVTAV1);
        }
        if str_equal(text, "avm") {
            return Ok(EncoderMethod::AVM);
        }
        if str_equal(text, "x264") {
            return Ok(EncoderMethod::X264);
        }
        if str_equal(text, "x265") {
            return Ok(EncoderMethod::X265);
        }
        if str_equal(text, "vvenc") {
            return Ok(EncoderMethod::VVenC);
        }
        if str_equal(text, "ffmpeg") {
            return Ok(EncoderMethod::FFmpeg);
        }
        Err(UnknownVariant)
    }
}

impl<'a> From<&'a EncoderMethod> for &'static str {
    fn from(method: &'a EncoderMethod) -> (r: &'static str) {
        match method {
            EncoderMethod::AOM => "aom",
            EncoderMethod::RAV1E => "rav1e",
            EncoderMethod::VPX => "vpx",
            EncoderMethod::SVTAV1 => "svt-av1",
            EncoderMethod::AVM => "avm",
            EncoderMethod::X264 => "x264",
            EncoderMethod::X265 => "x265",
            EncoderMethod::VVenC => "vvenc",
            EncoderMethod::FFmpeg => "ffmpeg",
        }
    }
}

impl<'a> vstd::std_specs::convert::FromSpecImpl<&'a EncoderMethod> for &'static str {
    open spec fn obeys_from_spec() -> bool {
        true
    }

    open spec fn from_spec(method: &'a EncoderMethod) -> &'static str {
        match *method {
            EncoderMethod::AOM => "aom",
            EncoderMethod::RAV1E => "rav1e",
            EncoderMethod::VPX => "vpx",
            EncoderMethod::SVTAV1 => "svt-av1",
            EncoderMethod::AVM => "avm",
            EncoderMethod::X264 => "x264",
            EncoderMethod::X265 => "x265",
            EncoderMethod::VVenC => "vvenc",
            EncoderMethod::FFmpeg => "ffmpeg",
        }
    }
}

impl core::str::FromStr for EncoderMethod {
    type Err = UnknownVariant;

    fn from_str(text: &str) -> (r: Result<Self, Self::Err>)
        ensures
            r matches Ok(m) ==> EncoderMethod::from_name(text@) == Some(m),
            r is Err <==> EncoderMethod::from_name(text@) is None,
    {
        EncoderMethod::from_str(text)
    }
}

/// Method that joins the encoded scenes.
#[derive(Debug, Clone, Copy, PartialEq, Eq, Structural)]
pub enum ConcatenationMethod {
    /// MKVToolNix mkvmerge; produces Matroska (.mkv) files
    MkvMerge,
    /// FFmpeg command line tool
    FFmpeg,
    /// Indeo Video Format (.ivf); video only
    Ivf,
}

impl ConcatenationMethod {
    /// The name under which the option is written on the command line.
    pub open spec fn name(self) -> Seq<char> {
        match self {
            ConcatenationMethod::MkvMerge => "mkvmerge"@,
            ConcatenationMethod::FFmpeg => "ffmpeg"@,
            ConcatenationMethod::Ivf => "ivf"@,
        }
    }

    /// The option written under `text`, if any.
    pub open spec fn from_name(text: Seq<char>) -> Option<ConcatenationMethod> {
        if text == "mkvmerge"@ {
            Some(ConcatenationMethod::MkvMerge)
        } else if text == "ffmpeg"@ {
            Some(ConcatenationMethod::FFmpeg)
        } else if text == "ivf"@ {
            Some(ConcatenationMethod::Ivf)
        } else {
            None
        }
    }

    /// The command-line name of the option.
    pub fn as_str(&self) -> (r: &'static str)
        ensures
            r@ == self.name(),
    {
        match self {
            ConcatenationMethod::MkvMerge => "mkvmerge",
            ConcatenationMethod::FFmpeg => "ffmpeg",
            ConcatenationMethod::Ivf => "ivf",
        }
    }

    /// The command-line name of the option, as an owned string.
    pub fn to_string(&self) -> (r: String)
        ensures
            r@ == self.name(),
    {
        self.as_str().to_owned()
    }

    /// Reads an option from its command-line name.
    pub fn from_str(text: &str) -> (r: Result<ConcatenationMethod, UnknownVariant>)
        ensures
            r matches Ok(m) ==> ConcatenationMethod::from_name(text@) == Some(m),
            r is Err <==> ConcatenationMethod::from_name(text@) is None,
    {
        if str_equal(text, "mkvmerge") {
            return Ok(ConcatenationMethod::MkvMerge);
        }
        if str_equal(text, "ffmpeg") {
            return Ok(ConcatenationMethod::FFmpeg);
        }
        if str_equal(text, "ivf") {
            return Ok(ConcatenationMethod::Ivf);
        }
        Err(UnknownVariant)
    }
}

impl<'a> From<&'a ConcatenationMethod> for &'static str {
    fn from(method: &'a ConcatenationMethod) -> (r: &'static str) {
        match method {
            ConcatenationMethod::MkvMerge => "mkvmerge",
            ConcatenationMethod::FFmpeg => "ffmpeg",
            ConcatenationMethod::Ivf => "ivf",
        }
    }
}

impl<'a> vstd::std_specs::convert::FromSpecImpl<&'a ConcatenationMethod> for &'static str {
    open spec fn obeys_from_spec() -> bool {
        true
    }

    open spec fn from_spec(method: &'a ConcatenationMethod) -> &'static str {
        match *method {
            ConcatenationMethod::MkvMerge => "mkvmerge",
            ConcatenationMethod::FFmpeg => "ffmpeg",
            ConcatenationMethod::Ivf => "ivf",
        }
    }
}

impl core::str::FromStr for ConcatenationMethod {
    type Err = UnknownVariant;

    fn from_str(text: &str) -> (r: Result<Self, Self::Err>)
        ensures
            r matches Ok(m) ==> ConcatenationMethod::from_name(text@) == Some(m),
            r is Err <==> ConcatenationMethod::from_name(text@) is None,
    {
        ConcatenationMethod::from_str(text)
    }
}

/// Quality metric that Target Quality aims at.
#[derive(Debug, Clone, Copy, PartialEq, Eq, Structural)]
pub enum TargetQualityMetric {
    /// Video Multi-Method Assessment Fusion
    VMAF,
    /// SSIMULACRA 2
    SSIMULACRA2,
    /// butteraugli Infinite-Norm
    BUTTERAUGLI,
    /// butteraugli 3-Norm
    BUTTERAUGLI3Norm,
    /// Extended Perceptually Weighted Peak Signal-to-Noise Ratio
    XPSNR,
    /// ColorVideoVDP
    CVVDP,
}

impl TargetQualityMetric {
    /// The name under which the option is written on the command line.
    pub open spec fn name(self) -> Seq<char> {
        match self {
            TargetQualityMetric::VMAF => "vmaf"@,
            TargetQualityMetric::SSIMULACRA2 => "ssimulacra2"@,
            TargetQualityMetric::BUTTERAUGLI => "butteraugli"@,
            TargetQualityMetric::BUTTERAUGLI3Norm => "butteraugli-3"@,
            TargetQualityMetric::XPSNR => "xpsnr"@,
            TargetQualityMetric::CVVDP => "cvvdp"@,
        }
    }

    /// The option written under `text`, if any.
    pub open spec fn from_name(text: Seq<char>) -> Option<TargetQualityMetric> {
        if text == "vmaf"@ {
            Some(TargetQualityMetric::VMAF)
        } else if text == "ssimulacra2"@ {
            Some(TargetQualityMetric::SSIMULACRA2)
        } else if text == "butteraugli"@ {
            Some(TargetQualityMetric::BUTTERAUGLI)
        } else if text == "butteraugli-3"@ {
            Some(TargetQualityMetric::BUTTERAUGLI3Norm)
        } else if text == "xpsnr"@ {
            Some(TargetQualityMetric::XPSNR)
        } else if text == "cvvdp"@ {
            Some(TargetQualityMetric::CVVDP)
        } else {
            None
        }
    }

    /// The command-line name of the option.
    pub fn as_str(&self) -> (r: &'static str)
        ensures
            r@ == self.name(),
    {
        match self {
            TargetQualityMetric::VMAF => "vmaf",
            TargetQualityMetric::SSIMULACRA2 => "ssimulacra2",
            TargetQualityMetric::BUTTERAUGLI => "butteraugli",
            TargetQualityMetric::BUTTERAUGLI3Norm => "butteraugli-3",
            TargetQualityMetric::XPSNR => "xpsnr",
            TargetQualityMetric::CVVDP => "cvvdp",
        }
    }

    /// The command-line name of the option, as an owned string.
    pub fn to_string(&self) -> (r: String)
        ensures
            r@ == self.name(),
    {
        self.as_str().to_owned()
    }

    /// Reads an option from its command-line name.
    pub fn from_str(text: &str) -> (r: Result<TargetQualityMetric, UnknownVariant>)
        ensures
            r matches Ok(m) ==> TargetQualityMetric::from_name(text@) == Some(m),
            r is Err <==> TargetQualityMetric::from_name(text@) is None,
    {
        if str_equal(text, "vmaf") {
            return Ok(TargetQualityMetric::VMAF);
        }
        if str_equal(text, "ssimulacra2") {
            return Ok(TargetQualityMetric::SSIMULACRA2);
        }
        if str_equal(text, "butteraugli") {
            return Ok(TargetQualityMetric::BUTTERAUGLI);
        }
        if str_equal(text, "butteraugli-3") {
            return Ok(TargetQualityMetric::BUTTERAUGLI3Norm);
        }
        if str_equal(text, "xpsnr") {
            return Ok(TargetQualityMetric::XPSNR);
        }
        if str_equal(text, "cvvdp") {
            return Ok(TargetQualityMetric::CVVDP);
        }
        Err(UnknownVariant)
    }
}

impl<'a> From<&'a TargetQualityMetric> for &'static str {
    fn from(method: &'a TargetQualityMetric) -> (r: &'static str) {
        match method {
            TargetQualityMetric::VMAF => "vmaf",
            TargetQualityMetric::SSIMULACRA2 => "ssimulacra2",
            TargetQualityMetric::BUTTERAUGLI => "butteraugli",
            TargetQualityMetric::BUTTERAUGLI3Norm => "butteraugli-3",
            TargetQualityMetric::XPSNR => "xpsnr",
            TargetQualityMetric::CVVDP => "cvvdp",
        }
    }
}

impl<'a> vstd::std_specs::convert::FromSpecImpl<&'a TargetQualityMetric> for &'static str {
    open spec fn obeys_from_spec() -> bool {
        true
    }

    open spec fn from_spec(method: &'a TargetQualityMetric) -> &'static str {
        match *method {
            TargetQualityMetric::VMAF => "vmaf",
            TargetQualityMetric::SSIMULACRA2 => "ssimulacra2",
            TargetQualityMetric::BUTTERAUGLI => "butteraugli",
            TargetQualityMetric::BUTTERAUGLI3Norm => "butteraugli-3",
            TargetQualityMetric::XPSNR => "xpsnr",
            TargetQualityMetric::CVVDP => "cvvdp",
        }
    }
}

impl core::str::FromStr for TargetQualityMetric {
    type Err = UnknownVariant;

    fn from_str(text: &str) -> (r: Result<Self, Self::Err>)
        ensures
            r matches Ok(m) ==> TargetQualityMetric::from_name(text@) == Some(m),
            r is Err <==> TargetQualityMetric::from_name(text@) is None,
    {
        TargetQualityMetric::from_str(text)
    }
}

/// Speed/accuracy profile of Target Quality probing.
#[derive(Debug, Clone, Copy, PartialEq, Eq, Structural)]
pub enum TargetQualityProfile {
    /// Measures the average of the middle 11 frames
    Fast,
    /// Measures the root-mean-square of the middle 25% of frames
    Standard,
    /// Measures the 10th percentile of all frames
    Slow,
}

impl TargetQualityProfile {
    /// The name under which the option is written on the command line.
    pub open spec fn name(self) -> Seq<char> {
        match self {
            TargetQualityProfile::Fast => "fast"@,
            TargetQualityProfile::Standard => "standard"@,
            TargetQualityProfile::Slow => "slow"@,
        }
    }

    /// The option written under `text`, if any.
    pub open spec fn from_name(text: Seq<char>) -> Option<TargetQualityProfile> {
        if text == "fast"@ {
            Some(TargetQualityProfile::Fast)
        } else if text == "standard"@ {
            Some(TargetQualityProfile::Standard)
        } else if text == "slow"@ {
            Some(TargetQualityProfile::Slow)
        } else {
            None
        }
    }

    /// The command-line name of the option.
    pub fn as_str(&self) -> (r: &'static str)
        ensures
            r@ == self.name(),
    {
        match self {
            TargetQualityProfile::Fast => "fast",
            TargetQualityProfile::Standard => "standard",
            TargetQualityProfile::Slow => "slow",
        }
    }

    /// The command-line name of the option, as an owned string.
    pub fn to_string(&self) -> (r: String)
        ensures
            r@ == self.name(),
    {
        self.as_str().to_owned()
    }

    /// Reads an option from its command-line name.
    pub fn from_str(text: &str) -> (r: Result<TargetQualityProfile, UnknownVariant>)
        ensures
            r matches Ok(m) ==> TargetQualityProfile::from_name(text@) == Some(m),
            r is Err <==> TargetQualityProfile::from_name(text@) is None,
    {
        if str_equal(text, "fast") {
            return Ok(TargetQualityProfile::Fast);
        }
        if str_equal(text, "standard") {
            return Ok(TargetQualityProfile::Standard);
        }
        if str_equal(text, "slow") {
            return Ok(TargetQualityProfile::Slow);
        }
        Err(UnknownVariant)
    }
}

impl<'a> From<&'a TargetQualityProfile> for &'static str {
    fn from(method: &'a TargetQualityProfile) -> (r: &'static str) {
        match method {
            TargetQualityProfile::Fast => "fast",
            TargetQualityProfile::Standard => "standard",
            TargetQualityProfile::Slow => "slow",
        }
    }
}

impl<'a> vstd::std_specs::convert::FromSpecImpl<&'a TargetQualityProfile> for &'static str {
    open spec fn obeys_from_spec() -> bool {
        true
    }

    open spec fn from_spec(method: &'a TargetQualityProfile) -> &'static str {
        match *method {
            TargetQualityProfile::Fast => "fast",
            TargetQualityProfile::Standard => "standard",
            TargetQualityProfile::Slow => "slow",
        }
    }
}

impl core::str::FromStr for TargetQualityProfile {
    type Err = UnknownVariant;

    fn from_str(text: &str) -> (r: Result<Self, Self::Err>)
        ensures
            r matches Ok(m) ==> TargetQualityProfile::from_name(text@) == Some(m),
            r is Err <==> TargetQualityProfile::from_name(text@) is None,
    {
        TargetQualityProfile::from_str(text)
    }
}

/// How the framework splits the input into scenes.
#[derive(Debug, Clone, Copy, PartialEq, Eq, Structural)]
pub enum ScenecutMethod {
    Fast,
    Standard,
}

/// The scene detection settings of the encoding framework: no detection
/// (scenes cut at the maximum length) or av-scenechange detection, each with
/// minimum and maximum scene lengths in frames.
#[derive(Debug, Clone, Copy, PartialEq, Eq, Structural)]
pub enum CoreSceneDetectionMethod {
    NoDetection { minimum_length: usize, maximum_length: usize },
    AVSceneChange { method: ScenecutMethod, minimum_length: usize, maximum_length: usize },
}

/// The framework's default minimum scene length, in frames.
pub const DEFAULT_MIN_SCENE_LENGTH_FRAMES: usize = 24;

/// The framework's default maximum scene length, in seconds.
pub const DEFAULT_MAX_SCENE_LENGTH_SECONDS: usize = 10;

impl SceneDetectionMethod {
    /// The framework setting this option selects with the given lengths; an
    /// absent minimum is the default minimum, an absent maximum the default
    /// maximum seconds times the default minimum frames.
    pub open spec fn core_method(
        self,
        minimum_length: Option<usize>,
        maximum_length: Option<usize>,
    ) -> CoreSceneDetectionMethod {
        let min_length = match minimum_length {
            Some(m) => m,
            None => DEFAULT_MIN_SCENE_LENGTH_FRAMES,
        };
        let max_length = match maximum_length {
            Some(m) => m,
            None => (DEFAULT_MAX_SCENE_LENGTH_SECONDS * DEFAULT_MIN_SCENE_LENGTH_FRAMES) as usize,
        };
        match self {
            SceneDetectionMethod::NoDetection => CoreSceneDetectionMethod::NoDetection {
                minimum_length: min_length,
                maximum_length: max_length,
            },
            SceneDetectionMethod::Fast => CoreSceneDetectionMethod::AVSceneChange {
                method: ScenecutMethod::Fast,
                minimum_length: min_length,
                maximum_length: max_length,
            },
            SceneDetectionMethod::Standard => CoreSceneDetectionMethod::AVSceneChange {
                method: ScenecutMethod::Standard,
                minimum_length: min_length,
                maximum_length: max_length,
            },
        }
    }

    /// The framework scene detection setting that this option selects.
    pub fn as_core_method(
        &self,
        minimum_length: Option<usize>,
        maximum_length: Option<usize>,
    ) -> (r: CoreSceneDetectionMethod)
        ensures
            r == self.core_method(minimum_length, maximum_length),
    {
        let min_length = match minimum_length {
            Some(m) => m,
            None => DEFAULT_MIN_SCENE_LENGTH_FRAMES,
        };
        let max_length = match maximum_length {
            Some(m) => m,
            None => DEFAULT_MAX_SCENE_LENGTH_SECONDS * DEFAULT_MIN_SCENE_LENGTH_FRAMES,
        };
        match self {
            SceneDetectionMethod::NoDetection => CoreSceneDetectionMethod::NoDetection {
                minimum_length: min_length,
                maximum_length: max_length,
            },
            SceneDetectionMethod::Fast => CoreSceneDetectionMethod::AVSceneChange {
                method: ScenecutMethod::Fast,
                minimum_length: min_length,
                maximum_length: max_length,
            },
            SceneDetectionMethod::Standard => CoreSceneDetectionMethod::AVSceneChange {
                method: ScenecutMethod::Standard,
                minimum_length: min_length,
                maximum_length: max_length,
            },
        }
    }
}

/// The encoders of the encoding framework.
#[derive(Debug, Clone, Copy, PartialEq, Eq, Structural)]
pub enum EncoderBase {
    AOM,
    RAV1E,
    VPX,
    SVTAV1,
    AVM,
    X264,
    X265,
    VVenC,
    FFmpeg,
}

impl EncoderMethod {
    /// The framework encoder that this option names.
    pub open spec fn encoder_base(self) -> EncoderBase {
        match self {
            EncoderMethod::AOM => EncoderBase::AOM,
            EncoderMethod::RAV1E => EncoderBase::RAV1E,
            EncoderMethod::VPX => EncoderBase::VPX,
            EncoderMethod::SVTAV1 => EncoderBase::SVTAV1,
            EncoderMethod::AVM => EncoderBase::AVM,
            EncoderMethod::X264 => EncoderBase::X264,
            EncoderMethod::X265 => EncoderBase::X265,
            EncoderMethod::VVenC => EncoderBase::VVenC,
            EncoderMethod::FFmpeg => EncoderBase::FFmpeg,
        }
    }

    /// The framework encoder that this option names.
    pub fn as_encoder_base(&self) -> (r: EncoderBase)
        ensures
            r == self.encoder_base(),
    {
        match self {
            EncoderMethod::AOM => EncoderBase::AOM,
            EncoderMethod::RAV1E => EncoderBase::RAV1E,
            EncoderMethod::VPX => EncoderBase::VPX,
            EncoderMethod::SVTAV1 => EncoderBase::SVTAV1,
            EncoderMethod::AVM => EncoderBase::AVM,
            EncoderMethod::X264 => EncoderBase::X264,
            EncoderMethod::X265 => EncoderBase::X265,
            EncoderMethod::VVenC => EncoderBase::VVenC,
            EncoderMethod::FFmpeg => EncoderBase::FFmpeg,
        }
    }
}

/// Reading the command-line name of a SceneDetectionMethod option gives the option
/// back; hence no two options share a name.
pub proof fn lemma_scene_detection_method_names_round_trip(m: SceneDetectionMethod)
    ensures
        SceneDetectionMethod::from_name(m.name()) == Some(m),
{
    match m {
        SceneDetectionMethod::NoDetection => {
            reveal_strlit("none");
        },
        SceneDetectionMethod::Fast => {
            reveal_strlit("fast");
            reveal_strlit("none");
            assert("fast"@[0] != "none"@[0]);
            assert("fast"@ != "none"@);
        },
        SceneDetectionMethod::Standard => {
            reveal_strlit("standard");
            reveal_strlit("none");
            assert("standard"@.len() != "none"@.len());
            assert("standard"@ != "none"@);
            reveal_strlit("fast");
            assert("standard"@.len() != "fast"@.len());
            assert("standard"@ != "fast"@);
        },
    }
}

/// Reading the command-line name of a DecoderMethod option gives the option
/// back; hence no two options share a name.
pub proof fn lemma_decoder_method_names_round_trip(m: DecoderMethod)
    ensures
        DecoderMethod::from_name(m.name()) == Some(m),
{
    match m {
        DecoderMethod::BestSource => {
            reveal_strlit("bestsource");
        },
        DecoderMethod::VSFFMS2 => {
            reveal_strlit("vs-ffms2");
            reveal_strlit("bestsource");
            assert("vs-ffms2"@.len() != "bestsource"@.len());
            assert("vs-ffms2"@ != "bestsource"@);
        },
        DecoderMethod::LSMASHWorks => {
            reveal_strlit("lsmash");
            reveal_strlit("bestsource");
            assert("lsmash"@.len() != "bestsource"@.len());
            assert("lsmash"@ != "bestsource"@);
            reveal_strlit("vs-ffms2");
            assert("lsmash"@.len() != "vs-ffms2"@.len());
            assert("lsmash"@ != "vs-ffms2"@);
        },
        DecoderMethod::DGDecodeNV => {
            reveal_strlit("dgdecnv");
            reveal_strlit("bestsource");
            assert("dgdecnv"@.len() != "bestsource"@.len());
            assert("dgdecnv"@ != "bestsource"@);
            reveal_strlit("vs-ffms2");
            assert("dgdecnv"@.len() != "vs-ffms2"@.len());
            assert("dgdecnv"@ != "vs-ffms2"@);
            reveal_strlit("lsmash");
            assert("dgdecnv"@.len() != "lsmash"@.len());
            assert("dgdecnv"@ != "lsmash"@);
        },
        DecoderMethod::FFMS2 => {
            reveal_strlit("ffms2");
            reveal_strlit("bestsource");
            assert("ffms2"@.len() != "bestsource"@.len());
            assert("ffms2"@ != "bestsource"@);
            reveal_strlit("vs-ffms2");
            assert("ffms2"@.len() != "vs-ffms2"@.len());
            assert("ffms2"@ != "vs-ffms2"@);
            reveal_strlit("lsmash");
            assert("ffms2"@.len() != "lsmash"@.len());
            assert("ffms2"@ != "lsmash"@);
            reveal_strlit("dgdecnv");
            assert("ffms2"@.len() != "dgdecnv"@.len());
            assert("ffms2"@ != "dgdecnv"@);
        },
    }
}

/// Reading the command-line name of a EncoderMethod option gives the option
/// back; hence no two options share a name.
pub proof fn lemma_encoder_method_names_round_trip(m: EncoderMethod)
    ensures
        EncoderMethod::from_name(m.name()) == Some(m),
{
    match m {
        EncoderMethod::AOM => {
            reveal_strlit("aom");
        },
        EncoderMethod::RAV1E => {
            reveal_strlit("rav1e");
            reveal_strlit("aom");
            assert("rav1e"@.len() != "aom"@.len());
            assert("rav1e"@ != "aom"@);
        },
        EncoderMethod::VPX => {
            reveal_strlit("vpx");
            reveal_strlit("aom");
            assert("vpx"@[0] != "aom"@[0]);
            assert("vpx"@ != "aom"@);
            reveal_strlit("rav1e");
            assert("vpx"@.len() != "rav1e"@.len());
            assert("vpx"@ != "rav1e"@);
        },
        EncoderMethod::SVTAV1 => {
            reveal_strlit("svt-av1");
            reveal_strlit("aom");
            assert("svt-av1"@.len() != "aom"@.len());
            assert("svt-av1"@ != "aom"@);
            reveal_strlit("rav1e");
            assert("svt-av1"@.len() != "rav1e"@.len());
            assert("svt-av1"@ != "rav1e"@);
            reveal_strlit("vpx");
            assert("svt-av1"@.len() != "vpx"@.len());
            assert("svt-av1"@ != "vpx"@);
        },
        EncoderMethod::AVM => {
            reveal_strlit("avm");
            reveal_strlit("aom");
            assert("avm"@[1] != "aom"@[1]);
            assert("avm"@ != "aom"@);
            reveal_strlit("rav1e");
            assert("avm"@.len() != "rav1e"@.len());
            assert("avm"@ != "rav1e"@);
            reveal_strlit("vpx");
            assert("avm"@[0] != "vpx"@[0]);
            assert("avm"@ != "vpx"@);
            reveal_strlit("svt-av1");
            assert("avm"@.len() != "svt-av1"@.len());
            assert("avm"@ != "svt-av1"@);
        },
        EncoderMethod::X264 => {
            reveal_strlit("x264");
            reveal_strlit("aom");
            assert("x264"@.len() != "aom"@.len());
            assert("x264"@ != "aom"@);
            reveal_strlit("rav1e");
            assert("x264"@.len() != "rav1e"@.len());
            assert("x264"@ != "rav1e"@);
            reveal_strlit("vpx");
            assert("x264"@.len() != "vpx"@.len());
            assert("x264"@ != "vpx"@);
            reveal_strlit("svt-av1");
            assert("x264"@.len() != "svt-av1"@.len());
            assert("x264"@ != "svt-av1"@);
            reveal_strlit("avm");
            assert("x264"@.len() != "avm"@.len());
            assert("x264"@ != "avm"@);
        },
        EncoderMethod::X265 => {
            reveal_strlit("x265");
            reveal_strlit("aom");
            assert("x265"@.len() != "aom"@.len());
            assert("x265"@ != "aom"@);
            reveal_strlit("rav1e");
            assert("x265"@.len() != "rav1e"@.len());
            assert("x265"@ != "rav1e"@);
            reveal_strlit("vpx");
            assert("x265"@.len() != "vpx"@.len());
            assert("x265"@ != "vpx"@);
            reveal_strlit("svt-av1");
            assert("x265"@.len() != "svt-av1"@.len());
            assert("x265"@ != "svt-av1"@);
            reveal_strlit("avm");
            assert("x265"@.len() != "avm"@.len());
            assert("x265"@ != "avm"@);
            reveal_strlit("x264");
            assert("x265"@[3] != "x264"@[3]);
            assert("x265"@ != "x264"@);
        },
        EncoderMethod::VVenC => {
            reveal_strlit("vvenc");
            reveal_strlit("aom");
            assert("vvenc"@.len() != "aom"@.len());
            assert("vvenc"@ != "aom"@);
            reveal_strlit("rav1e");
            assert("vvenc"@[0] != "rav1e"@[0]);
            assert("vvenc"@ != "rav1e"@);
            reveal_strlit("vpx");
            assert("vvenc"@.len() != "vpx"@.len());
            assert("vvenc"@ != "vpx"@);
            reveal_strlit("svt-av1");
            assert("vvenc"@.len() != "svt-av1"@.len());
            assert("vvenc"@ != "svt-av1"@);
            reveal_strlit("avm");
            assert("vvenc"@.len() != "avm"@.len());
            assert("vvenc"@ != "avm"@);
            reveal_strlit("x264");
            assert("vvenc"@.len() != "x264"@.len());
            assert("vvenc"@ != "x264"@);
            reveal_strlit("x265");
            assert("vvenc"@.len() != "x265"@.len());
            assert("vvenc"@ != "x265"@);
        },
        EncoderMethod::FFmpeg => {
            reveal_strlit("ffmpeg");
            reveal_strlit("aom");
            assert("ffmpeg"@.len() != "aom"@.len());
            assert("ffmpeg"@ != "aom"@);
            reveal_strlit("rav1e");
            assert("ffmpeg"@.len() != "rav1e"@.len());
            assert("ffmpeg"@ != "rav1e"@);
            reveal_strlit("vpx");
            assert("ffmpeg"@.len() != "vpx"@.len());
            assert("ffmpeg"@ != "vpx"@);
            reveal_strlit("svt-av1");
            assert("ffmpeg"@.len() != "svt-av1"@.len());
            assert("ffmpeg"@ != "svt-av1"@);
            reveal_strlit("avm");
            assert("ffmpeg"@.len() != "avm"@.len());
            assert("ffmpeg"@ != "avm"@);
            reveal_strlit("x264");
            assert("ffmpeg"@.len() != "x264"@.len());
            assert("ffmpeg"@ != "x264"@);
            reveal_strlit("x265");
            assert("ffmpeg"@.len() != "x265"@.len());
            assert("ffmpeg"@ != "x265"@);
            reveal_strlit("vvenc");
            assert("ffmpeg"@.len() != "vvenc"@.len());
            assert("ffmpeg"@ != "vvenc"@);
        },
    }
}

/// Reading the command-line name of a ConcatenationMethod option gives the option
/// back; hence no two options share a name.
pub proof fn lemma_concatenation_method_names_round_trip(m: ConcatenationMethod)
    ensures
        ConcatenationMethod::from_name(m.name()) == Some(m),
{
    match m {
        ConcatenationMethod::MkvMerge => {
            reveal_strlit("mkvmerge");
        },
        ConcatenationMethod::FFmpeg => {
            reveal_strlit("ffmpeg");
            reveal_strlit("mkvmerge");
            assert("ffmpeg"@.len() != "mkvmerge"@.len());
            assert("ffmpeg"@ != "mkvmerge"@);
        },
        ConcatenationMethod::Ivf => {
            reveal_strlit("ivf");
            reveal_strlit("mkvmerge");
            assert("ivf"@.len() != "mkvmerge"@.len());
            assert("ivf"@ != "mkvmerge"@);
            reveal_strlit("ffmpeg");
            assert("ivf"@.len() != "ffmpeg"@.len());
            assert("ivf"@ != "ffmpeg"@);
        },
    }
}

/// Reading the command-line name of a TargetQualityMetric option gives the option
/// back; hence no two options share a name.
pub proof fn lemma_target_quality_metric_names_round_trip(m: TargetQualityMetric)
    ensures
        TargetQualityMetric::from_name(m.name()) == Some(m),
{
    match m {
        TargetQualityMetric::VMAF => {
            reveal_strlit("vmaf");
        },
        TargetQualityMetric::SSIMULACRA2 => {
            reveal_strlit("ssimulacra2");
            reveal_strlit("vmaf");
            assert("ssimulacra2"@.len() != "vmaf"@.len());
            assert("ssimulacra2"@ != "vmaf"@);
        },
        TargetQualityMetric::BUTTERAUGLI => {
            reveal_strlit("butteraugli");
            reveal_strlit("vmaf");
            assert("butteraugli"@.len() != "vmaf"@.len());
            assert("butteraugli"@ != "vmaf"@);
            reveal_strlit("ssimulacra2");
            assert("butteraugli"@[0] != "ssimulacra2"@[0]);
            assert("butteraugli"@ != "ssimulacra2"@);
        },
        TargetQualityMetric::BUTTERAUGLI3Norm => {
            reveal_strlit("butteraugli-3");
            reveal_strlit("vmaf");
            assert("butteraugli-3"@.len() != "vmaf"@.len());
            assert("butteraugli-3"@ != "vmaf"@);
            reveal_strlit("ssimulacra2");
            assert("butteraugli-3"@.len() != "ssimulacra2"@.len());
            assert("butteraugli-3"@ != "ssimulacra2"@);
            reveal_strlit("butteraugli");
            assert("butteraugli-3"@.len() != "butteraugli"@.len());
            assert("butteraugli-3"@ != "butteraugli"@);
        },
        TargetQualityMetric::XPSNR => {
            reveal_strlit("xpsnr");
            reveal_strlit("vmaf");
            assert("xpsnr"@.len() != "vmaf"@.len());
            assert("xpsnr"@ != "vmaf"@);
            reveal_strlit("ssimulacra2");
            assert("xpsnr"@.len() != "ssimulacra2"@.len());
            assert("xpsnr"@ != "ssimulacra2"@);
            reveal_strlit("butteraugli");
            assert("xpsnr"@.len() != "butteraugli"@.len());
            assert("xpsnr"@ != "butteraugli"@);
            reveal_strlit("butteraugli-3");
            assert("xpsnr"@.len() != "butteraugli-3"@.len());
            assert("xpsnr"@ != "butteraugli-3"@);
        },
        TargetQualityMetric::CVVDP => {
            reveal_strlit("cvvdp");
            reveal_strlit("vmaf");
            assert("cvvdp"@.len() != "vmaf"@.len());
            assert("cvvdp"@ != "vmaf"@);
            reveal_strlit("ssimulacra2");
            assert("cvvdp"@.len() != "ssimulacra2"@.len());
            assert("cvvdp"@ != "ssimulacra2"@);
            reveal_strlit("butteraugli");
            assert("cvvdp"@.len() != "butteraugli"@.len());
            assert("cvvdp"@ != "butteraugli"@);
            reveal_strlit("butteraugli-3");
            assert("cvvdp"@.len() != "butteraugli-3"@.len());
            assert("cvvdp"@ != "butteraugli-3"@);
            reveal_strlit("xpsnr");
            assert("cvvdp"@[0] != "xpsnr"@[0]);
            assert("cvvdp"@ != "xpsnr"@);
        },
    }
}

/// Reading the command-line name of a TargetQualityProfile option gives the option
/// back; hence no two options share a name.
pub proof fn lemma_target_quality_profile_names_round_trip(m: TargetQualityProfile)
    ensures
        TargetQualityProfile::from_name(m.name()) == Some(m),
{
    match m {
        TargetQualityProfile::Fast => {
            reveal_strlit("fast");
        },
        TargetQualityProfile::Standard => {
            reveal_strlit("standard");
            reveal_strlit("fast");
            assert("standard"@.len() != "fast"@.len());
            assert("standard"@ != "fast"@);
        },
        TargetQualityProfile::Slow => {
            reveal_strlit("slow");
            reveal_strlit("fast");
            assert("slow"@[0] != "fast"@[0]);
            assert("slow"@ != "fast"@);
            reveal_strlit("standard");
            assert("slow"@.len() != "standard"@.len());
            assert("slow"@ != "standard"@);
        },
    }
}

/// The command-line name of each `SceneDetectionMethod` option (what `as_str`
/// and `to_string` give and what `from_str` reads back to it) is the text
/// that converting the option to `&str` gives.
pub proof fn lemma_scene_detection_method_name_is_its_str(m: SceneDetectionMethod)
    ensures
        m.name() == <&'static str as vstd::std_specs::convert::FromSpec<&SceneDetectionMethod>>::from_spec(&m)@,
        SceneDetectionMethod::from_name(<&'static str as vstd::std_specs::convert::FromSpec<&SceneDetectionMethod>>::from_spec(&m)@) == Some(m),
{
    lemma_scene_detection_method_names_round_trip(m);
}

/// The command-line name of each `DecoderMethod` option (what `as_str`
/// and `to_string` give and what `from_str` reads back to it) is the text
/// that converting the option to `&str` gives.
pub proof fn lemma_decoder_method_name_is_its_str(m: DecoderMethod)
    ensures
        m.name() == <&'static str as vstd::std_specs::convert::FromSpec<&DecoderMethod>>::from_spec(&m)@,
        DecoderMethod::from_name(<&'static str as vstd::std_specs::convert::FromSpec<&DecoderMethod>>::from_spec(&m)@) == Some(m),
{
    lemma_decoder_method_names_round_trip(m);
}

/// The command-line name of each `EncoderMethod` option (what `as_str`
/// and `to_string` give and what `from_str` reads back to it) is the text
/// that converting the option to `&str` gives.
pub proof fn lemma_encoder_method_name_is_its_str(m: EncoderMethod)
    ensures
        m.name() == <&'static str as vstd::std_specs::convert::FromSpec<&EncoderMethod>>::from_spec(&m)@,
        EncoderMethod::from_name(<&'static str as vstd::std_specs::convert::FromSpec<&EncoderMethod>>::from_spec(&m)@) == Some(m),
{
    lemma_encoder_method_names_round_trip(m);
}

/// The command-line name of each `ConcatenationMethod` option (what `as_str`
/// and `to_string` give and what `from_str` reads back to it) is the text
/// that converting the option to `&str` gives.
pub proof fn lemma_concatenation_method_name_is_its_str(m: ConcatenationMethod)
    ensures
        m.name() == <&'static str as vstd::std_specs::convert::FromSpec<&ConcatenationMethod>>::from_spec(&m)@,
        ConcatenationMethod::from_name(<&'static str as vstd::std_specs::convert::FromSpec<&ConcatenationMethod>>::from_spec(&m)@) == Some(m),
{
    lemma_concatenation_method_names_round_trip(m);
}

/// The command-line name of each `TargetQualityMetric` option (what `as_str`
/// and `to_string` give and what `from_str` reads back to it) is the text
/// that converting the option to `&str` gives.
pub proof fn lemma_target_quality_metric_name_is_its_str(m: TargetQualityMetric)
    ensures
        m.name() == <&'static str as vstd::std_specs::convert::FromSpec<&TargetQualityMetric>>::from_spec(&m)@,
        TargetQualityMetric::from_name(<&'static str as vstd::std_specs::convert::FromSpec<&TargetQualityMetric>>::from_spec(&m)@) == Some(m),
{
    lemma_target_quality_metric_names_round_trip(m);
}

/// The command-line name of each `TargetQualityProfile` option (what `as_str`
/// and `to_string` give and what `from_str` reads back to it) is the text
/// that converting the option to `&str` gives.
pub proof fn lemma_target_quality_profile_name_is_its_str(m: TargetQualityProfile)
    ensures
        m.name() == <&'static str as vstd::std_specs::convert::FromSpec<&TargetQualityProfile>>::from_spec(&m)@,
        TargetQualityProfile::from_name(<&'static str as vstd::std_specs::convert::FromSpec<&TargetQualityProfile>>::from_spec(&m)@) == Some(m),
{
    lemma_target_quality_profile_names_round_trip(m);
}

/// Errors the command handlers report. Paths are given as text.
#[derive(Debug)]
pub enum CondorCliError {
    ConfigFileAlreadyExists(String),
    ConfigFileNotFound(String),
    ConfigLoadError(String),
    NoConfigOrInput,
    NoConfigOrInputOrOutput,
    DecoderWithoutInput,
    NoConfig,
    NoScenes,
    InvalidVapourSynthScript(String),
}

impl CondorCliError {
    /// The error's message.
    pub open spec fn message_text(self) -> Seq<char> {
        match self {
            CondorCliError::ConfigFileAlreadyExists(p) => "Cannot initialize over an existing config file: "@
                + p@,
            CondorCliError::ConfigFileNotFound(p) => "No config file found at: "@ + p@,
            CondorCliError::ConfigLoadError(p) => "Failed to load config file: "@ + p@,
            CondorCliError::NoConfigOrInput => "Cannot start without a config file or without input path"@,
            CondorCliError::NoConfigOrInputOrOutput => "Cannot start without a config file or without input and output paths"@,
            CondorCliError::DecoderWithoutInput => "Cannot set Decoder without a valid Input path"@,
            CondorCliError::NoConfig => "No config file found. Run 'condor init' to create a configuration."@,
            CondorCliError::NoScenes => "No scenes found in the config. Run 'condor detect-scenes' to populate scenes"@,
            CondorCliError::InvalidVapourSynthScript(p) => "Input "@ + p@
                + " must be a VapourSynth script (.vpy or .py)"@,
        }
    }

    /// The error's message.
    pub fn message(&self) -> (r: String)
        ensures
            r@ == self.message_text(),
    {
        match self {
            CondorCliError::ConfigFileAlreadyExists(p) => {
                let mut r = "Cannot initialize over an existing config file: ".to_owned();
                r.append(p.as_str());
                r
            },
            CondorCliError::ConfigFileNotFound(p) => {
                let mut r = "No config file found at: ".to_owned();
                r.append(p.as_str());
                r
            },
            CondorCliError::ConfigLoadError(p) => {
                let mut r = "Failed to load config file: ".to_owned();
                r.append(p.as_str());
                r
            },
            CondorCliError::NoConfigOrInput => "Cannot start without a config file or without input path".to_owned(),
            CondorCliError::NoConfigOrInputOrOutput => "Cannot start without a config file or without input and output paths".to_owned(),
            CondorCliError::DecoderWithoutInput => "Cannot set Decoder without a valid Input path".to_owned(),
            CondorCliError::NoConfig => "No config file found. Run 'condor init' to create a configuration.".to_owned(),
            CondorCliError::NoScenes => "No scenes found in the config. Run 'condor detect-scenes' to populate scenes".to_owned(),
            CondorCliError::InvalidVapourSynthScript(p) => {
                let mut r = "Input ".to_owned();
                r.append(p.as_str());
                r.append(" must be a VapourSynth script (.vpy or .py)");
                r
            },
        }
    }
}

} // verus!
