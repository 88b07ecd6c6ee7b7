//! The decisions that drive a Condor run: which configuration file a command
//! works on, which stages a run goes through, and how an interrupt is
//! answered.
use vstd::prelude::*;

use crate::commands::CondorCliError;

verus! {

/// Where `start` takes its configuration from.
#[derive(Debug, Clone, Copy, PartialEq, Eq, Structural)]
pub enum ConfigSource {
    /// The configuration file exists and is loaded.
    Load,
    /// No configuration file exists; a new one is made from the input and
    /// output paths.
    Create,
}

/// What `start` does about its configuration file. `given_exists` tells
/// whether the file named on the command line exists (when one is named);
/// `resolved_exists` whether the file finally chosen (the one named, or the
/// default one) exists. A named file that does not exist, with neither an
/// input nor an output path, is refused at once.
pub open spec fn start_source_spec(
    config_named: bool,
    given_exists: bool,
    resolved_exists: bool,
    has_input: bool,
    has_output: bool,
) -> Result<ConfigSource, CondorCliError> {
    if config_named && !given_exists && !has_input && !has_output {
        Err(CondorCliError::NoConfigOrInputOrOutput)
    } else if resolved_exists {
        Ok(ConfigSource::Load)
    } else if has_input && has_output {
        Ok(ConfigSource::Create)
    } else {
        Err(CondorCliError::NoConfigOrInputOrOutput)
    }
}

/// Decides where `start` takes its configuration from: an existing file is
/// loaded; without one, input and output paths are both needed to make a new
/// configuration.
pub fn start_source(
    config_named: bool,
    given_exists: bool,
    resolved_exists: bool,
    has_input: bool,
    has_output: bool,
) -> (r: Result<ConfigSource, CondorCliError>)
    ensures
        r == start_source_spec(config_named, given_exists, resolved_exists, has_input, has_output),
{
    if config_named && !given_exists && !has_input && !has_output {
        return Err(CondorCliError::NoConfigOrInputOrOutput);
    }
    if resolved_exists {
        Ok(ConfigSource::Load)
    } else if has_input && has_output {
        Ok(ConfigSource::Create)
    } else {
        Err(CondorCliError::NoConfigOrInputOrOutput)
    }
}

/// Where `start` takes its configuration from, by cases:
/// - an existing configuration is loaded, with its progress, whatever input
///   and output paths are given, unless the command names a file that does
///   not exist and gives neither path;
/// - only a missing configuration is created, and only from both an input
///   and an output path;
/// - every refusal is `NoConfigOrInputOrOutput`, and comes only when a path
///   is missing.
pub proof fn lemma_start_source_cases(
    config_named: bool,
    given_exists: bool,
    resolved_exists: bool,
    has_input: bool,
    has_output: bool,
)
    ensures
        ({
            let r = start_source_spec(
                config_named,
                given_exists,
                resolved_exists,
                has_input,
                has_output,
            );
            &&& resolved_exists && (!config_named || given_exists || has_input || has_output)
                ==> r == Ok::<ConfigSource, CondorCliError>(ConfigSource::Load)
            &&& r == Ok::<ConfigSource, CondorCliError>(ConfigSource::Load) ==> resolved_exists
            &&& r == Ok::<ConfigSource, CondorCliError>(ConfigSource::Create) <==> (!resolved_exists
                && has_input && has_output)
            &&& r is Err ==> r == Err::<ConfigSource, CondorCliError>(
                CondorCliError::NoConfigOrInputOrOutput,
            ) && (!has_input || !has_output)
        }),
{
}

/// Checks that a command that edits an existing configuration has one: a
/// file named on the command line (`named`, existing or not as
/// `named_exists` tells) must exist, and so must the file finally chosen
/// (`resolved_exists`).
pub fn check_config_present(named: Option<&str>, named_exists: bool, resolved_exists: bool) -> (r:
    Result<(), CondorCliError>)
    ensures
        (match named {
            Some(p) if !named_exists => r matches Err(CondorCliError::ConfigFileNotFound(q))
                && q@ == p@,
            _ => (if resolved_exists {
                r is Ok
            } else {
                r matches Err(CondorCliError::NoConfig)
            }),
        }),
{
    match named {
        Some(p) => {
            if !named_exists {
                return Err(CondorCliError::ConfigFileNotFound(p.to_owned()));
            }
        },
        None => {},
    }
    if resolved_exists {
        Ok(())
    } else {
        Err(CondorCliError::NoConfig)
    }
}

/// Checks that `init` does not overwrite a configuration file: `path` is
/// the file it would write, `present` whether it is already there.
pub fn check_config_absent(path: &str, present: bool) -> (r: Result<(), CondorCliError>)
    ensures
        (if present {
            r matches Err(CondorCliError::ConfigFileAlreadyExists(q)) && q@ == path@
        } else {
            r is Ok
        }),
{
    if present {
        Err(CondorCliError::ConfigFileAlreadyExists(path.to_owned()))
    } else {
        Ok(())
    }
}

/// A stage of a Condor run.
#[derive(Debug, Clone, Copy, PartialEq, Eq, Structural)]
pub enum Stage {
    SceneDetection,
    NoiseDetection,
    NoiseScaling,
    Benchmark,
    TargetQuality,
    BitrateOptimization,
    SpeedScaling,
    ParallelEncoding,
    Concatenation,
}

/// What a run needs to know of its configuration to choose its stages.
#[derive(Debug, Clone, Copy, PartialEq, Eq, Structural)]
pub struct RunSettings {
    /// Scene detection was asked to be skipped.
    pub skip_scene_detection: bool,
    /// A noise detector is configured.
    pub noise_detection: bool,
    /// The number of parallel workers is set.
    pub workers_set: bool,
    /// Target quality is configured.
    pub target_quality: bool,
    /// A bitrate deviation threshold is set for the bitrate optimizer.
    pub bitrate_threshold_set: bool,
    /// The number of speed/quantizer pairs of the speed scaler.
    pub speed_pairs: usize,
}

/// The stages of a run, in order: scene detection unless skipped; noise
/// detection and scaling when a noise detector is configured; a benchmark
/// when the number of workers is not set; target quality when configured,
/// followed by bitrate optimization when a threshold is set; speed scaling
/// when at least two speed/quantizer pairs are set; then encoding and
/// concatenation.
pub open spec fn stages_of(s: RunSettings) -> Seq<Stage> {
    (if s.skip_scene_detection {
        Seq::empty()
    } else {
        seq![Stage::SceneDetection]
    }) + (if s.noise_detection {
        seq![Stage::NoiseDetection, Stage::NoiseScaling]
    } else {
        Seq::empty()
    }) + (if s.workers_set {
        Seq::empty()
    } else {
        seq![Stage::Benchmark]
    }) + (if s.target_quality {
        if s.bitrate_threshold_set {
            seq![Stage::TargetQuality, Stage::BitrateOptimization]
        } else {
            seq![Stage::TargetQuality]
        }
    } else {
        Seq::empty()
    }) + (if s.speed_pairs >= 2 {
        seq![Stage::SpeedScaling]
    } else {
        Seq::empty()
    }) + seq![Stage::ParallelEncoding, Stage::Concatenation]
}

/// The stages a run goes through for the given settings, in order. A run
/// stops after the first stage at whose end it was cancelled.
pub fn run_stages(s: RunSettings) -> (r: Vec<Stage>)
    ensures
        r@ == stages_of(s),
{
    let mut r: Vec<Stage> = Vec::new();
    if !s.skip_scene_detection {
        r.push(Stage::SceneDetection);
    }
    if s.noise_detection {
        r.push(Stage::NoiseDetection);
        r.push(Stage::NoiseScaling);
    }
    if !s.workers_set {
        r.push(Stage::Benchmark);
    }
    if s.target_quality {
        r.push(Stage::TargetQuality);
        if s.bitrate_threshold_set {
            r.push(Stage::BitrateOptimization);
        }
    }
    if s.speed_pairs >= 2 {
        r.push(Stage::SpeedScaling);
    }
    r.push(Stage::ParallelEncoding);
    r.push(Stage::Concatenation);
    assert(r@ =~= stages_of(s));
    r
}

/// Every run ends by encoding the scenes and then joining them.
pub proof fn lemma_run_ends_with_encoding(s: RunSettings)
    ensures
        stages_of(s).len() >= 2,
        stages_of(s)[stages_of(s).len() - 2] == Stage::ParallelEncoding,
        stages_of(s).last() == Stage::Concatenation,
{
}

/// The place of a stage in the order a run goes through them.
pub open spec fn stage_rank(stage: Stage) -> int {
    match stage {
        Stage::SceneDetection => 0,
        Stage::NoiseDetection => 1,
        Stage::NoiseScaling => 2,
        Stage::Benchmark => 3,
        Stage::TargetQuality => 4,
        Stage::BitrateOptimization => 5,
        Stage::SpeedScaling => 6,
        Stage::ParallelEncoding => 7,
        Stage::Concatenation => 8,
    }
}

/// Stages whose ranks strictly increase, all at least `low` and below
/// `high`.
spec fn ranked_within(q: Seq<Stage>, low: int, high: int) -> bool {
    &&& forall|i: int, j: int|
        0 <= i < j < q.len() ==> stage_rank(#[trigger] q[i]) < stage_rank(#[trigger] q[j])
    &&& forall|i: int| 0 <= i < q.len() ==> low <= stage_rank(#[trigger] q[i]) < high
}

proof fn lemma_ranked_join(a: Seq<Stage>, b: Seq<Stage>, low: int, mid: int, high: int)
    requires
        low <= mid <= high,
        ranked_within(a, low, mid),
        ranked_within(b, mid, high),
    ensures
        ranked_within(a + b, low, high),
{
    let q = a + b;
    assert forall|i: int, j: int| 0 <= i < j < q.len() implies stage_rank(#[trigger] q[i])
        < stage_rank(#[trigger] q[j]) by {
        if j < a.len() {
            assert(q[i] == a[i] && q[j] == a[j]);
        } else if i >= a.len() {
            assert(q[i] == b[i - a.len()] && q[j] == b[j - a.len()]);
        } else {
            assert(q[i] == a[i] && q[j] == b[j - a.len()]);
        }
    }
    assert forall|i: int| 0 <= i < q.len() implies low <= stage_rank(#[trigger] q[i]) < high by {
        if i < a.len() {
            assert(q[i] == a[i]);
        } else {
            assert(q[i] == b[i - a.len()]);
        }
    }
}

proof fn lemma_contains_join(a: Seq<Stage>, b: Seq<Stage>, x: Stage)
    ensures
        (a + b).contains(x) <==> a.contains(x) || b.contains(x),
{
    let q = a + b;
    if q.contains(x) {
        let k = choose|k: int| 0 <= k < q.len() && q[k] == x;
        if k < a.len() {
            assert(a[k] == x);
        } else {
            assert(b[k - a.len()] == x);
        }
    }
    if a.contains(x) {
        let k = choose|k: int| 0 <= k < a.len() && a[k] == x;
        assert(q[k] == x);
    }
    if b.contains(x) {
        let k = choose|k: int| 0 <= k < b.len() && b[k] == x;
        assert(q[a.len() + k] == x);
    }
}

proof fn lemma_contains_six(
    a: Seq<Stage>,
    b: Seq<Stage>,
    c: Seq<Stage>,
    d: Seq<Stage>,
    e: Seq<Stage>,
    f: Seq<Stage>,
    x: Stage,
)
    ensures
        (a + b + c + d + e + f).contains(x) <==> a.contains(x) || b.contains(x) || c.contains(x)
            || d.contains(x) || e.contains(x) || f.contains(x),
{
    lemma_contains_join(a, b, x);
    lemma_contains_join(a + b, c, x);
    lemma_contains_join(a + b + c, d, x);
    lemma_contains_join(a + b + c + d, e, x);
    lemma_contains_join(a + b + c + d + e, f, x);
}

/// The stages of a run in six parts, one per decision.
spec fn stage_parts(s: RunSettings) -> (Seq<Stage>, Seq<Stage>, Seq<Stage>, Seq<Stage>, Seq<Stage>, Seq<Stage>) {
    let a = if s.skip_scene_detection {
        Seq::<Stage>::empty()
    } else {
        seq![Stage::SceneDetection]
    };
    let b = if s.noise_detection {
        seq![Stage::NoiseDetection, Stage::NoiseScaling]
    } else {
        Seq::<Stage>::empty()
    };
    let c = if s.workers_set {
        Seq::<Stage>::empty()
    } else {
        seq![Stage::Benchmark]
    };
    let d = if s.target_quality {
        if s.bitrate_threshold_set {
            seq![Stage::TargetQuality, Stage::BitrateOptimization]
        } else {
            seq![Stage::TargetQuality]
        }
    } else {
        Seq::<Stage>::empty()
    };
    let e = if s.speed_pairs >= 2 {
        seq![Stage::SpeedScaling]
    } else {
        Seq::<Stage>::empty()
    };
    let f = seq![Stage::ParallelEncoding, Stage::Concatenation];
    (a, b, c, d, e, f)
}

/// Which stages a run goes through: scene detection exactly when it is not
/// skipped; noise detection and noise scaling exactly when a noise detector
/// is configured; a benchmark exactly when the number of workers is not
/// set; target quality exactly when it is configured; bitrate optimization
/// exactly when target quality is configured and a bitrate threshold is
/// set; speed scaling exactly when at least two speed/quantizer pairs are
/// set; encoding and concatenation always.
pub proof fn lemma_stages_of_settings(s: RunSettings)
    ensures
        stages_of(s).contains(Stage::SceneDetection) <==> !s.skip_scene_detection,
        stages_of(s).contains(Stage::NoiseDetection) <==> s.noise_detection,
        stages_of(s).contains(Stage::NoiseScaling) <==> s.noise_detection,
        stages_of(s).contains(Stage::Benchmark) <==> !s.workers_set,
        stages_of(s).contains(Stage::TargetQuality) <==> s.target_quality,
        stages_of(s).contains(Stage::BitrateOptimization) <==> s.target_quality
            && s.bitrate_threshold_set,
        stages_of(s).contains(Stage::SpeedScaling) <==> s.speed_pairs >= 2,
        stages_of(s).contains(Stage::ParallelEncoding),
        stages_of(s).contains(Stage::Concatenation),
{
    lemma_stage_in(s, Stage::SceneDetection);
    lemma_stage_in(s, Stage::NoiseDetection);
    lemma_stage_in(s, Stage::NoiseScaling);
    lemma_stage_in(s, Stage::Benchmark);
    lemma_stage_in(s, Stage::TargetQuality);
    lemma_stage_in(s, Stage::BitrateOptimization);
    lemma_stage_in(s, Stage::SpeedScaling);
    lemma_stage_in(s, Stage::ParallelEncoding);
    lemma_stage_in(s, Stage::Concatenation);
}

proof fn lemma_short_contains(q: Seq<Stage>, x: Stage)
    requires
        q.len() <= 2,
    ensures
        q.contains(x) <==> (q.len() > 0 && q[0] == x) || (q.len() > 1 && q[1] == x),
{
    if q.len() > 0 && q[0] == x {
        assert(q[0] == x);
    }
    if q.len() > 1 && q[1] == x {
        assert(q[1] == x);
    }
}

/// Whether a stage is in a run, by the part that decides it.
proof fn lemma_stage_in(s: RunSettings, x: Stage)
    ensures
        stages_of(s).contains(x) <==> (match x {
            Stage::SceneDetection => !s.skip_scene_detection,
            Stage::NoiseDetection => s.noise_detection,
            Stage::NoiseScaling => s.noise_detection,
            Stage::Benchmark => !s.workers_set,
            Stage::TargetQuality => s.target_quality,
            Stage::BitrateOptimization => s.target_quality && s.bitrate_threshold_set,
            Stage::SpeedScaling => s.speed_pairs >= 2,
            _ => true,
        }),
{
    let (a, b, c, d, e, f) = stage_parts(s);
    assert(stages_of(s) == a + b + c + d + e + f);
    lemma_contains_six(a, b, c, d, e, f, x);
    lemma_short_contains(a, x);
    lemma_short_contains(b, x);
    lemma_short_contains(c, x);
    lemma_short_contains(d, x);
    lemma_short_contains(e, x);
    lemma_short_contains(f, x);
}

/// The stages of a run come in the order of [`stage_rank`]; so no stage
/// occurs twice.
pub proof fn lemma_stages_in_order(s: RunSettings)
    ensures
        forall|i: int, j: int|
            0 <= i < j < stages_of(s).len() ==> stage_rank(#[trigger] stages_of(s)[i]) < stage_rank(
                #[trigger] stages_of(s)[j],
            ),
{
    let (a, b, c, d, e, f) = stage_parts(s);
    assert(stages_of(s) == a + b + c + d + e + f);
    assert(ranked_within(a, 0, 1));
    assert(ranked_within(b, 1, 3));
    assert(ranked_within(c, 3, 4));
    assert(ranked_within(d, 4, 6));
    assert(ranked_within(e, 6, 7));
    assert(ranked_within(f, 7, 9));
    lemma_ranked_join(a, b, 0, 1, 3);
    lemma_ranked_join(a + b, c, 0, 3, 4);
    lemma_ranked_join(a + b + c, d, 0, 4, 6);
    lemma_ranked_join(a + b + c + d, e, 0, 6, 7);
    lemma_ranked_join(a + b + c + d + e, f, 0, 7, 9);
}

/// Bitrate optimization only runs right after target quality.
pub proof fn lemma_bitrate_follows_target_quality(s: RunSettings, i: int)
    requires
        0 <= i < stages_of(s).len(),
        stages_of(s)[i] == Stage::BitrateOptimization,
    ensures
        i > 0,
        stages_of(s)[i - 1] == Stage::TargetQuality,
{
    let a = if s.skip_scene_detection {
        Seq::<Stage>::empty()
    } else {
        seq![Stage::SceneDetection]
    };
    let b = if s.noise_detection {
        seq![Stage::NoiseDetection, Stage::NoiseScaling]
    } else {
        Seq::<Stage>::empty()
    };
    let c = if s.workers_set {
        Seq::<Stage>::empty()
    } else {
        seq![Stage::Benchmark]
    };
    let d = if s.target_quality {
        if s.bitrate_threshold_set {
            seq![Stage::TargetQuality, Stage::BitrateOptimization]
        } else {
            seq![Stage::TargetQuality]
        }
    } else {
        Seq::<Stage>::empty()
    };
    let e = if s.speed_pairs >= 2 {
        seq![Stage::SpeedScaling]
    } else {
        Seq::<Stage>::empty()
    };
    let f = seq![Stage::ParallelEncoding, Stage::Concatenation];
    let all = a + b + c + d + e + f;
    assert(stages_of(s) == all);
    let k = a.len() + b.len() + c.len();
    assert(forall|j: int| 0 <= j < k ==> (a + b + c)[j] != Stage::BitrateOptimization);
    assert(forall|j: int| 0 <= j < k ==> all[j] == (a + b + c)[j]);
    assert(forall|j: int| 0 <= j < d.len() ==> all[k + j] == d[j]);
    assert(forall|j: int|
        k + d.len() <= j < all.len() ==> all[j] != Stage::BitrateOptimization);
}

/// How a run answers a Ctrl+C.
#[derive(Debug, Clone, Copy, PartialEq, Eq, Structural)]
pub enum InterruptResponse {
    /// A cancellation was already asked for: leave at once.
    ForceQuit,
    /// First request, output is not a terminal: print a notice that the
    /// current work finishes first, and go on.
    Notify,
    /// First request on a terminal: go on quietly; the screen shows it.
    Continue,
}

/// Answers a Ctrl+C: `already_cancelled` tells whether an earlier one asked
/// for cancellation; `stdout_is_terminal` whether the output is a terminal.
pub fn respond_to_interrupt(already_cancelled: bool, stdout_is_terminal: bool) -> (r:
    InterruptResponse)
    ensures
        r == (if already_cancelled {
            InterruptResponse::ForceQuit
        } else if !stdout_is_terminal {
            InterruptResponse::Notify
        } else {
            InterruptResponse::Continue
        }),
{
    if already_cancelled {
        InterruptResponse::ForceQuit
    } else if !stdout_is_terminal {
        InterruptResponse::Notify
    } else {
        InterruptResponse::Continue
    }
}

} // verus!
