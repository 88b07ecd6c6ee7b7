//! Bookkeeping of the parallel encoder's progress: the scenes being encoded
//! right now, and the reports printed about them.
use vstd::prelude::*;

use std::collections::BTreeMap;

verus! {

/// Progress of one scene that is being encoded. `started` is a reading of a
/// monotonic clock, in nanoseconds.
#[derive(Debug, Clone)]
pub struct SceneProgressInfo {
    pub scene_index: u64,
    pub current_pass: u8,
    pub total_passes: u8,
    pub frames_processed: u64,
    pub total_frames: u64,
    pub started: u64,
}

/// Progress of one scene, as reported on the console.
#[derive(Debug, Clone)]
pub struct SceneProgress {
    pub index: u64,
    current_pass: u8,
    total_passes: u8,
    current_frame: u64,
    total_frames: u64,
}

impl SceneProgress {
    /// The scene's index.
    pub closed spec fn scene(self) -> u64 {
        self.index
    }

    /// The pass being run.
    pub closed spec fn pass(self) -> u8 {
        self.current_pass
    }

    /// The number of passes.
    pub closed spec fn passes(self) -> u8 {
        self.total_passes
    }

    /// The frames done in the current pass.
    pub closed spec fn frame(self) -> u64 {
        self.current_frame
    }

    /// The frames of the scene.
    pub closed spec fn frames(self) -> u64 {
        self.total_frames
    }

    /// A progress record for scene `index`.
    pub fn new(
        index: u64,
        current_pass: u8,
        total_passes: u8,
        current_frame: u64,
        total_frames: u64,
    ) -> (r: SceneProgress)
        ensures
            r.scene() == index,
            r.pass() == current_pass,
            r.passes() == total_passes,
            r.frame() == current_frame,
            r.frames() == total_frames,
    {
        SceneProgress { index, current_pass, total_passes, current_frame, total_frames }
    }

    /// The pass being run.
    pub fn current_pass(&self) -> (r: u8)
        ensures
            r == self.pass(),
    {
        self.current_pass
    }

    /// The number of passes.
    pub fn total_passes(&self) -> (r: u8)
        ensures
            r == self.passes(),
    {
        self.total_passes
    }

    /// The frames done in the current pass.
    pub fn current_frame(&self) -> (r: u64)
        ensures
            r == self.frame(),
    {
        self.current_frame
    }

    /// The frames of the scene.
    pub fn total_frames(&self) -> (r: u64)
        ensures
            r == self.frames(),
    {
        self.total_frames
    }
}

/// A report of the parallel encoder, as printed to the console when the
/// output is not a terminal.
#[derive(Debug, Clone)]
pub enum ParallelEncoderConsoleEvent {
    Progress { scene: SceneProgress, current_frame: u64, total_frames: u64 },
    /// `time` is in milliseconds since the UNIX epoch.
    NewScene { scene_index: u64, time: u128 },
    SceneSize { scene_index: u64, bytes: u64 },
}

/// The table of active scenes after a progress report on `scene`, received at
/// time `now`: an existing row takes the new pass and frame count; a missing
/// row is created, starting its clock at `now`.
pub open spec fn after_scene_progress(
    active: Map<u64, SceneProgressInfo>,
    scene: u64,
    current_pass: u8,
    total_passes: u8,
    current_frame: u64,
    total_frames: u64,
    now: u64,
) -> Map<u64, SceneProgressInfo> {
    if active.contains_key(scene) {
        active.insert(
            scene,
            SceneProgressInfo {
                current_pass,
                total_passes,
                frames_processed: current_frame,
                ..active[scene]
            },
        )
    } else {
        active.insert(
            scene,
            SceneProgressInfo {
                scene_index: scene,
                current_pass,
                total_passes,
                frames_processed: current_frame,
                total_frames,
                started: now,
            },
        )
    }
}

/// Records a progress report on `scene`, received at time `now`.
pub fn record_scene_progress(
    active: &mut BTreeMap<u64, SceneProgressInfo>,
    scene: u64,
    current_pass: u8,
    total_passes: u8,
    current_frame: u64,
    total_frames: u64,
    now: u64,
)
    ensures
        final(active)@ == after_scene_progress(
            old(active)@,
            scene,
            current_pass,
            total_passes,
            current_frame,
            total_frames,
            now,
        ),
{
    let ghost before = active@;
    let row = active.remove(&scene);
    match row {
        Some(info) => {
            let mut info = info;
            info.current_pass = current_pass;
            info.total_passes = total_passes;
            info.frames_processed = current_frame;
            let ghost updated = info;
            active.insert(scene, info);
            assert(active@ =~= before.insert(scene, updated));
        },
        None => {
            active.insert(
                scene,
                SceneProgressInfo {
                    scene_index: scene,
                    current_pass,
                    total_passes,
                    frames_processed: current_frame,
                    total_frames,
                    started: now,
                },
            );
        },
    }
}

/// Records that `scene` is done: it leaves the table of active scenes.
pub fn record_scene_completed(active: &mut BTreeMap<u64, SceneProgressInfo>, scene: u64)
    ensures
        final(active)@ == old(active)@.remove(scene),
{
    active.remove(&scene);
}

/// The number of scenes whose encoded size is known and not zero.
pub open spec fn encoded_count(bytes: Seq<Option<u64>>) -> nat
    decreases bytes.len(),
{
    if bytes.len() == 0 {
        0
    } else {
        encoded_count(bytes.drop_last()) + if bytes.last() matches Some(b) && b > 0 {
            1nat
        } else {
            0nat
        }
    }
}

proof fn lemma_encoded_count_bound(bytes: Seq<Option<u64>>)
    ensures
        encoded_count(bytes) <= bytes.len(),
    decreases bytes.len(),
{
    if bytes.len() > 0 {
        lemma_encoded_count_bound(bytes.drop_last());
    }
}

/// Counts the scenes already encoded: those whose recorded size is known and
/// not zero. `bytes` holds the recorded size of each scene.
pub fn completed_scene_count(bytes: &[Option<u64>]) -> (r: usize)
    ensures
        r == encoded_count(bytes@),
{
    let mut count: usize = 0;
    let mut i: usize = 0;
    while i < bytes.len()
        invariant
            i <= bytes@.len(),
            count == encoded_count(bytes@.take(i as int)),
        decreases bytes@.len() - i,
    {
        proof {
            assert(bytes@.take(i + 1).drop_last() =~= bytes@.take(i as int));
            lemma_encoded_count_bound(bytes@.take(i + 1));
        }
        if let Some(b) = bytes[i] {
            if b > 0 {
                count = count + 1;
            }
        }
        i = i + 1;
    }
    assert(bytes@.take(i as int) =~= bytes@);
    count
}

/// A progress report on a scene changes only that scene's row: an existing
/// row takes the new pass, pass count and frame count and keeps its start
/// time, scene index and frame total; a new row starts its clock at the
/// report's time.
pub proof fn lemma_scene_progress_row(
    active: Map<u64, SceneProgressInfo>,
    scene: u64,
    current_pass: u8,
    total_passes: u8,
    current_frame: u64,
    total_frames: u64,
    now: u64,
)
    ensures
        ({
            let after = after_scene_progress(
                active,
                scene,
                current_pass,
                total_passes,
                current_frame,
                total_frames,
                now,
            );
            &&& after.dom() == active.dom().insert(scene)
            &&& forall|other: u64|
                other != scene && #[trigger] active.contains_key(other) ==> after[other]
                    == active[other]
            &&& after[scene].current_pass == current_pass
            &&& after[scene].total_passes == total_passes
            &&& after[scene].frames_processed == current_frame
            &&& if active.contains_key(scene) {
                &&& after[scene].started == active[scene].started
                &&& after[scene].scene_index == active[scene].scene_index
                &&& after[scene].total_frames == active[scene].total_frames
            } else {
                &&& after[scene].started == now
                &&& after[scene].scene_index == scene
                &&& after[scene].total_frames == total_frames
            }
        }),
{
    let after = after_scene_progress(
        active,
        scene,
        current_pass,
        total_passes,
        current_frame,
        total_frames,
        now,
    );
    assert(after.dom() =~= active.dom().insert(scene));
}

/// One recorded size counts as an encoded scene exactly when it is known
/// and not zero.
pub proof fn lemma_encoded_count_one(size: Option<u64>)
    ensures
        encoded_count(seq![size]) == (if size matches Some(b) && b > 0 {
            1nat
        } else {
            0nat
        }),
{
    let t = seq![size];
    assert(t.drop_last() =~= Seq::<Option<u64>>::empty());
    assert(encoded_count(t.drop_last()) == 0);
    assert(t.last() == size);
}

/// Counting the encoded scenes of two lists of sizes one after the other
/// adds their counts.
pub proof fn lemma_encoded_count_parts(a: Seq<Option<u64>>, b: Seq<Option<u64>>)
    ensures
        encoded_count(a + b) == encoded_count(a) + encoded_count(b),
    decreases b.len(),
{
    if b.len() == 0 {
        assert(a + b =~= a);
    } else {
        lemma_encoded_count_parts(a, b.drop_last());
        assert((a + b).drop_last() =~= a + b.drop_last());
        assert((a + b).last() == b.last());
    }
}

} // verus!
