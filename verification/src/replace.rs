//! Replacing the running executable with the downloaded payload.
//!
//! An executable file may be locked by its own running process, so the
//! commit is planned per platform: the direct-overwrite strategy writes
//! the payload onto the target and sets its execute permission bit (safe
//! where the OS keeps serving the old inode to the running process), and
//! the deferred-move strategy writes the payload to a temporary file and
//! hands the rename onto the target to a detached external step (needed
//! where the OS forbids a process to overwrite its own executable). The
//! plan is built and proved here; the surrounding application performs
//! its steps against the real filesystem.

use vstd::prelude::*;
use vstd::string::*;

use crate::platform::Platform;

verus! {

/// How the new binary is committed over the running executable.
#[derive(Clone, Copy, Debug, PartialEq, Eq, Structural)]
pub enum ReplaceStrategy {
    /// Write the payload straight onto the target path, then set its
    /// execute permission bit.
    DirectOverwrite,
    /// Write the payload to a temporary file and schedule a detached
    /// external move of that file onto the target path.
    DeferredMove,
}

/// The strategy for a host platform: the platform that locks a running
/// executable takes the deferred move, the others the direct overwrite.
pub fn replace_strategy(platform: Platform) -> (s: ReplaceStrategy)
    ensures
        s == (match platform {
            Platform::Windows => ReplaceStrategy::DeferredMove,
            Platform::Linux => ReplaceStrategy::DirectOverwrite,
            Platform::Macos => ReplaceStrategy::DirectOverwrite,
        }),
{
    match platform {
        Platform::Windows => ReplaceStrategy::DeferredMove,
        Platform::Linux => ReplaceStrategy::DirectOverwrite,
        Platform::Macos => ReplaceStrategy::DirectOverwrite,
    }
}

/// One filesystem action of a replace plan, performed by the
/// surrounding application in plan order.
#[derive(Debug, PartialEq, Eq)]
pub enum ReplaceStep {
    /// Write `contents` to the file at `path`, creating or truncating it.
    WriteFile { path: String, contents: Vec<u8> },
    /// Set the execute permission bit of the file at `path`.
    SetExecutable { path: String },
    /// Hand a move of the file at `from` onto `to` to a detached
    /// external step, replacing `to`.
    ScheduleMove { from: String, to: String },
}

/// Whether a step writes exactly `contents` to `path`.
pub open spec fn is_write_step(step: ReplaceStep, path: Seq<char>, contents: Seq<u8>) -> bool {
    match step {
        ReplaceStep::WriteFile { path: p, contents: c } => p@ == path && c@ == contents,
        _ => false,
    }
}

/// Whether a step sets the execute permission bit of `path`.
pub open spec fn is_set_executable_step(step: ReplaceStep, path: Seq<char>) -> bool {
    match step {
        ReplaceStep::SetExecutable { path: p } => p@ == path,
        _ => false,
    }
}

/// Whether a step schedules the external move of `from` onto `to`.
pub open spec fn is_move_step(step: ReplaceStep, from: Seq<char>, to: Seq<char>) -> bool {
    match step {
        ReplaceStep::ScheduleMove { from: f, to: t } => f@ == from && t@ == to,
        _ => false,
    }
}

/// The plan that commits `payload` to `target_path` under a strategy.
/// Both strategies write the payload exactly once: the direct overwrite
/// onto the target itself, then marks it executable; the deferred move
/// into the temporary file, then schedules the external move of that
/// file onto the target.
pub fn replace_plan(
    strategy: ReplaceStrategy,
    target_path: &str,
    temp_path: &str,
    payload: Vec<u8>,
) -> (steps: Vec<ReplaceStep>)
    ensures
        steps@.len() == 2,
        strategy == ReplaceStrategy::DirectOverwrite ==> {
            &&& is_write_step(steps@[0], target_path@, payload@)
            &&& is_set_executable_step(steps@[1], target_path@)
        },
        strategy == ReplaceStrategy::DeferredMove ==> {
            &&& is_write_step(steps@[0], temp_path@, payload@)
            &&& is_move_step(steps@[1], temp_path@, target_path@)
        },
{
    let mut steps: Vec<ReplaceStep> = Vec::new();
    match strategy {
        ReplaceStrategy::DirectOverwrite => {
            steps.push(ReplaceStep::WriteFile {
                path: String::from_str(target_path),
                contents: payload,
            });
            steps.push(ReplaceStep::SetExecutable { path: String::from_str(target_path) });
        },
        ReplaceStrategy::DeferredMove => {
            steps.push(ReplaceStep::WriteFile {
                path: String::from_str(temp_path),
                contents: payload,
            });
            steps.push(ReplaceStep::ScheduleMove {
                from: String::from_str(temp_path),
                to: String::from_str(target_path),
            });
        },
    }
    steps
}

/// A file as the replace model sees it: its contents and whether its
/// execute permission bit is set.
pub struct FileModel {
    /// The bytes the file holds.
    pub contents: Seq<u8>,
    /// Whether the execute permission bit is set.
    pub executable: bool,
}

/// The effect of one plan step on a filesystem, modelled as a map from
/// paths to files. A write keeps an existing file's permission bit and
/// creates a new file without it; setting the bit on a missing path and
/// moving a missing path change nothing; a move carries the file, with
/// its permission bit, onto the destination and removes the source.
pub open spec fn apply_step(
    fs: Map<Seq<char>, FileModel>,
    step: ReplaceStep,
) -> Map<Seq<char>, FileModel> {
    match step {
        ReplaceStep::WriteFile { path, contents } => fs.insert(
            path@,
            FileModel {
                contents: contents@,
                executable: fs.contains_key(path@) && fs[path@].executable,
            },
        ),
        ReplaceStep::SetExecutable { path } => if fs.contains_key(path@) {
            fs.insert(path@, FileModel { contents: fs[path@].contents, executable: true })
        } else {
            fs
        },
        ReplaceStep::ScheduleMove { from, to } => if fs.contains_key(from@) {
            fs.remove(from@).insert(to@, fs[from@])
        } else {
            fs
        },
    }
}

/// The effect of a whole plan, steps applied in order.
pub open spec fn apply_plan(
    fs: Map<Seq<char>, FileModel>,
    steps: Seq<ReplaceStep>,
) -> Map<Seq<char>, FileModel>
    decreases steps.len(),
{
    if steps.len() == 0 {
        fs
    } else {
        apply_step(apply_plan(fs, steps.drop_last()), steps.last())
    }
}

/// After a direct-overwrite plan succeeds, the target file holds
/// exactly the payload bytes and its execute permission bit is set —
/// whatever the filesystem held before — and no other path is touched.
pub proof fn lemma_direct_overwrite_effect(
    fs: Map<Seq<char>, FileModel>,
    steps: Seq<ReplaceStep>,
    target: Seq<char>,
    payload: Seq<u8>,
)
    requires
        steps.len() == 2,
        is_write_step(steps[0], target, payload),
        is_set_executable_step(steps[1], target),
    ensures
        apply_plan(fs, steps).contains_key(target),
        apply_plan(fs, steps)[target].contents == payload,
        apply_plan(fs, steps)[target].executable,
        forall|p: Seq<char>|
            p != target ==> apply_plan(fs, steps).contains_key(p) == fs.contains_key(p),
        forall|p: Seq<char>|
            p != target && fs.contains_key(p) ==> apply_plan(fs, steps)[p] == fs[p],
{
    let sub = steps.drop_last();
    assert(sub.drop_last() =~= Seq::<ReplaceStep>::empty());
    assert(apply_plan(fs, sub.drop_last()) == fs);
    assert(sub.last() == steps[0]);
    let written = apply_step(fs, steps[0]);
    assert(apply_plan(fs, sub) == written);
    assert(written.contains_key(target));
    assert(written[target].contents == payload);
}

/// After a deferred-move plan runs to completion — the write to the
/// temporary file, then the external move — the target holds exactly
/// the payload bytes, the temporary file is gone, and no other path is
/// touched.
pub proof fn lemma_deferred_move_effect(
    fs: Map<Seq<char>, FileModel>,
    steps: Seq<ReplaceStep>,
    temp: Seq<char>,
    target: Seq<char>,
    payload: Seq<u8>,
)
    requires
        steps.len() == 2,
        is_write_step(steps[0], temp, payload),
        is_move_step(steps[1], temp, target),
        temp != target,
    ensures
        apply_plan(fs, steps).contains_key(target),
        apply_plan(fs, steps)[target].contents == payload,
        !apply_plan(fs, steps).contains_key(temp),
        forall|p: Seq<char>|
            p != target && p != temp ==> apply_plan(fs, steps).contains_key(p) == fs.contains_key(
                p,
            ),
        forall|p: Seq<char>|
            p != target && p != temp && fs.contains_key(p) ==> apply_plan(fs, steps)[p] == fs[p],
{
    let sub = steps.drop_last();
    assert(sub.drop_last() =~= Seq::<ReplaceStep>::empty());
    assert(apply_plan(fs, sub.drop_last()) == fs);
    assert(sub.last() == steps[0]);
    let written = apply_step(fs, steps[0]);
    assert(apply_plan(fs, sub) == written);
    assert(written.contains_key(temp));
    assert(written[temp].contents == payload);
}

} // verus!
