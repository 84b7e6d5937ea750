//! The step-guard orchestrator: a linear chain of states, one planned step
//! per active state, a guard that turns any nonzero exit status into an
//! abort, and the failure plan that names what cleanup removes and what
//! status the run must exit with.

use vstd::prelude::*;
use vstd::string::StringExecFns;
use crate::command::{
    archive_step, copy_step, make_writeable_step, relink_step, rename_step, archive_file,
    copy_file_step, join_path, load_file, make_writeable_by_user, path_join, rename_file,
    ArchiveAction, PlannedStep, PlannedStepModel, ProgramOutput,
};

verus! {

/// The orchestrator's states. `Start` performs no external action; each
/// state from `CopyBase` to `AdjustPermissions2` has exactly one pending
/// step; `Done` and `Aborted` are terminal.
#[derive(Clone, Copy, PartialEq, Eq, Structural, Debug)]
pub enum PipelineState {
    Start,
    CopyBase,
    AdjustPermissions1,
    ExtractObject,
    RelinkSymbols,
    RenameObject,
    ReinsertObject,
    AdjustPermissions2,
    Done,
    Aborted,
}

/// The filesystem paths one pipeline run works on: the installed library it
/// copies, the new artifact it creates and mutates in place, and the two
/// object paths the relink goes through.
pub struct PipelinePaths {
    pub existing_lib: String,
    pub new_lib: String,
    pub obj_file: String,
    pub relinked_obj: String,
}

/// Derives the run's four paths from the build directory and the install
/// prefix the original library is expected under.
pub fn pipeline_paths(build_dir: &str, sdl_prefix: &str) -> (p: PipelinePaths)
    ensures
        p.existing_lib@ == path_join(sdl_prefix@, "libSDLmain.a"@),
        p.new_lib@ == path_join(build_dir@, "libSDLXmain.a"@),
        p.obj_file@ == path_join(build_dir@, "SDLMain.o"@),
        p.relinked_obj@ == path_join(build_dir@, "SDLXmain.o"@),
{
    PipelinePaths {
        existing_lib: join_path(sdl_prefix, "libSDLmain.a"),
        new_lib: join_path(build_dir, "libSDLXmain.a"),
        obj_file: join_path(build_dir, "SDLMain.o"),
        relinked_obj: join_path(build_dir, "SDLXmain.o"),
    }
}

/// Whether the state has a pending step.
pub open spec fn has_step(s: PipelineState) -> bool {
    match s {
        PipelineState::Start | PipelineState::Done | PipelineState::Aborted => false,
        _ => true,
    }
}

/// The successor of each state along the chain; terminal states stay put.
pub open spec fn next_state_spec(s: PipelineState) -> PipelineState {
    match s {
        PipelineState::Start => PipelineState::CopyBase,
        PipelineState::CopyBase => PipelineState::AdjustPermissions1,
        PipelineState::AdjustPermissions1 => PipelineState::ExtractObject,
        PipelineState::ExtractObject => PipelineState::RelinkSymbols,
        PipelineState::RelinkSymbols => PipelineState::RenameObject,
        PipelineState::RenameObject => PipelineState::ReinsertObject,
        PipelineState::ReinsertObject => PipelineState::AdjustPermissions2,
        PipelineState::AdjustPermissions2 => PipelineState::Done,
        PipelineState::Done => PipelineState::Done,
        PipelineState::Aborted => PipelineState::Aborted,
    }
}

/// The transition rule: terminal states absorb; `Start` enters the chain
/// without consulting any status, since it runs nothing; every other state
/// advances on status zero and aborts on anything else.
pub open spec fn advance_spec(s: PipelineState, status: i32) -> PipelineState {
    if s is Done || s is Aborted {
        s
    } else if s is Start {
        PipelineState::CopyBase
    } else if status == 0 {
        next_state_spec(s)
    } else {
        PipelineState::Aborted
    }
}

/// Advances the orchestrator by one observed exit status.
pub fn advance(s: PipelineState, status: i32) -> (r: PipelineState)
    ensures
        r == advance_spec(s, status),
{
    match s {
        PipelineState::Done => PipelineState::Done,
        PipelineState::Aborted => PipelineState::Aborted,
        PipelineState::Start => PipelineState::CopyBase,
        _ => {
            if status == 0 {
                match s {
                    PipelineState::CopyBase => PipelineState::AdjustPermissions1,
                    PipelineState::AdjustPermissions1 => PipelineState::ExtractObject,
                    PipelineState::ExtractObject => PipelineState::RelinkSymbols,
                    PipelineState::RelinkSymbols => PipelineState::RenameObject,
                    PipelineState::RenameObject => PipelineState::ReinsertObject,
                    PipelineState::ReinsertObject => PipelineState::AdjustPermissions2,
                    _ => PipelineState::Done,
                }
            } else {
                PipelineState::Aborted
            }
        },
    }
}

/// The step pending in each active state, with its exact command shape. The
/// relink renames the entry point `_main` to `_SDLX_main` and hides `main`.
pub open spec fn plan_spec(s: PipelineState, paths: PipelinePaths) -> Option<PlannedStepModel> {
    match s {
        PipelineState::CopyBase => Some(copy_step(paths.existing_lib@, paths.new_lib@)),
        PipelineState::AdjustPermissions1 => Some(make_writeable_step(paths.new_lib@)),
        PipelineState::ExtractObject => Some(
            archive_step(ArchiveAction::Extract, paths.new_lib@, paths.obj_file@),
        ),
        PipelineState::RelinkSymbols => Some(
            relink_step(
                paths.obj_file@,
                paths.relinked_obj@,
                seq![("_main"@, "_SDLX_main"@)],
                seq!["main"@],
            ),
        ),
        PipelineState::RenameObject => Some(rename_step(paths.relinked_obj@, paths.obj_file@)),
        PipelineState::ReinsertObject => Some(
            archive_step(ArchiveAction::Replace, paths.new_lib@, paths.obj_file@),
        ),
        PipelineState::AdjustPermissions2 => Some(make_writeable_step(paths.new_lib@)),
        _ => None,
    }
}

/// Plans the step pending in the given state: one is returned exactly for
/// the active states, and it is the step `plan_spec` describes.
pub fn plan_step(s: &PipelineState, paths: &PipelinePaths) -> (r: Option<PlannedStep>)
    ensures
        (r is Some) == has_step(*s),
        r matches Some(p) ==> Some(p@) == plan_spec(*s, *paths),
{
    match s {
        PipelineState::CopyBase => Some(
            copy_file_step(paths.existing_lib.as_str(), paths.new_lib.as_str()),
        ),
        PipelineState::AdjustPermissions1 => Some(make_writeable_by_user(paths.new_lib.as_str())),
        PipelineState::ExtractObject => Some(
            archive_file(ArchiveAction::Extract, paths.new_lib.as_str(), paths.obj_file.as_str()),
        ),
        PipelineState::RelinkSymbols => {
            let mut aliases: Vec<(String, String)> = Vec::new();
            aliases.push((String::from_str("_main"), String::from_str("_SDLX_main")));
            let mut hidden: Vec<String> = Vec::new();
            hidden.push(String::from_str("main"));
            assert(aliases.deep_view() =~= seq![("_main"@, "_SDLX_main"@)]);
            assert(hidden.deep_view() =~= seq!["main"@]);
            Some(
                load_file(paths.obj_file.as_str(), paths.relinked_obj.as_str(), &aliases, &hidden),
            )
        },
        PipelineState::RenameObject => Some(
            rename_file(paths.relinked_obj.as_str(), paths.obj_file.as_str()),
        ),
        PipelineState::ReinsertObject => Some(
            archive_file(ArchiveAction::Replace, paths.new_lib.as_str(), paths.obj_file.as_str()),
        ),
        PipelineState::AdjustPermissions2 => Some(make_writeable_by_user(paths.new_lib.as_str())),
        _ => None,
    }
}

/// The state reached from `s` after observing the given exit statuses, one
/// per executed step; the run stops early in a terminal state.
pub open spec fn run_from(s: PipelineState, statuses: Seq<i32>) -> PipelineState
    decreases statuses.len(),
{
    if statuses.len() == 0 || !has_step(s) {
        s
    } else {
        run_from(advance_spec(s, statuses[0]), statuses.drop_first())
    }
}

/// How many steps a run from `s` invokes before it stops.
pub open spec fn steps_invoked(s: PipelineState, statuses: Seq<i32>) -> nat
    decreases statuses.len(),
{
    if statuses.len() == 0 || !has_step(s) {
        0
    } else {
        1 + steps_invoked(advance_spec(s, statuses[0]), statuses.drop_first())
    }
}

/// The active state whose step is the `i`-th of the run, counting from
/// zero; position 7 is `Done`.
pub open spec fn state_at(i: int) -> PipelineState {
    if i == 0 {
        PipelineState::CopyBase
    } else if i == 1 {
        PipelineState::AdjustPermissions1
    } else if i == 2 {
        PipelineState::ExtractObject
    } else if i == 3 {
        PipelineState::RelinkSymbols
    } else if i == 4 {
        PipelineState::RenameObject
    } else if i == 5 {
        PipelineState::ReinsertObject
    } else if i == 6 {
        PipelineState::AdjustPermissions2
    } else {
        PipelineState::Done
    }
}

proof fn lemma_run_success_from(i: int, statuses: Seq<i32>)
    requires
        0 <= i <= 7,
        statuses.len() == 7 - i,
        forall|j: int| 0 <= j < statuses.len() ==> statuses[j] == 0,
    ensures
        run_from(state_at(i), statuses) == PipelineState::Done,
        steps_invoked(state_at(i), statuses) == 7 - i,
    decreases 7 - i,
{
    if i < 7 {
        assert(advance_spec(state_at(i), statuses[0]) == state_at(i + 1));
        lemma_run_success_from(i + 1, statuses.drop_first());
    }
}

proof fn lemma_run_failure_from(i: int, statuses: Seq<i32>, k: int)
    requires
        0 <= i <= 7,
        statuses.len() == 7 - i,
        0 <= k < statuses.len(),
        statuses[k] != 0,
        forall|j: int| 0 <= j < k ==> statuses[j] == 0,
    ensures
        run_from(state_at(i), statuses) == PipelineState::Aborted,
        steps_invoked(state_at(i), statuses) == k + 1,
    decreases k,
{
    if k == 0 {
        assert(advance_spec(state_at(i), statuses[0]) == PipelineState::Aborted);
        assert(run_from(PipelineState::Aborted, statuses.drop_first()) == PipelineState::Aborted);
        assert(steps_invoked(PipelineState::Aborted, statuses.drop_first()) == 0);
    } else {
        assert(advance_spec(state_at(i), statuses[0]) == state_at(i + 1));
        assert(forall|j: int|
            0 <= j < k - 1 ==> #[trigger] statuses.drop_first()[j] == statuses[j + 1] == 0);
        assert(statuses.drop_first()[k - 1] == statuses[k]);
        lemma_run_failure_from(i + 1, statuses.drop_first(), k - 1);
    }
}

/// Fail-fast law: over the seven planned steps, if the step at position `k`
/// is the first to return a nonzero status, the run ends `Aborted` having
/// invoked exactly the steps up to and including `k` — every later step is
/// never invoked. The chain is entered from `Start` without a command.
pub proof fn lemma_fail_fast(statuses: Seq<i32>, k: int)
    requires
        statuses.len() == 7,
        0 <= k < 7,
        statuses[k] != 0,
        forall|j: int| 0 <= j < k ==> statuses[j] == 0,
    ensures
        advance_spec(PipelineState::Start, 0) == PipelineState::CopyBase,
        run_from(PipelineState::CopyBase, statuses) == PipelineState::Aborted,
        steps_invoked(PipelineState::CopyBase, statuses) == k + 1,
{
    lemma_run_failure_from(0, statuses, k);
}

/// End-to-end success law: when every one of the seven steps reports status
/// zero, the run entered from `Start` invokes all seven steps and ends
/// `Done`.
pub proof fn lemma_pipeline_success(statuses: Seq<i32>)
    requires
        statuses.len() == 7,
        forall|j: int| 0 <= j < 7 ==> statuses[j] == 0,
    ensures
        advance_spec(PipelineState::Start, 0) == PipelineState::CopyBase,
        run_from(PipelineState::CopyBase, statuses) == PipelineState::Done,
        steps_invoked(PipelineState::CopyBase, statuses) == 7,
{
    lemma_run_success_from(0, statuses);
}

/// Everything the failure handler acts on: the artifact path its best-effort
/// cleanup removes, the failing command's label, exit status and captured
/// output streams for the diagnostic, all by value.
pub struct FailurePlan {
    pub remove_path: String,
    pub cmd: String,
    pub status: i32,
    pub out: String,
    pub err: String,
}

/// The guard's decision after one executed step.
pub enum StepOutcome {
    /// The step succeeded; the caller proceeds to the next state.
    Proceed,
    /// The step failed; the caller performs exactly this failure plan.
    Abort(FailurePlan),
}

/// The step guard: exit status zero is the only success signal. Any other
/// status yields an abort whose plan reports the full invocation and removes
/// the library artifact.
pub fn do_or(cmd: &String, output: &ProgramOutput, artifact: &String) -> (r: StepOutcome)
    ensures
        (r is Proceed) == (output.status == 0),
        output.status != 0 ==> (r matches StepOutcome::Abort(p) && p.remove_path@ == artifact@
            && p.cmd@ == cmd@ && p.status == output.status && p.out@ == output.out@ && p.err@
            == output.err@),
{
    if output.status == 0 {
        StepOutcome::Proceed
    } else {
        StepOutcome::Abort(
            FailurePlan {
                remove_path: artifact.clone(),
                cmd: cmd.clone(),
                status: output.status,
                out: output.out.clone(),
                err: output.err.clone(),
            },
        )
    }
}

/// The status the whole run exits with after a failure: the failing tool's
/// own status, or a fixed nonzero code if that status was somehow zero.
/// Whether the cleanup's deletion succeeded, failed, or found nothing to
/// delete never changes it: cleanup is best-effort and its outcome is
/// swallowed.
pub fn failure_exit_status(plan: &FailurePlan, _cleanup_succeeded: bool) -> (c: i32)
    ensures
        c == (if plan.status != 0 {
            plan.status
        } else {
            1i32
        }),
        c != 0,
{
    if plan.status != 0 {
        plan.status
    } else {
        1
    }
}

} // verus!
