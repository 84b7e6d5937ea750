use sdlpatch::command::{ProgramOutput, StepAction};
use sdlpatch::pipeline::{
    advance, do_or, failure_exit_status, pipeline_paths, plan_step, PipelineState, StepOutcome,
};

fn ok_output() -> ProgramOutput {
    ProgramOutput { status: 0, out: String::new(), err: String::new() }
}

fn failed_output(status: i32) -> ProgramOutput {
    ProgramOutput { status, out: "so".to_string(), err: "se".to_string() }
}

/// Runs the pipeline against a mock toolchain that fails at step
/// `fail_at` (1-based) with the given status, or never if `fail_at` is 0.
/// Returns the labels of the steps that were invoked and the final state.
fn run_mock(fail_at: usize, status: i32) -> (Vec<String>, PipelineState) {
    let paths = pipeline_paths("/build", "/usr/local/lib");
    let artifact = paths.new_lib.clone();
    let mut state = advance(PipelineState::Start, 0);
    let mut invoked: Vec<String> = Vec::new();
    while let Some(step) = plan_step(&state, &paths) {
        invoked.push(step.label.clone());
        let output = if fail_at != 0 && invoked.len() == fail_at {
            failed_output(status)
        } else {
            ok_output()
        };
        match do_or(&step.label, &output, &artifact) {
            StepOutcome::Proceed => {
                state = advance(state, 0);
            }
            StepOutcome::Abort(plan) => {
                assert_eq!(plan.remove_path, artifact);
                assert_eq!(plan.status, status);
                state = advance(state, output.status);
            }
        }
    }
    (invoked, state)
}

#[test]
fn pipeline_runs_all_seven_steps_in_order_on_success() {
    let (invoked, state) = run_mock(0, 0);
    assert_eq!(state, PipelineState::Done);
    assert_eq!(
        invoked,
        vec![
            "cp /usr/local/lib/libSDLmain.a /build/libSDLXmain.a".to_string(),
            "chmod u+rw /build/libSDLXmain.a".to_string(),
            "ar -x /build/libSDLXmain.a /build/SDLMain.o".to_string(),
            "ld -r /build/SDLMain.o -o /build/SDLXmain.o -alias _main _SDLX_main \
             -unexported_symbol main"
                .to_string(),
            "mv /build/SDLXmain.o /build/SDLMain.o".to_string(),
            "ar -r /build/libSDLXmain.a /build/SDLMain.o".to_string(),
            "chmod u+rw /build/libSDLXmain.a".to_string(),
        ]
    );
}

#[test]
fn fail_fast_skips_every_later_step() {
    for k in 1..=7usize {
        let (invoked, state) = run_mock(k, 3);
        assert_eq!(state, PipelineState::Aborted, "failure at step {k}");
        assert_eq!(invoked.len(), k, "steps after the failing one were invoked");
    }
}

#[test]
fn end_to_end_mock_archive_holds_renamed_object() {
    // Mock filesystem: the archive's one member and a few named files, each
    // carrying a content tag, so the final reinsertion shows exactly which
    // object identity was written back.
    let paths = pipeline_paths("/build", "/usr/local/lib");
    let mut archive_member = String::from("sdl-main-object");
    let mut files: Vec<(String, String)> = Vec::new();
    let mut state = advance(PipelineState::Start, 0);
    while let Some(step) = plan_step(&state, &paths) {
        match step.action {
            StepAction::CopyFile { .. } | StepAction::MakeWriteable { .. } => {}
            StepAction::RenameFile { from, to } => {
                let content = lookup(&files, &from).expect("renamed file must exist");
                files.retain(|(name, _)| *name != from && *name != to);
                files.push((to, content));
            }
            StepAction::RunProgram(line) => match line.args[0].as_str() {
                "-x" => {
                    // Extract the archive's member into the named file.
                    files.push((line.args[2].clone(), archive_member.clone()));
                }
                "-r" if line.program == "ar" => {
                    // Reinsert the named file as the archive's member.
                    archive_member = lookup(&files, &line.args[2]).expect("member must exist");
                }
                "-r" => {
                    // Relink: the output object is the input with the alias
                    // applied and the hidden symbol removed.
                    let input = lookup(&files, &line.args[1]).expect("input object must exist");
                    let output = line.args[3].clone();
                    files.push((output, format!("{input}+alias _main _SDLX_main -main")));
                }
                other => panic!("unexpected program flag {other}"),
            },
        }
        state = advance(state, 0);
    }
    assert_eq!(state, PipelineState::Done);
    assert_eq!(archive_member, "sdl-main-object+alias _main _SDLX_main -main");
}

fn lookup(files: &[(String, String)], name: &str) -> Option<String> {
    files.iter().rev().find(|(n, _)| n == name).map(|(_, c)| c.clone())
}

#[test]
fn guard_proceeds_only_on_status_zero() {
    let artifact = "/build/libSDLXmain.a".to_string();
    let cmd = "ar -x a b".to_string();
    assert!(matches!(do_or(&cmd, &ok_output(), &artifact), StepOutcome::Proceed));
    match do_or(&cmd, &failed_output(42), &artifact) {
        StepOutcome::Abort(plan) => {
            assert_eq!(plan.remove_path, artifact);
            assert_eq!(plan.cmd, cmd);
            assert_eq!(plan.status, 42);
            assert_eq!(plan.out, "so");
            assert_eq!(plan.err, "se");
        }
        StepOutcome::Proceed => panic!("a nonzero status must abort"),
    }
}

#[test]
fn cleanup_outcome_never_changes_the_exit_status() {
    let plan = match do_or(&"cp a b".to_string(), &failed_output(9), &"b".to_string()) {
        StepOutcome::Abort(plan) => plan,
        StepOutcome::Proceed => panic!("a nonzero status must abort"),
    };
    // Whether the artifact was deleted, was already absent, or could not be
    // deleted, the run exits with the failing status.
    assert_eq!(failure_exit_status(&plan, true), 9);
    assert_eq!(failure_exit_status(&plan, false), 9);
}

#[test]
fn pipeline_paths_are_derived_from_build_dir_and_prefix() {
    let paths = pipeline_paths("/b", "/opt/sdl");
    assert_eq!(paths.existing_lib, "/opt/sdl/libSDLmain.a");
    assert_eq!(paths.new_lib, "/b/libSDLXmain.a");
    assert_eq!(paths.obj_file, "/b/SDLMain.o");
    assert_eq!(paths.relinked_obj, "/b/SDLXmain.o");
}

#[test]
fn terminal_states_absorb() {
    assert_eq!(advance(PipelineState::Done, 1), PipelineState::Done);
    assert_eq!(advance(PipelineState::Aborted, 0), PipelineState::Aborted);
    assert_eq!(advance(PipelineState::Start, 0), PipelineState::CopyBase);
}
