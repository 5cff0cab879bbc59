use circuitikz_grid::pipeline::{
    assemble_source, begin_compile, plan_generation, start, step, GenError, GenerationOutcome,
    PipelineAction, PipelineEvent, PipelineState, SpawnOutcome,
};
use circuitikz_grid::render::render;
use circuitikz_grid::scene::{ComponentType, PlacedComponent, Scene};

fn valid_scene() -> Scene {
    let mut s = Scene::new(10, 10).expect("valid dimensions");
    s.add_component(PlacedComponent {
        kind: ComponentType::Nmos,
        x: 5,
        y: 5,
    });
    s
}

fn failure_message(state: &PipelineState) -> String {
    match state {
        PipelineState::Done(GenerationOutcome::Failure(m)) => m.clone(),
        other => panic!("expected a failure outcome, got {:?}", other),
    }
}

#[test]
fn source_assembly_wraps_body_in_document() {
    let header = String::from("H");
    let body = String::from("B");
    assert_eq!(
        assemble_source(&header, &body),
        "H\n\\begin{document}\nB\n\\end{document}\n"
    );
}

#[test]
fn begin_compile_starts_at_the_write_stage() {
    let scene = valid_scene();
    let (header, body) = render(&scene);
    let st = begin_compile(&header, &body, "grid");
    assert_eq!(st, start(&scene, "grid"));
}

#[test]
fn start_of_valid_scene_asks_to_write_the_source() {
    let scene = valid_scene();
    let (header, body) = render(&scene);
    let st = start(&scene, "grid");
    match st.action() {
        PipelineAction::WriteFile { path, contents } => {
            assert_eq!(path, "grid.tex");
            assert_eq!(contents, assemble_source(&header, &body));
        }
        other => panic!("expected a write action, got {:?}", other),
    }
}

#[test]
fn start_of_invalid_scene_fails_validation_without_any_file_action() {
    let scene = Scene {
        width: 0,
        height: 5,
        components: Vec::new(),
    };
    let st = start(&scene, "grid");
    assert_eq!(failure_message(&st), "Grid dimensions must be positive");
    match st.action() {
        PipelineAction::Report(GenerationOutcome::Failure(m)) => {
            assert_eq!(m, "Grid dimensions must be positive");
        }
        other => panic!("expected a report action, got {:?}", other),
    }
}

#[test]
fn write_failure_is_an_io_error() {
    let st = start(&valid_scene(), "grid");
    let st = step(
        st,
        PipelineEvent::SourceWritten(Err(String::from("permission denied"))),
    );
    assert_eq!(
        failure_message(&st),
        "Failed to write LaTeX file: permission denied"
    );
}

#[test]
fn unsuccessful_exit_is_a_compile_failure() {
    let st = PipelineState::Compiling {
        base: String::from("grid"),
    };
    let st = step(
        st,
        PipelineEvent::CompilerFinished(SpawnOutcome::Exited(false)),
    );
    let msg = failure_message(&st);
    assert_eq!(msg, "pdflatex failed to compile the LaTeX code.");
    // distinct from the other classifications, whatever reason they carry
    assert_ne!(msg, GenError::IoError(String::from("anything")).message());
    assert_ne!(
        msg,
        GenError::ProcessSpawnError(String::from("anything")).message()
    );
}

#[test]
fn spawn_failure_is_a_process_spawn_error() {
    let st = PipelineState::Compiling {
        base: String::from("grid"),
    };
    let st = step(
        st,
        PipelineEvent::CompilerFinished(SpawnOutcome::SpawnFailed(String::from(
            "No such file or directory",
        ))),
    );
    let msg = failure_message(&st);
    assert_eq!(msg, "Failed to run pdflatex: No such file or directory");
    assert_ne!(msg, GenError::CompileFailed.message());
    assert_ne!(
        msg,
        GenError::IoError(String::from("No such file or directory")).message()
    );
}

#[test]
fn absent_aux_and_log_files_never_fail_the_run() {
    let st = PipelineState::CleaningUp {
        base: String::from("grid"),
        open_failure: None,
    };
    let st = step(
        st,
        PipelineEvent::CleanupFinished(
            Err(String::from("No such file or directory")),
            Err(String::from("No such file or directory")),
        ),
    );
    assert_eq!(st, PipelineState::Done(GenerationOutcome::Success));
}

#[test]
fn open_failure_is_reported_after_cleanup() {
    let st = PipelineState::Opening {
        base: String::from("grid"),
    };
    let st = step(
        st,
        PipelineEvent::OpenFinished(Err(String::from("no handler"))),
    );
    match st.action() {
        PipelineAction::RemoveFiles { aux_path, log_path } => {
            assert_eq!(aux_path, "grid.aux");
            assert_eq!(log_path, "grid.log");
        }
        other => panic!("expected a cleanup action, got {:?}", other),
    }
    let st = step(st, PipelineEvent::CleanupFinished(Ok(()), Ok(())));
    assert_eq!(failure_message(&st), "Failed to open PDF: no handler");
}

#[test]
fn all_stages_succeeding_ends_in_success() {
    let scene = Scene::new(10, 10).expect("valid dimensions");
    let mut st = start(&scene, "grid");
    match st.action() {
        PipelineAction::WriteFile { path, .. } => assert_eq!(path, "grid.tex"),
        other => panic!("expected a write action, got {:?}", other),
    }
    st = step(st, PipelineEvent::SourceWritten(Ok(())));
    match st.action() {
        PipelineAction::RunCompiler { source_path } => assert_eq!(source_path, "grid.tex"),
        other => panic!("expected a compile action, got {:?}", other),
    }
    st = step(
        st,
        PipelineEvent::CompilerFinished(SpawnOutcome::Exited(true)),
    );
    match st.action() {
        PipelineAction::OpenDocument { path } => assert_eq!(path, "grid.pdf"),
        other => panic!("expected an open action, got {:?}", other),
    }
    st = step(st, PipelineEvent::OpenFinished(Ok(())));
    st = step(
        st,
        PipelineEvent::CleanupFinished(Err(String::from("already gone")), Ok(())),
    );
    assert!(st.is_done());
    assert_eq!(st, PipelineState::Done(GenerationOutcome::Success));
}

#[test]
fn plan_accepts_textual_dimensions() {
    let comps = vec![PlacedComponent {
        kind: ComponentType::Nmos,
        x: 5,
        y: 5,
    }];
    let st = plan_generation("10", "10", &comps, "grid");
    let scene = valid_scene();
    assert_eq!(st, start(&scene, "grid"));
}

#[test]
fn plan_rejects_bad_width_text() {
    let st = plan_generation("abc", "10", &Vec::new(), "grid");
    assert_eq!(failure_message(&st), "Invalid grid X coordinate");
}

#[test]
fn plan_rejects_bad_height_text() {
    let st = plan_generation("10", "", &Vec::new(), "grid");
    assert_eq!(failure_message(&st), "Invalid grid Y coordinate");
}

#[test]
fn plan_rejects_zero_dimension() {
    let st = plan_generation("0", "5", &Vec::new(), "grid");
    assert_eq!(failure_message(&st), "Grid dimensions must be positive");
}

#[test]
fn error_messages_name_each_kind() {
    assert_eq!(
        GenError::ValidationError(String::from("bad")).message(),
        "bad"
    );
    assert_eq!(
        GenError::IoError(String::from("disk full")).message(),
        "Failed to write LaTeX file: disk full"
    );
    assert_eq!(
        GenError::ProcessSpawnError(String::from("not found")).message(),
        "Failed to run pdflatex: not found"
    );
    assert_eq!(
        GenError::CompileFailed.message(),
        "pdflatex failed to compile the LaTeX code."
    );
    assert_eq!(
        GenError::OpenError(String::from("denied")).message(),
        "Failed to open PDF: denied"
    );
}

#[test]
fn mismatched_event_leaves_the_state_alone() {
    let st = PipelineState::Compiling {
        base: String::from("grid"),
    };
    let st = step(st, PipelineEvent::OpenFinished(Ok(())));
    assert_eq!(
        st,
        PipelineState::Compiling {
            base: String::from("grid"),
        }
    );
}
