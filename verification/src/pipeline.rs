//! The generation pipeline, modeled as an explicit state machine. The library
//! decides every transition (what to do next, how to classify a failure); the
//! caller performs the filesystem and process work each state asks for and
//! feeds the result back as an event.
//!
//! One run walks: write the assembled source, run the external compiler on it,
//! open the produced document, delete the auxiliary and log by-products, and
//! report a single outcome. Any failure before the cleanup stage ends the run
//! with a message classifying that stage's error; cleanup results are ignored
//! by design.

use vstd::prelude::*;
use vstd::string::*;
use crate::numeral::numeral_value;
use crate::numeral::parse_usize;
use crate::render::{body_text, header_text, render};
use crate::scene::{clone_components, PlacedComponent, Scene};

verus! {

/// The result of one pipeline run: success, or a human-readable failure
/// message.
#[derive(Debug, PartialEq)]
pub enum GenerationOutcome {
    Success,
    Failure(String),
}

/// Mathematical value of a `GenerationOutcome`.
pub enum OutcomeView {
    Success,
    Failure(Seq<char>),
}

impl View for GenerationOutcome {
    type V = OutcomeView;

    open spec fn view(&self) -> OutcomeView {
        match self {
            GenerationOutcome::Success => OutcomeView::Success,
            GenerationOutcome::Failure(m) => OutcomeView::Failure(m@),
        }
    }
}

impl GenerationOutcome {
    /// A copy of this outcome with the same value.
    pub fn duplicate(&self) -> (r: GenerationOutcome)
        ensures
            r@ == self@,
    {
        match self {
            GenerationOutcome::Success => GenerationOutcome::Success,
            GenerationOutcome::Failure(m) => GenerationOutcome::Failure(m.clone()),
        }
    }
}

/// The error of one pipeline stage. Payload strings carry the underlying
/// operating-system reason where one exists.
#[derive(Debug, PartialEq)]
pub enum GenError {
    /// The scene or its textual inputs were rejected before any I/O.
    ValidationError(String),
    /// Writing the source file failed.
    IoError(String),
    /// The compiler binary could not be spawned.
    ProcessSpawnError(String),
    /// The compiler ran and reported failure; no diagnostics are attached.
    CompileFailed,
    /// The produced document could not be opened in the platform viewer.
    OpenError(String),
}

/// Mathematical value of a `GenError`.
pub enum GenErrorView {
    ValidationError(Seq<char>),
    IoError(Seq<char>),
    ProcessSpawnError(Seq<char>),
    CompileFailed,
    OpenError(Seq<char>),
}

impl View for GenError {
    type V = GenErrorView;

    open spec fn view(&self) -> GenErrorView {
        match self {
            GenError::ValidationError(m) => GenErrorView::ValidationError(m@),
            GenError::IoError(m) => GenErrorView::IoError(m@),
            GenError::ProcessSpawnError(m) => GenErrorView::ProcessSpawnError(m@),
            GenError::CompileFailed => GenErrorView::CompileFailed,
            GenError::OpenError(m) => GenErrorView::OpenError(m@),
        }
    }
}

/// The one human-readable message of each error kind.
pub open spec fn error_message(e: GenErrorView) -> Seq<char> {
    match e {
        GenErrorView::ValidationError(m) => m,
        GenErrorView::IoError(r) => "Failed to write LaTeX file: "@ + r,
        GenErrorView::ProcessSpawnError(r) => "Failed to run pdflatex: "@ + r,
        GenErrorView::CompileFailed => "pdflatex failed to compile the LaTeX code."@,
        GenErrorView::OpenError(r) => "Failed to open PDF: "@ + r,
    }
}

impl GenError {
    /// The message a caller shows for this error.
    pub fn message(&self) -> (r: String)
        ensures
            r@ == error_message(self@),
    {
        match self {
            GenError::ValidationError(m) => m.clone(),
            GenError::IoError(reason) => {
                let mut r = String::from_str("Failed to write LaTeX file: ");
                r.append(reason.as_str());
                r
            },
            GenError::ProcessSpawnError(reason) => {
                let mut r = String::from_str("Failed to run pdflatex: ");
                r.append(reason.as_str());
                r
            },
            GenError::CompileFailed => String::from_str(
                "pdflatex failed to compile the LaTeX code.",
            ),
            GenError::OpenError(reason) => {
                let mut r = String::from_str("Failed to open PDF: ");
                r.append(reason.as_str());
                r
            },
        }
    }
}

/// How an attempt to run the external compiler ended: the process ran to an
/// exit status (successful or not), or it could not be spawned at all.
#[derive(Debug, PartialEq)]
pub enum SpawnOutcome {
    Exited(bool),
    SpawnFailed(String),
}

/// Mathematical value of a `SpawnOutcome`.
pub enum SpawnOutcomeView {
    Exited(bool),
    SpawnFailed(Seq<char>),
}

impl View for SpawnOutcome {
    type V = SpawnOutcomeView;

    open spec fn view(&self) -> SpawnOutcomeView {
        match self {
            SpawnOutcome::Exited(ok) => SpawnOutcomeView::Exited(*ok),
            SpawnOutcome::SpawnFailed(r) => SpawnOutcomeView::SpawnFailed(r@),
        }
    }
}

/// What the caller reports back after performing the action a state asked for.
/// The two cleanup payloads are the deletion results of the auxiliary and log
/// files; the pipeline ignores them by design.
#[derive(Debug, PartialEq)]
pub enum PipelineEvent {
    SourceWritten(Result<(), String>),
    CompilerFinished(SpawnOutcome),
    OpenFinished(Result<(), String>),
    CleanupFinished(Result<(), String>, Result<(), String>),
}

/// Mathematical value of a `PipelineEvent`.
pub enum PipelineEventView {
    SourceWritten(Result<(), Seq<char>>),
    CompilerFinished(SpawnOutcomeView),
    OpenFinished(Result<(), Seq<char>>),
    CleanupFinished(Result<(), Seq<char>>, Result<(), Seq<char>>),
}

/// The value of a unit-or-message result.
pub open spec fn result_view(r: Result<(), String>) -> Result<(), Seq<char>> {
    match r {
        Ok(()) => Ok(()),
        Err(m) => Err(m@),
    }
}

impl View for PipelineEvent {
    type V = PipelineEventView;

    open spec fn view(&self) -> PipelineEventView {
        match self {
            PipelineEvent::SourceWritten(r) => PipelineEventView::SourceWritten(result_view(*r)),
            PipelineEvent::CompilerFinished(s) => PipelineEventView::CompilerFinished(s@),
            PipelineEvent::OpenFinished(r) => PipelineEventView::OpenFinished(result_view(*r)),
            PipelineEvent::CleanupFinished(a, l) => PipelineEventView::CleanupFinished(
                result_view(*a),
                result_view(*l),
            ),
        }
    }
}

/// Where one pipeline run stands. Every non-final state names the one action
/// the caller must perform next (see `action`).
#[derive(Debug, PartialEq)]
pub enum PipelineState {
    /// The assembled source must be written to `<base>.tex`.
    WritingSource { base: String, source: String },
    /// The external compiler must be run on `<base>.tex`.
    Compiling { base: String },
    /// The produced `<base>.pdf` must be opened in the platform viewer.
    Opening { base: String },
    /// `<base>.aux` and `<base>.log` must be deleted, best effort. A failure
    /// recorded from the opening stage is carried along.
    CleaningUp { base: String, open_failure: Option<String> },
    /// The run is over with this outcome.
    Done(GenerationOutcome),
}

/// Mathematical value of a `PipelineState`.
pub enum PipelineStateView {
    WritingSource { base: Seq<char>, source: Seq<char> },
    Compiling { base: Seq<char> },
    Opening { base: Seq<char> },
    CleaningUp { base: Seq<char>, open_failure: Option<Seq<char>> },
    Done(OutcomeView),
}

impl View for PipelineState {
    type V = PipelineStateView;

    open spec fn view(&self) -> PipelineStateView {
        match self {
            PipelineState::WritingSource { base, source } => PipelineStateView::WritingSource {
                base: base@,
                source: source@,
            },
            PipelineState::Compiling { base } => PipelineStateView::Compiling { base: base@ },
            PipelineState::Opening { base } => PipelineStateView::Opening { base: base@ },
            PipelineState::CleaningUp { base, open_failure } => PipelineStateView::CleaningUp {
                base: base@,
                open_failure: match open_failure {
                    Some(m) => Some(m@),
                    None => None,
                },
            },
            PipelineState::Done(o) => PipelineStateView::Done(o@),
        }
    }
}

/// The transition relation of the pipeline: from a state and the event that
/// answers its action, to the next state. An event that does not answer the
/// state's action leaves the state unchanged.
pub open spec fn spec_step(s: PipelineStateView, e: PipelineEventView) -> PipelineStateView {
    match (s, e) {
        (
            PipelineStateView::WritingSource { base, .. },
            PipelineEventView::SourceWritten(Ok(())),
        ) => PipelineStateView::Compiling { base },
        (
            PipelineStateView::WritingSource { .. },
            PipelineEventView::SourceWritten(Err(reason)),
        ) => PipelineStateView::Done(
            OutcomeView::Failure(error_message(GenErrorView::IoError(reason))),
        ),
        (
            PipelineStateView::Compiling { base },
            PipelineEventView::CompilerFinished(SpawnOutcomeView::Exited(true)),
        ) => PipelineStateView::Opening { base },
        (
            PipelineStateView::Compiling { .. },
            PipelineEventView::CompilerFinished(SpawnOutcomeView::Exited(false)),
        ) => PipelineStateView::Done(
            OutcomeView::Failure(error_message(GenErrorView::CompileFailed)),
        ),
        (
            PipelineStateView::Compiling { .. },
            PipelineEventView::CompilerFinished(SpawnOutcomeView::SpawnFailed(reason)),
        ) => PipelineStateView::Done(
            OutcomeView::Failure(error_message(GenErrorView::ProcessSpawnError(reason))),
        ),
        (
            PipelineStateView::Opening { base },
            PipelineEventView::OpenFinished(Ok(())),
        ) => PipelineStateView::CleaningUp { base, open_failure: None },
        (
            PipelineStateView::Opening { base },
            PipelineEventView::OpenFinished(Err(reason)),
        ) => PipelineStateView::CleaningUp { base, open_failure: Some(reason) },
        (
            PipelineStateView::CleaningUp { open_failure: None, .. },
            PipelineEventView::CleanupFinished(_, _),
        ) => PipelineStateView::Done(OutcomeView::Success),
        (
            PipelineStateView::CleaningUp { open_failure: Some(reason), .. },
            PipelineEventView::CleanupFinished(_, _),
        ) => PipelineStateView::Done(
            OutcomeView::Failure(error_message(GenErrorView::OpenError(reason))),
        ),
        (_, _) => s,
    }
}

/// Advances the pipeline by one event, exactly as `spec_step` says.
pub fn step(state: PipelineState, event: PipelineEvent) -> (next: PipelineState)
    ensures
        next@ == spec_step(state@, event@),
{
    match (state, event) {
        (
            PipelineState::WritingSource { base, source: _ },
            PipelineEvent::SourceWritten(Ok(())),
        ) => PipelineState::Compiling { base },
        (
            PipelineState::WritingSource { .. },
            PipelineEvent::SourceWritten(Err(reason)),
        ) => {
            let e = GenError::IoError(reason);
            PipelineState::Done(GenerationOutcome::Failure(e.message()))
        },
        (
            PipelineState::Compiling { base },
            PipelineEvent::CompilerFinished(SpawnOutcome::Exited(true)),
        ) => PipelineState::Opening { base },
        (
            PipelineState::Compiling { .. },
            PipelineEvent::CompilerFinished(SpawnOutcome::Exited(false)),
        ) => {
            let e = GenError::CompileFailed;
            PipelineState::Done(GenerationOutcome::Failure(e.message()))
        },
        (
            PipelineState::Compiling { .. },
            PipelineEvent::CompilerFinished(SpawnOutcome::SpawnFailed(reason)),
        ) => {
            let e = GenError::ProcessSpawnError(reason);
            PipelineState::Done(GenerationOutcome::Failure(e.message()))
        },
        (
            PipelineState::Opening { base },
            PipelineEvent::OpenFinished(Ok(())),
        ) => PipelineState::CleaningUp { base, open_failure: None },
        (
            PipelineState::Opening { base },
            PipelineEvent::OpenFinished(Err(reason)),
        ) => PipelineState::CleaningUp { base, open_failure: Some(reason) },
        (
            PipelineState::CleaningUp { base: _, open_failure: None },
            PipelineEvent::CleanupFinished(_, _),
        ) => PipelineState::Done(GenerationOutcome::Success),
        (
            PipelineState::CleaningUp { base: _, open_failure: Some(reason) },
            PipelineEvent::CleanupFinished(_, _),
        ) => {
            let e = GenError::OpenError(reason);
            PipelineState::Done(GenerationOutcome::Failure(e.message()))
        },
        (s, _) => s,
    }
}

/// A compiler run that exits unsuccessfully is classified as a compile
/// failure, whose message differs from every write-failure message and every
/// spawn-failure message, whatever reason those carry.
pub proof fn lemma_compile_failure_classified(base: Seq<char>)
    ensures
        spec_step(
            PipelineStateView::Compiling { base },
            PipelineEventView::CompilerFinished(SpawnOutcomeView::Exited(false)),
        ) == PipelineStateView::Done(
            OutcomeView::Failure(error_message(GenErrorView::CompileFailed)),
        ),
        forall|r: Seq<char>|
            error_message(GenErrorView::CompileFailed) != error_message(GenErrorView::IoError(r)),
        forall|r: Seq<char>|
            error_message(GenErrorView::CompileFailed) != error_message(
                GenErrorView::ProcessSpawnError(r),
            ),
{
    reveal_strlit("pdflatex failed to compile the LaTeX code.");
    reveal_strlit("Failed to write LaTeX file: ");
    reveal_strlit("Failed to run pdflatex: ");
    assert forall|r: Seq<char>|
        error_message(GenErrorView::CompileFailed) != error_message(
            GenErrorView::IoError(r),
        ) by {
        assert(error_message(GenErrorView::IoError(r))[0] == 'F');
        assert(error_message(GenErrorView::CompileFailed)[0] == 'p');
    }
    assert forall|r: Seq<char>|
        error_message(GenErrorView::CompileFailed) != error_message(
            GenErrorView::ProcessSpawnError(r),
        ) by {
        assert(error_message(GenErrorView::ProcessSpawnError(r))[0] == 'F');
        assert(error_message(GenErrorView::CompileFailed)[0] == 'p');
    }
}

/// A compiler that cannot be spawned at all is classified as a spawn failure,
/// whose message differs from every write-failure message and from the
/// compile-failure message.
pub proof fn lemma_spawn_failure_classified(base: Seq<char>, reason: Seq<char>)
    ensures
        spec_step(
            PipelineStateView::Compiling { base },
            PipelineEventView::CompilerFinished(SpawnOutcomeView::SpawnFailed(reason)),
        ) == PipelineStateView::Done(
            OutcomeView::Failure(error_message(GenErrorView::ProcessSpawnError(reason))),
        ),
        forall|r: Seq<char>|
            error_message(GenErrorView::ProcessSpawnError(reason)) != error_message(
                GenErrorView::IoError(r),
            ),
        error_message(GenErrorView::ProcessSpawnError(reason)) != error_message(
            GenErrorView::CompileFailed,
        ),
{
    reveal_strlit("pdflatex failed to compile the LaTeX code.");
    reveal_strlit("Failed to write LaTeX file: ");
    reveal_strlit("Failed to run pdflatex: ");
    assert forall|r: Seq<char>|
        error_message(GenErrorView::ProcessSpawnError(reason)) != error_message(
            GenErrorView::IoError(r),
        ) by {
        assert(error_message(GenErrorView::ProcessSpawnError(reason))[10] == 'r');
        assert(error_message(GenErrorView::IoError(r))[10] == 'w');
    }
    assert(error_message(GenErrorView::ProcessSpawnError(reason))[0] == 'F');
    assert(error_message(GenErrorView::CompileFailed)[0] == 'p');
}

/// Cleanup never decides the outcome: the transition out of the cleanup stage
/// is the same whatever the two deletion results — absent files included —
/// and with no failure recorded from the opening stage it is success.
pub proof fn lemma_cleanup_ignored(
    base: Seq<char>,
    open_failure: Option<Seq<char>>,
    a1: Result<(), Seq<char>>,
    l1: Result<(), Seq<char>>,
    a2: Result<(), Seq<char>>,
    l2: Result<(), Seq<char>>,
)
    ensures
        spec_step(
            PipelineStateView::CleaningUp { base, open_failure },
            PipelineEventView::CleanupFinished(a1, l1),
        ) == spec_step(
            PipelineStateView::CleaningUp { base, open_failure },
            PipelineEventView::CleanupFinished(a2, l2),
        ),
        open_failure is None ==> spec_step(
            PipelineStateView::CleaningUp { base, open_failure },
            PipelineEventView::CleanupFinished(a1, l1),
        ) == PipelineStateView::Done(OutcomeView::Success),
{
}

/// A run of a valid scene in which every stage succeeds ends in success:
/// the source is written, the compiler exits well, the document opens, and
/// cleanup — whatever its results — changes nothing.
pub proof fn lemma_success_path(
    scene: Scene,
    base: Seq<char>,
    aux: Result<(), Seq<char>>,
    log: Result<(), Seq<char>>,
)
    requires
        scene.wf(),
    ensures
        ({
            let s0 = spec_start(scene, base);
            let s1 = spec_step(s0, PipelineEventView::SourceWritten(Ok(())));
            let s2 = spec_step(
                s1,
                PipelineEventView::CompilerFinished(SpawnOutcomeView::Exited(true)),
            );
            let s3 = spec_step(s2, PipelineEventView::OpenFinished(Ok(())));
            let s4 = spec_step(s3, PipelineEventView::CleanupFinished(aux, log));
            s4 == PipelineStateView::Done(OutcomeView::Success)
        }),
{
}

/// A scene with a zero dimension is rejected at validation: the run begins
/// already over, carrying the validation message, so no stage ever asks for a
/// filesystem action.
pub proof fn lemma_invalid_scene_rejected(scene: Scene, base: Seq<char>)
    requires
        !scene.wf(),
    ensures
        spec_start(scene, base) == PipelineStateView::Done(
            OutcomeView::Failure(validation_message()),
        ),
{
}

/// The full document source: header, document-begin marker, body,
/// document-end marker.
pub open spec fn source_text(header: Seq<char>, body: Seq<char>) -> Seq<char> {
    header + "\n\\begin{document}\n"@ + body + "\n\\end{document}\n"@
}

/// Concatenates header and body into one compilable document source.
pub fn assemble_source(header: &String, body: &String) -> (r: String)
    ensures
        r@ == source_text(header@, body@),
{
    let mut r = header.clone();
    r.append("\n\\begin{document}\n");
    r.append(body.as_str());
    r.append("\n\\end{document}\n");
    proof {
        assert(r@ =~= source_text(header@, body@));
    }
    r
}

/// `base` with the given file extension appended.
fn path_with_ext(base: &String, ext: &str) -> (r: String)
    ensures
        r@ == base@ + ext@,
{
    let mut r = base.clone();
    r.append(ext);
    r
}

/// The one action the caller must perform in a state, with every file path
/// derived from the run's base name.
#[derive(Debug, PartialEq)]
pub enum PipelineAction {
    /// Write `contents` to `path`, overwriting any existing file.
    WriteFile { path: String, contents: String },
    /// Run the external compiler, batch mode, on `source_path`, discarding its
    /// standard output and error streams.
    RunCompiler { source_path: String },
    /// Open `path` with the platform's default handler.
    OpenDocument { path: String },
    /// Delete both files, best effort; failures are to be reported but are
    /// ignored by the next transition.
    RemoveFiles { aux_path: String, log_path: String },
    /// Nothing is left to do; report this outcome.
    Report(GenerationOutcome),
}

impl PipelineState {
    /// The action this state asks the caller to perform.
    pub fn action(&self) -> (a: PipelineAction)
        ensures
            match self@ {
                PipelineStateView::WritingSource { base, source } => (a matches
                    PipelineAction::WriteFile { path, contents } && path@ == base + ".tex"@
                    && contents@ == source),
                PipelineStateView::Compiling { base } => (a matches PipelineAction::RunCompiler {
                    source_path,
                } && source_path@ == base + ".tex"@),
                PipelineStateView::Opening { base } => (a matches PipelineAction::OpenDocument {
                    path,
                } && path@ == base + ".pdf"@),
                PipelineStateView::CleaningUp { base, .. } => (a matches
                    PipelineAction::RemoveFiles { aux_path, log_path } && aux_path@ == base
                    + ".aux"@ && log_path@ == base + ".log"@),
                PipelineStateView::Done(o) => (a matches PipelineAction::Report(out) && out@ == o),
            },
    {
        match self {
            PipelineState::WritingSource { base, source } => PipelineAction::WriteFile {
                path: path_with_ext(base, ".tex"),
                contents: source.clone(),
            },
            PipelineState::Compiling { base } => PipelineAction::RunCompiler {
                source_path: path_with_ext(base, ".tex"),
            },
            PipelineState::Opening { base } => PipelineAction::OpenDocument {
                path: path_with_ext(base, ".pdf"),
            },
            PipelineState::CleaningUp { base, open_failure: _ } => PipelineAction::RemoveFiles {
                aux_path: path_with_ext(base, ".aux"),
                log_path: path_with_ext(base, ".log"),
            },
            PipelineState::Done(o) => PipelineAction::Report(o.duplicate()),
        }
    }

    /// Whether the run is over.
    pub fn is_done(&self) -> (r: bool)
        ensures
            r <==> self@ matches PipelineStateView::Done(_),
    {
        match self {
            PipelineState::Done(_) => true,
            _ => false,
        }
    }
}

/// The message with which a scene of zero width or height is rejected.
pub open spec fn validation_message() -> Seq<char> {
    "Grid dimensions must be positive"@
}

/// The message with which an unparsable grid width is rejected.
pub open spec fn bad_width_message() -> Seq<char> {
    "Invalid grid X coordinate"@
}

/// The message with which an unparsable grid height is rejected.
pub open spec fn bad_height_message() -> Seq<char> {
    "Invalid grid Y coordinate"@
}

/// The state a run of a valid scene starts in: the assembled source of the
/// rendered scene, waiting to be written under `base`.
pub open spec fn spec_start(scene: Scene, base: Seq<char>) -> PipelineStateView {
    if scene.wf() {
        PipelineStateView::WritingSource {
            base,
            source: source_text(
                header_text(),
                body_text(scene.width as nat, scene.height as nat, scene.components@),
            ),
        }
    } else {
        PipelineStateView::Done(OutcomeView::Failure(validation_message()))
    }
}

/// Begins a pipeline run for a scene: validates it, renders it, assembles the
/// document source. An invalid scene ends the run at once, with a validation
/// failure and no action performed on the filesystem.
pub fn start(scene: &Scene, base: &str) -> (st: PipelineState)
    ensures
        st@ == spec_start(*scene, base@),
{
    if scene.width == 0 || scene.height == 0 {
        let e = GenError::ValidationError(String::from_str("Grid dimensions must be positive"));
        PipelineState::Done(GenerationOutcome::Failure(e.message()))
    } else {
        let (header, body) = render(scene);
        let source = assemble_source(&header, &body);
        PipelineState::WritingSource { base: base.to_owned(), source }
    }
}

/// Begins the compile-and-open chain for already-rendered text: the assembled
/// source of `header` and `body`, waiting to be written under `base`.
pub fn begin_compile(header: &String, body: &String, base: &str) -> (st: PipelineState)
    ensures
        st@ == (PipelineStateView::WritingSource {
            base: base@,
            source: source_text(header@, body@),
        }),
{
    PipelineState::WritingSource { base: base.to_owned(), source: assemble_source(header, body) }
}

/// The state a run planned from raw textual inputs starts in: the width and
/// height fields are parsed first, then the scene is validated and rendered.
pub open spec fn spec_plan(
    x: Seq<char>,
    y: Seq<char>,
    components: Seq<PlacedComponent>,
    base: Seq<char>,
) -> PipelineStateView {
    match numeral_value(x) {
        None => PipelineStateView::Done(OutcomeView::Failure(bad_width_message())),
        Some(w) => if w > usize::MAX {
            PipelineStateView::Done(OutcomeView::Failure(bad_width_message()))
        } else {
            match numeral_value(y) {
                None => PipelineStateView::Done(OutcomeView::Failure(bad_height_message())),
                Some(h) => if h > usize::MAX {
                    PipelineStateView::Done(OutcomeView::Failure(bad_height_message()))
                } else {
                    if w == 0 || h == 0 {
                        PipelineStateView::Done(OutcomeView::Failure(validation_message()))
                    } else {
                        PipelineStateView::WritingSource {
                            base,
                            source: source_text(
                                header_text(),
                                body_text(w, h, components),
                            ),
                        }
                    }
                },
            }
        },
    }
}

/// Plans a run from the caller's raw inputs: grid width and height as decimal
/// text, the placed components, and the output base name. Rejections carry
/// the message naming the first input at fault; a well-formed input yields
/// the same starting state as `start` on the equivalent scene.
pub fn plan_generation(x: &str, y: &str, components: &Vec<PlacedComponent>, base: &str) -> (st:
    PipelineState)
    ensures
        st@ == spec_plan(x@, y@, components@, base@),
{
    let w = match parse_usize(x) {
        Some(w) => w,
        None => {
            let e = GenError::ValidationError(String::from_str("Invalid grid X coordinate"));
            return PipelineState::Done(GenerationOutcome::Failure(e.message()));
        },
    };
    let h = match parse_usize(y) {
        Some(h) => h,
        None => {
            let e = GenError::ValidationError(String::from_str("Invalid grid Y coordinate"));
            return PipelineState::Done(GenerationOutcome::Failure(e.message()));
        },
    };
    if w == 0 || h == 0 {
        let e = GenError::ValidationError(String::from_str("Grid dimensions must be positive"));
        return PipelineState::Done(GenerationOutcome::Failure(e.message()));
    }
    let scene = Scene { width: w, height: h, components: clone_components(components) };
    start(&scene, base)
}

} // verus!
