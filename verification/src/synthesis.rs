//! Synthesis, one outside step at a time.
//!
//! A synthesis looks for the source file, picks a runtime, looks up the
//! interface that gates the bindings, has the architecture evaluated and has it
//! rendered as Terraform JSON. Each of these is done outside this library. A
//! [`Step`] says which of them comes next, and with what; its method takes what
//! came back and gives the step after it, up to [`Step::Done`].
//!
//! `A` is an evaluated architecture, `D` a diagnostic and `E` an error of the
//! runtime's, and `I` a bundled interface.

use std::path::PathBuf;

use indexmap::IndexMap;
use serde_json::Value;
use vstd::prelude::*;

use crate::args::{ArgsView, LavaPlanArgs};
use crate::bindings::{clone_bindings, entries_of, ArtifactBinding, Entries};
use crate::error::{LavaError, LavaErrorView};
use crate::paths::{not_found, path_from};
use crate::plan::{outcome_view, LavaPlan, LavaPlanView};
use crate::text::{optional_slice_text, optional_text, owned};

verus! {

/// Where the source of an architecture comes from.
#[derive(Debug)]
pub enum LavaSource {
    /// The source text itself.
    Inline { inline: String },
    /// An architecture that comes bundled, by its name.
    Bundled { name: String },
    /// A file.
    Path { path: PathBuf },
}

/// What a [`LavaSource`] holds.
#[verifier::ext_equal]
pub enum SourceView {
    Inline { inline: Seq<char> },
    Bundled { name: Seq<char> },
    Path { path: PathBuf },
}

impl View for LavaSource {
    type V = SourceView;

    open spec fn view(&self) -> SourceView {
        match *self {
            LavaSource::Inline { inline } => SourceView::Inline { inline: inline@ },
            LavaSource::Bundled { name } => SourceView::Bundled { name: name@ },
            LavaSource::Path { path } => SourceView::Path { path },
        }
    }
}

impl Clone for LavaSource {
    fn clone(&self) -> (copy: Self)
        ensures
            copy@ == self@,
    {
        match self {
            LavaSource::Inline { inline } => LavaSource::Inline { inline: inline.clone() },
            LavaSource::Bundled { name } => LavaSource::Bundled { name: name.clone() },
            LavaSource::Path { path } => LavaSource::Path { path: path.clone() },
        }
    }
}

/// The runtime that evaluates a source.
#[derive(Debug, Clone, Copy, PartialEq, Eq, Structural)]
pub enum Runtime {
    /// The runtime of `.tlisp` sources.
    Lava,
    /// The runtime of sources that are Terraform JSON already.
    TerraformJson,
    /// The runtime that was picked for the source's path.
    Picked,
}

/// What a runtime evaluates.
#[derive(Debug)]
pub enum Target {
    /// A file, with the given runtime.
    Path { runtime: Runtime, path: PathBuf },
    /// A source text, with the lava runtime. `name` is the artifact's name, if
    /// it has one.
    Source { source: String, name: Option<String> },
}

/// What a [`Target`] holds.
#[verifier::ext_equal]
pub enum TargetView {
    Path { runtime: Runtime, path: PathBuf },
    Source { source: Seq<char>, name: Option<Seq<char>> },
}

impl View for Target {
    type V = TargetView;

    open spec fn view(&self) -> TargetView {
        match *self {
            Target::Path { runtime, path } => TargetView::Path { runtime, path },
            Target::Source { source, name } => TargetView::Source {
                source: source@,
                name: optional_text(name),
            },
        }
    }
}

/// A target, and the values bound to its input slots.
#[derive(Debug)]
pub struct Job {
    pub target: Target,
    pub bindings: IndexMap<String, ArtifactBinding>,
}

/// What a [`Job`] holds.
#[verifier::ext_equal]
pub struct JobView {
    pub target: TargetView,
    pub bindings: Entries,
}

impl View for Job {
    type V = JobView;

    open spec fn view(&self) -> JobView {
        JobView { target: self.target@, bindings: entries_of(self.bindings) }
    }
}

/// What a runtime makes of a job.
#[derive(Debug)]
pub struct Evaluation<A, D> {
    pub architecture: A,
    pub diagnostics: Vec<D>,
    /// The name that the runtime goes by.
    pub runtime_kind: String,
}

/// What an [`Evaluation`] holds.
#[verifier::ext_equal]
pub struct EvaluationView<A, D> {
    pub architecture: A,
    pub diagnostics: Seq<D>,
    pub runtime_kind: Seq<char>,
}

impl<A, D> View for Evaluation<A, D> {
    type V = EvaluationView<A, D>;

    open spec fn view(&self) -> EvaluationView<A, D> {
        EvaluationView {
            architecture: self.architecture,
            diagnostics: self.diagnostics@,
            runtime_kind: self.runtime_kind@,
        }
    }
}

/// The source file is to be looked for.
#[derive(Debug)]
pub struct ProbePath {
    pub args: LavaPlanArgs,
}

/// A runtime is to be picked for the path of the source file.
#[derive(Debug)]
pub struct PickRuntime {
    pub args: LavaPlanArgs,
}

/// A bundled interface is to be looked up.
#[derive(Debug)]
pub struct LookUpInterface {
    pub name: String,
    pub job: Job,
}

/// The source of a bundled architecture is to be looked up.
#[derive(Debug)]
pub struct LoadBundled {
    pub name: String,
    pub bindings: IndexMap<String, ArtifactBinding>,
    pub gate_with: Option<String>,
}

/// A job is to be evaluated. Where there is an interface, the bindings must
/// satisfy it first.
#[derive(Debug)]
pub struct Evaluate<I> {
    pub job: Job,
    pub interface: Option<I>,
}

/// An evaluated architecture is to be rendered as Terraform JSON.
#[derive(Debug)]
pub struct Render<A, D> {
    pub evaluation: Evaluation<A, D>,
}

/// What comes next in a synthesis.
#[derive(Debug)]
pub enum Step<A, D, I, E> {
    ProbePath(ProbePath),
    PickRuntime(PickRuntime),
    LookUpInterface(LookUpInterface),
    LoadBundled(LoadBundled),
    Evaluate(Evaluate<I>),
    Render(Render<A, D>),
    /// Nothing: this is what the synthesis came to.
    Done(Result<LavaPlan<A, D>, LavaError<E>>),
}

/// What a [`Step`] holds.
#[verifier::ext_equal]
pub enum StepView<A, D, I, E> {
    ProbePath { args: ArgsView },
    PickRuntime { args: ArgsView },
    LookUpInterface { name: Seq<char>, job: JobView },
    LoadBundled { name: Seq<char>, bindings: Entries, gate_with: Option<Seq<char>> },
    Evaluate { job: JobView, interface: Option<I> },
    Render { evaluation: EvaluationView<A, D> },
    Done { outcome: Result<LavaPlanView<A, D>, LavaErrorView<E>> },
}

impl<A, D, I, E> View for Step<A, D, I, E> {
    type V = StepView<A, D, I, E>;

    open spec fn view(&self) -> StepView<A, D, I, E> {
        match *self {
            Step::ProbePath(step) => StepView::ProbePath { args: step.args@ },
            Step::PickRuntime(step) => StepView::PickRuntime { args: step.args@ },
            Step::LookUpInterface(step) => StepView::LookUpInterface {
                name: step.name@,
                job: step.job@,
            },
            Step::LoadBundled(step) => StepView::LoadBundled {
                name: step.name@,
                bindings: entries_of(step.bindings),
                gate_with: optional_text(step.gate_with),
            },
            Step::Evaluate(step) => StepView::Evaluate {
                job: step.job@,
                interface: step.interface,
            },
            Step::Render(step) => StepView::Render { evaluation: step.evaluation@ },
            Step::Done(outcome) => StepView::Done { outcome: outcome_view(outcome) },
        }
    }
}

/// The step that a synthesis fails at.
pub open spec fn failed<A, D, I, E>(error: LavaErrorView<E>) -> StepView<A, D, I, E> {
    StepView::Done { outcome: Err(error) }
}

/// The runtime that arguments name, if they name one; otherwise the path
/// decides. A name that stands for no runtime is refused, with the path that
/// the refusal mentions.
pub open spec fn named_runtime(args: ArgsView) -> Result<Option<Runtime>, PathBuf> {
    match args.runtime_kind {
        None => Ok(None),
        Some(kind) => if kind == "lava"@ {
            Ok(Some(Runtime::Lava))
        } else if kind == "terraform-json"@ {
            Ok(Some(Runtime::TerraformJson))
        } else {
            Err(path_from("(runtime_kind="@ + kind + ")"@))
        },
    }
}

/// The step at which a job starts: its gate comes before its evaluation.
pub open spec fn job_start<A, D, I, E>(job: JobView, gate_with: Option<Seq<char>>) -> StepView<
    A,
    D,
    I,
    E,
> {
    match gate_with {
        Some(name) => StepView::LookUpInterface { name, job },
        None => StepView::Evaluate { job, interface: None },
    }
}

/// The job of evaluating the source file of `args` with `runtime`.
pub open spec fn path_job(args: ArgsView, runtime: Runtime) -> JobView {
    JobView { target: TargetView::Path { runtime, path: args.path }, bindings: args.bindings }
}

/// The job of evaluating a source text.
pub open spec fn text_job(source: Seq<char>, bindings: Entries) -> JobView {
    JobView { target: TargetView::Source { source, name: None }, bindings }
}

/// The step after the source file was looked for.
pub open spec fn after_probe<A, D, I, E>(args: ArgsView, exists: bool) -> StepView<A, D, I, E> {
    if !exists {
        failed(LavaErrorView::Io { path: args.path, not_found: true })
    } else {
        match named_runtime(args) {
            Err(path) => failed(LavaErrorView::NoRuntime { path }),
            Ok(None) => StepView::PickRuntime { args },
            Ok(Some(runtime)) => job_start(path_job(args, runtime), args.gate_with),
        }
    }
}

/// The step after a runtime was picked for the path, or none was found.
pub open spec fn after_pick<A, D, I, E>(args: ArgsView, found: bool) -> StepView<A, D, I, E> {
    if found {
        job_start(path_job(args, Runtime::Picked), args.gate_with)
    } else {
        failed(LavaErrorView::NoRuntime { path: args.path })
    }
}

/// The step after an interface was looked up.
pub open spec fn after_lookup<A, D, I, E>(
    name: Seq<char>,
    job: JobView,
    found: Option<I>,
) -> StepView<A, D, I, E> {
    match found {
        Some(interface) => StepView::Evaluate { job, interface: Some(interface) },
        None => failed(LavaErrorView::UnknownInterface(name)),
    }
}

/// The step after the source of a bundled architecture was looked up.
pub open spec fn after_load<A, D, I, E>(
    name: Seq<char>,
    bindings: Entries,
    gate_with: Option<Seq<char>>,
    found: Option<Seq<char>>,
) -> StepView<A, D, I, E> {
    match found {
        Some(source) => job_start(text_job(source, bindings), gate_with),
        None => failed(
            LavaErrorView::UnknownInterface("unknown bundled architecture `"@ + name + "`"@),
        ),
    }
}

/// The step after a job was evaluated.
pub open spec fn after_evaluation<A, D, I, E>(
    result: Result<EvaluationView<A, D>, E>,
) -> StepView<A, D, I, E> {
    match result {
        Ok(evaluation) => StepView::Render { evaluation },
        Err(error) => failed(LavaErrorView::Runtime(error)),
    }
}

/// The step after an architecture was rendered.
pub open spec fn after_render<A, D, I, E>(
    evaluation: EvaluationView<A, D>,
    rendered: Result<Value, Seq<char>>,
) -> StepView<A, D, I, E> {
    match rendered {
        Ok(terraform_json) => StepView::Done {
            outcome: Ok(
                LavaPlanView {
                    terraform_json,
                    architecture: evaluation.architecture,
                    runtime_kind: evaluation.runtime_kind,
                    diagnostics: evaluation.diagnostics,
                },
            ),
        },
        Err(text) => failed(LavaErrorView::Render(text)),
    }
}

/// What an evaluation came to.
pub open spec fn evaluation_view<A, D, E>(result: Result<Evaluation<A, D>, E>) -> Result<
    EvaluationView<A, D>,
    E,
> {
    match result {
        Ok(evaluation) => Ok(evaluation@),
        Err(error) => Err(error),
    }
}

/// What a rendering came to.
pub open spec fn rendered_view(result: Result<Value, String>) -> Result<Value, Seq<char>> {
    match result {
        Ok(value) => Ok(value),
        Err(text) => Err(text@),
    }
}

/// The runtime that the arguments name; none where the path decides.
pub fn select_runtime<E>(args: &LavaPlanArgs) -> (selected: Result<Option<Runtime>, LavaError<E>>)
    ensures
        match named_runtime(args@) {
            Ok(runtime) => selected == Ok::<Option<Runtime>, LavaError<E>>(runtime),
            Err(path) => selected == Err::<Option<Runtime>, LavaError<E>>(
                LavaError::NoRuntime { path },
            ),
        },
{
    match &args.runtime_kind {
        Some(kind) => if *kind == String::from("lava") {
            Ok(Some(Runtime::Lava))
        } else if *kind == String::from("terraform-json") {
            Ok(Some(Runtime::TerraformJson))
        } else {
            let mention = String::from("(runtime_kind=").concat(kind.as_str()).concat(")");
            Err(LavaError::NoRuntime { path: PathBuf::from(mention) })
        },
        None => Ok(None),
    }
}

/// Starts a job.
fn start_job<A, D, I, E>(job: Job, gate_with: Option<String>) -> (step: Step<A, D, I, E>)
    ensures
        step@ == job_start::<A, D, I, E>(job@, optional_text(gate_with)),
{
    match gate_with {
        Some(name) => Step::LookUpInterface(LookUpInterface { name, job }),
        None => Step::Evaluate(Evaluate { job, interface: None }),
    }
}

/// Starts the job of evaluating the source file of `args`.
fn start_path_job<A, D, I, E>(args: LavaPlanArgs, runtime: Runtime) -> (step: Step<A, D, I, E>)
    ensures
        step@ == job_start::<A, D, I, E>(path_job(args@, runtime), args@.gate_with),
{
    let job = Job { target: Target::Path { runtime, path: args.path }, bindings: args.bindings };
    start_job(job, args.gate_with)
}

/// Starts the synthesis of the source file that the arguments name.
///
/// The file is looked for first, so that a missing one is reported as such.
pub fn synthesize<A, D, I, E>(args: &LavaPlanArgs) -> (step: Step<A, D, I, E>)
    ensures
        step@ == (StepView::<A, D, I, E>::ProbePath { args: args@ }),
{
    Step::ProbePath(ProbePath { args: args.clone() })
}

/// Starts the synthesis of a source text.
pub fn synthesize_inline<A, D, I, E>(
    source: &str,
    bindings: IndexMap<String, ArtifactBinding>,
    gate_with: Option<&str>,
) -> (step: Step<A, D, I, E>)
    ensures
        step@ == job_start::<A, D, I, E>(
            text_job(source@, entries_of(bindings)),
            optional_slice_text(gate_with),
        ),
{
    let target = Target::Source { source: String::from(source), name: None };
    start_job(Job { target, bindings }, owned(gate_with))
}

/// Starts the synthesis of a bundled architecture.
pub fn synthesize_bundled<A, D, I, E>(
    name: &str,
    bindings: IndexMap<String, ArtifactBinding>,
    gate_with: Option<&str>,
) -> (step: Step<A, D, I, E>)
    ensures
        step@ == (StepView::<A, D, I, E>::LoadBundled {
            name: name@,
            bindings: entries_of(bindings),
            gate_with: optional_slice_text(gate_with),
        }),
{
    Step::LoadBundled(
        LoadBundled { name: String::from(name), bindings, gate_with: owned(gate_with) },
    )
}

/// The arguments that stand for a source file with bindings and a gate.
pub open spec fn path_args(
    path: PathBuf,
    bindings: Entries,
    gate_with: Option<Seq<char>>,
) -> ArgsView {
    ArgsView { path, bindings, gate_with, runtime_kind: None }
}

/// The step at which the synthesis of a source starts.
pub open spec fn source_start<A, D, I, E>(
    source: SourceView,
    bindings: Entries,
    gate_with: Option<Seq<char>>,
) -> StepView<A, D, I, E> {
    match source {
        SourceView::Path { path } => StepView::ProbePath {
            args: path_args(path, bindings, gate_with),
        },
        SourceView::Inline { inline } => job_start(text_job(inline, bindings), gate_with),
        SourceView::Bundled { name } => StepView::LoadBundled { name, bindings, gate_with },
    }
}

/// Starts the synthesis of a source, wherever it comes from.
pub fn synthesize_source<A, D, I, E>(
    source: &LavaSource,
    bindings: &IndexMap<String, ArtifactBinding>,
    gate_with: Option<&str>,
) -> (step: Step<A, D, I, E>)
    ensures
        step@ == source_start::<A, D, I, E>(
            source@,
            entries_of(*bindings),
            optional_slice_text(gate_with),
        ),
{
    match source {
        LavaSource::Path { path } => {
            let mut args = LavaPlanArgs::for_path(path.clone());
            args.bindings = clone_bindings(bindings);
            args.gate_with = owned(gate_with);
            synthesize(&args)
        },
        LavaSource::Inline { inline } => synthesize_inline(
            inline.as_str(),
            clone_bindings(bindings),
            gate_with,
        ),
        LavaSource::Bundled { name } => synthesize_bundled(
            name.as_str(),
            clone_bindings(bindings),
            gate_with,
        ),
    }
}

impl ProbePath {
    /// Takes whether the source file exists.
    pub fn probed<A, D, I, E>(self, exists: bool) -> (step: Step<A, D, I, E>)
        ensures
            step@ == after_probe::<A, D, I, E>(self.args@, exists),
    {
        if !exists {
            return Step::Done(Err(LavaError::Io { path: self.args.path, source: not_found() }));
        }
        match select_runtime(&self.args) {
            Err(error) => Step::Done(Err(error)),
            Ok(None) => Step::PickRuntime(PickRuntime { args: self.args }),
            Ok(Some(runtime)) => start_path_job(self.args, runtime),
        }
    }
}

impl PickRuntime {
    /// Takes whether there is a runtime for the path.
    pub fn picked<A, D, I, E>(self, found: bool) -> (step: Step<A, D, I, E>)
        ensures
            step@ == after_pick::<A, D, I, E>(self.args@, found),
    {
        if found {
            start_path_job(self.args, Runtime::Picked)
        } else {
            Step::Done(Err(LavaError::NoRuntime { path: self.args.path }))
        }
    }
}

impl LookUpInterface {
    /// Takes the interface of that name, if there is one.
    pub fn looked_up<A, D, I, E>(self, found: Option<I>) -> (step: Step<A, D, I, E>)
        ensures
            step@ == after_lookup::<A, D, I, E>(self.name@, self.job@, found),
    {
        match found {
            Some(interface) => Step::Evaluate(
                Evaluate { job: self.job, interface: Some(interface) },
            ),
            None => Step::Done(Err(LavaError::UnknownInterface(self.name))),
        }
    }
}

impl LoadBundled {
    /// Takes the source of the bundled architecture of that name, if there is
    /// one.
    pub fn loaded<A, D, I, E>(self, found: Option<String>) -> (step: Step<A, D, I, E>)
        ensures
            step@ == after_load::<A, D, I, E>(
                self.name@,
                entries_of(self.bindings),
                optional_text(self.gate_with),
                optional_text(found),
            ),
    {
        match found {
            Some(source) => {
                let gate_with = match &self.gate_with {
                    Some(name) => Some(name.as_str()),
                    None => None,
                };
                synthesize_inline(source.as_str(), self.bindings, gate_with)
            },
            None => {
                let mention = String::from("unknown bundled architecture `").concat(
                    self.name.as_str(),
                ).concat("`");
                Step::Done(Err(LavaError::UnknownInterface(mention)))
            },
        }
    }
}

impl<I> Evaluate<I> {
    /// Takes what the runtime made of the job.
    pub fn evaluated<A, D, E>(self, result: Result<Evaluation<A, D>, E>) -> (step: Step<A, D, I, E>)
        ensures
            step@ == after_evaluation::<A, D, I, E>(evaluation_view(result)),
    {
        match result {
            Ok(evaluation) => Step::Render(Render { evaluation }),
            Err(error) => Step::Done(Err(LavaError::Runtime(error))),
        }
    }
}

impl<A, D> Render<A, D> {
    /// Takes what the renderer made of the architecture: Terraform JSON, or the
    /// text of its error.
    pub fn rendered<I, E>(self, rendered: Result<Value, String>) -> (step: Step<A, D, I, E>)
        ensures
            step@ == after_render::<A, D, I, E>(self.evaluation@, rendered_view(rendered)),
    {
        match rendered {
            Ok(terraform_json) => Step::Done(
                Ok(
                    LavaPlan {
                        terraform_json,
                        architecture: self.evaluation.architecture,
                        runtime_kind: self.evaluation.runtime_kind,
                        diagnostics: self.evaluation.diagnostics,
                    },
                ),
            ),
            Err(text) => Step::Done(Err(LavaError::Render(text))),
        }
    }
}

} // verus!
