//! What holds of whole syntheses, whatever happens outside.

use std::path::PathBuf;

use serde_json::Value;
use vstd::prelude::*;

use crate::args::ArgsView;
use crate::bindings::Entries;
use crate::error::LavaErrorView;
use crate::paths::path_from;
use crate::plan::LavaPlanView;
use crate::synthesis::{
    after_evaluation, after_load, after_lookup, after_pick, after_probe, after_render,
    evaluation_view, job_start, named_runtime, path_args, path_job, rendered_view, source_start,
    text_job, Evaluate, Evaluation, EvaluationView, JobView, LoadBundled, LookUpInterface,
    PickRuntime, ProbePath, Render, Runtime, SourceView, Step, StepView, TargetView,
};
use crate::text::optional_text;

verus! {

/// What the steps of a synthesis find outside.
#[verifier::reject_recursive_types(A)]
#[verifier::reject_recursive_types(I)]
pub struct World<A, D, I, E> {
    /// Whether there is a file at a path.
    pub exists: spec_fn(PathBuf) -> bool,
    /// Whether there is a runtime for a path.
    pub picks: spec_fn(PathBuf) -> bool,
    /// The bundled interface of a name, if there is one.
    pub interface: spec_fn(Seq<char>) -> Option<I>,
    /// The source of the bundled architecture of a name, if there is one.
    pub bundled: spec_fn(Seq<char>) -> Option<Seq<char>>,
    /// What the runtime makes of a job, under an interface if there is one.
    pub evaluate: spec_fn(JobView, Option<I>) -> Result<EvaluationView<A, D>, E>,
    /// What the renderer makes of an architecture.
    pub render: spec_fn(A) -> Result<Value, Seq<char>>,
}

/// What a synthesis comes to.
pub type Outcome<A, D, E> = Result<LavaPlanView<A, D>, LavaErrorView<E>>;

/// How far a step is from the end: no synthesis takes more steps than that.
pub open spec fn distance<A, D, I, E>(step: StepView<A, D, I, E>) -> nat {
    match step {
        StepView::ProbePath { .. } => 5,
        StepView::PickRuntime { .. } => 4,
        StepView::LoadBundled { .. } => 4,
        StepView::LookUpInterface { .. } => 3,
        StepView::Evaluate { .. } => 2,
        StepView::Render { .. } => 1,
        StepView::Done { .. } => 0,
    }
}

/// The step after `step`, where the outside is `world`.
pub open spec fn next<A, D, I, E>(
    step: StepView<A, D, I, E>,
    world: World<A, D, I, E>,
) -> StepView<A, D, I, E> {
    match step {
        StepView::ProbePath { args } => after_probe(args, (world.exists)(args.path)),
        StepView::PickRuntime { args } => after_pick(args, (world.picks)(args.path)),
        StepView::LookUpInterface { name, job } => after_lookup(
            name,
            job,
            (world.interface)(name),
        ),
        StepView::LoadBundled { name, bindings, gate_with } => after_load(
            name,
            bindings,
            gate_with,
            (world.bundled)(name),
        ),
        StepView::Evaluate { job, interface } => after_evaluation(
            (world.evaluate)(job, interface),
        ),
        StepView::Render { evaluation } => after_render(
            evaluation,
            (world.render)(evaluation.architecture),
        ),
        StepView::Done { .. } => step,
    }
}

/// What a synthesis that stands at `step` comes to, where the outside is
/// `world`.
pub open spec fn run<A, D, I, E>(
    step: StepView<A, D, I, E>,
    world: World<A, D, I, E>,
) -> Outcome<A, D, E>
    decreases distance(step),
{
    match step {
        StepView::Done { outcome } => outcome,
        _ => run(next(step, world), world),
    }
}

/// What the evaluation of a job and the rendering of its architecture come to.
pub open spec fn evaluation_outcome<A, D, I, E>(
    job: JobView,
    interface: Option<I>,
    world: World<A, D, I, E>,
) -> Outcome<A, D, E> {
    match (world.evaluate)(job, interface) {
        Err(error) => Err(LavaErrorView::Runtime(error)),
        Ok(evaluation) => match (world.render)(evaluation.architecture) {
            Err(text) => Err(LavaErrorView::Render(text)),
            Ok(terraform_json) => Ok(
                LavaPlanView {
                    terraform_json,
                    architecture: evaluation.architecture,
                    runtime_kind: evaluation.runtime_kind,
                    diagnostics: evaluation.diagnostics,
                },
            ),
        },
    }
}

/// What a job comes to: where there is a gate, its interface must be known.
pub open spec fn job_outcome<A, D, I, E>(
    job: JobView,
    gate_with: Option<Seq<char>>,
    world: World<A, D, I, E>,
) -> Outcome<A, D, E> {
    match gate_with {
        None => evaluation_outcome(job, None, world),
        Some(name) => match (world.interface)(name) {
            None => Err(LavaErrorView::UnknownInterface(name)),
            Some(interface) => evaluation_outcome(job, Some(interface), world),
        },
    }
}

/// The runtime that evaluates the file of `args`, or the path that is refused.
pub open spec fn path_runtime<A, D, I, E>(args: ArgsView, world: World<A, D, I, E>) -> Result<
    Runtime,
    PathBuf,
> {
    match named_runtime(args) {
        Err(path) => Err(path),
        Ok(Some(runtime)) => Ok(runtime),
        Ok(None) => if (world.picks)(args.path) {
            Ok(Runtime::Picked)
        } else {
            Err(args.path)
        },
    }
}

/// What the synthesis of a file comes to: the file must exist, then there must
/// be a runtime for it, then its job decides.
pub open spec fn path_outcome<A, D, I, E>(args: ArgsView, world: World<A, D, I, E>) -> Outcome<
    A,
    D,
    E,
> {
    if !(world.exists)(args.path) {
        Err(LavaErrorView::Io { path: args.path, not_found: true })
    } else {
        match path_runtime(args, world) {
            Err(path) => Err(LavaErrorView::NoRuntime { path }),
            Ok(runtime) => job_outcome(path_job(args, runtime), args.gate_with, world),
        }
    }
}

/// What the synthesis of a bundled architecture comes to: it must be known, and
/// is then a source text.
pub open spec fn bundled_outcome<A, D, I, E>(
    name: Seq<char>,
    bindings: Entries,
    gate_with: Option<Seq<char>>,
    world: World<A, D, I, E>,
) -> Outcome<A, D, E> {
    match (world.bundled)(name) {
        None => Err(
            LavaErrorView::UnknownInterface("unknown bundled architecture `"@ + name + "`"@),
        ),
        Some(source) => job_outcome(text_job(source, bindings), gate_with, world),
    }
}

/// Every step leads closer to the end, whatever comes back from outside, so
/// that every synthesis comes to an end.
pub proof fn law_every_step_leads_on<A, D, I, E>(
    step: StepView<A, D, I, E>,
    world: World<A, D, I, E>,
)
    ensures
        step is Done || distance(next(step, world)) < distance(step),
{
}

/// A job comes to what its gate, its evaluation and its rendering make of it.
pub proof fn law_job_outcome<A, D, I, E>(
    job: JobView,
    gate_with: Option<Seq<char>>,
    world: World<A, D, I, E>,
)
    ensures
        run(job_start(job, gate_with), world) == job_outcome(job, gate_with, world),
{
    reveal_with_fuel(run, 4);
}

/// The synthesis of a file: a missing file is reported before anything else, a
/// missing runtime before an unknown interface, and that before anything is
/// evaluated. The evaluation is given the bindings as they were supplied.
pub proof fn law_synthesize_outcome<A, D, I, E>(args: ArgsView, world: World<A, D, I, E>)
    ensures
        run(StepView::ProbePath { args }, world) == path_outcome(args, world),
{
    reveal_with_fuel(run, 3);
    match path_runtime(args, world) {
        Ok(runtime) => {
            law_job_outcome(path_job(args, runtime), args.gate_with, world);
        },
        Err(_) => {},
    }
}

/// A bundled architecture comes to what its source text comes to, with the same
/// bindings and the same gate.
pub proof fn law_bundled_is_its_source<A, D, I, E>(
    name: Seq<char>,
    source: Seq<char>,
    bindings: Entries,
    gate_with: Option<Seq<char>>,
    world: World<A, D, I, E>,
)
    requires
        (world.bundled)(name) == Some(source),
    ensures
        run(source_start(SourceView::Bundled { name }, bindings, gate_with), world) == run(
            source_start(SourceView::Inline { inline: source }, bindings, gate_with),
            world,
        ),
{
    reveal_with_fuel(run, 2);
}

/// A source comes to the same whichever way it is given: a file as through its
/// arguments, a text as its job, a bundled architecture as its source text.
pub proof fn law_source_outcome<A, D, I, E>(
    source: SourceView,
    bindings: Entries,
    gate_with: Option<Seq<char>>,
    world: World<A, D, I, E>,
)
    ensures
        run(source_start(source, bindings, gate_with), world) == (match source {
            SourceView::Path { path } => path_outcome(path_args(path, bindings, gate_with), world),
            SourceView::Inline { inline } => job_outcome(
                text_job(inline, bindings),
                gate_with,
                world,
            ),
            SourceView::Bundled { name } => bundled_outcome(name, bindings, gate_with, world),
        }),
{
    reveal_with_fuel(run, 2);
    match source {
        SourceView::Path { path } => {
            law_synthesize_outcome(path_args(path, bindings, gate_with), world);
        },
        SourceView::Inline { inline } => {
            law_job_outcome(text_job(inline, bindings), gate_with, world);
        },
        SourceView::Bundled { name } => {
            match (world.bundled)(name) {
                Some(text) => {
                    law_job_outcome(text_job(text, bindings), gate_with, world);
                },
                None => {},
            }
        },
    }
}

/// Every failure of the synthesis of a file has its own variant, and comes from
/// exactly the stage that the variant stands for.
pub proof fn law_failures_are_typed<A, D, I, E>(args: ArgsView, world: World<A, D, I, E>)
    ensures
        ({
            let outcome = run(StepView::<A, D, I, E>::ProbePath { args }, world);
            let found = (world.exists)(args.path);
            let runtime = path_runtime(args, world);
            let job = path_job(args, runtime->Ok_0);
            let known = args.gate_with is Some ==> (world.interface)(args.gate_with->0) is Some;
            let interface = match args.gate_with {
                Some(name) => (world.interface)(name),
                None => None,
            };
            let evaluated = (world.evaluate)(job, interface);
            let rendered = (world.render)(evaluated->Ok_0.architecture);
            let ready = found && runtime is Ok && known;
            &&& (outcome matches Err(LavaErrorView::Io { .. })) == !found
            &&& (outcome matches Err(LavaErrorView::NoRuntime { .. })) == (found && runtime is Err)
            &&& (outcome matches Err(LavaErrorView::UnknownInterface(_))) == (found && runtime is Ok
                && !known)
            &&& (outcome matches Err(LavaErrorView::Runtime(_))) == (ready && evaluated is Err)
            &&& (outcome matches Err(LavaErrorView::Render(_))) == (ready && evaluated is Ok
                && rendered is Err)
            &&& (outcome is Ok) == (ready && evaluated is Ok && rendered is Ok)
        }),
{
    law_synthesize_outcome(args, world);
}

/// A plan holds what was made of one evaluation: its JSON is the rendering of
/// its own architecture, and its runtime and diagnostics are those that the
/// architecture came with.
pub proof fn law_plan_is_of_one_evaluation<A, D, I, E>(
    step: StepView<A, D, I, E>,
    world: World<A, D, I, E>,
)
    requires
        !(step is Render),
        !(step is Done),
    ensures
        run(step, world) matches Ok(plan) ==> {
            &&& (world.render)(plan.architecture) == Ok::<Value, Seq<char>>(plan.terraform_json)
            &&& exists|job: JobView, interface: Option<I>|
                #[trigger] (world.evaluate)(job, interface) == Ok::<EvaluationView<A, D>, E>(
                    EvaluationView {
                        architecture: plan.architecture,
                        diagnostics: plan.diagnostics,
                        runtime_kind: plan.runtime_kind,
                    },
                )
        },
    decreases distance(step),
{
    reveal_with_fuel(run, 3);
    match step {
        StepView::Evaluate { job, interface } => {
            match (world.evaluate)(job, interface) {
                Ok(evaluation) => {
                    assert(evaluation =~= (EvaluationView {
                        architecture: evaluation.architecture,
                        diagnostics: evaluation.diagnostics,
                        runtime_kind: evaluation.runtime_kind,
                    }));
                },
                Err(_) => {},
            }
        },
        _ => {
            let following = next(step, world);
            if !(following is Done) {
                law_plan_is_of_one_evaluation(following, world);
            }
        },
    }
}

/// A gated plan was evaluated under the interface of its gate, with the
/// bindings as they were supplied.
pub proof fn law_gate_is_enforced<A, D, I, E>(
    args: ArgsView,
    name: Seq<char>,
    world: World<A, D, I, E>,
)
    requires
        args.gate_with == Some(name),
        run(StepView::ProbePath { args }, world) is Ok,
    ensures
        ({
            let plan = run(StepView::<A, D, I, E>::ProbePath { args }, world)->Ok_0;
            let job = path_job(args, path_runtime(args, world)->Ok_0);
            &&& (world.interface)(name) is Some
            &&& (world.evaluate)(job, (world.interface)(name)) == Ok::<EvaluationView<A, D>, E>(
                EvaluationView {
                    architecture: plan.architecture,
                    diagnostics: plan.diagnostics,
                    runtime_kind: plan.runtime_kind,
                },
            )
        }),
{
    law_synthesize_outcome(args, world);
}

/// An unknown gate is refused by its name, whatever the runtime and the
/// renderer would have made of the source.
pub proof fn law_unknown_gate_is_refused<A, D, I, E>(
    args: ArgsView,
    name: Seq<char>,
    world: World<A, D, I, E>,
)
    requires
        (world.exists)(args.path),
        path_runtime(args, world) is Ok,
        args.gate_with == Some(name),
        (world.interface)(name) is None,
    ensures
        run(StepView::<A, D, I, E>::ProbePath { args }, world) == Err::<
            LavaPlanView<A, D>,
            LavaErrorView<E>,
        >(LavaErrorView::UnknownInterface(name)),
{
    law_synthesize_outcome(args, world);
}

/// A file that is not there is reported as such, whatever else is asked for.
pub proof fn law_missing_file_is_reported<A, D, I, E>(args: ArgsView, world: World<A, D, I, E>)
    requires
        !(world.exists)(args.path),
    ensures
        run(StepView::<A, D, I, E>::ProbePath { args }, world) == Err::<
            LavaPlanView<A, D>,
            LavaErrorView<E>,
        >(LavaErrorView::Io { path: args.path, not_found: true }),
{
    law_synthesize_outcome(args, world);
}

/// Where the arguments name a runtime, what would be picked for the path does
/// not matter.
pub proof fn law_named_runtime_overrides_path<A, D, I, E>(
    args: ArgsView,
    world: World<A, D, I, E>,
    picks: spec_fn(PathBuf) -> bool,
)
    requires
        args.runtime_kind is Some,
    ensures
        run(StepView::<A, D, I, E>::ProbePath { args }, world) == run(
            StepView::<A, D, I, E>::ProbePath { args },
            (World { picks, ..world }),
        ),
{
    law_synthesize_outcome(args, world);
    law_synthesize_outcome(args, World { picks, ..world });
}

/// Where there is no gate, which interfaces are known does not matter.
pub proof fn law_ungated_needs_no_interface<A, D, I, E>(
    source: SourceView,
    bindings: Entries,
    world: World<A, D, I, E>,
    interface: spec_fn(Seq<char>) -> Option<I>,
)
    ensures
        run(source_start(source, bindings, None), world) == run(
            source_start(source, bindings, None),
            (World { interface, ..world }),
        ),
{
    law_source_outcome(source, bindings, None, world);
    law_source_outcome(source, bindings, None, World { interface, ..world });
}

/// The synthesis of a source text, or of a bundled architecture, does not
/// depend on any file.
pub proof fn law_text_needs_no_file<A, D, I, E>(
    source: SourceView,
    bindings: Entries,
    gate_with: Option<Seq<char>>,
    world: World<A, D, I, E>,
    exists: spec_fn(PathBuf) -> bool,
    picks: spec_fn(PathBuf) -> bool,
)
    requires
        !(source is Path),
    ensures
        run(source_start(source, bindings, gate_with), world) == run(
            source_start(source, bindings, gate_with),
            (World { exists, picks, ..world }),
        ),
{
    law_source_outcome(source, bindings, gate_with, world);
    law_source_outcome(source, bindings, gate_with, World { exists, picks, ..world });
}

/// A file is evaluated as it was asked for: by the runtime that the arguments
/// name, or else by the one picked for the path, at the path given, with exactly
/// the bindings given, and under the interface of the schema gate given, if any.
/// The plan is what that one evaluation and the rendering of its architecture
/// make.
pub proof fn law_file_is_evaluated_as_asked<A, D, I, E>(
    args: ArgsView,
    runtime: Runtime,
    interface: Option<I>,
    world: World<A, D, I, E>,
)
    requires
        (world.exists)(args.path),
        match args.runtime_kind {
            None => runtime == Runtime::Picked && (world.picks)(args.path),
            Some(kind) => kind == "lava"@ && runtime == Runtime::Lava || kind == "terraform-json"@
                && runtime == Runtime::TerraformJson,
        },
        match args.gate_with {
            None => interface is None,
            Some(name) => interface is Some && (world.interface)(name) == interface,
        },
    ensures
        ({
            let outcome = run(StepView::<A, D, I, E>::ProbePath { args }, world);
            let job = JobView {
                target: TargetView::Path { runtime, path: args.path },
                bindings: args.bindings,
            };
            match (world.evaluate)(job, interface) {
                Err(error) => outcome matches Err(LavaErrorView::Runtime(e)) && e == error,
                Ok(evaluation) => match (world.render)(evaluation.architecture) {
                    Err(text) => outcome matches Err(LavaErrorView::Render(t)) && t == text,
                    Ok(json) => outcome matches Ok(plan) && plan.terraform_json == json
                        && plan.architecture == evaluation.architecture && plan.runtime_kind
                        == evaluation.runtime_kind && plan.diagnostics == evaluation.diagnostics,
                },
            }
        }),
{
    reveal_strlit("lava");
    reveal_strlit("terraform-json");
    assert("lava"@.len() != "terraform-json"@.len());
    reveal_with_fuel(run, 6);
}

/// A source text is evaluated as it was given, whether inline or as the source
/// of a bundled architecture: without a name of its own, with exactly the
/// bindings given, and under the interface of the schema gate given, if any. The
/// plan is what that one evaluation and the rendering of its architecture make.
pub proof fn law_text_is_evaluated_as_given<A, D, I, E>(
    source: SourceView,
    text: Seq<char>,
    bindings: Entries,
    gate_with: Option<Seq<char>>,
    interface: Option<I>,
    world: World<A, D, I, E>,
)
    requires
        match source {
            SourceView::Inline { inline } => inline == text,
            SourceView::Bundled { name } => (world.bundled)(name) == Some(text),
            SourceView::Path { .. } => false,
        },
        match gate_with {
            None => interface is None,
            Some(name) => interface is Some && (world.interface)(name) == interface,
        },
    ensures
        ({
            let outcome = run(
                source_start::<A, D, I, E>(source, bindings, gate_with),
                world,
            );
            let job = JobView {
                target: TargetView::Source { source: text, name: None },
                bindings,
            };
            match (world.evaluate)(job, interface) {
                Err(error) => outcome matches Err(LavaErrorView::Runtime(e)) && e == error,
                Ok(evaluation) => match (world.render)(evaluation.architecture) {
                    Err(shown) => outcome matches Err(LavaErrorView::Render(t)) && t == shown,
                    Ok(json) => outcome matches Ok(plan) && plan.terraform_json == json
                        && plan.architecture == evaluation.architecture && plan.runtime_kind
                        == evaluation.runtime_kind && plan.diagnostics == evaluation.diagnostics,
                },
            }
        }),
{
    reveal_with_fuel(run, 5);
}

/// A file given as a source comes to what its arguments come to: the path, the
/// bindings and the schema gate are those given, and no runtime is named.
pub proof fn law_file_source_is_its_arguments<A, D, I, E>(
    path: PathBuf,
    bindings: Entries,
    gate_with: Option<Seq<char>>,
    args: ArgsView,
    world: World<A, D, I, E>,
)
    requires
        args.path == path,
        args.bindings == bindings,
        args.gate_with == gate_with,
        args.runtime_kind is None,
    ensures
        source_start::<A, D, I, E>(SourceView::Path { path }, bindings, gate_with) == (StepView::<
            A,
            D,
            I,
            E,
        >::ProbePath { args }),
        run(source_start(SourceView::Path { path }, bindings, gate_with), world) == run(
            StepView::ProbePath { args },
            world,
        ),
{
    assert(source_start::<A, D, I, E>(SourceView::Path { path }, bindings, gate_with)
        =~= (StepView::<A, D, I, E>::ProbePath { args }));
}

/// A runtime that is named but not known is refused by that name, whatever the
/// gate, the bindings and the path are.
pub proof fn law_unknown_runtime_is_refused<A, D, I, E>(
    args: ArgsView,
    kind: Seq<char>,
    world: World<A, D, I, E>,
)
    requires
        (world.exists)(args.path),
        args.runtime_kind == Some(kind),
        kind != "lava"@,
        kind != "terraform-json"@,
    ensures
        run(StepView::<A, D, I, E>::ProbePath { args }, world) == Err::<
            LavaPlanView<A, D>,
            LavaErrorView<E>,
        >(LavaErrorView::NoRuntime { path: path_from("(runtime_kind="@ + kind + ")"@) }),
{
    reveal_with_fuel(run, 2);
}

/// Where no runtime is named and none is picked for the path, that path is
/// refused, whatever the schema gate and the bindings are.
pub proof fn law_unmatched_path_is_refused<A, D, I, E>(args: ArgsView, world: World<A, D, I, E>)
    requires
        (world.exists)(args.path),
        args.runtime_kind is None,
        !(world.picks)(args.path),
    ensures
        run(StepView::<A, D, I, E>::ProbePath { args }, world) == Err::<
            LavaPlanView<A, D>,
            LavaErrorView<E>,
        >(LavaErrorView::NoRuntime { path: args.path }),
{
    reveal_with_fuel(run, 3);
}

/// An unknown gate is refused by its name, wherever the source comes from, once
/// the source is there: a file that exists and has a runtime, or a bundled
/// architecture that is known.
pub proof fn law_unknown_gate_is_refused_for_every_source<A, D, I, E>(
    source: SourceView,
    bindings: Entries,
    name: Seq<char>,
    world: World<A, D, I, E>,
)
    requires
        match source {
            SourceView::Path { path } => (world.exists)(path) && (world.picks)(path),
            SourceView::Inline { .. } => true,
            SourceView::Bundled { name: bundled } => (world.bundled)(bundled) is Some,
        },
        (world.interface)(name) is None,
    ensures
        run(source_start::<A, D, I, E>(source, bindings, Some(name)), world) == Err::<
            LavaPlanView<A, D>,
            LavaErrorView<E>,
        >(LavaErrorView::UnknownInterface(name)),
{
    reveal_with_fuel(run, 5);
}

/// A bundled architecture that is not known is refused by a text that mentions
/// its name, whatever the bindings and the schema gate are.
pub proof fn law_unknown_bundled_is_refused<A, D, I, E>(
    name: Seq<char>,
    bindings: Entries,
    gate_with: Option<Seq<char>>,
    world: World<A, D, I, E>,
)
    requires
        (world.bundled)(name) is None,
    ensures
        run(
            source_start::<A, D, I, E>(SourceView::Bundled { name }, bindings, gate_with),
            world,
        ) == Err::<LavaPlanView<A, D>, LavaErrorView<E>>(
            LavaErrorView::UnknownInterface("unknown bundled architecture `"@ + name + "`"@),
        ),
{
    reveal_with_fuel(run, 2);
}

/// The synthesis of a file depends on the runtime only where that file is
/// evaluated with the bindings given, under the schema gate given: what the
/// runtime makes of anything else does not matter.
pub proof fn law_file_depends_on_its_own_job<A, D, I, E>(
    args: ArgsView,
    world: World<A, D, I, E>,
    evaluate: spec_fn(JobView, Option<I>) -> Result<EvaluationView<A, D>, E>,
)
    requires
        forall|job: JobView, interface: Option<I>|
            job.bindings == args.bindings && (job.target matches TargetView::Path { path, .. }
                && path == args.path) && (match args.gate_with {
                None => interface is None,
                Some(name) => interface is Some && (world.interface)(name) == interface,
            }) ==> #[trigger] evaluate(job, interface) == (world.evaluate)(job, interface),
    ensures
        run(StepView::<A, D, I, E>::ProbePath { args }, world) == run(
            StepView::<A, D, I, E>::ProbePath { args },
            (World { evaluate, ..world }),
        ),
{
    reveal_with_fuel(run, 6);
}

/// The synthesis of a source depends on the runtime only at jobs with the
/// bindings given: what it makes of any other bindings does not matter.
pub proof fn law_source_depends_on_its_own_bindings<A, D, I, E>(
    source: SourceView,
    bindings: Entries,
    gate_with: Option<Seq<char>>,
    world: World<A, D, I, E>,
    evaluate: spec_fn(JobView, Option<I>) -> Result<EvaluationView<A, D>, E>,
)
    requires
        forall|job: JobView, interface: Option<I>|
            job.bindings == bindings ==> #[trigger] evaluate(job, interface) == (world.evaluate)(
                job,
                interface,
            ),
    ensures
        run(source_start::<A, D, I, E>(source, bindings, gate_with), world) == run(
            source_start::<A, D, I, E>(source, bindings, gate_with),
            (World { evaluate, ..world }),
        ),
{
    reveal_with_fuel(run, 6);
}

/// Whether a call that hands `step` what `world` answers gives `after`.
pub open spec fn answered<A, D, I, E>(
    step: Step<A, D, I, E>,
    world: World<A, D, I, E>,
    after: Step<A, D, I, E>,
) -> bool {
    match step {
        Step::ProbePath(asked) => call_ensures(
            ProbePath::probed::<A, D, I, E>,
            (asked, (world.exists)(asked.args.path)),
            after,
        ),
        Step::PickRuntime(asked) => call_ensures(
            PickRuntime::picked::<A, D, I, E>,
            (asked, (world.picks)(asked.args.path)),
            after,
        ),
        Step::LookUpInterface(asked) => call_ensures(
            LookUpInterface::looked_up::<A, D, I, E>,
            (asked, (world.interface)(asked.name@)),
            after,
        ),
        Step::LoadBundled(asked) => exists|found: Option<String>|
            optional_text(found) == (world.bundled)(asked.name@) && #[trigger] call_ensures(
                LoadBundled::loaded::<A, D, I, E>,
                (asked, found),
                after,
            ),
        Step::Evaluate(asked) => exists|result: Result<Evaluation<A, D>, E>|
            evaluation_view(result) == (world.evaluate)(asked.job@, asked.interface)
                && #[trigger] call_ensures(
                Evaluate::<I>::evaluated::<A, D, E>,
                (asked, result),
                after,
            ),
        Step::Render(asked) => exists|rendered: Result<Value, String>|
            rendered_view(rendered) == (world.render)(asked.evaluation.architecture)
                && #[trigger] call_ensures(
                Render::<A, D>::rendered::<I, E>,
                (asked, rendered),
                after,
            ),
        Step::Done(_) => false,
    }
}

/// Handing each step what the world answers leads to what the synthesis comes to
/// in that world.
pub proof fn law_calls_lead_to_the_outcome<A, D, I, E>(
    step: Step<A, D, I, E>,
    world: World<A, D, I, E>,
    after: Step<A, D, I, E>,
)
    requires
        answered(step, world, after),
    ensures
        after@ == next(step@, world),
        run(after@, world) == run(step@, world),
        distance(after@) < distance(step@),
{
}

} // verus!
