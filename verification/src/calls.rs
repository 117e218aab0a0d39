//! What holds of each call, said of what goes in and what comes out.

use std::path::PathBuf;

use indexmap::IndexMap;
use serde_json::Value;
use vstd::prelude::*;

use crate::args::LavaPlanArgs;
use crate::bindings::{
    bind, entries_of, keys_distinct, law_bind_keeps_keys_distinct, law_bind_keeps_order,
    law_bind_keeps_others, law_bind_reads_back, value_of, ArtifactBinding, BindingView, Entries,
};
use crate::error::{io_message, no_runtime_message, LavaError};
use crate::paths::{is_not_found, path_from, path_shown};
use crate::plan::{LavaPlan, RenderCrossplane};
use crate::synthesis::{
    select_runtime, synthesize, synthesize_bundled, synthesize_inline, synthesize_source, Evaluate,
    Evaluation, LavaSource, LoadBundled, LookUpInterface, PickRuntime, ProbePath, Render, Runtime,
    Step, Target,
};
use crate::text::{owned, texts};

verus! {

/// Whether two optional strings are both absent, or hold the same text.
pub open spec fn same_text(a: Option<String>, b: Option<String>) -> bool {
    match (a, b) {
        (None, None) => true,
        (Some(a), Some(b)) => a@ == b@,
        _ => false,
    }
}

/// Whether two sets of arguments ask for the same.
pub open spec fn ask_the_same(a: LavaPlanArgs, b: LavaPlanArgs) -> bool {
    &&& a.path == b.path
    &&& entries_of(a.bindings) == entries_of(b.bindings)
    &&& same_text(a.gate_with, b.gate_with)
    &&& same_text(a.runtime_kind, b.runtime_kind)
}

/// The text of a gate, if there is one.
pub open spec fn gate_text(gate_with: Option<String>) -> Option<Seq<char>> {
    if gate_with is Some {
        Some(gate_with->0@)
    } else {
        None
    }
}

/// Whether `step` is where the evaluation of `target` with `bindings` starts: at
/// the look-up of the schema gate, if there is one, or else at the evaluation
/// itself, under no interface.
pub open spec fn starts_evaluation<A, D, I, E>(
    step: Step<A, D, I, E>,
    target: Target,
    bindings: Entries,
    gate_with: Option<Seq<char>>,
) -> bool {
    match gate_with {
        Some(name) => step matches Step::LookUpInterface(next) && next.name@ == name
            && same_target(next.job.target, target) && entries_of(next.job.bindings) == bindings,
        None => step matches Step::Evaluate(next) && next.interface is None && same_target(
            next.job.target,
            target,
        ) && entries_of(next.job.bindings) == bindings,
    }
}

/// Whether two targets are the same.
pub open spec fn same_target(a: Target, b: Target) -> bool {
    match (a, b) {
        (
            Target::Path { runtime: r, path: p },
            Target::Path { runtime, path },
        ) => r == runtime && p == path,
        (
            Target::Source { source: s, name: n },
            Target::Source { source, name },
        ) => s@ == source@ && same_text(n, name),
        _ => false,
    }
}

/// Whether `after` is `before` with `key` bound to `value`, and otherwise the
/// same: every other key reads as before, every key keeps its place, and a new
/// one comes last.
pub open spec fn only_binds(
    before: Entries,
    after: Entries,
    key: Seq<char>,
    value: BindingView,
) -> bool {
    &&& value_of(after, key) == Some(value)
    &&& forall|other: Seq<char>|
        other != key ==> #[trigger] value_of(after, other) == value_of(before, other)
    &&& before.len() <= after.len() <= before.len() + 1
    &&& forall|i: int| 0 <= i < before.len() ==> (#[trigger] after[i]).0 == before[i].0
    &&& after.len() > before.len() ==> after.last() == (key, value)
    &&& keys_distinct(after)
}

/// What a map does when a key is bound is what [`only_binds`] says.
proof fn lemma_only_binds(before: Entries, key: Seq<char>, value: BindingView)
    requires
        keys_distinct(before),
    ensures
        only_binds(before, bind(before, key, value), key, value),
{
    law_bind_keeps_keys_distinct(before, key, value);
    law_bind_reads_back(before, key, value);
    law_bind_keeps_order(before, key, value);
    assert forall|other: Seq<char>| other != key implies #[trigger] value_of(
        bind(before, key, value),
        other,
    ) == value_of(before, other) by {
        law_bind_keeps_others(before, key, value, other);
    }
}

/// Taking ownership of a text keeps it, and makes none up.
pub proof fn law_owned_keeps_the_text(s: Option<&str>, r: Option<String>)
    requires
        call_ensures(owned, (s,), r),
    ensures
        r is Some <==> s is Some,
        s is Some ==> r->0@ == s->0@,
{
}

/// A copy of arguments asks for the same.
pub proof fn law_copied_arguments_ask_the_same(args: LavaPlanArgs, copy: LavaPlanArgs)
    requires
        call_ensures(<LavaPlanArgs as Clone>::clone, (&args,), copy),
    ensures
        ask_the_same(args, copy),
{
}

/// Arguments for a path name that path, and nothing else: no input slot is
/// bound, and there is neither a gate nor a runtime.
pub proof fn law_arguments_for_a_path<P: Into<PathBuf>>(path: P, args: LavaPlanArgs)
    requires
        call_ensures(LavaPlanArgs::for_path::<P>, (path,), args),
    ensures
        call_ensures(<P as Into<PathBuf>>::into, (path,), args.path),
        entries_of(args.bindings).len() == 0,
        args.gate_with is None,
        args.runtime_kind is None,
{
}

/// Arguments for an owned path name just that path.
pub proof fn law_arguments_for_an_owned_path(path: PathBuf, args: LavaPlanArgs)
    requires
        call_ensures(LavaPlanArgs::for_path::<PathBuf>, (path,), args),
    ensures
        args.path == path,
{
}

/// The runtime that is selected depends on the name given, and on nothing else:
/// there are two names, every other one is refused by a path that mentions it,
/// and where none is given, none is selected.
pub proof fn law_runtime_is_selected_by_name<E>(
    args: LavaPlanArgs,
    selected: Result<Option<Runtime>, LavaError<E>>,
)
    requires
        call_ensures(select_runtime::<E>, (&args,), selected),
    ensures
        selected matches Ok(None) <==> args.runtime_kind is None,
        selected matches Ok(Some(Runtime::Lava)) <==> (args.runtime_kind matches Some(kind)
            && kind@ == "lava"@),
        selected matches Ok(Some(Runtime::TerraformJson)) <==> (args.runtime_kind matches Some(kind)
            && kind@ == "terraform-json"@),
        !(selected matches Ok(Some(Runtime::Picked))),
        selected matches Err(error) ==> (error matches LavaError::NoRuntime { path } && path
            == path_from("(runtime_kind="@ + args.runtime_kind->0@ + ")"@)),
{
    reveal_strlit("lava");
    reveal_strlit("terraform-json");
    assert("lava"@.len() != "terraform-json"@.len());
}

/// Binding a text to an input slot binds that text to that slot. No other slot
/// reads otherwise, no slot moves, a new slot comes last, and nothing else of
/// the arguments changes.
pub proof fn law_text_is_bound<K: Into<String>, V: Into<String>>(
    args: LavaPlanArgs,
    k: K,
    v: V,
    bound: LavaPlanArgs,
)
    requires
        keys_distinct(entries_of(args.bindings)),
        call_ensures(LavaPlanArgs::with_scalar::<K, V>, (args, k, v), bound),
    ensures
        exists|key: String, value: String| #[trigger]
            call_ensures(<K as Into<String>>::into, (k,), key) && #[trigger] call_ensures(
                <V as Into<String>>::into,
                (v,),
                value,
            ) && only_binds(
                entries_of(args.bindings),
                entries_of(bound.bindings),
                key@,
                BindingView::Scalar(value@),
            ),
        bound.path == args.path,
        same_text(bound.gate_with, args.gate_with),
        same_text(bound.runtime_kind, args.runtime_kind),
{
    let before = entries_of(args.bindings);
    let (key, value) = choose|key: String, value: String|
        call_ensures(<K as Into<String>>::into, (k,), key) && call_ensures(
            <V as Into<String>>::into,
            (v,),
            value,
        ) && entries_of(bound.bindings) == bind(
            before,
            key@,
            BindingView::Scalar(value@),
        );
    lemma_only_binds(before, key@, BindingView::Scalar(value@));
}

/// Binding a list to an input slot binds that list to that slot. No other slot
/// reads otherwise, no slot moves, a new slot comes last, and nothing else of
/// the arguments changes.
pub proof fn law_list_is_bound<K: Into<String>>(
    args: LavaPlanArgs,
    k: K,
    v: Vec<String>,
    bound: LavaPlanArgs,
    items: Seq<Seq<char>>,
)
    requires
        keys_distinct(entries_of(args.bindings)),
        call_ensures(LavaPlanArgs::with_list::<K>, (args, k, v), bound),
        items.len() == v@.len(),
        forall|i: int| 0 <= i < items.len() ==> #[trigger] items[i] == v@[i]@,
    ensures
        exists|key: String| #[trigger]
            call_ensures(<K as Into<String>>::into, (k,), key) && only_binds(
                entries_of(args.bindings),
                entries_of(bound.bindings),
                key@,
                BindingView::List(items),
            ),
        bound.path == args.path,
        same_text(bound.gate_with, args.gate_with),
        same_text(bound.runtime_kind, args.runtime_kind),
{
    let before = entries_of(args.bindings);
    let held = BindingView::List(texts(v@));
    let key = choose|key: String|
        call_ensures(<K as Into<String>>::into, (k,), key) && entries_of(bound.bindings)
            == bind(before, key@, held);
    assert(texts(v@) =~= items);
    lemma_only_binds(before, key@, held);
}

/// A text bound to a slot by owned strings is bound to just that slot.
pub proof fn law_owned_text_is_bound(
    args: LavaPlanArgs,
    key: String,
    value: String,
    bound: LavaPlanArgs,
)
    requires
        keys_distinct(entries_of(args.bindings)),
        call_ensures(LavaPlanArgs::with_scalar::<String, String>, (args, key, value), bound),
    ensures
        only_binds(
            entries_of(args.bindings),
            entries_of(bound.bindings),
            key@,
            BindingView::Scalar(value@),
        ),
{
    law_text_is_bound::<String, String>(args, key, value, bound);
}

/// Gating arguments sets the schema gate, and changes nothing else of them.
pub proof fn law_gate_is_set<N: Into<String>>(args: LavaPlanArgs, name: N, gated: LavaPlanArgs)
    requires
        call_ensures(LavaPlanArgs::gated_by::<N>, (args, name), gated),
    ensures
        exists|gate: String| #[trigger]
            call_ensures(<N as Into<String>>::into, (name,), gate) && gated.gate_with is Some
                && gated.gate_with->0@ == gate@,
        gated.path == args.path,
        entries_of(gated.bindings) == entries_of(args.bindings),
        same_text(gated.runtime_kind, args.runtime_kind),
{
}

/// The arguments of a synthesis reach its first step as they are.
pub proof fn law_synthesis_of_a_file_starts_with_its_arguments<A, D, I, E>(
    args: LavaPlanArgs,
    step: Step<A, D, I, E>,
)
    requires
        call_ensures(synthesize::<A, D, I, E>, (&args,), step),
    ensures
        step matches Step::ProbePath(next) && ask_the_same(next.args, args),
{
}

/// A source text is to be evaluated as it is, without a name, with the bindings
/// given and under the schema gate given.
pub proof fn law_inline_text_is_evaluated_as_given<A, D, I, E>(
    source: &str,
    bindings: IndexMap<String, ArtifactBinding>,
    gate_with: Option<&str>,
    text: String,
    step: Step<A, D, I, E>,
)
    requires
        call_ensures(synthesize_inline::<A, D, I, E>, (source, bindings, gate_with), step),
        text@ == source@,
    ensures
        starts_evaluation(
            step,
            Target::Source { source: text, name: None },
            entries_of(bindings),
            if gate_with is Some {
                Some(gate_with->0@)
            } else {
                None
            },
        ),
{
}

/// A bundled architecture is to be looked up by the name given, and keeps the
/// bindings and the schema gate given.
pub proof fn law_bundled_is_looked_up_as_given<A, D, I, E>(
    name: &str,
    bindings: IndexMap<String, ArtifactBinding>,
    gate_with: Option<&str>,
    step: Step<A, D, I, E>,
)
    requires
        call_ensures(synthesize_bundled::<A, D, I, E>, (name, bindings, gate_with), step),
    ensures
        step matches Step::LoadBundled(next) && next.name@ == name@ && entries_of(next.bindings)
            == entries_of(bindings) && (next.gate_with is Some <==> gate_with is Some) && (
        gate_with is Some ==> next.gate_with->0@ == gate_with->0@),
{
}

/// A source starts its synthesis with exactly the bindings and the schema gate
/// given: a file is looked for, with no runtime named; a text is evaluated; a
/// bundled architecture is looked up.
pub proof fn law_source_starts_as_given<A, D, I, E>(
    source: LavaSource,
    bindings: IndexMap<String, ArtifactBinding>,
    gate_with: Option<&str>,
    step: Step<A, D, I, E>,
)
    requires
        call_ensures(synthesize_source::<A, D, I, E>, (&source, &bindings, gate_with), step),
    ensures
        match source {
            LavaSource::Path { path } => step matches Step::ProbePath(next) && next.args.path
                == path && entries_of(next.args.bindings) == entries_of(bindings) && (
            next.args.gate_with is Some <==> gate_with is Some) && (gate_with is Some
                ==> next.args.gate_with->0@ == gate_with->0@) && next.args.runtime_kind is None,
            LavaSource::Inline { inline } => starts_evaluation(
                step,
                Target::Source { source: inline, name: None },
                entries_of(bindings),
                if gate_with is Some {
                    Some(gate_with->0@)
                } else {
                    None
                },
            ),
            LavaSource::Bundled { name } => step matches Step::LoadBundled(next) && next.name@
                == name@ && entries_of(next.bindings) == entries_of(bindings) && (
            next.gate_with is Some <==> gate_with is Some) && (gate_with is Some
                ==> next.gate_with->0@ == gate_with->0@),
        },
{
}

/// A copy of a source is the same source.
pub proof fn law_copied_source_is_the_same(source: LavaSource, copy: LavaSource)
    requires
        call_ensures(<LavaSource as Clone>::clone, (&source,), copy),
    ensures
        match source {
            LavaSource::Path { path } => copy matches LavaSource::Path { path: p } && p == path,
            LavaSource::Inline { inline } => copy matches LavaSource::Inline { inline: t } && t@
                == inline@,
            LavaSource::Bundled { name } => copy matches LavaSource::Bundled { name: n } && n@
                == name@,
        },
{
}

/// A source file that is not there ends the synthesis, whatever else is asked
/// for; the failure mentions the path that was asked for.
pub proof fn law_missing_file_ends_the_synthesis<A, D, I, E>(
    probe: ProbePath,
    step: Step<A, D, I, E>,
)
    requires
        call_ensures(ProbePath::probed::<A, D, I, E>, (probe, false), step),
    ensures
        step matches Step::Done(Err(LavaError::Io { path, source })) && path == probe.args.path
            && is_not_found(source),
{
}

/// Where the arguments name a runtime, it evaluates the file, with the bindings
/// and under the schema gate of the arguments.
pub proof fn law_named_runtime_evaluates_the_file<A, D, I, E>(
    probe: ProbePath,
    runtime: Runtime,
    step: Step<A, D, I, E>,
)
    requires
        call_ensures(ProbePath::probed::<A, D, I, E>, (probe, true), step),
        probe.args.runtime_kind matches Some(kind) && (kind@ == "lava"@ && runtime == Runtime::Lava
            || kind@ == "terraform-json"@ && runtime == Runtime::TerraformJson),
    ensures
        starts_evaluation(
            step,
            Target::Path { runtime, path: probe.args.path },
            entries_of(probe.args.bindings),
            gate_text(probe.args.gate_with),
        ),
{
    reveal_strlit("lava");
    reveal_strlit("terraform-json");
    assert("lava"@.len() != "terraform-json"@.len());
}

/// A name that stands for no runtime ends the synthesis, whatever else is asked
/// for; the failure mentions that name.
pub proof fn law_unknown_runtime_ends_the_synthesis<A, D, I, E>(
    probe: ProbePath,
    step: Step<A, D, I, E>,
)
    requires
        call_ensures(ProbePath::probed::<A, D, I, E>, (probe, true), step),
        probe.args.runtime_kind matches Some(kind) && kind@ != "lava"@ && kind@
            != "terraform-json"@,
    ensures
        step matches Step::Done(Err(LavaError::NoRuntime { path })) && path == path_from(
            "(runtime_kind="@ + probe.args.runtime_kind->0@ + ")"@,
        ),
{
}

/// Where the arguments name no runtime, one is to be picked, and the arguments
/// stay what they are.
pub proof fn law_unnamed_runtime_is_to_be_picked<A, D, I, E>(
    probe: ProbePath,
    step: Step<A, D, I, E>,
)
    requires
        call_ensures(ProbePath::probed::<A, D, I, E>, (probe, true), step),
        probe.args.runtime_kind is None,
    ensures
        step matches Step::PickRuntime(next) && ask_the_same(next.args, probe.args),
{
}

/// The runtime that is picked evaluates the file, with the bindings and under
/// the schema gate of the arguments; where there is none, the path is refused.
pub proof fn law_picked_runtime_evaluates_the_file<A, D, I, E>(
    pick: PickRuntime,
    found: bool,
    step: Step<A, D, I, E>,
)
    requires
        call_ensures(PickRuntime::picked::<A, D, I, E>, (pick, found), step),
    ensures
        found ==> starts_evaluation(
            step,
            Target::Path { runtime: Runtime::Picked, path: pick.args.path },
            entries_of(pick.args.bindings),
            gate_text(pick.args.gate_with),
        ),
        !found ==> (step matches Step::Done(Err(LavaError::NoRuntime { path })) && path
            == pick.args.path),
{
}

/// The interface that was found is the one that the job is evaluated under, and
/// the job stays what it is; an interface that is not known ends the synthesis
/// by its name.
pub proof fn law_found_interface_gates_the_job<A, D, I, E>(
    look_up: LookUpInterface,
    found: Option<I>,
    step: Step<A, D, I, E>,
)
    requires
        call_ensures(LookUpInterface::looked_up::<A, D, I, E>, (look_up, found), step),
    ensures
        found is Some ==> (step matches Step::Evaluate(next) && next.interface == found
            && same_target(next.job.target, look_up.job.target) && entries_of(next.job.bindings)
            == entries_of(look_up.job.bindings)),
        found is None ==> (step matches Step::Done(Err(LavaError::UnknownInterface(name))) && name@
            == look_up.name@),
{
}

/// The source text of a bundled architecture is evaluated as it was found, with
/// the bindings and under the schema gate given; a name that is not known ends
/// the synthesis by a text that mentions it.
pub proof fn law_loaded_text_is_evaluated_as_found<A, D, I, E>(
    load: LoadBundled,
    found: Option<String>,
    step: Step<A, D, I, E>,
)
    requires
        call_ensures(LoadBundled::loaded::<A, D, I, E>, (load, found), step),
    ensures
        found is Some ==> starts_evaluation(
            step,
            Target::Source { source: found->0, name: None },
            entries_of(load.bindings),
            gate_text(load.gate_with),
        ),
        found is None ==> (step matches Step::Done(Err(LavaError::UnknownInterface(text))) && text@
            == "unknown bundled architecture `"@ + load.name@ + "`"@),
{
}

/// What a runtime made of a job is rendered as it is; what it failed with ends
/// the synthesis.
pub proof fn law_evaluation_is_rendered_as_it_is<A, D, I, E>(
    evaluate: Evaluate<I>,
    result: Result<Evaluation<A, D>, E>,
    step: Step<A, D, I, E>,
)
    requires
        call_ensures(Evaluate::<I>::evaluated::<A, D, E>, (evaluate, result), step),
    ensures
        match result {
            Ok(evaluation) => step matches Step::Render(next) && next.evaluation.architecture
                == evaluation.architecture && next.evaluation.diagnostics@
                == evaluation.diagnostics@ && next.evaluation.runtime_kind@
                == evaluation.runtime_kind@,
            Err(error) => step matches Step::Done(Err(LavaError::Runtime(e))) && e == error,
        },
{
}

/// A plan holds the rendered JSON, and what the evaluation came with; a
/// rendering that failed ends the synthesis with the renderer's text.
pub proof fn law_plan_holds_what_was_rendered<A, D, I, E>(
    render: Render<A, D>,
    rendered: Result<Value, String>,
    step: Step<A, D, I, E>,
)
    requires
        call_ensures(Render::<A, D>::rendered::<I, E>, (render, rendered), step),
    ensures
        match rendered {
            Ok(json) => step matches Step::Done(Ok(plan)) && plan.terraform_json == json
                && plan.architecture == render.evaluation.architecture && plan.runtime_kind@
                == render.evaluation.runtime_kind@ && plan.diagnostics@
                == render.evaluation.diagnostics@,
            Err(text) => step matches Step::Done(Err(LavaError::Render(t))) && t@ == text@,
        },
{
}

/// A copy of a binding holds the same texts, in the same order.
pub proof fn law_copied_binding_holds_the_same(value: ArtifactBinding, copy: ArtifactBinding)
    requires
        call_ensures(<ArtifactBinding as Clone>::clone, (&value,), copy),
    ensures
        match value {
            ArtifactBinding::Scalar(text) => copy matches ArtifactBinding::Scalar(t) && t@ == text@,
            ArtifactBinding::List(items) => copy matches ArtifactBinding::List(list) && list@.len()
                == items@.len() && forall|i: int|
                0 <= i < items@.len() ==> (#[trigger] list@[i])@ == items@[i]@,
        },
{
    if let ArtifactBinding::List(items) = value {
        let list = copy->List_0;
        assert(texts(list@).len() == texts(items@).len());
        assert forall|i: int| 0 <= i < items@.len() implies (#[trigger] list@[i])@
            == items@[i]@ by {
            assert(texts(list@)[i] == texts(items@)[i]);
        }
    }
}

/// A copy of a plan holds the same JSON and the same runtime, and copies of the
/// same architecture and of the same diagnostics, in order.
pub proof fn law_copied_plan_holds_the_same<A: Clone, D: Clone>(
    plan: LavaPlan<A, D>,
    copy: LavaPlan<A, D>,
)
    requires
        call_ensures(<LavaPlan<A, D> as Clone>::clone, (&plan,), copy),
    ensures
        copy.terraform_json == plan.terraform_json,
        copy.runtime_kind@ == plan.runtime_kind@,
        cloned(plan.architecture, copy.architecture),
        copy.diagnostics@.len() == plan.diagnostics@.len(),
        forall|i: int|
            0 <= i < plan.diagnostics@.len() ==> cloned(
                plan.diagnostics@[i],
                #[trigger] copy.diagnostics@[i],
            ),
{
}

/// The Crossplane rendering of a plan is that of the plan's own architecture.
pub proof fn law_crossplane_is_of_the_same_architecture<A, D>(
    plan: &LavaPlan<A, D>,
    pending: RenderCrossplane<'_, A>,
)
    requires
        call_ensures(LavaPlan::<A, D>::crossplane_yaml, (plan,), pending),
    ensures
        *pending.architecture == plan.architecture,
{
}

/// What the Crossplane renderer gives is handed on as it is.
pub proof fn law_crossplane_is_handed_on<A, E>(
    pending: RenderCrossplane<'_, A>,
    rendered: Result<String, String>,
    yaml: Result<String, LavaError<E>>,
)
    requires
        call_ensures(RenderCrossplane::<A>::rendered::<E>, (pending, rendered), yaml),
    ensures
        match rendered {
            Ok(text) => yaml matches Ok(t) && t@ == text@,
            Err(text) => yaml matches Err(LavaError::Render(t)) && t@ == text@,
        },
{
}

/// The messages of the two failures that mention a path.
pub proof fn law_path_messages(
    path: &str,
    source: &str,
    unread: String,
    unmatched: String,
)
    requires
        call_ensures(io_message, (path, source), unread),
        call_ensures(no_runtime_message, (path,), unmatched),
    ensures
        unread@ == "io reading "@ + path@ + ": "@ + source@,
        unmatched@ == "no runtime matches path "@ + path@
            + " (extension hint resolved to nothing)"@,
{
}

/// The message of an error says what the error holds, and what it wraps.
pub proof fn law_message_says_what_the_error_holds<E>(
    error: LavaError<E>,
    cause: &str,
    message: String,
)
    requires
        call_ensures(LavaError::<E>::message, (&error, cause), message),
    ensures
        match error {
            LavaError::Io { path, .. } => message@ == "io reading "@ + path_shown(path) + ": "@
                + cause@,
            LavaError::NoRuntime { path } => message@ == "no runtime matches path "@ + path_shown(
                path,
            ) + " (extension hint resolved to nothing)"@,
            LavaError::UnknownInterface(name) => message@ == "unknown bundled interface `"@ + name@
                + "` — not in lava-architectures::interface_for"@,
            LavaError::Runtime(_) => message@ == "runtime: "@ + cause@,
            LavaError::Render(text) => message@ == "render terraform.json: "@ + text@,
        },
{
}

} // verus!
