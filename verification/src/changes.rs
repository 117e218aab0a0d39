//! Planned changes, as drift consumers read them.

use std::collections::HashMap;

use vstd::prelude::*;

use crate::error::{LavaError, LavaErrorView};
use crate::json::{json_text, write_json};
use crate::magma::{
    addresses_are_distinct, always_compliant, change_of, changes_of, config_of, first_change,
    first_changes, is_compliance_checked, lemma_one_list, lists, nil_uuid, parse_config,
    parsed_config, plans_first, read_change, refuses_nothing, run_plan, Action, BlockView,
    ConfigView, PriorState, ResourceDelta, ResourceDeltaView, ResourceKey,
};
use crate::plan::{outcome_view, LavaPlan, LavaPlanView};
use crate::text::optional_text;

verus! {

/// One planned change of a resource.
#[derive(Debug, PartialEq, Eq)]
pub struct PlannedChange {
    /// The resource's type and name, joined by a dot.
    pub address: String,
    /// The attribute that changes; `*` for the resource as a whole.
    pub attribute: String,
    /// `create`, `update`, `delete`, `replace`, `no_op` or `read`.
    pub kind: String,
    /// The compact JSON text of the attributes before the change, if any.
    pub before: Option<String>,
    /// The compact JSON text of the attributes after the change, if any.
    pub after: Option<String>,
}

/// What a [`PlannedChange`] holds.
#[verifier::ext_equal]
pub struct PlannedChangeView {
    pub address: Seq<char>,
    pub attribute: Seq<char>,
    pub kind: Seq<char>,
    pub before: Option<Seq<char>>,
    pub after: Option<Seq<char>>,
}

impl View for PlannedChange {
    type V = PlannedChangeView;

    open spec fn view(&self) -> PlannedChangeView {
        PlannedChangeView {
            address: self.address@,
            attribute: self.attribute@,
            kind: self.kind@,
            before: optional_text(self.before),
            after: optional_text(self.after),
        }
    }
}

impl Clone for PlannedChange {
    fn clone(&self) -> (copy: Self)
        ensures
            copy@ == self@,
    {
        PlannedChange {
            address: self.address.clone(),
            attribute: self.attribute.clone(),
            kind: self.kind.clone(),
            before: self.before.clone(),
            after: self.after.clone(),
        }
    }
}

/// What each of the planned changes holds, in order.
pub open spec fn planned_views(changes: Seq<PlannedChange>) -> Seq<PlannedChangeView> {
    changes.map_values(|change: PlannedChange| change@)
}

/// What a plan's reports come to.
pub open spec fn reports_view<E>(reports: Result<Vec<PlannedChange>, LavaError<E>>) -> Result<
    Seq<PlannedChangeView>,
    LavaErrorView<E>,
> {
    match reports {
        Ok(changes) => Ok(planned_views(changes@)),
        Err(error) => Err(error@),
    }
}

/// The kind that an action is reported as.
pub open spec fn kind_of(action: Action) -> Seq<char> {
    match action {
        Action::NoOp => "no_op"@,
        Action::Create => "create"@,
        Action::Read => "read"@,
        Action::Update => "update"@,
        Action::Replace | Action::CreateThenDelete | Action::DeleteThenCreate => "replace"@,
        Action::Delete | Action::Forget => "delete"@,
    }
}

/// The planned change that a resource's change is reported as.
pub open spec fn reported(change: ResourceDeltaView) -> PlannedChangeView {
    PlannedChangeView {
        address: change.type_id + "."@ + change.name,
        attribute: "*"@,
        kind: kind_of(change.action),
        before: change.before,
        after: change.after,
    }
}

/// The planned changes that the changes of several resources are reported as.
pub open spec fn all_reported(changes: Seq<ResourceDeltaView>) -> Seq<PlannedChangeView> {
    changes.map_values(|change: ResourceDeltaView| reported(change))
}

impl Action {
    /// The kind that this action is reported as.
    pub fn kind(&self) -> (kind: &'static str)
        ensures
            kind@ == kind_of(*self),
    {
        match self {
            Action::NoOp => "no_op",
            Action::Create => "create",
            Action::Read => "read",
            Action::Update => "update",
            Action::Replace => "replace",
            Action::Delete => "delete",
            Action::Forget => "delete",
            Action::CreateThenDelete => "replace",
            Action::DeleteThenCreate => "replace",
        }
    }
}

/// Reports the change of a resource whose attributes are given as compact JSON
/// text.
pub fn planned_change(
    type_id: String,
    name: &str,
    action: Action,
    before: Option<String>,
    after: Option<String>,
) -> (change: PlannedChange)
    ensures
        change@ == reported(
            (ResourceDeltaView {
                type_id: type_id@,
                name: name@,
                action,
                before: optional_text(before),
                after: optional_text(after),
            }),
        ),
{
    PlannedChange {
        address: type_id.concat(".").concat(name),
        attribute: String::from("*"),
        kind: String::from(action.kind()),
        before,
        after,
    }
}

/// Reports the change of a resource.
pub fn planned_change_from_resource_change(rc: ResourceDelta) -> (change: PlannedChange)
    ensures
        change@ == reported(rc@),
{
    let before = match &rc.before {
        Some(value) => Some(write_json(value)),
        None => None,
    };
    let after = match &rc.after {
        Some(value) => Some(write_json(value)),
        None => None,
    };
    planned_change(rc.type_id, rc.name.as_str(), rc.action, before, after)
}

/// Reports the changes of several resources, in order.
pub fn planned_changes(changes: Vec<magma_types::ResourceChange>) -> (reports: Vec<PlannedChange>)
    ensures
        planned_views(reports@) == all_reported(changes_of(changes@)),
{
    let ghost all = changes@;
    let mut reports: Vec<PlannedChange> = Vec::new();
    for change in it: changes.into_iter()
        invariant
            it.seq() == all,
            reports@.len() == it.index(),
            forall|i: int|
                0 <= i < reports@.len() ==> (#[trigger] reports@[i])@ == reported(change_of(all[i])),
    {
        reports.push(planned_change_from_resource_change(read_change(change)));
    }
    assert(planned_views(reports@) =~= all_reported(changes_of(all)));
    reports
}

/// Whether a state is the one that a first plan is made against: it holds
/// nothing.
pub open spec fn is_baseline(state: PriorState) -> bool {
    &&& state.version == 4
    &&& state.terraform_version@ == "1.5.0"@
    &&& state.serial == 0
    &&& forall|i: int| 0 <= i < 16 ==> #[trigger] state.lineage@[i] == 0
    &&& state.outputs@ == Map::<String, magma_types::OutputValue>::empty()
    &&& state.resources@ == Seq::<magma_types::StateResource>::empty()
}

/// The state that a first plan is made against.
pub fn baseline_state() -> (state: PriorState)
    ensures
        is_baseline(state),
{
    PriorState {
        version: 4,
        terraform_version: String::from("1.5.0"),
        serial: 0,
        lineage: nil_uuid(),
        outputs: HashMap::new(),
        resources: Vec::new(),
    }
}

/// The planned changes of a first plan of `resources`, in the order of `keys`.
pub open spec fn first_reports(
    resources: Map<ResourceKey, BlockView>,
    keys: Seq<ResourceKey>,
) -> Seq<PlannedChangeView> {
    all_reported(first_changes(resources, keys))
}

/// The text of a configuration that could not be parsed because of `cause`.
pub open spec fn parse_failure(cause: Seq<char>) -> Seq<char> {
    "magma-config parse: "@ + cause
}

/// The text of a configuration that could not be planned because of `cause`.
pub open spec fn plan_failure(cause: Seq<char>) -> Seq<char> {
    "magma plan: "@ + cause
}

/// Whether `reports` are the planned changes of a first plan of `resources`:
/// each resource is reported once, ordered by type and name.
pub open spec fn reports_resources(
    resources: Map<ResourceKey, BlockView>,
    reports: Seq<PlannedChangeView>,
) -> bool {
    exists|keys: Seq<ResourceKey>| #[trigger]
        lists(resources, keys) && reports == first_reports(resources, keys)
}

/// What magma's planner gave: what its changes hold, or the text of its error.
pub open spec fn planned_view(planned: Result<Vec<magma_types::ResourceChange>, String>) -> Result<
    Seq<ResourceDeltaView>,
    Seq<char>,
> {
    match planned {
        Ok(changes) => Ok(changes_of(changes@)),
        Err(text) => Err(text@),
    }
}

/// What is reported of what magma's planner gave.
pub open spec fn report_of<E>(planned: Result<Seq<ResourceDeltaView>, Seq<char>>) -> Result<
    Seq<PlannedChangeView>,
    LavaErrorView<E>,
> {
    match planned {
        Ok(changes) => Ok(all_reported(changes)),
        Err(text) => Err(LavaErrorView::Render(plan_failure(text))),
    }
}

/// Whether magma's planner may give `planned` for a configuration and a prior
/// state.
pub closed spec fn planner_gave(
    config: magma_config::Config,
    state: PriorState,
    planned: Result<Vec<magma_types::ResourceChange>, String>,
) -> bool {
    call_ensures(run_plan, (&config, state), planned)
}

/// Whether `reports` is the report of something that magma's planner gave for a
/// configuration that holds `config`, against the state that holds nothing.
pub open spec fn reports_what_planner_gave<E>(
    config: ConfigView,
    reports: Result<Seq<PlannedChangeView>, LavaErrorView<E>>,
) -> bool {
    exists|
        held: magma_config::Config,
        state: PriorState,
        planned: Result<Vec<magma_types::ResourceChange>, String>,
    | #[trigger]
        planner_gave(held, state, planned) && config_of(held) == config && is_baseline(state)
            && reports == report_of::<E>(planned_view(planned))
}

/// Whether `reports` is what the first plan of a JSON value, given by its compact
/// text, comes to.
pub open spec fn is_first_plan<E>(
    json: Seq<char>,
    reports: Result<Seq<PlannedChangeView>, LavaErrorView<E>>,
) -> bool {
    match parsed_config(json) {
        Err(text) => reports == Err::<Seq<PlannedChangeView>, LavaErrorView<E>>(
            LavaErrorView::Render(parse_failure(text)),
        ),
        Ok(config) => {
            &&& reports_what_planner_gave(config, reports)
            &&& match reports {
                Ok(changes) => refuses_nothing(config) && reports_resources(
                    config.resources,
                    changes,
                ),
                Err(_) => !(refuses_nothing(config) && always_compliant(config)),
            }
        },
    }
}

/// Whether `reports` is what planning the outcome of a synthesis comes to: a
/// failure is passed on, a plan's JSON is planned.
pub open spec fn plans_outcome<A, D, E>(
    outcome: Result<LavaPlanView<A, D>, LavaErrorView<E>>,
    reports: Result<Seq<PlannedChangeView>, LavaErrorView<E>>,
) -> bool {
    match outcome {
        Err(error) => reports == Err::<Seq<PlannedChangeView>, LavaErrorView<E>>(error),
        Ok(plan) => is_first_plan(json_text(plan.terraform_json), reports),
    }
}

/// Reports what magma's planner gave: the changes of a plan, or the text of its
/// error.
pub fn report_plan<E>(planned: Result<Vec<magma_types::ResourceChange>, String>) -> (reports:
    Result<Vec<PlannedChange>, LavaError<E>>)
    ensures
        reports_view(reports) == report_of::<E>(planned_view(planned)),
{
    match planned {
        Ok(changes) => Ok(planned_changes(changes)),
        Err(text) => Err(LavaError::Render(String::from("magma plan: ").concat(text.as_str()))),
    }
}

/// Plans a synthesized configuration against a state that holds nothing, and
/// reports the changes.
///
/// A synthesis that failed is passed on. Otherwise the configuration is parsed;
/// where that succeeds, what magma's planner gives is reported: each resource
/// once, ordered by type and name, as created or, for a data source, as read; or
/// the planner's error. A configuration whose moves or meta-arguments magma
/// refuses is never planned. One that is compliant under every baseline is
/// planned exactly where nothing of it is refused; for others the baseline in
/// force decides.
pub fn plan_changes<A, D, E>(synthesized: Result<LavaPlan<A, D>, LavaError<E>>) -> (reports: Result<
    Vec<PlannedChange>,
    LavaError<E>,
>)
    ensures
        synthesized matches Err(error) ==> reports == Err::<Vec<PlannedChange>, LavaError<E>>(
            error,
        ),
        plans_outcome(outcome_view(synthesized), reports_view(reports)),
{
    match synthesized {
        Err(error) => Err(error),
        Ok(plan) => match parse_config(plan.terraform_json) {
            Err(text) => Err(
                LavaError::Render(String::from("magma-config parse: ").concat(text.as_str())),
            ),
            Ok(config) => {
                let state = baseline_state();
                let ghost baseline = state;
                let planned = run_plan(&config, state);
                let reports = report_plan::<E>(planned);
                proof {
                    let held = config_of(config);
                    assert(planner_gave(config, baseline, planned));
                    assert(reports_what_planner_gave(held, reports_view(reports)));
                    if planned is Ok {
                        assert(plans_first(held.resources, changes_of(planned->Ok_0@)));
                        assert(reports_resources(held.resources, planned_views(reports->Ok_0@)));
                    }
                }
                reports
            },
        },
    }
}

/// The action that stands for all actions of its kind.
pub open spec fn plain_action(action: Action) -> Action {
    match action {
        Action::Forget => Action::Delete,
        Action::CreateThenDelete | Action::DeleteThenCreate => Action::Replace,
        _ => action,
    }
}

/// The kinds of changes, each once.
pub open spec fn kinds() -> Seq<Seq<char>> {
    seq!["create"@, "update"@, "delete"@, "replace"@, "no_op"@, "read"@]
}

/// Every action is reported as one of six kinds.
pub proof fn law_kind_is_known(action: Action)
    ensures
        kinds().contains(kind_of(action)),
{
    let all = kinds();
    assert(all[0] == "create"@ && all[1] == "update"@ && all[2] == "delete"@);
    assert(all[3] == "replace"@ && all[4] == "no_op"@ && all[5] == "read"@);
}

/// Two actions are reported as the same kind exactly where they come to the
/// same: forgetting is deleting, and creating and deleting in either order is
/// replacing.
pub proof fn law_kinds_tell_actions_apart(a: Action, b: Action)
    ensures
        kind_of(a) == kind_of(b) <==> plain_action(a) == plain_action(b),
{
    reveal_strlit("create");
    reveal_strlit("update");
    reveal_strlit("delete");
    reveal_strlit("replace");
    reveal_strlit("no_op");
    reveal_strlit("read");
    assert("create"@[0] == 'c' && "update"@[0] == 'u' && "delete"@[0] == 'd');
    assert("replace"@.len() == 7 && "no_op"@[0] == 'n' && "read"@.len() == 4);
}

/// A first plan changes nothing that was there: every resource is reported as a
/// whole, without earlier attributes, as created or as read.
pub proof fn law_first_plan_creates_and_reads(
    resources: Map<ResourceKey, BlockView>,
    reports: Seq<PlannedChangeView>,
    i: int,
)
    requires
        reports_resources(resources, reports),
        0 <= i < reports.len(),
    ensures
        reports[i].attribute == "*"@,
        reports[i].before is None,
        reports[i].after is Some,
        reports[i].kind == "create"@ || reports[i].kind == "read"@,
{
}

/// Whether `report` is the first planned change of one of `resources`.
pub open spec fn reports_one_of(
    resources: Map<ResourceKey, BlockView>,
    report: PlannedChangeView,
) -> bool {
    exists|key: ResourceKey| #[trigger]
        resources.contains_key(key) && report == reported(first_change(key, resources[key].attributes))
}

/// A first plan reports each declared resource once, and nothing else.
pub proof fn law_first_plan_reports_each_resource(
    resources: Map<ResourceKey, BlockView>,
    reports: Seq<PlannedChangeView>,
)
    requires
        reports_resources(resources, reports),
    ensures
        resources.dom().finite(),
        reports.len() == resources.dom().len(),
        forall|key: ResourceKey| #[trigger]
            resources.contains_key(key) ==> reports.contains(
                reported(first_change(key, resources[key].attributes)),
            ),
        forall|i: int|
            0 <= i < reports.len() ==> reports_one_of(resources, #[trigger] reports[i]),
{
    let keys = choose|keys: Seq<ResourceKey>| #[trigger]
        lists(resources, keys) && reports == first_reports(resources, keys);
    keys.unique_seq_to_set();
    assert(keys.to_set() =~= resources.dom());
    assert forall|key: ResourceKey| #[trigger] resources.contains_key(key) implies reports.contains(
        reported(first_change(key, resources[key].attributes)),
    ) by {
        let i = choose|i: int| 0 <= i < keys.len() && keys[i] == key;
        assert(reports[i] == reported(first_change(key, resources[key].attributes)));
    }
    assert forall|i: int| 0 <= i < reports.len() implies reports_one_of(
        resources,
        #[trigger] reports[i],
    ) by {
        assert(keys.contains(keys[i]));
        assert(resources.contains_key(keys[i]));
        assert(reports[i] == reported(first_change(keys[i], resources[keys[i]].attributes)));
    }
}

/// Where no managed resource shares its type and name with a data source, any
/// two first plans report the same changes in the same order.
pub proof fn law_first_plans_agree(
    resources: Map<ResourceKey, BlockView>,
    a: Seq<PlannedChangeView>,
    b: Seq<PlannedChangeView>,
)
    requires
        reports_resources(resources, a),
        reports_resources(resources, b),
        addresses_are_distinct(resources),
    ensures
        a == b,
{
    let keys_a = choose|keys: Seq<ResourceKey>| #[trigger]
        lists(resources, keys) && a == first_reports(resources, keys);
    let keys_b = choose|keys: Seq<ResourceKey>| #[trigger]
        lists(resources, keys) && b == first_reports(resources, keys);
    lemma_one_list(resources, keys_a, keys_b);
}

/// Planning the same outcome of a synthesis again comes to the same, as no plan
/// leaves anything behind.
///
/// A failed synthesis and a configuration that cannot be parsed give the same
/// error again. Two plans report the same changes in the same order, where no
/// managed resource shares its type and name with a data source. Whether there is
/// a plan is the same again, unless the compliance baseline in force decides it.
pub proof fn law_planning_repeats<A, D, E>(
    outcome: Result<LavaPlanView<A, D>, LavaErrorView<E>>,
    first: Result<Seq<PlannedChangeView>, LavaErrorView<E>>,
    second: Result<Seq<PlannedChangeView>, LavaErrorView<E>>,
)
    requires
        plans_outcome(outcome, first),
        plans_outcome(outcome, second),
    ensures
        outcome is Err ==> first == second,
        outcome matches Ok(plan) ==> match parsed_config(json_text(plan.terraform_json)) {
            Err(_) => first == second,
            Ok(config) => {
                &&& first is Ok && second is Ok && addresses_are_distinct(config.resources)
                    ==> first == second
                &&& !refuses_nothing(config) || always_compliant(config) ==> (first is Ok
                    <==> second is Ok)
            },
        },
{
    if outcome is Ok {
        if let Ok(config) = parsed_config(json_text(outcome->Ok_0.terraform_json)) {
            if first is Ok && second is Ok && addresses_are_distinct(config.resources) {
                law_first_plans_agree(config.resources, first->Ok_0, second->Ok_0);
            }
        }
    }
}

/// No two of the six kinds read the same.
proof fn lemma_kinds_differ()
    ensures
        kinds().no_duplicates(),
        "create"@ != "read"@ && "create"@ != "update"@ && "create"@ != "no_op"@ && "create"@
            != "delete"@ && "create"@ != "replace"@,
        "read"@ != "update"@ && "read"@ != "no_op"@ && "read"@ != "delete"@ && "read"@
            != "replace"@,
        "update"@ != "no_op"@ && "update"@ != "delete"@ && "update"@ != "replace"@,
        "no_op"@ != "delete"@ && "no_op"@ != "replace"@,
        "delete"@ != "replace"@,
{
    reveal_strlit("create");
    reveal_strlit("update");
    reveal_strlit("delete");
    reveal_strlit("replace");
    reveal_strlit("no_op");
    reveal_strlit("read");
    assert("create"@[0] == 'c' && "update"@[0] == 'u' && "delete"@[0] == 'd');
    assert("replace"@.len() == 7 && "no_op"@[0] == 'n' && "read"@.len() == 4);
}

/// Each kind is reported for exactly the actions that it stands for.
pub proof fn law_kind_stands_for_its_actions(action: Action, kind: &'static str)
    requires
        call_ensures(Action::kind, (&action,), kind),
    ensures
        (kind@ == "create"@) == (action == Action::Create),
        (kind@ == "read"@) == (action == Action::Read),
        (kind@ == "update"@) == (action == Action::Update),
        (kind@ == "no_op"@) == (action == Action::NoOp),
        (kind@ == "delete"@) == (action == Action::Delete || action == Action::Forget),
        (kind@ == "replace"@) == (action == Action::Replace || action
            == Action::CreateThenDelete || action == Action::DeleteThenCreate),
{
    lemma_kinds_differ();
}

/// A change is reported under the resource's type and name, as a whole, by the
/// kind of its action, with the very texts that it came with; whatever the action
/// is, a text is reported exactly where there is one.
pub proof fn law_change_is_reported_as_it_is(
    type_id: String,
    name: &str,
    action: Action,
    before: Option<String>,
    after: Option<String>,
    change: PlannedChange,
)
    requires
        call_ensures(planned_change, (type_id, name, action, before, after), change),
    ensures
        change.address@ == type_id@ + "."@ + name@,
        change.attribute@ == "*"@,
        change.before is Some <==> before is Some,
        before is Some ==> change.before->0@ == before->0@,
        change.after is Some <==> after is Some,
        after is Some ==> change.after->0@ == after->0@,
        (change.kind@ == "create"@) == (action == Action::Create),
        (change.kind@ == "read"@) == (action == Action::Read),
        (change.kind@ == "update"@) == (action == Action::Update),
        (change.kind@ == "no_op"@) == (action == Action::NoOp),
        (change.kind@ == "delete"@) == (action == Action::Delete || action == Action::Forget),
        (change.kind@ == "replace"@) == (action == Action::Replace || action
            == Action::CreateThenDelete || action == Action::DeleteThenCreate),
{
    lemma_kinds_differ();
}

/// A resource's change is reported under its type and name, as a whole, by the
/// kind of its action, with its own attributes as compact JSON text; whatever the
/// action is, a text is reported exactly where there are attributes.
pub proof fn law_resource_change_is_reported_as_it_is(rc: ResourceDelta, change: PlannedChange)
    requires
        call_ensures(planned_change_from_resource_change, (rc,), change),
    ensures
        change.address@ == rc.type_id@ + "."@ + rc.name@,
        change.attribute@ == "*"@,
        change.before is Some <==> rc.before is Some,
        rc.before is Some ==> change.before->0@ == json_text(rc.before->0),
        change.after is Some <==> rc.after is Some,
        rc.after is Some ==> change.after->0@ == json_text(rc.after->0),
        (change.kind@ == "create"@) == (rc.action == Action::Create),
        (change.kind@ == "read"@) == (rc.action == Action::Read),
        (change.kind@ == "update"@) == (rc.action == Action::Update),
        (change.kind@ == "no_op"@) == (rc.action == Action::NoOp),
        (change.kind@ == "delete"@) == (rc.action == Action::Delete || rc.action == Action::Forget),
        (change.kind@ == "replace"@) == (rc.action == Action::Replace || rc.action
            == Action::CreateThenDelete || rc.action == Action::DeleteThenCreate),
{
    lemma_kinds_differ();
}

/// Every change of magma's is reported, once, in order, and as it is: no change
/// is left out, added, moved or altered.
pub proof fn law_every_change_is_reported_in_order(
    changes: Vec<magma_types::ResourceChange>,
    reports: Vec<PlannedChange>,
    i: int,
)
    requires
        call_ensures(planned_changes, (changes,), reports),
        0 <= i < changes@.len(),
    ensures
        reports@.len() == changes@.len(),
        ({
            let from = change_of(changes@[i]);
            let change = reports@[i];
            &&& change.address@ == from.type_id + "."@ + from.name
            &&& change.attribute@ == "*"@
            &&& change.before is Some <==> from.before is Some
            &&& from.before is Some ==> change.before->0@ == from.before->0
            &&& change.after is Some <==> from.after is Some
            &&& from.after is Some ==> change.after->0@ == from.after->0
            &&& (change.kind@ == "create"@) == (from.action == Action::Create)
            &&& (change.kind@ == "read"@) == (from.action == Action::Read)
            &&& (change.kind@ == "update"@) == (from.action == Action::Update)
            &&& (change.kind@ == "no_op"@) == (from.action == Action::NoOp)
            &&& (change.kind@ == "delete"@) == (from.action == Action::Delete || from.action == Action::Forget)
            &&& (change.kind@ == "replace"@) == (from.action == Action::Replace || from.action
                == Action::CreateThenDelete || from.action == Action::DeleteThenCreate)
        }),
{
    lemma_kinds_differ();
    assert(planned_views(reports@).len() == all_reported(changes_of(changes@)).len());
    assert(planned_views(reports@)[i] == all_reported(changes_of(changes@))[i]);
}

/// Where nothing changes, nothing is reported.
pub proof fn law_no_change_is_made_up(
    changes: Vec<magma_types::ResourceChange>,
    reports: Vec<PlannedChange>,
)
    requires
        call_ensures(planned_changes, (changes,), reports),
    ensures
        reports@.len() == changes@.len(),
{
    assert(planned_views(reports@).len() == all_reported(changes_of(changes@)).len());
}

/// Whether a report stands for a change: its address, its texts and its kind are
/// those of the change.
pub open spec fn stands_for(change: PlannedChange, from: ResourceDeltaView) -> bool {
    &&& change.address@ == from.type_id + "."@ + from.name
    &&& change.attribute@ == "*"@
    &&& change.before is Some <==> from.before is Some
    &&& from.before is Some ==> change.before->0@ == from.before->0
    &&& change.after is Some <==> from.after is Some
    &&& from.after is Some ==> change.after->0@ == from.after->0
    &&& (change.kind@ == "create"@) == (from.action == Action::Create)
    &&& (change.kind@ == "read"@) == (from.action == Action::Read)
    &&& (change.kind@ == "update"@) == (from.action == Action::Update)
    &&& (change.kind@ == "no_op"@) == (from.action == Action::NoOp)
    &&& (change.kind@ == "delete"@) == (from.action == Action::Delete || from.action == Action::Forget)
    &&& (change.kind@ == "replace"@) == (from.action == Action::Replace || from.action
        == Action::CreateThenDelete || from.action == Action::DeleteThenCreate)
}

/// What the planner gave decides what is reported: as many changes as it gave,
/// or its own text.
pub proof fn law_planner_is_reported<E>(
    planned: Result<Vec<magma_types::ResourceChange>, String>,
    reports: Result<Vec<PlannedChange>, LavaError<E>>,
)
    requires
        call_ensures(report_plan::<E>, (planned,), reports),
    ensures
        match planned {
            Ok(changes) => reports matches Ok(made) && made@.len() == changes@.len() && forall|
                i: int,
            |
                0 <= i < changes@.len() ==> stands_for(
                    #[trigger] made@[i],
                    change_of(changes@[i]),
                ),
            Err(text) => reports matches Err(LavaError::Render(t)) && t@ == "magma plan: "@ + text@,
        },
{
    lemma_kinds_differ();
    if let Ok(changes) = planned {
        let made = reports->Ok_0;
        assert(planned_views(made@).len() == all_reported(changes_of(changes@)).len());
        assert forall|i: int| 0 <= i < changes@.len() implies stands_for(
            #[trigger] made@[i],
            change_of(changes@[i]),
        ) by {
            assert(planned_views(made@)[i] == all_reported(changes_of(changes@))[i]);
        }
    }
}

/// The state that a first plan is made against is of the current format, and
/// holds nothing.
pub proof fn law_baseline_holds_nothing(state: PriorState)
    requires
        call_ensures(baseline_state, (), state),
    ensures
        state.resources@.len() == 0,
        state.outputs@.dom() == Set::<String>::empty(),
        state.version == 4,
        state.serial == 0,
        state.terraform_version@ == "1.5.0"@,
        forall|i: int| 0 <= i < 16 ==> #[trigger] state.lineage@[i] == 0,
{
    assert(state.outputs@.dom() =~= Set::<String>::empty());
}

/// A failed synthesis is passed on as it is.
pub proof fn law_failed_synthesis_is_passed_on<A, D, E>(
    error: LavaError<E>,
    reports: Result<Vec<PlannedChange>, LavaError<E>>,
)
    requires
        call_ensures(
            plan_changes::<A, D, E>,
            (Err::<LavaPlan<A, D>, LavaError<E>>(error),),
            reports,
        ),
    ensures
        reports matches Err(e) && e == error,
{
}

/// A configuration that cannot be parsed is reported by the parser's own text,
/// and is never planned.
pub proof fn law_unparsed_configuration_is_reported<A, D, E>(
    plan: LavaPlan<A, D>,
    cause: Seq<char>,
    reports: Result<Vec<PlannedChange>, LavaError<E>>,
)
    requires
        call_ensures(
            plan_changes::<A, D, E>,
            (Ok::<LavaPlan<A, D>, LavaError<E>>(plan),),
            reports,
        ),
        parsed_config(json_text(plan.terraform_json)) == Err::<ConfigView, Seq<char>>(cause),
    ensures
        reports matches Err(LavaError::Render(text)) && text@ == "magma-config parse: "@ + cause,
{
}

/// A configuration is planned where neither its moves nor the meta-arguments of
/// any block are refused and every managed resource of a checked type is compliant
/// under every baseline, and never where anything is refused.
pub proof fn law_plan_is_owed_and_refused<A, D, E>(
    plan: LavaPlan<A, D>,
    config: ConfigView,
    reports: Result<Vec<PlannedChange>, LavaError<E>>,
)
    requires
        call_ensures(
            plan_changes::<A, D, E>,
            (Ok::<LavaPlan<A, D>, LavaError<E>>(plan),),
            reports,
        ),
        parsed_config(json_text(plan.terraform_json)) == Ok::<ConfigView, Seq<char>>(config),
    ensures
        config.moves_refused ==> reports is Err,
        forall|key: ResourceKey| #[trigger]
            config.resources.contains_key(key) && config.resources[key].refused ==> reports is Err,
        !config.moves_refused && (forall|key: ResourceKey| #[trigger]
            config.resources.contains_key(key) ==> !config.resources[key].refused && (key.data
                || !is_compliance_checked(key.type_id) || config.resources[key].compliant))
            ==> reports is Ok,
{
}

/// What is reported of a configuration is what magma's planner gave for it
/// against a state that holds nothing: each of the changes it gave, in order and
/// as it is, or the text of its error.
pub proof fn law_plan_changes_reports_the_planner<A, D, E>(
    plan: LavaPlan<A, D>,
    config: ConfigView,
    reports: Result<Vec<PlannedChange>, LavaError<E>>,
)
    requires
        call_ensures(
            plan_changes::<A, D, E>,
            (Ok::<LavaPlan<A, D>, LavaError<E>>(plan),),
            reports,
        ),
        parsed_config(json_text(plan.terraform_json)) == Ok::<ConfigView, Seq<char>>(config),
    ensures
        exists|
            held: magma_config::Config,
            state: PriorState,
            planned: Result<Vec<magma_types::ResourceChange>, String>,
        |
            {
                &&& #[trigger] planner_gave(held, state, planned)
                &&& config_of(held) == config
                &&& state.version == 4
                &&& state.terraform_version@ == "1.5.0"@
                &&& state.serial == 0
                &&& forall|i: int| 0 <= i < 16 ==> #[trigger] state.lineage@[i] == 0
                &&& state.outputs@ == Map::<String, magma_types::OutputValue>::empty()
                &&& state.resources@.len() == 0
                &&& match planned {
                    Ok(changes) => reports matches Ok(made) && made@.len() == changes@.len()
                        && forall|i: int|
                        0 <= i < changes@.len() ==> stands_for(
                            #[trigger] made@[i],
                            change_of(changes@[i]),
                        ),
                    Err(cause) => reports matches Err(LavaError::Render(text)) && text@
                        == "magma plan: "@ + cause@,
                }
            },
{
    let (held, state, planned) = choose|
        held: magma_config::Config,
        state: PriorState,
        planned: Result<Vec<magma_types::ResourceChange>, String>,
    | #[trigger]
        planner_gave(held, state, planned) && config_of(held) == config && is_baseline(state)
            && reports_view(reports) == report_of::<E>(planned_view(planned));
    lemma_kinds_differ();
    if let Ok(changes) = planned {
        let made = reports->Ok_0;
        assert(planned_views(made@).len() == all_reported(changes_of(changes@)).len());
        assert forall|i: int| 0 <= i < changes@.len() implies stands_for(
            #[trigger] made@[i],
            change_of(changes@[i]),
        ) by {
            assert(planned_views(made@)[i] == all_reported(changes_of(changes@))[i]);
        }
    }
    assert(planner_gave(held, state, planned));
}

/// What the planner is said to have given is what a call of it gives.
pub(crate) proof fn law_planner_gave_what_it_gives(
    config: magma_config::Config,
    state: PriorState,
    planned: Result<Vec<magma_types::ResourceChange>, String>,
)
    ensures
        planner_gave(config, state, planned) <==> call_ensures(run_plan, (&config, state), planned),
{
}

/// A plan reports exactly the declared resources, in the order of type and name,
/// each at its own address, with its own declared attributes and none before: a
/// data source as read, any other resource as created.
pub proof fn law_plan_reports_what_is_declared<A, D, E>(
    plan: LavaPlan<A, D>,
    config: ConfigView,
    reports: Vec<PlannedChange>,
)
    requires
        call_ensures(
            plan_changes::<A, D, E>,
            (Ok::<LavaPlan<A, D>, LavaError<E>>(plan),),
            Ok::<Vec<PlannedChange>, LavaError<E>>(reports),
        ),
        parsed_config(json_text(plan.terraform_json)) == Ok::<ConfigView, Seq<char>>(config),
    ensures
        exists|keys: Seq<ResourceKey>|
            {
                &&& #[trigger] lists(config.resources, keys)
                &&& keys.len() == reports@.len()
                &&& forall|i: int|
                    0 <= i < keys.len() ==> {
                        let change = #[trigger] reports@[i];
                        &&& change.address@ == keys[i].type_id + "."@ + keys[i].name
                        &&& change.attribute@ == "*"@
                        &&& (change.kind@ == "read"@) == keys[i].data
                        &&& (change.kind@ == "create"@) == !keys[i].data
                        &&& change.before is None
                        &&& change.after is Some
                        &&& change.after->0@ == config.resources[keys[i]].attributes
                    }
            },
{
    lemma_kinds_differ();
    let views = planned_views(reports@);
    let keys = choose|keys: Seq<ResourceKey>| #[trigger]
        lists(config.resources, keys) && views == first_reports(config.resources, keys);
    assert(views.len() == keys.len());
    assert forall|i: int| 0 <= i < keys.len() implies {
        let change = #[trigger] reports@[i];
        &&& change.address@ == keys[i].type_id + "."@ + keys[i].name
        &&& change.attribute@ == "*"@
        &&& (change.kind@ == "read"@) == keys[i].data
        &&& (change.kind@ == "create"@) == !keys[i].data
        &&& change.before is None
        &&& change.after is Some
        &&& change.after->0@ == config.resources[keys[i]].attributes
    } by {
        assert(views[i] == first_reports(config.resources, keys)[i]);
        assert(views[i] == reports@[i]@);
    }
    assert(lists(config.resources, keys));
}

/// Every declared resource, managed or a data source, has a report of its own: at
/// its address, with its declared attributes.
pub proof fn law_every_declared_resource_is_reported<A, D, E>(
    plan: LavaPlan<A, D>,
    config: ConfigView,
    reports: Vec<PlannedChange>,
    key: ResourceKey,
)
    requires
        call_ensures(
            plan_changes::<A, D, E>,
            (Ok::<LavaPlan<A, D>, LavaError<E>>(plan),),
            Ok::<Vec<PlannedChange>, LavaError<E>>(reports),
        ),
        parsed_config(json_text(plan.terraform_json)) == Ok::<ConfigView, Seq<char>>(config),
        config.resources.contains_key(key),
    ensures
        reports@.len() == config.resources.dom().len(),
        exists|i: int|
            0 <= i < reports@.len() && (#[trigger] reports@[i]).address@ == key.type_id + "."@
                + key.name && reports@[i].kind@ == (if key.data {
                "read"@
            } else {
                "create"@
            }) && reports@[i].before is None && reports@[i].after is Some
                && reports@[i].after->0@ == config.resources[key].attributes,
{
    lemma_kinds_differ();
    let views = planned_views(reports@);
    let keys = choose|keys: Seq<ResourceKey>| #[trigger]
        lists(config.resources, keys) && views == first_reports(config.resources, keys);
    law_first_plan_reports_each_resource(config.resources, views);
    assert(keys.contains(key));
    let i = choose|i: int| 0 <= i < keys.len() && keys[i] == key;
    assert(views[i] == first_reports(config.resources, keys)[i]);
    assert(views[i] == reports@[i]@);
    assert(reports@[i].address@ == key.type_id + "."@ + key.name);
}

/// A copy of a planned change holds the same texts.
pub proof fn law_copied_change_holds_the_same(change: PlannedChange, copy: PlannedChange)
    requires
        call_ensures(<PlannedChange as Clone>::clone, (&change,), copy),
    ensures
        copy.address@ == change.address@,
        copy.attribute@ == change.attribute@,
        copy.kind@ == change.kind@,
        copy.before is Some <==> change.before is Some,
        change.before is Some ==> copy.before->0@ == change.before->0@,
        copy.after is Some <==> change.after is Some,
        change.after is Some ==> copy.after->0@ == change.after->0@,
{
}

} // verus!
