//! The parts of magma that planning goes through: the typed configuration, the
//! prior state and the planned resource changes.

use std::collections::HashMap;

use serde_json::Value;
use vstd::prelude::*;

use crate::json::{json_text, optional_json_text};

verus! {

/// `magma_config::Config`, a parsed Terraform JSON workspace.
#[verifier::external_type_specification]
#[verifier::external_body]
pub struct ExConfig(magma_config::Config);

/// `magma_types::ResourceChange`, one planned change of a resource.
#[verifier::external_type_specification]
#[verifier::external_body]
pub struct ExResourceChange(magma_types::ResourceChange);

/// `magma_types::OutputValue`, one output recorded in a state.
#[verifier::external_type_specification]
#[verifier::external_body]
pub struct ExOutputValue(magma_types::OutputValue);

/// `magma_types::StateResource`, one resource recorded in a state.
#[verifier::external_type_specification]
#[verifier::external_body]
pub struct ExStateResource(magma_types::StateResource);

/// What a plan does to a resource.
#[derive(Debug, Clone, Copy, PartialEq, Eq, Structural)]
pub enum Action {
    NoOp,
    Create,
    Read,
    Update,
    Replace,
    Delete,
    Forget,
    CreateThenDelete,
    DeleteThenCreate,
}

/// A planned change of one resource.
#[derive(Debug)]
pub struct ResourceDelta {
    /// The resource's type, such as `aws_vpc`.
    pub type_id: String,
    /// The resource's name within its type.
    pub name: String,
    pub action: Action,
    /// The attributes recorded in the prior state, if any.
    pub before: Option<Value>,
    /// The attributes that the configuration declares, if any.
    pub after: Option<Value>,
}

/// What a [`ResourceDelta`] holds, its attributes as compact JSON text.
#[verifier::ext_equal]
pub struct ResourceDeltaView {
    pub type_id: Seq<char>,
    pub name: Seq<char>,
    pub action: Action,
    pub before: Option<Seq<char>>,
    pub after: Option<Seq<char>>,
}

impl View for ResourceDelta {
    type V = ResourceDeltaView;

    open spec fn view(&self) -> ResourceDeltaView {
        ResourceDeltaView {
            type_id: self.type_id@,
            name: self.name@,
            action: self.action,
            before: optional_json_text(self.before),
            after: optional_json_text(self.after),
        }
    }
}

/// The state that a configuration is planned against.
#[derive(Debug)]
pub struct PriorState {
    /// The version of the state format.
    pub version: u64,
    pub terraform_version: String,
    pub serial: u64,
    /// The UUID that all states of one workspace share, as its bytes.
    pub lineage: [u8; 16],
    pub outputs: HashMap<String, magma_types::OutputValue>,
    pub resources: Vec<magma_types::StateResource>,
}

/// A declared resource: managed, or a data source.
#[verifier::ext_equal]
pub struct ResourceKey {
    pub data: bool,
    pub type_id: Seq<char>,
    pub name: Seq<char>,
}

/// The block that declares a resource.
#[verifier::ext_equal]
pub struct BlockView {
    /// The block without its meta-arguments, as compact JSON text.
    pub attributes: Seq<char>,
    /// Whether the block's meta-arguments are refused: one of them is malformed
    /// or not implemented, or names an aliased provider that the configuration
    /// does not declare.
    pub refused: bool,
    /// Whether the block passes the compliance checks of the strictest baseline.
    pub compliant: bool,
}

/// What planning reads of a configuration.
#[verifier::ext_equal]
pub struct ConfigView {
    /// The declared resources, managed ones and data sources.
    pub resources: Map<ResourceKey, BlockView>,
    /// Whether the configuration's `moved` blocks are refused where no state is
    /// there to move: one of them is malformed, leads to a resource that is not
    /// declared or from one that is, or two lead from the same resource.
    pub moves_refused: bool,
}

/// Whether `a` comes before `b` in the order of their code points.
pub open spec fn text_before(a: Seq<char>, b: Seq<char>) -> bool {
    exists|i: int|
        0 <= i <= a.len() && i < b.len() && #[trigger] a.take(i) == b.take(i) && (i == a.len()
            || a[i] < b[i])
}

/// Whether `a` may come before `b` where resources are ordered by type, then by
/// name.
pub open spec fn key_at_most(a: ResourceKey, b: ResourceKey) -> bool {
    ||| text_before(a.type_id, b.type_id)
    ||| a.type_id == b.type_id && (text_before(a.name, b.name) || a.name == b.name)
}

/// Whether `keys` lists the resources of `resources`, each once, ordered by
/// type, then by name.
pub open spec fn lists(resources: Map<ResourceKey, BlockView>, keys: Seq<ResourceKey>) -> bool {
    &&& keys.no_duplicates()
    &&& forall|key: ResourceKey| #[trigger] resources.contains_key(key) <==> keys.contains(key)
    &&& forall|i: int, j: int|
        0 <= i < j < keys.len() ==> key_at_most(#[trigger] keys[i], #[trigger] keys[j])
}

/// Whether no two of the resources share a type and a name: none is both managed
/// and a data source.
pub open spec fn addresses_are_distinct(resources: Map<ResourceKey, BlockView>) -> bool {
    forall|a: ResourceKey, b: ResourceKey| #[trigger]
        resources.contains_key(a) && #[trigger] resources.contains_key(b) && a.type_id == b.type_id
            && a.name == b.name ==> a == b
}

/// No two texts come before each other.
proof fn lemma_text_before_is_asymmetric(a: Seq<char>, b: Seq<char>)
    requires
        text_before(a, b),
    ensures
        !text_before(b, a),
{
    if text_before(b, a) {
        let i = choose|i: int|
            0 <= i <= a.len() && i < b.len() && #[trigger] a.take(i) == b.take(i) && (i == a.len()
                || a[i] < b[i]);
        let j = choose|j: int|
            0 <= j <= b.len() && j < a.len() && #[trigger] b.take(j) == a.take(j) && (j == b.len()
                || b[j] < a[j]);
        if i < j {
            assert(b.take(j)[i] == a.take(j)[i]);
        } else if j < i {
            assert(a.take(i)[j] == b.take(i)[j]);
        }
    }
}

/// Two keys of which each may come before the other share their type and name.
proof fn lemma_key_at_most_is_antisymmetric(a: ResourceKey, b: ResourceKey)
    requires
        key_at_most(a, b),
        key_at_most(b, a),
    ensures
        a.type_id == b.type_id,
        a.name == b.name,
{
    if text_before(a.type_id, b.type_id) {
        lemma_text_before_is_asymmetric(a.type_id, b.type_id);
    }
    if text_before(a.name, b.name) {
        lemma_text_before_is_asymmetric(a.name, b.name);
    }
    if text_before(b.type_id, a.type_id) {
        lemma_text_before_is_asymmetric(b.type_id, a.type_id);
    }
}

/// Two lists of the same resources that agree on the first `n` agree on the next,
/// where no two resources share a type and a name.
proof fn lemma_next_listed(
    resources: Map<ResourceKey, BlockView>,
    a: Seq<ResourceKey>,
    b: Seq<ResourceKey>,
    n: int,
)
    requires
        lists(resources, a),
        lists(resources, b),
        addresses_are_distinct(resources),
        0 <= n < a.len(),
        n < b.len(),
        forall|i: int| 0 <= i < n ==> #[trigger] a[i] == b[i],
    ensures
        a[n] == b[n],
{
    if a[n] != b[n] {
        assert(a.contains(a[n]));
        assert(resources.contains_key(a[n]));
        assert(b.contains(b[n]));
        assert(resources.contains_key(b[n]));
        let p = choose|p: int| 0 <= p < b.len() && b[p] == a[n];
        let q = choose|q: int| 0 <= q < a.len() && a[q] == b[n];
        if p < n {
            assert(a[p] == b[p]);
        }
        if q < n {
            assert(a[q] == b[q]);
        }
        assert(key_at_most(b[n], b[p]));
        assert(key_at_most(a[n], a[q]));
        lemma_key_at_most_is_antisymmetric(a[n], b[n]);
    }
}

/// Two lists of the same resources agree on the first `n`, where no two resources
/// share a type and a name.
proof fn lemma_first_listed(
    resources: Map<ResourceKey, BlockView>,
    a: Seq<ResourceKey>,
    b: Seq<ResourceKey>,
    n: nat,
)
    requires
        lists(resources, a),
        lists(resources, b),
        addresses_are_distinct(resources),
        n <= a.len(),
        n <= b.len(),
    ensures
        forall|i: int| 0 <= i < n ==> #[trigger] a[i] == b[i],
    decreases n,
{
    if n > 0 {
        lemma_first_listed(resources, a, b, (n - 1) as nat);
        lemma_next_listed(resources, a, b, n - 1);
    }
}

/// Resources of which no two share a type and a name are listed in one way only.
pub(crate) proof fn lemma_one_list(
    resources: Map<ResourceKey, BlockView>,
    a: Seq<ResourceKey>,
    b: Seq<ResourceKey>,
)
    requires
        lists(resources, a),
        lists(resources, b),
        addresses_are_distinct(resources),
    ensures
        a == b,
{
    a.unique_seq_to_set();
    b.unique_seq_to_set();
    assert(a.to_set() =~= resources.dom());
    assert(b.to_set() =~= resources.dom());
    lemma_first_listed(resources, a, b, a.len());
    assert(a =~= b);
}

/// The change planned for a declared resource that the prior state does not
/// hold: a managed resource is created, a data source is read.
pub open spec fn first_change(key: ResourceKey, attributes: Seq<char>) -> ResourceDeltaView {
    ResourceDeltaView {
        type_id: key.type_id,
        name: key.name,
        action: if key.data {
            Action::Read
        } else {
            Action::Create
        },
        before: None,
        after: Some(attributes),
    }
}

/// The changes planned for the listed resources where the prior state holds
/// none.
pub open spec fn first_changes(
    resources: Map<ResourceKey, BlockView>,
    keys: Seq<ResourceKey>,
) -> Seq<ResourceDeltaView> {
    keys.map_values(|key: ResourceKey| first_change(key, resources[key].attributes))
}

/// Whether `changes` is what planning `resources` against a prior state without
/// resources gives.
pub open spec fn plans_first(
    resources: Map<ResourceKey, BlockView>,
    changes: Seq<ResourceDeltaView>,
) -> bool {
    exists|keys: Seq<ResourceKey>| #[trigger]
        lists(resources, keys) && changes == first_changes(resources, keys)
}

/// Whether managed resources of a type are held to a compliance baseline before
/// anything is planned.
pub open spec fn is_compliance_checked(type_id: Seq<char>) -> bool {
    ||| type_id == "aws_security_group_rule"@
    ||| type_id == "aws_security_group"@
    ||| type_id == "aws_db_instance"@
    ||| type_id == "aws_rds_cluster_instance"@
    ||| type_id == "aws_elasticache_cluster"@
    ||| type_id == "aws_elasticache_replication_group"@
}

/// Whether the planner refuses nothing that a configuration says: neither its
/// moves nor the meta-arguments of a block.
pub open spec fn refuses_nothing(config: ConfigView) -> bool {
    &&& !config.moves_refused
    &&& forall|key: ResourceKey| #[trigger]
        config.resources.contains_key(key) ==> !config.resources[key].refused
}

/// Whether a configuration is compliant under every baseline: each managed
/// resource is of a type that is not checked, or passes the strictest checks.
pub open spec fn always_compliant(config: ConfigView) -> bool {
    forall|key: ResourceKey| #[trigger]
        config.resources.contains_key(key) ==> key.data || !is_compliance_checked(key.type_id)
            || config.resources[key].compliant
}

/// What a configuration holds.
pub uninterp spec fn config_of(config: magma_config::Config) -> ConfigView;

/// What `magma_config::Config::from_json` makes of a JSON value, given by its
/// compact text: the configuration, or the text of the error.
pub uninterp spec fn parsed_config(json: Seq<char>) -> Result<ConfigView, Seq<char>>;

/// What a planned change of magma's holds.
pub uninterp spec fn change_of(change: magma_types::ResourceChange) -> ResourceDeltaView;

/// What each of magma's planned changes holds, in order.
pub open spec fn changes_of(changes: Seq<magma_types::ResourceChange>) -> Seq<ResourceDeltaView> {
    changes.map_values(|change: magma_types::ResourceChange| change_of(change))
}

/// `magma_config::Config::from_json`: the configuration that the value
/// describes, or the text of the error. Which of them, and what it holds,
/// depends on the value alone.
#[verifier::external_body]
pub(crate) fn parse_config(json: Value) -> (parsed: Result<magma_config::Config, String>)
    ensures
        match parsed {
            Ok(config) => parsed_config(json_text(json)) == Ok::<ConfigView, Seq<char>>(
                config_of(config),
            ),
            Err(text) => parsed_config(json_text(json)) == Err::<ConfigView, Seq<char>>(text@),
        },
{
    match magma_config::Config::from_json(json) {
        Ok(config) => Ok(config),
        Err(error) => Err(error.to_string()),
    }
}

/// `magma_plan::plan`: the resource changes of the plan, or the text of the
/// error.
///
/// Where the prior state holds no resource, a plan changes each declared
/// resource once, in the order of type and name. There is no plan where moves or
/// meta-arguments are refused. Where nothing is refused, there is one, unless a
/// managed resource of some few types fails the compliance baseline; magma reads
/// that baseline from the environment, and a stricter one makes all the checks
/// of a laxer one. Whether a resource that fails the strictest baseline passes,
/// what an error says, and what is changed where the prior state holds
/// resources, is left unsaid.
#[verifier::external_body]
pub(crate) fn run_plan(config: &magma_config::Config, state: PriorState) -> (planned: Result<
    Vec<magma_types::ResourceChange>,
    String,
>)
    ensures
        planned is Ok && state.resources@.len() == 0 ==> plans_first(
            config_of(*config).resources,
            changes_of(planned->Ok_0@),
        ),
        planned is Ok && state.resources@.len() == 0 ==> refuses_nothing(config_of(*config)),
        state.resources@.len() == 0 && refuses_nothing(config_of(*config)) && always_compliant(
            config_of(*config),
        ) ==> planned is Ok,
{
    let state = magma_types::State {
        version: state.version,
        terraform_version: state.terraform_version,
        serial: state.serial,
        lineage: uuid::Uuid::from_bytes(state.lineage),
        outputs: state.outputs,
        resources: state.resources,
    };
    match magma_plan::plan(config, &state) {
        Ok(plan) => Ok(plan.resource_changes),
        Err(error) => Err(error.to_string()),
    }
}

/// The fields of a `magma_types::ResourceChange` that planned changes are made
/// from.
#[verifier::external_body]
pub(crate) fn read_change(change: magma_types::ResourceChange) -> (read: ResourceDelta)
    ensures
        read@ == change_of(change),
{
    let action = match change.action {
        magma_types::Action::NoOp => Action::NoOp,
        magma_types::Action::Create => Action::Create,
        magma_types::Action::Read => Action::Read,
        magma_types::Action::Update => Action::Update,
        magma_types::Action::Replace => Action::Replace,
        magma_types::Action::Delete => Action::Delete,
        magma_types::Action::Forget => Action::Forget,
        magma_types::Action::CreateThenDelete => Action::CreateThenDelete,
        magma_types::Action::DeleteThenCreate => Action::DeleteThenCreate,
    };
    let (type_id, name) = (change.address.type_id.0, change.address.name);
    ResourceDelta { type_id, name, action, before: change.before, after: change.after }
}

/// `uuid::Uuid::nil`: all of its bytes are zero.
#[verifier::external_body]
pub(crate) fn nil_uuid() -> (bytes: [u8; 16])
    ensures
        forall|i: int| 0 <= i < 16 ==> #[trigger] bytes@[i] == 0,
{
    uuid::Uuid::nil().into_bytes()
}

} // verus!
