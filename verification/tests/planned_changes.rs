//! Planned changes, with magma's own parser and planner.

use magma_lava::{
    baseline_state, plan_changes, planned_change, planned_change_from_resource_change,
    planned_changes, report_plan, Action, LavaError, LavaPlan, PlannedChange, ResourceDelta,
};
use serde_json::Value;

type Plan = LavaPlan<(), ()>;

fn plan_of(json: &str) -> Result<Plan, LavaError<String>> {
    Ok(LavaPlan {
        terraform_json: serde_json::from_str(json).unwrap(),
        architecture: (),
        runtime_kind: "lava".to_string(),
        diagnostics: Vec::new(),
    })
}

fn change(address: &str, kind: &str, after: &str) -> PlannedChange {
    PlannedChange {
        address: address.to_string(),
        attribute: "*".to_string(),
        kind: kind.to_string(),
        before: None,
        after: Some(after.to_string()),
    }
}

fn render_text(err: LavaError<String>) -> String {
    match err {
        LavaError::Render(text) => text,
        other => panic!("expected Render, got {other:?}"),
    }
}

#[test]
fn a_first_plan_creates_every_resource() {
    let changes = plan_changes(plan_of(
        r#"{"resource": {"aws_vpc": {"demo": {"cidr_block": "10.0.0.0/16", "enable_dns_support": true}}}}"#,
    ))
    .unwrap();
    assert_eq!(
        changes,
        [change(
            "aws_vpc.demo",
            "create",
            r#"{"cidr_block":"10.0.0.0/16","enable_dns_support":true}"#
        )]
    );
}

#[test]
fn a_first_plan_reads_data_sources_and_orders_by_type_and_name() {
    let changes = plan_changes(plan_of(
        r#"{"resource": {"aws_vpc": {"b": {}, "a": {"n": 1}}, "aws_iam_role": {"z": {}}},
            "data": {"aws_caller_identity": {"current": {}}}}"#,
    ))
    .unwrap();
    assert_eq!(
        changes,
        [
            change("aws_caller_identity.current", "read", "{}"),
            change("aws_iam_role.z", "create", "{}"),
            change("aws_vpc.a", "create", r#"{"n":1}"#),
            change("aws_vpc.b", "create", "{}"),
        ]
    );
}

#[test]
fn meta_arguments_are_no_attributes() {
    let changes = plan_changes(plan_of(
        r#"{"resource": {"aws_vpc": {"a": {}},
            "aws_subnet": {"s": {"depends_on": ["aws_vpc.a"], "cidr_block": "10.0.1.0/24"}}}}"#,
    ))
    .unwrap();
    assert_eq!(
        changes,
        [
            change("aws_subnet.s", "create", r#"{"cidr_block":"10.0.1.0/24"}"#),
            change("aws_vpc.a", "create", "{}"),
        ]
    );
}

#[test]
fn a_configuration_without_resources_has_no_changes() {
    assert_eq!(plan_changes(plan_of("{}")).unwrap(), []);
    assert_eq!(plan_changes(plan_of(r#"{"output": {"o": {"value": 1}}}"#)).unwrap(), []);
}

#[test]
fn a_failed_synthesis_is_passed_on() {
    let failed: Result<Plan, LavaError<String>> =
        Err(LavaError::UnknownInterface("nope".to_string()));
    match plan_changes(failed).unwrap_err() {
        LavaError::UnknownInterface(name) => assert_eq!(name, "nope"),
        other => panic!("expected UnknownInterface, got {other:?}"),
    }
    let failed: Result<Plan, LavaError<String>> = Err(LavaError::Runtime("boom".to_string()));
    assert!(matches!(plan_changes(failed), Err(LavaError::Runtime(text)) if text == "boom"));
}

#[test]
fn a_configuration_that_does_not_parse_is_a_render_error() {
    let text = render_text(plan_changes(plan_of(r#"{"resource": 3}"#)).unwrap_err());
    assert!(text.starts_with("magma-config parse: "), "{text}");
    assert!(text.len() > "magma-config parse: ".len());
}

#[test]
fn a_configuration_that_cannot_be_planned_is_a_render_error() {
    let json = r#"{"resource": {"aws_vpc": {"a": {"count": 2}}}}"#;
    let text = render_text(plan_changes(plan_of(json)).unwrap_err());
    assert!(text.starts_with("magma plan: "), "{text}");
    assert!(text.contains("count"), "{text}");
}

#[test]
fn the_error_of_the_planner_is_passed_on() {
    let json = r#"{"resource": {"aws_vpc": {"a": {"count": 2}}}}"#;
    let config = magma_config::Config::from_json(serde_json::from_str(json).unwrap()).unwrap();
    let baseline = magma_types::State {
        version: 4,
        terraform_version: "1.5.0".to_string(),
        serial: 0,
        lineage: uuid::Uuid::nil(),
        outputs: Default::default(),
        resources: Vec::new(),
    };
    let cause = match magma_plan::plan(&config, &baseline) {
        Ok(_) => panic!("expected an error"),
        Err(cause) => cause.to_string(),
    };
    let text = render_text(plan_changes(plan_of(json)).unwrap_err());
    assert_eq!(text, format!("magma plan: {cause}"));
}

#[test]
fn the_text_of_the_planner_is_kept() {
    let err = report_plan::<String>(Err("refused".to_string())).unwrap_err();
    assert_eq!(render_text(err), "magma plan: refused");
}

#[test]
fn every_action_has_its_kind() {
    let kinds = [
        (Action::NoOp, "no_op"),
        (Action::Create, "create"),
        (Action::Read, "read"),
        (Action::Update, "update"),
        (Action::Replace, "replace"),
        (Action::Delete, "delete"),
        (Action::Forget, "delete"),
        (Action::CreateThenDelete, "replace"),
        (Action::DeleteThenCreate, "replace"),
    ];
    for (action, kind) in kinds {
        assert_eq!(action.kind(), kind);
        let reported = planned_change("t".to_string(), "n", action, None, None);
        assert_eq!(reported.kind, kind);
        assert_eq!(reported.address, "t.n");
        assert_eq!(reported.attribute, "*");
    }
}

#[test]
fn attributes_are_reported_as_compact_json() {
    let before: Value = serde_json::from_str(r#"{"b": [1, 2.5, null], "a": "x\"y"}"#).unwrap();
    let reported = planned_change_from_resource_change(ResourceDelta {
        type_id: "aws_vpc".to_string(),
        name: "demo".to_string(),
        action: Action::Update,
        before: Some(before),
        after: Some(Value::Null),
    });
    assert_eq!(reported.before.as_deref(), Some(r#"{"a":"x\"y","b":[1,2.5,null]}"#));
    assert_eq!(reported.after.as_deref(), Some("null"));
    assert_eq!(reported.kind, "update");
    assert_eq!(reported.clone(), reported);
}

#[test]
fn the_baseline_holds_nothing() {
    let state = baseline_state();
    assert_eq!(state.version, 4);
    assert_eq!(state.terraform_version, "1.5.0");
    assert_eq!(state.serial, 0);
    assert_eq!(state.lineage, [0u8; 16]);
    assert!(state.outputs.is_empty());
    assert!(state.resources.is_empty());
}

#[test]
fn changes_of_magma_are_reported_in_order() {
    let kinds = [
        (magma_types::Action::NoOp, "no_op"),
        (magma_types::Action::Create, "create"),
        (magma_types::Action::Read, "read"),
        (magma_types::Action::Update, "update"),
        (magma_types::Action::Replace, "replace"),
        (magma_types::Action::Delete, "delete"),
        (magma_types::Action::Forget, "delete"),
        (magma_types::Action::CreateThenDelete, "replace"),
        (magma_types::Action::DeleteThenCreate, "replace"),
    ];
    let mut changes = Vec::new();
    for (i, (action, _)) in kinds.iter().enumerate() {
        changes.push(magma_types::ResourceChange {
            address: magma_types::ResourceAddress {
                module: magma_types::ModulePath::root(),
                kind: magma_types::ResourceKind::Managed,
                type_id: magma_types::ResourceTypeId("aws_vpc".to_string()),
                name: format!("n{i}"),
                key: None,
            },
            action: *action,
            before: Some(Value::from(i)),
            after: None,
            reasons: Vec::new(),
            meta: magma_types::ResourceMeta::default(),
        });
    }
    let reports = planned_changes(changes);
    assert_eq!(reports.len(), kinds.len());
    for (i, (_, kind)) in kinds.iter().enumerate() {
        assert_eq!(
            reports[i],
            PlannedChange {
                address: format!("aws_vpc.n{i}"),
                attribute: "*".to_string(),
                kind: kind.to_string(),
                before: Some(i.to_string()),
                after: None,
            }
        );
    }
}

#[test]
fn a_resource_and_a_data_source_of_one_name_are_both_reported() {
    let changes = plan_changes(plan_of(
        r#"{"resource": {"aws_vpc": {"main": {}}}, "data": {"aws_vpc": {"main": {}}}}"#,
    ))
    .unwrap();
    assert_eq!(changes.len(), 2);
    assert!(changes.contains(&change("aws_vpc.main", "create", "{}")));
    assert!(changes.contains(&change("aws_vpc.main", "read", "{}")));
}

#[test]
fn well_formed_meta_arguments_and_moves_are_planned() {
    let changes = plan_changes(plan_of(
        r#"{"provider": {"aws": [{"region": "us-east-1"}, {"alias": "west", "region": "us-west-2"}]},
            "moved": [{"from": "aws_vpc.old", "to": "aws_vpc.new"}],
            "resource": {"aws_vpc": {"new": {"provider": "aws.west", "cidr_block": "10.0.0.0/16"}},
              "aws_ssm_parameter": {"p": {"lifecycle": {"ignore_changes": ["value"]}, "value": "x"}}}}"#,
    ))
    .unwrap();
    assert_eq!(
        changes,
        [
            change("aws_ssm_parameter.p", "create", r#"{"value":"x"}"#),
            change("aws_vpc.new", "create", r#"{"cidr_block":"10.0.0.0/16"}"#),
        ]
    );
}

#[test]
fn refused_meta_arguments_are_never_planned() {
    let blocks = [
        r#"{"for_each": ["a"]}"#,
        r#"{"provider": 3}"#,
        r#"{"provider": "aws.undeclared"}"#,
        r#"{"depends_on": ["module.m"]}"#,
        r#"{"lifecycle": {"prevent_destroy": true}}"#,
        r#"{"lifecycle": {"ignore_changes": ["all"]}}"#,
    ];
    for block in blocks {
        let json = format!(r#"{{"resource": {{"aws_vpc": {{"a": {block}, "b": {{}}}}}}}}"#);
        let text = render_text(plan_changes(plan_of(&json)).unwrap_err());
        assert!(text.starts_with("magma plan: "), "{block}: {text}");
    }
}

#[test]
fn two_moves_from_one_resource_are_never_planned() {
    let json = r#"{"moved": [{"from": "aws_vpc.old", "to": "aws_vpc.a"},
                             {"from": "aws_vpc.old", "to": "aws_vpc.b"}],
                   "resource": {"aws_vpc": {"a": {}, "b": {}}}}"#;
    let text = render_text(plan_changes(plan_of(json)).unwrap_err());
    assert!(text.starts_with("magma plan: "), "{text}");
}

#[test]
fn a_move_to_nowhere_does_not_parse() {
    let json = r#"{"moved": [{"from": "aws_vpc.old", "to": "aws_vpc.new"}]}"#;
    let text = render_text(plan_changes(plan_of(json)).unwrap_err());
    assert!(text.starts_with("magma-config parse: "), "{text}");
}

#[test]
fn a_checked_resource_that_passes_the_strictest_baseline_is_planned() {
    let changes = plan_changes(plan_of(
        r#"{"resource": {"aws_security_group": {"web": {"ingress":
              {"from_port": 443, "to_port": 443, "cidr_blocks": ["0.0.0.0/0"]}}},
            "aws_db_instance": {"db": {"publicly_accessible": false}}},
            "data": {"aws_db_instance": {"seen": {"publicly_accessible": true}}}}"#,
    ))
    .unwrap();
    let kinds: Vec<(&str, &str)> =
        changes.iter().map(|c| (c.address.as_str(), c.kind.as_str())).collect();
    assert_eq!(
        kinds,
        [
            ("aws_db_instance.db", "create"),
            ("aws_db_instance.seen", "read"),
            ("aws_security_group.web", "create"),
        ]
    );
}

#[test]
fn planning_again_comes_to_the_same() {
    let json = r#"{"resource": {"aws_vpc": {"b": {}, "a": {"n": 1}, "ab": {}, "B": {}},
                                "aws_iam_role": {"z": {}}, "aws_iam": {"y": {}}},
                   "data": {"aws_vpc": {"seen": {}}, "aws_caller_identity": {"current": {}}}}"#;
    let first = plan_changes(plan_of(json)).unwrap();
    let addresses: Vec<&str> = first.iter().map(|c| c.address.as_str()).collect();
    assert_eq!(
        addresses,
        [
            "aws_caller_identity.current",
            "aws_iam.y",
            "aws_iam_role.z",
            "aws_vpc.B",
            "aws_vpc.a",
            "aws_vpc.ab",
            "aws_vpc.b",
            "aws_vpc.seen",
        ]
    );
    for _ in 0..20 {
        assert_eq!(plan_changes(plan_of(json)).unwrap(), first);
    }

    let unparsed = r#"{"resource": 3}"#;
    assert_eq!(
        render_text(plan_changes(plan_of(unparsed)).unwrap_err()),
        render_text(plan_changes(plan_of(unparsed)).unwrap_err())
    );
}
