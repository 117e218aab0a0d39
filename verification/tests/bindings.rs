//! Arguments and their bindings.

use std::path::PathBuf;

use magma_lava::{ArtifactBinding, Binding, LavaPlanArgs};

fn shown(args: &LavaPlanArgs) -> Vec<(String, String)> {
    args.bindings
        .iter()
        .map(|(key, value)| {
            let value = match value {
                ArtifactBinding::Scalar(text) => text.clone(),
                ArtifactBinding::List(items) => format!("[{}]", items.join(",")),
            };
            (key.clone(), value)
        })
        .collect()
}

fn pairs(expected: &[(&str, &str)]) -> Vec<(String, String)> {
    expected.iter().map(|(k, v)| (k.to_string(), v.to_string())).collect()
}

#[test]
fn a_path_alone_binds_and_gates_nothing() {
    let args = LavaPlanArgs::for_path("architectures/aws-vpc-network.tlisp");
    assert_eq!(args.path, PathBuf::from("architectures/aws-vpc-network.tlisp"));
    assert!(args.bindings.is_empty());
    assert!(args.gate_with.is_none());
    assert!(args.runtime_kind.is_none());
}

#[test]
fn builders_keep_what_the_others_set() {
    let args = LavaPlanArgs::for_path("architectures/aws-vpc-network.tlisp")
        .with_scalar("name", "preview")
        .with_list("availability-zones", vec!["us-west-2a".into(), "us-west-2b".into()])
        .gated_by("aws-vpc-network");
    assert_eq!(
        shown(&args),
        pairs(&[("name", "preview"), ("availability-zones", "[us-west-2a,us-west-2b]")])
    );
    assert_eq!(args.gate_with.as_deref(), Some("aws-vpc-network"));
    assert!(args.runtime_kind.is_none());
}

#[test]
fn the_last_binding_of_a_key_stands_in_its_first_place() {
    let args = LavaPlanArgs::for_path("a.tlisp")
        .with_scalar("b", "1")
        .with_scalar("a", "2")
        .with_list("b", vec!["3".to_string()]);
    assert_eq!(shown(&args), pairs(&[("b", "[3]"), ("a", "2")]));
    let args = args.with_scalar("b", "4").with_scalar("c", "5");
    assert_eq!(shown(&args), pairs(&[("b", "4"), ("a", "2"), ("c", "5")]));
}

#[test]
fn the_last_gate_stands() {
    let args = LavaPlanArgs::for_path("a.tlisp").gated_by("one").gated_by("two");
    assert_eq!(args.gate_with.as_deref(), Some("two"));
}

#[test]
fn a_copy_holds_equal_entries_in_the_same_order() {
    let mut args = LavaPlanArgs::for_path("a.tlisp")
        .with_scalar("z", "1")
        .with_list("a", Vec::new())
        .gated_by("gate");
    args.runtime_kind = Some("lava".to_string());
    let copy = args.clone();
    assert_eq!(shown(&copy), shown(&args));
    assert_eq!(copy.path, args.path);
    assert_eq!(copy.gate_with, args.gate_with);
    assert_eq!(copy.runtime_kind, args.runtime_kind);
}

#[test]
fn bindings_go_by_either_name() {
    let binding: Binding = ArtifactBinding::List(vec!["x".to_string()]);
    assert!(matches!(binding.clone(), ArtifactBinding::List(items) if items == ["x"]));
}
