//! Whole syntheses, with an in-memory engine standing in for the runtimes, the
//! registry and the renderers.

use std::path::{Path, PathBuf};

use indexmap::IndexMap;
use magma_lava::{
    synthesize, synthesize_bundled, synthesize_inline, synthesize_source, ArtifactBinding,
    Evaluation, Job, LavaError, LavaPlan, LavaPlanArgs, LavaSource, Runtime, Step, Target,
};
use serde_json::Value;

const VPC_TLISP: &str = r#"
(deflava-architecture demo-vpc
  :inputs ((:cidr "10.0.0.0/16"))
  :resources (
    (aws-vpc "demo"
      :cidr-block "{cidr}"
      :enable-dns-support #t)))
"#;

/// The one architecture that the engine evaluates.
#[derive(Debug, Clone, PartialEq, Eq)]
struct Vpc {
    cidr: String,
}

#[derive(Debug, Clone, PartialEq, Eq)]
struct Interface {
    name: String,
    required: Vec<String>,
}

#[derive(Debug, Clone, PartialEq, Eq)]
enum EngineError {
    Schema { interface: String, missing: String },
    Syntax,
}

type Outcome = Result<LavaPlan<Vpc, String>, LavaError<EngineError>>;

/// Files by path, and what was asked of the engine.
struct Engine {
    files: Vec<(PathBuf, String)>,
    render_error: Option<String>,
    asked: Vec<String>,
}

impl Engine {
    fn new() -> Engine {
        Engine { files: Vec::new(), render_error: None, asked: Vec::new() }
    }

    fn with_file(contents: &str, name: &str) -> (Engine, PathBuf) {
        let path = PathBuf::from(format!("/architectures/{name}"));
        let mut engine = Engine::new();
        engine.files.push((path.clone(), contents.to_string()));
        (engine, path)
    }

    fn read(&self, path: &Path) -> Option<String> {
        self.files.iter().find(|(known, _)| known == path).map(|(_, text)| text.clone())
    }

    fn interface(&self, name: &str) -> Option<Interface> {
        match name {
            "aws-vpc-network" => {
                Some(Interface { name: name.to_string(), required: Vec::new() })
            }
            "cloudflare-dns-records" => Some(Interface {
                name: name.to_string(),
                required: vec!["zone-id".to_string()],
            }),
            _ => None,
        }
    }

    fn evaluate(
        &self,
        job: &Job,
        interface: &Option<Interface>,
    ) -> Result<Evaluation<Vpc, String>, EngineError> {
        if let Some(interface) = interface {
            for slot in &interface.required {
                if !job.bindings.contains_key(slot) {
                    return Err(EngineError::Schema {
                        interface: interface.name.clone(),
                        missing: slot.clone(),
                    });
                }
            }
        }
        let (kind, source) = match &job.target {
            Target::Path { runtime, path } => {
                let kind = match runtime {
                    Runtime::Lava | Runtime::Picked => "lava",
                    Runtime::TerraformJson => "terraform-json",
                };
                (kind, self.read(path).unwrap())
            }
            Target::Source { source, name } => {
                assert!(name.is_none());
                ("lava", source.clone())
            }
        };
        if source != VPC_TLISP {
            return Err(EngineError::Syntax);
        }
        let cidr = match job.bindings.get("cidr") {
            Some(ArtifactBinding::Scalar(cidr)) => cidr.clone(),
            _ => "10.0.0.0/16".to_string(),
        };
        Ok(Evaluation {
            architecture: Vpc { cidr },
            diagnostics: Vec::new(),
            runtime_kind: kind.to_string(),
        })
    }

    fn render(&self, architecture: &Vpc) -> Result<Value, String> {
        if let Some(text) = &self.render_error {
            return Err(text.clone());
        }
        let mut vpc = serde_json::Map::new();
        vpc.insert("cidr_block".to_string(), Value::from(architecture.cidr.clone()));
        vpc.insert("enable_dns_support".to_string(), Value::from(true));
        Ok(object("resource", object("aws_vpc", object("demo", Value::Object(vpc)))))
    }

    fn finish(&mut self, start: Step<Vpc, String, Interface, EngineError>) -> Outcome {
        let mut step = start;
        loop {
            step = match step {
                Step::ProbePath(probe) => {
                    self.asked.push("probe".to_string());
                    let exists = self.read(&probe.args.path).is_some();
                    probe.probed(exists)
                }
                Step::PickRuntime(pick) => {
                    self.asked.push("pick".to_string());
                    let found = pick.args.path.extension().is_some_and(|e| e == "tlisp");
                    pick.picked(found)
                }
                Step::LookUpInterface(lookup) => {
                    self.asked.push("interface".to_string());
                    let found = self.interface(&lookup.name);
                    lookup.looked_up(found)
                }
                Step::LoadBundled(load) => {
                    self.asked.push("bundled".to_string());
                    let found = match load.name.as_str() {
                        "demo-vpc" => Some(VPC_TLISP.to_string()),
                        _ => None,
                    };
                    load.loaded(found)
                }
                Step::Evaluate(evaluate) => {
                    self.asked.push("evaluate".to_string());
                    let result = self.evaluate(&evaluate.job, &evaluate.interface);
                    evaluate.evaluated(result)
                }
                Step::Render(render) => {
                    self.asked.push("render".to_string());
                    let rendered = self.render(&render.evaluation.architecture);
                    render.rendered(rendered)
                }
                Step::Done(outcome) => return outcome,
            };
        }
    }

    fn synthesize(&mut self, args: &LavaPlanArgs) -> Outcome {
        self.finish(synthesize(args))
    }
}

fn object(key: &str, value: Value) -> Value {
    let mut map = serde_json::Map::new();
    map.insert(key.to_string(), value);
    Value::Object(map)
}

fn no_bindings() -> IndexMap<String, ArtifactBinding> {
    IndexMap::new()
}

fn cidr_binding(cidr: &str) -> IndexMap<String, ArtifactBinding> {
    let mut bindings = IndexMap::new();
    bindings.insert("cidr".to_string(), ArtifactBinding::Scalar(cidr.to_string()));
    bindings
}

#[test]
fn synthesize_resolves_runtime_evaluates_and_renders_terraform_json() {
    let (mut engine, path) = Engine::with_file(VPC_TLISP, "demo-vpc.tlisp");
    let plan = engine.synthesize(&LavaPlanArgs::for_path(&path)).unwrap();

    assert_eq!(plan.runtime_kind, "lava");
    assert_eq!(
        plan.terraform_json["resource"]["aws_vpc"]["demo"]["cidr_block"],
        "10.0.0.0/16"
    );
    assert_eq!(
        plan.terraform_json["resource"]["aws_vpc"]["demo"]["enable_dns_support"],
        true
    );
    assert_eq!(engine.asked, ["probe", "pick", "evaluate", "render"]);
}

#[test]
fn synthesize_threads_scalar_bindings_through_eval() {
    let (mut engine, path) = Engine::with_file(VPC_TLISP, "demo-vpc.tlisp");
    let args = LavaPlanArgs::for_path(&path).with_scalar("cidr", "172.20.0.0/16");
    let plan = engine.synthesize(&args).unwrap();
    assert_eq!(
        plan.terraform_json["resource"]["aws_vpc"]["demo"]["cidr_block"],
        "172.20.0.0/16"
    );
}

#[test]
fn synthesize_returns_typed_io_error_for_missing_file() {
    let args = LavaPlanArgs::for_path("/tmp/does-not-exist-magma-lava.tlisp");
    let mut engine = Engine::new();
    let err = engine.synthesize(&args).unwrap_err();
    assert!(matches!(err, LavaError::Io { .. }));
    match err {
        LavaError::Io { path, source } => {
            assert_eq!(path, PathBuf::from("/tmp/does-not-exist-magma-lava.tlisp"));
            assert_eq!(source.kind(), std::io::ErrorKind::NotFound);
        }
        other => panic!("expected Io, got {other:?}"),
    }
    assert_eq!(engine.asked, ["probe"]);
}

#[test]
fn synthesize_returns_typed_no_runtime_for_unknown_extension() {
    let (mut engine, yaml) = Engine::with_file("key: value", "demo-vpc.yaml");
    let args = LavaPlanArgs::for_path(&yaml);
    let err = engine.synthesize(&args).unwrap_err();
    assert!(matches!(err, LavaError::NoRuntime { .. }));
    match err {
        LavaError::NoRuntime { path } => assert_eq!(path, yaml),
        other => panic!("expected NoRuntime, got {other:?}"),
    }
}

#[test]
fn synthesize_gated_by_bundled_interface_accepts_valid_input() {
    let (mut engine, path) = Engine::with_file(VPC_TLISP, "demo-vpc.tlisp");
    let plan = engine.synthesize(
        &LavaPlanArgs::for_path(&path)
            .with_scalar("cidr", "10.0.0.0/16")
            .gated_by("aws-vpc-network"),
    );
    assert!(plan.is_ok(), "gate should accept default cidr: {plan:?}");
    assert_eq!(engine.asked, ["probe", "pick", "interface", "evaluate", "render"]);
}

#[test]
fn synthesize_gated_by_unknown_interface_returns_typed_error() {
    let (mut engine, path) = Engine::with_file(VPC_TLISP, "demo-vpc.tlisp");
    let args = LavaPlanArgs::for_path(&path).gated_by("not-a-real-interface");
    let err = engine.synthesize(&args).unwrap_err();
    match err {
        LavaError::UnknownInterface(name) => assert_eq!(name, "not-a-real-interface"),
        other => panic!("expected UnknownInterface, got {other:?}"),
    }
    assert_eq!(engine.asked, ["probe", "pick", "interface"]);
}

#[test]
fn synthesize_gated_by_cloudflare_rejects_missing_required_input() {
    let (mut engine, path) = Engine::with_file(VPC_TLISP, "cloudflare-dns-records.tlisp");
    let args = LavaPlanArgs::for_path(&path).gated_by("cloudflare-dns-records");
    let err = engine.synthesize(&args).unwrap_err();
    match err {
        LavaError::Runtime(EngineError::Schema { interface, missing }) => {
            assert_eq!(interface, "cloudflare-dns-records");
            assert_eq!(missing, "zone-id");
        }
        other => panic!("expected Schema, got {other:?}"),
    }
}

#[test]
fn lava_plan_emits_crossplane_yaml_for_same_architecture() {
    let (mut engine, path) = Engine::with_file(VPC_TLISP, "demo-vpc.tlisp");
    let plan = engine.synthesize(&LavaPlanArgs::for_path(&path)).unwrap();
    let pending = plan.crossplane_yaml();
    assert_eq!(pending.architecture, &plan.architecture);
    let text = format!(
        "kind: CompositeResourceDefinition\n---\nkind: Composition\ncidr_block: {}\n",
        pending.architecture.cidr
    );
    let yaml = pending.rendered::<EngineError>(Ok(text)).unwrap();
    assert!(yaml.contains("kind: CompositeResourceDefinition"));
    assert!(yaml.contains("kind: Composition"));
    assert!(yaml.contains("cidr_block: 10.0.0.0/16"));
}

#[test]
fn crossplane_failure_is_a_render_error() {
    let (mut engine, path) = Engine::with_file(VPC_TLISP, "demo-vpc.tlisp");
    let plan = engine.synthesize(&LavaPlanArgs::for_path(&path)).unwrap();
    let err = plan
        .crossplane_yaml()
        .rendered::<EngineError>(Err("no composition".to_string()))
        .unwrap_err();
    match err {
        LavaError::Render(text) => assert_eq!(text, "no composition"),
        other => panic!("expected Render, got {other:?}"),
    }
}

#[test]
fn synthesize_records_runtime_kind_for_plan_receipt() {
    let (mut engine, path) = Engine::with_file(VPC_TLISP, "demo-vpc.tlisp");
    let plan = engine.synthesize(&LavaPlanArgs::for_path(&path)).unwrap();
    assert_eq!(plan.runtime_kind, "lava");
    assert!(plan.diagnostics.is_empty());
}

#[test]
fn evaluation_failure_is_a_runtime_error() {
    let (mut engine, path) = Engine::with_file("(not an architecture", "broken.tlisp");
    let err = engine.synthesize(&LavaPlanArgs::for_path(&path)).unwrap_err();
    assert!(matches!(err, LavaError::Runtime(EngineError::Syntax)));
    assert_eq!(engine.asked, ["probe", "pick", "evaluate"]);
}

#[test]
fn rendering_failure_is_a_render_error() {
    let (mut engine, path) = Engine::with_file(VPC_TLISP, "demo-vpc.tlisp");
    engine.render_error = Some("dangling reference".to_string());
    let err = engine.synthesize(&LavaPlanArgs::for_path(&path)).unwrap_err();
    match err {
        LavaError::Render(text) => assert_eq!(text, "dangling reference"),
        other => panic!("expected Render, got {other:?}"),
    }
}

#[test]
fn named_runtime_overrides_the_extension() {
    let (mut engine, path) = Engine::with_file(VPC_TLISP, "demo-vpc.txt");
    let mut args = LavaPlanArgs::for_path(&path);
    args.runtime_kind = Some("lava".to_string());
    assert_eq!(engine.synthesize(&args).unwrap().runtime_kind, "lava");
    args.runtime_kind = Some("terraform-json".to_string());
    assert_eq!(engine.synthesize(&args).unwrap().runtime_kind, "terraform-json");
    assert!(!engine.asked.contains(&"pick".to_string()));
}

#[test]
fn unknown_runtime_name_is_refused_before_the_gate() {
    let (mut engine, path) = Engine::with_file(VPC_TLISP, "demo-vpc.tlisp");
    let mut args = LavaPlanArgs::for_path(&path).gated_by("not-a-real-interface");
    args.runtime_kind = Some("ruby".to_string());
    match engine.synthesize(&args).unwrap_err() {
        LavaError::NoRuntime { path } => {
            assert_eq!(path, PathBuf::from("(runtime_kind=ruby)"));
        }
        other => panic!("expected NoRuntime, got {other:?}"),
    }
    assert_eq!(engine.asked, ["probe"]);
}

#[test]
fn missing_file_is_reported_before_an_unknown_runtime() {
    let mut engine = Engine::new();
    let mut args = LavaPlanArgs::for_path("/nowhere.tlisp").gated_by("not-a-real-interface");
    args.runtime_kind = Some("ruby".to_string());
    assert!(matches!(engine.synthesize(&args), Err(LavaError::Io { .. })));
}

#[test]
fn missing_runtime_is_reported_before_an_unknown_interface() {
    let (mut engine, path) = Engine::with_file(VPC_TLISP, "demo-vpc.yaml");
    let args = LavaPlanArgs::for_path(&path).gated_by("not-a-real-interface");
    assert!(matches!(engine.synthesize(&args), Err(LavaError::NoRuntime { .. })));
}

#[test]
fn inline_source_is_evaluated_without_files() {
    let mut engine = Engine::new();
    let plan = engine
        .finish(synthesize_inline(VPC_TLISP, cidr_binding("192.168.0.0/24"), None))
        .unwrap();
    assert_eq!(plan.architecture.cidr, "192.168.0.0/24");
    assert_eq!(plan.runtime_kind, "lava");
    assert_eq!(engine.asked, ["evaluate", "render"]);
}

#[test]
fn inline_source_is_gated() {
    let mut engine = Engine::new();
    let step = synthesize_inline(VPC_TLISP, no_bindings(), Some("nope"));
    match engine.finish(step).unwrap_err() {
        LavaError::UnknownInterface(name) => assert_eq!(name, "nope"),
        other => panic!("expected UnknownInterface, got {other:?}"),
    }
    let step = synthesize_inline(VPC_TLISP, no_bindings(), Some("cloudflare-dns-records"));
    assert!(matches!(engine.finish(step), Err(LavaError::Runtime(_))));
}

#[test]
fn bundled_architecture_comes_to_what_its_source_comes_to() {
    let mut engine = Engine::new();
    let bundled = engine
        .finish(synthesize_bundled("demo-vpc", cidr_binding("10.1.0.0/16"), Some("aws-vpc-network")))
        .unwrap();
    assert_eq!(engine.asked, ["bundled", "interface", "evaluate", "render"]);
    let inline = engine
        .finish(synthesize_inline(VPC_TLISP, cidr_binding("10.1.0.0/16"), Some("aws-vpc-network")))
        .unwrap();
    assert_eq!(bundled.terraform_json, inline.terraform_json);
    assert_eq!(bundled.architecture, inline.architecture);
    assert_eq!(bundled.runtime_kind, inline.runtime_kind);
}

#[test]
fn unknown_bundled_architecture_is_refused_before_the_gate() {
    let mut engine = Engine::new();
    let step = synthesize_bundled("no-such", no_bindings(), Some("nope"));
    match engine.finish(step).unwrap_err() {
        LavaError::UnknownInterface(name) => {
            assert_eq!(name, "unknown bundled architecture `no-such`");
        }
        other => panic!("expected UnknownInterface, got {other:?}"),
    }
    assert_eq!(engine.asked, ["bundled"]);
}

#[test]
fn sources_of_all_three_kinds_come_to_the_same() {
    let (mut engine, path) = Engine::with_file(VPC_TLISP, "demo-vpc.tlisp");
    let bindings = cidr_binding("10.9.0.0/16");
    let sources = [
        LavaSource::Path { path },
        LavaSource::Inline { inline: VPC_TLISP.to_string() },
        LavaSource::Bundled { name: "demo-vpc".to_string() },
    ];
    for source in &sources {
        let plan = engine
            .finish(synthesize_source(&source.clone(), &bindings, Some("aws-vpc-network")))
            .unwrap();
        assert_eq!(
            plan.terraform_json["resource"]["aws_vpc"]["demo"]["cidr_block"],
            "10.9.0.0/16"
        );
        assert_eq!(plan.runtime_kind, "lava");
    }
    assert_eq!(bindings.len(), 1);
}

#[test]
fn cloned_plan_is_the_same_plan() {
    let (mut engine, path) = Engine::with_file(VPC_TLISP, "demo-vpc.tlisp");
    let plan = engine.synthesize(&LavaPlanArgs::for_path(&path)).unwrap();
    let copy = plan.clone();
    assert_eq!(copy.terraform_json, plan.terraform_json);
    assert_eq!(copy.architecture, plan.architecture);
    assert_eq!(copy.runtime_kind, plan.runtime_kind);
    assert_eq!(copy.diagnostics, plan.diagnostics);
}
