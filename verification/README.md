# magma-lava

The façade through which magma loads lava architectures: it turns a `.tlisp`
source, with its input bindings and an optional schema gate, into Terraform JSON
that magma plans and applies, and reports planned changes to drift consumers.

The library in `src/` is verified with Verus. It makes every decision of a
synthesis and leaves the outside work (looking for files, evaluating, rendering)
to its caller, one step at a time:

```rust
let args = LavaPlanArgs::for_path("architectures/aws-vpc-network.tlisp")
    .with_scalar("name", "preview")
    .with_list("availability-zones", vec!["us-west-2a".into(), "us-west-2b".into()])
    .gated_by("aws-vpc-network");

let mut step = synthesize(&args);
loop {
    step = match step {
        Step::ProbePath(probe) => {
            let exists = probe.args.path.exists();
            probe.probed(exists)
        }
        // PickRuntime, LookUpInterface, LoadBundled, Evaluate, Render
        Step::Done(outcome) => break outcome,
    };
}
```

- `args`, `bindings`: the arguments of a synthesis and their bindings.
- `synthesis`: the steps.
- `laws`: what holds of whole syntheses, whatever happens outside.
- `plan`, `error`: what a synthesis comes to.
- `changes`: planned changes, and the first plan of a configuration.
- `magma`, `json`, `paths`, `text`: what the library uses of other crates, and
  what it takes for granted of it.

`app/` runs the steps with the lava runtimes, the bundled registry and the
renderers, and holds the serializable forms of the library's types.
