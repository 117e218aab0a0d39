//! The messages of errors.

use std::path::PathBuf;

use magma_lava::error::{io_message, no_runtime_message};
use magma_lava::LavaError;

type Error = LavaError<String>;

#[test]
fn every_error_has_its_message() {
    let io = Error::Io {
        path: PathBuf::from("/tmp/x.tlisp"),
        source: std::io::Error::from(std::io::ErrorKind::NotFound),
    };
    assert_eq!(io.message("entity not found"), "io reading /tmp/x.tlisp: entity not found");
    let none = Error::NoRuntime { path: PathBuf::from("a.yaml") };
    assert_eq!(
        none.message("unused"),
        "no runtime matches path a.yaml (extension hint resolved to nothing)"
    );
    let unknown = Error::UnknownInterface("nope".to_string());
    assert_eq!(
        unknown.message(""),
        "unknown bundled interface `nope` — not in lava-architectures::interface_for"
    );
    let runtime = Error::Runtime("E".to_string());
    assert_eq!(runtime.message("line 3: unbound slot"), "runtime: line 3: unbound slot");
    let render = Error::Render("no provider".to_string());
    assert_eq!(render.message(""), "render terraform.json: no provider");
}

#[test]
fn messages_are_made_of_what_is_shown() {
    assert_eq!(io_message("p", "s"), "io reading p: s");
    assert_eq!(
        no_runtime_message("(runtime_kind=ruby)"),
        "no runtime matches path (runtime_kind=ruby) (extension hint resolved to nothing)"
    );
}
