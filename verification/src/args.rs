//! The arguments of one synthesis.

use std::path::PathBuf;

use indexmap::IndexMap;
use vstd::prelude::*;

use crate::bindings::{
    bind, clone_bindings, entries_of, insert_binding, keys_distinct, law_bind_keeps_keys_distinct,
    no_bindings, ArtifactBinding, BindingView, Entries,
};
use crate::text::{optional_text, texts};

verus! {

/// What to synthesize, and with which inputs.
#[derive(Debug)]
pub struct LavaPlanArgs {
    /// The source file.
    pub path: PathBuf,
    /// The values bound to the architecture's input slots.
    pub bindings: IndexMap<String, ArtifactBinding>,
    /// The bundled interface that the bindings must satisfy, by its name.
    pub gate_with: Option<String>,
    /// The runtime to evaluate with, by its name. Where there is none, the
    /// file's extension decides.
    pub runtime_kind: Option<String>,
}

/// What [`LavaPlanArgs`] hold.
#[verifier::ext_equal]
pub struct ArgsView {
    pub path: PathBuf,
    pub bindings: Entries,
    pub gate_with: Option<Seq<char>>,
    pub runtime_kind: Option<Seq<char>>,
}

impl View for LavaPlanArgs {
    type V = ArgsView;

    open spec fn view(&self) -> ArgsView {
        ArgsView {
            path: self.path,
            bindings: entries_of(self.bindings),
            gate_with: optional_text(self.gate_with),
            runtime_kind: optional_text(self.runtime_kind),
        }
    }
}

impl ArgsView {
    /// Whether no input slot is bound twice.
    pub open spec fn well_formed(self) -> bool {
        keys_distinct(self.bindings)
    }
}

impl Clone for LavaPlanArgs {
    fn clone(&self) -> (copy: Self)
        ensures
            copy@ == self@,
    {
        LavaPlanArgs {
            path: self.path.clone(),
            bindings: clone_bindings(&self.bindings),
            gate_with: self.gate_with.clone(),
            runtime_kind: self.runtime_kind.clone(),
        }
    }
}

impl LavaPlanArgs {
    /// Arguments that name a source file and nothing else.
    pub fn for_path<P: Into<PathBuf>>(path: P) -> (args: Self)
        ensures
            call_ensures(<P as Into<PathBuf>>::into, (path,), args.path),
            args@ == (ArgsView {
                path: args.path,
                bindings: Seq::empty(),
                gate_with: None,
                runtime_kind: None,
            }),
            args@.well_formed(),
    {
        LavaPlanArgs {
            path: path.into(),
            bindings: no_bindings(),
            gate_with: None,
            runtime_kind: None,
        }
    }

    /// Binds a text value to an input slot.
    pub fn with_scalar<K: Into<String>, V: Into<String>>(self, k: K, v: V) -> (args: Self)
        ensures
            exists|key: String, value: String|
                call_ensures(<K as Into<String>>::into, (k,), key) && call_ensures(
                    <V as Into<String>>::into,
                    (v,),
                    value,
                ) && args@ == (ArgsView {
                    bindings: bind(self@.bindings, key@, BindingView::Scalar(value@)),
                    ..self@
                }),
            self@.well_formed() ==> args@.well_formed(),
    {
        let key: String = k.into();
        let value: String = v.into();
        proof {
            if self@.well_formed() {
                law_bind_keeps_keys_distinct(
                    self@.bindings,
                    key@,
                    BindingView::Scalar(value@),
                );
            }
        }
        let mut bound = self;
        let _ = insert_binding(&mut bound.bindings, key, ArtifactBinding::Scalar(value));
        bound
    }

    /// Binds a list of text values to an input slot.
    pub fn with_list<K: Into<String>>(self, k: K, v: Vec<String>) -> (args: Self)
        ensures
            exists|key: String|
                call_ensures(<K as Into<String>>::into, (k,), key) && args@ == (ArgsView {
                    bindings: bind(self@.bindings, key@, BindingView::List(texts(v@))),
                    ..self@
                }),
            self@.well_formed() ==> args@.well_formed(),
    {
        let key: String = k.into();
        proof {
            if self@.well_formed() {
                law_bind_keeps_keys_distinct(
                    self@.bindings,
                    key@,
                    BindingView::List(texts(v@)),
                );
            }
        }
        let mut bound = self;
        let _ = insert_binding(&mut bound.bindings, key, ArtifactBinding::List(v));
        bound
    }

    /// Requires the bindings to satisfy a bundled interface.
    pub fn gated_by<N: Into<String>>(self, name: N) -> (args: Self)
        ensures
            exists|gate: String|
                call_ensures(<N as Into<String>>::into, (name,), gate) && args@ == (ArgsView {
                    gate_with: Some(gate@),
                    ..self@
                }),
            self@.well_formed() ==> args@.well_formed(),
    {
        let gate: String = name.into();
        LavaPlanArgs { gate_with: Some(gate), ..self }
    }
}

} // verus!
