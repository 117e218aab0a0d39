//! The result of a synthesis.

use serde_json::Value;
use vstd::prelude::*;

use crate::error::{LavaError, LavaErrorView};

verus! {

/// A synthesized plan: the rendered configuration, and what it was rendered
/// from.
///
/// `A` is the evaluated architecture, `D` a diagnostic of the runtime's.
#[derive(Debug)]
pub struct LavaPlan<A, D> {
    /// The rendered Terraform JSON.
    pub terraform_json: Value,
    /// The architecture that it was rendered from.
    pub architecture: A,
    /// The name of the runtime that evaluated the architecture.
    pub runtime_kind: String,
    /// What the runtime reported while evaluating.
    pub diagnostics: Vec<D>,
}

/// What a [`LavaPlan`] holds.
#[verifier::ext_equal]
pub struct LavaPlanView<A, D> {
    pub terraform_json: Value,
    pub architecture: A,
    pub runtime_kind: Seq<char>,
    pub diagnostics: Seq<D>,
}

impl<A, D> View for LavaPlan<A, D> {
    type V = LavaPlanView<A, D>;

    open spec fn view(&self) -> LavaPlanView<A, D> {
        LavaPlanView {
            terraform_json: self.terraform_json,
            architecture: self.architecture,
            runtime_kind: self.runtime_kind@,
            diagnostics: self.diagnostics@,
        }
    }
}

impl<A: Clone, D: Clone> Clone for LavaPlan<A, D> {
    fn clone(&self) -> (copy: Self)
        ensures
            copy.terraform_json == self.terraform_json,
            cloned(self.architecture, copy.architecture),
            copy.runtime_kind == self.runtime_kind,
            copy.diagnostics@.len() == self.diagnostics@.len(),
            forall|i: int|
                0 <= i < self.diagnostics@.len() ==> cloned(
                    self.diagnostics@[i],
                    #[trigger] copy.diagnostics@[i],
                ),
    {
        LavaPlan {
            terraform_json: self.terraform_json.clone(),
            architecture: self.architecture.clone(),
            runtime_kind: self.runtime_kind.clone(),
            diagnostics: self.diagnostics.clone(),
        }
    }
}

/// What a synthesis came to.
pub open spec fn outcome_view<A, D, E>(outcome: Result<LavaPlan<A, D>, LavaError<E>>) -> Result<
    LavaPlanView<A, D>,
    LavaErrorView<E>,
> {
    match outcome {
        Ok(plan) => Ok(plan@),
        Err(error) => Err(error@),
    }
}

/// An architecture that is to be rendered as Crossplane YAML.
#[derive(Debug)]
pub struct RenderCrossplane<'a, A> {
    pub architecture: &'a A,
}

impl<A, D> LavaPlan<A, D> {
    /// Asks for the plan's own architecture to be rendered as Crossplane YAML.
    pub fn crossplane_yaml(&self) -> (pending: RenderCrossplane<'_, A>)
        ensures
            *pending.architecture == self.architecture,
    {
        RenderCrossplane { architecture: &self.architecture }
    }
}

impl<'a, A> RenderCrossplane<'a, A> {
    /// Takes what the renderer made of the architecture: the YAML text, or the
    /// text of its error.
    pub fn rendered<E>(self, rendered: Result<String, String>) -> (yaml: Result<
        String,
        LavaError<E>,
    >)
        ensures
            match rendered {
                Ok(text) => yaml == Ok::<String, LavaError<E>>(text),
                Err(text) => yaml == Err::<String, LavaError<E>>(LavaError::Render(text)),
            },
    {
        match rendered {
            Ok(text) => Ok(text),
            Err(text) => Err(LavaError::Render(text)),
        }
    }
}

} // verus!
