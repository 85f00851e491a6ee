//! Build-time generation of the conversion from a tagged union of failure
//! cases to an HTTP response.
//!
//! A declaration is described with plain values, turned into a descriptor,
//! and from the descriptor one dispatch arm per variant is synthesized and
//! assembled into a single conversion function, rendered as Rust source text.

pub mod arm;
pub mod assemble;
pub mod conversion;
pub mod declaration;
pub mod descriptor;
pub mod diagnostic;
pub mod extract;
pub mod json;

use vstd::prelude::*;
use crate::arm::arm_of;
use crate::assemble::{function_of, function_text, generate, FunctionModel, GeneratedFunction};
use crate::declaration::{Declaration, DeclarationModel};
use crate::diagnostic::{message_text, report, report_of, DiagnosticModel, ErrorReport, ReportModel};
use crate::extract::{described_variant, extract, extracted};

verus! {

/// What a generation invocation hands back: the generated function, or the
/// report of why there is none. Never both, and never a part of a function.
#[derive(Clone, Debug, PartialEq, Eq)]
pub enum GeneratorOutput {
    Artifact(GeneratedFunction),
    Report(ErrorReport),
}

/// The mathematical value of a [`GeneratorOutput`].
pub enum OutputModel {
    Artifact(FunctionModel),
    Report(ReportModel),
}

impl View for GeneratorOutput {
    type V = OutputModel;

    open spec fn view(&self) -> OutputModel {
        match self {
            GeneratorOutput::Artifact(function) => OutputModel::Artifact(function@),
            GeneratorOutput::Report(report) => OutputModel::Report(report@),
        }
    }
}

/// The output of generation for a declaration: the conversion function of
/// the union that the declaration describes, or the report of the
/// diagnostic.
pub open spec fn derived(declaration: DeclarationModel) -> OutputModel {
    match extracted(declaration) {
        Ok(union) => OutputModel::Artifact(function_of(union)),
        Err(error) => OutputModel::Report(report_of(error)),
    }
}

/// The code that an output emits: the text of the function, and none for a
/// report.
pub open spec fn emitted_code(output: OutputModel) -> Option<Seq<char>> {
    match output {
        OutputModel::Artifact(function) => Some(function_text(function)),
        OutputModel::Report(_) => None,
    }
}

impl GeneratorOutput {
    /// The generated code as source text, if there is any.
    pub fn code(&self) -> (code: Option<String>)
        ensures
            crate::descriptor::optional_text(code) == emitted_code(self@),
    {
        match self {
            GeneratorOutput::Artifact(function) => Some(function.render()),
            GeneratorOutput::Report(_) => None,
        }
    }
}

/// Runs one generation invocation on a declaration: extracts the
/// descriptor, synthesizes and assembles the arms, and reports a failed
/// extraction instead of generating. The output depends on the declaration
/// alone.
pub fn derive_http_error(input: &Declaration) -> (output: GeneratorOutput)
    ensures
        output@ == derived(input@),
{
    match extract(input) {
        Ok(descriptor) => GeneratorOutput::Artifact(generate(&descriptor)),
        Err(error) => GeneratorOutput::Report(report(&error)),
    }
}

/// For a tagged union with at least one variant, generation yields a
/// function under the union's name and generic parameters that has exactly
/// one arm for each variant, at the variant's position in the declaration.
pub proof fn every_variant_gets_its_arm(declaration: DeclarationModel)
    requires
        declaration.body is TaggedUnion,
        declaration.body->TaggedUnion_0.len() >= 1,
    ensures
        derived(declaration) is Artifact,
        derived(declaration)->Artifact_0.name == declaration.name,
        derived(declaration)->Artifact_0.generics == declaration.generics,
        derived(declaration)->Artifact_0.arms.len() == declaration.body->TaggedUnion_0.len(),
        forall|i: int|
            0 <= i < declaration.body->TaggedUnion_0.len() ==> (
            #[trigger] derived(declaration)->Artifact_0.arms[i]) == arm_of(
                declaration.name,
                described_variant(declaration.body->TaggedUnion_0[i]),
            ),
{
}

/// For a record, generation yields a report whose message names the
/// declaration, and emits no code.
pub proof fn record_yields_only_a_report(declaration: DeclarationModel)
    requires
        declaration.body is Record,
    ensures
        derived(declaration) == OutputModel::Report(
            ReportModel {
                subject: declaration.name,
                message: message_text(DiagnosticModel::NotAUnion { name: declaration.name }),
            },
        ),
        emitted_code(derived(declaration)) is None,
{
}

} // verus!
