//! Extraction of the descriptor from a declaration.

use vstd::prelude::*;
use crate::declaration::{
    BodyModel, Declaration, DeclarationBody, DeclarationModel, PayloadStyle, VariantDeclaration,
    VariantDeclarationModel,
};
use crate::descriptor::{
    Shape, TaggedUnionDescriptor, UnionModel, VariantDescriptor, VariantModel,
};
use crate::diagnostic::{DiagnosticError, DiagnosticModel};

verus! {

/// The shape of a payload. The way the payload is written decides: a
/// payload in parentheses is positional and one in braces is named, also
/// where it holds no field.
pub open spec fn shape_of(style: PayloadStyle, field_count: usize) -> Shape {
    match style {
        PayloadStyle::Unit => Shape::NoPayload,
        PayloadStyle::Tuple => Shape::PositionalPayload(field_count),
        PayloadStyle::Struct => Shape::NamedPayload,
    }
}

/// The descriptor of a declared variant. The status expression is carried
/// over as written, an absent one as absent.
pub open spec fn described_variant(variant: VariantDeclarationModel) -> VariantModel {
    VariantModel {
        name: variant.name,
        shape: shape_of(variant.style, variant.field_count),
        status: variant.status,
    }
}

/// The descriptors of declared variants, in declaration order.
pub open spec fn described_variants(variants: Seq<VariantDeclarationModel>) -> Seq<VariantModel> {
    Seq::new(variants.len(), |i: int| described_variant(variants[i]))
}

/// What extraction yields for a declaration: the descriptor of a tagged
/// union, or the diagnostic for a record.
pub open spec fn extracted(declaration: DeclarationModel) -> Result<UnionModel, DiagnosticModel> {
    match declaration.body {
        BodyModel::TaggedUnion(variants) => Ok(
            UnionModel {
                name: declaration.name,
                generics: declaration.generics,
                variants: described_variants(variants),
            },
        ),
        BodyModel::Record => Err(DiagnosticModel::NotAUnion { name: declaration.name }),
    }
}

/// The outcome of an extraction, seen through the views of both cases.
pub open spec fn extraction_model(result: Result<TaggedUnionDescriptor, DiagnosticError>) -> Result<
    UnionModel,
    DiagnosticModel,
> {
    match result {
        Ok(descriptor) => Ok(descriptor@),
        Err(error) => Err(error@),
    }
}

/// Computes the shape of a payload from the way it is written and the
/// number of its fields.
pub fn shape(style: PayloadStyle, field_count: usize) -> (shape: Shape)
    ensures
        shape == shape_of(style, field_count),
{
    match style {
        PayloadStyle::Unit => Shape::NoPayload,
        PayloadStyle::Tuple => Shape::PositionalPayload(field_count),
        PayloadStyle::Struct => Shape::NamedPayload,
    }
}

/// Describes one declared variant.
pub fn describe(variant: &VariantDeclaration) -> (descriptor: VariantDescriptor)
    ensures
        descriptor@ == described_variant(variant@),
{
    VariantDescriptor {
        name: variant.name.clone(),
        shape: shape(variant.style, variant.field_count),
        status: match &variant.status {
            Some(status) => Some(status.clone()),
            None => None,
        },
    }
}

/// Extracts the descriptor of a declaration. The declaration is only read.
/// A tagged union, with any number of variants, yields its descriptor; a
/// record yields [`DiagnosticError::NotAUnion`] with the record's name.
pub fn extract(declaration: &Declaration) -> (result: Result<
    TaggedUnionDescriptor,
    DiagnosticError,
>)
    ensures
        extraction_model(result) == extracted(declaration@),
{
    match &declaration.body {
        DeclarationBody::TaggedUnion(declared) => {
            let mut variants: Vec<VariantDescriptor> = Vec::new();
            let mut i: usize = 0;
            while i < declared.len()
                invariant
                    i <= declared.len(),
                    variants.len() == i,
                    forall|j: int|
                        0 <= j < i ==> (#[trigger] variants[j])@ == described_variant(
                            declared[j]@,
                        ),
                decreases declared.len() - i,
            {
                variants.push(describe(&declared[i]));
                i = i + 1;
            }
            let descriptor = TaggedUnionDescriptor {
                name: declaration.name.clone(),
                generics: declaration.generics.duplicate(),
                variants,
            };
            assert(descriptor@.variants =~= described_variants(declaration@.body->TaggedUnion_0));
            Ok(descriptor)
        },
        DeclarationBody::Record => Err(
            DiagnosticError::NotAUnion { name: declaration.name.clone() },
        ),
    }
}

} // verus!
