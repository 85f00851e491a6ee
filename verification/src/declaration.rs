//! A type declaration as the generator receives it.

use vstd::prelude::*;
use crate::descriptor::{optional_text, GenericParameterList, GenericsModel};

verus! {

/// How the payload of a variant is written.
#[derive(Clone, Copy, Debug, PartialEq, Eq, Structural)]
pub enum PayloadStyle {
    /// No payload at all.
    Unit,
    /// Unnamed fields in parentheses.
    Tuple,
    /// Named fields in braces.
    Struct,
}

/// One variant as declared: its name, how its payload is written and how
/// many fields that payload has, and the status expression of its
/// annotation, if it has one.
#[derive(Clone, Debug, PartialEq, Eq)]
pub struct VariantDeclaration {
    pub name: String,
    pub style: PayloadStyle,
    pub field_count: usize,
    pub status: Option<String>,
}

/// The mathematical value of a [`VariantDeclaration`].
pub struct VariantDeclarationModel {
    pub name: Seq<char>,
    pub style: PayloadStyle,
    pub field_count: usize,
    pub status: Option<Seq<char>>,
}

impl View for VariantDeclaration {
    type V = VariantDeclarationModel;

    open spec fn view(&self) -> VariantDeclarationModel {
        VariantDeclarationModel {
            name: self.name@,
            style: self.style,
            field_count: self.field_count,
            status: optional_text(self.status),
        }
    }
}

/// What a declaration declares.
#[derive(Clone, Debug, PartialEq, Eq)]
pub enum DeclarationBody {
    /// A sum of variants, in declaration order.
    TaggedUnion(Vec<VariantDeclaration>),
    /// A single-shape record.
    Record,
}

/// The mathematical value of a [`DeclarationBody`].
pub enum BodyModel {
    TaggedUnion(Seq<VariantDeclarationModel>),
    Record,
}

/// The views of a sequence of declared variants, position by position.
pub open spec fn declared_variants(variants: Seq<VariantDeclaration>) -> Seq<
    VariantDeclarationModel,
> {
    Seq::new(variants.len(), |i: int| variants[i]@)
}

impl View for DeclarationBody {
    type V = BodyModel;

    open spec fn view(&self) -> BodyModel {
        match self {
            DeclarationBody::TaggedUnion(variants) => BodyModel::TaggedUnion(
                declared_variants(variants@),
            ),
            DeclarationBody::Record => BodyModel::Record,
        }
    }
}

/// A type declaration with its annotations resolved.
#[derive(Clone, Debug, PartialEq, Eq)]
pub struct Declaration {
    pub name: String,
    pub generics: GenericParameterList,
    pub body: DeclarationBody,
}

/// The mathematical value of a [`Declaration`].
pub struct DeclarationModel {
    pub name: Seq<char>,
    pub generics: GenericsModel,
    pub body: BodyModel,
}

impl View for Declaration {
    type V = DeclarationModel;

    open spec fn view(&self) -> DeclarationModel {
        DeclarationModel { name: self.name@, generics: self.generics@, body: self.body@ }
    }
}

} // verus!
