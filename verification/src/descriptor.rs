//! The descriptor of a tagged union of failure cases.

use vstd::prelude::*;
use vstd::string::*;

verus! {

/// The payload shape of one variant.
#[derive(Clone, Copy, Debug, PartialEq, Eq, Structural)]
pub enum Shape {
    /// The bare variant, written without any payload.
    NoPayload,
    /// Positional values in parentheses; the number is the arity.
    PositionalPayload(usize),
    /// Named fields in braces.
    NamedPayload,
}

/// The generic parameters of the union, split into the three places where
/// they appear around an `impl`: after `impl`, after the type's name, and
/// as the trailing `where` clause. Each part is source text and may be empty.
#[derive(Clone, Debug, PartialEq, Eq)]
pub struct GenericParameterList {
    pub impl_generics: String,
    pub ty_generics: String,
    pub where_clause: String,
}

/// The mathematical value of a [`GenericParameterList`].
pub struct GenericsModel {
    pub impl_generics: Seq<char>,
    pub ty_generics: Seq<char>,
    pub where_clause: Seq<char>,
}

impl View for GenericParameterList {
    type V = GenericsModel;

    open spec fn view(&self) -> GenericsModel {
        GenericsModel {
            impl_generics: self.impl_generics@,
            ty_generics: self.ty_generics@,
            where_clause: self.where_clause@,
        }
    }
}

impl GenericParameterList {
    /// The parameter list of a union without generic parameters.
    pub fn none() -> (list: GenericParameterList)
        ensures
            list@ == (GenericsModel {
                impl_generics: Seq::empty(),
                ty_generics: Seq::empty(),
                where_clause: Seq::empty(),
            }),
    {
        GenericParameterList {
            impl_generics: String::new(),
            ty_generics: String::new(),
            where_clause: String::new(),
        }
    }

    /// A structural copy: every part is carried over unchanged.
    pub fn duplicate(&self) -> (copy: GenericParameterList)
        ensures
            copy@ == self@,
    {
        GenericParameterList {
            impl_generics: self.impl_generics.clone(),
            ty_generics: self.ty_generics.clone(),
            where_clause: self.where_clause.clone(),
        }
    }
}

/// One named case of the union.
#[derive(Clone, Debug, PartialEq, Eq)]
pub struct VariantDescriptor {
    pub name: String,
    pub shape: Shape,
    /// The status expression of the variant's annotation, as source text;
    /// `None` where the variant carries no such annotation.
    pub status: Option<String>,
}

/// The mathematical value of a [`VariantDescriptor`].
pub struct VariantModel {
    pub name: Seq<char>,
    pub shape: Shape,
    pub status: Option<Seq<char>>,
}

/// The view of an optional piece of source text.
pub open spec fn optional_text(text: Option<String>) -> Option<Seq<char>> {
    match text {
        Some(t) => Some(t@),
        None => None,
    }
}

impl View for VariantDescriptor {
    type V = VariantModel;

    open spec fn view(&self) -> VariantModel {
        VariantModel { name: self.name@, shape: self.shape, status: optional_text(self.status) }
    }
}

/// The status expression used for a variant without an annotation.
pub const DEFAULT_INTERNAL_STATUS: &'static str = "::axum::http::StatusCode::INTERNAL_SERVER_ERROR";

/// A variant is unclassified exactly when it carries no status annotation.
/// The text of an annotation is never looked at.
pub open spec fn is_unclassified(variant: VariantModel) -> bool {
    variant.status is None
}

/// The status expression of a variant: its own, or the default.
pub open spec fn effective_status(variant: VariantModel) -> Seq<char> {
    match variant.status {
        Some(status) => status,
        None => DEFAULT_INTERNAL_STATUS@,
    }
}

impl VariantDescriptor {
    /// Whether the variant lacks a status annotation.
    pub fn is_unclassified(&self) -> (unclassified: bool)
        ensures
            unclassified == is_unclassified(self@),
    {
        self.status.is_none()
    }

    /// The source text of the status expression that the variant's arm uses.
    pub fn effective_status(&self) -> (status: String)
        ensures
            status@ == effective_status(self@),
    {
        match &self.status {
            Some(status) => status.clone(),
            None => String::from_str(DEFAULT_INTERNAL_STATUS),
        }
    }
}

/// A tagged union of failure cases.
#[derive(Clone, Debug, PartialEq, Eq)]
pub struct TaggedUnionDescriptor {
    pub name: String,
    pub generics: GenericParameterList,
    /// The variants, in declaration order.
    pub variants: Vec<VariantDescriptor>,
}

/// The mathematical value of a [`TaggedUnionDescriptor`].
pub struct UnionModel {
    pub name: Seq<char>,
    pub generics: GenericsModel,
    pub variants: Seq<VariantModel>,
}

/// The views of a sequence of variants, position by position.
pub open spec fn variant_models(variants: Seq<VariantDescriptor>) -> Seq<VariantModel> {
    Seq::new(variants.len(), |i: int| variants[i]@)
}

impl View for TaggedUnionDescriptor {
    type V = UnionModel;

    open spec fn view(&self) -> UnionModel {
        UnionModel {
            name: self.name@,
            generics: self.generics@,
            variants: variant_models(self.variants@),
        }
    }
}

} // verus!
