//! Assembly of the arms into the one conversion function.

use vstd::prelude::*;
use vstd::string::*;
use crate::arm::{arm_of, arm_text, synthesize, Arm, ArmModel};
use crate::descriptor::{GenericParameterList, GenericsModel, TaggedUnionDescriptor, UnionModel};

verus! {

/// The generated conversion function: an implementation of the response
/// conversion for the union, whose body is a single `match` over the arms.
#[derive(Clone, Debug, PartialEq, Eq)]
pub struct GeneratedFunction {
    pub name: String,
    pub generics: GenericParameterList,
    /// The arms, in the order of the variants they match.
    pub arms: Vec<Arm>,
}

/// The mathematical value of a [`GeneratedFunction`].
pub struct FunctionModel {
    pub name: Seq<char>,
    pub generics: GenericsModel,
    pub arms: Seq<ArmModel>,
}

/// The views of a sequence of arms, position by position.
pub open spec fn arm_models(arms: Seq<Arm>) -> Seq<ArmModel> {
    Seq::new(arms.len(), |i: int| arms[i]@)
}

impl View for GeneratedFunction {
    type V = FunctionModel;

    open spec fn view(&self) -> FunctionModel {
        FunctionModel { name: self.name@, generics: self.generics@, arms: arm_models(self.arms@) }
    }
}

/// The arms of a union: the arm of each variant, at the variant's position.
pub open spec fn arms_of(union: UnionModel) -> Seq<ArmModel> {
    Seq::new(union.variants.len(), |i: int| arm_of(union.name, union.variants[i]))
}

/// The conversion function of a union. Name and generic parameters are
/// those of the union, unchanged.
pub open spec fn function_of(union: UnionModel) -> FunctionModel {
    FunctionModel { name: union.name, generics: union.generics, arms: arms_of(union) }
}

/// The arms as source text, separated by commas.
pub open spec fn arms_text(arms: Seq<ArmModel>) -> Seq<char>
    decreases arms.len(),
{
    if arms.len() == 0 {
        Seq::empty()
    } else if arms.len() == 1 {
        arm_text(arms[0])
    } else {
        arms_text(arms.drop_last()) + ", "@ + arm_text(arms.last())
    }
}

/// The conversion function as source text.
pub open spec fn function_text(function: FunctionModel) -> Seq<char> {
    "impl "@ + function.generics.impl_generics + " ::axum::response::IntoResponse for "@
        + function.name + " "@ + function.generics.ty_generics + " "@
        + function.generics.where_clause
        + " { fn into_response(self) -> ::axum::response::Response { match self { "@ + arms_text(
        function.arms,
    ) + " } } }"@
}

/// Whether `arms` can be assembled for a union of `variant_count` variants:
/// there must be arms unless the union has no variant.
pub open spec fn assemblable(arms: Seq<ArmModel>, variant_count: nat) -> bool {
    arms.len() > 0 || variant_count == 0
}

/// Wraps `arms` into the conversion function of `descriptor`, with the
/// union's name and generic parameters copied over unchanged and the arms
/// kept in their order. Returns `None` exactly when no arm is given although
/// the union has variants.
pub fn assemble(descriptor: &TaggedUnionDescriptor, arms: Vec<Arm>) -> (function: Option<
    GeneratedFunction,
>)
    ensures
        function is Some <==> assemblable(arm_models(arms@), descriptor@.variants.len()),
        function matches Some(f) ==> f@ == (FunctionModel {
            name: descriptor@.name,
            generics: descriptor@.generics,
            arms: arm_models(arms@),
        }),
{
    if arms.len() == 0 && descriptor.variants.len() > 0 {
        None
    } else {
        Some(
            GeneratedFunction {
                name: descriptor.name.clone(),
                generics: descriptor.generics.duplicate(),
                arms,
            },
        )
    }
}

/// Synthesizes the arm of every variant, in declaration order.
pub fn synthesize_arms(descriptor: &TaggedUnionDescriptor) -> (arms: Vec<Arm>)
    ensures
        arm_models(arms@) == arms_of(descriptor@),
{
    let mut arms: Vec<Arm> = Vec::new();
    let mut i: usize = 0;
    while i < descriptor.variants.len()
        invariant
            i <= descriptor.variants.len(),
            arms.len() == i,
            forall|j: int| 0 <= j < i ==> (#[trigger] arms[j])@ == arms_of(descriptor@)[j],
        decreases descriptor.variants.len() - i,
    {
        let arm = synthesize(descriptor.name.as_str(), &descriptor.variants[i]);
        arms.push(arm);
        i = i + 1;
    }
    assert(arm_models(arms@) =~= arms_of(descriptor@));
    arms
}

/// Generates the conversion function of a union: one arm per variant, in
/// declaration order, under the union's own name and generic parameters.
pub fn generate(descriptor: &TaggedUnionDescriptor) -> (function: GeneratedFunction)
    ensures
        function@ == function_of(descriptor@),
{
    let arms = synthesize_arms(descriptor);
    match assemble(descriptor, arms) {
        Some(function) => function,
        None => unreached(),
    }
}

impl GeneratedFunction {
    /// The function as Rust source text.
    pub fn render(&self) -> (out: String)
        ensures
            out@ == function_text(self@),
    {
        let ghost models = arm_models(self.arms@);
        let mut arms = String::new();
        let mut i: usize = 0;
        while i < self.arms.len()
            invariant
                i <= self.arms.len(),
                models == arm_models(self.arms@),
                arms@ == arms_text(models.take(i as int)),
            decreases self.arms.len() - i,
        {
            let arm = self.arms[i].render();
            proof {
                let next = models.take(i + 1);
                assert(next.drop_last() =~= models.take(i as int));
                assert(next.last() == self.arms[i as int]@);
            }
            if i > 0 {
                arms.append(", ");
            }
            arms.append(arm.as_str());
            assert(arms@ =~= arms_text(models.take(i + 1)));
            i = i + 1;
        }
        assert(models.take(i as int) =~= models);

        let mut out = String::from_str("impl ");
        out.append(self.generics.impl_generics.as_str());
        out.append(" ::axum::response::IntoResponse for ");
        out.append(self.name.as_str());
        out.append(" ");
        out.append(self.generics.ty_generics.as_str());
        out.append(" ");
        out.append(self.generics.where_clause.as_str());
        out.append(" { fn into_response(self) -> ::axum::response::Response { match self { ");
        out.append(arms.as_str());
        out.append(" } } }");
        out
    }
}

impl TaggedUnionDescriptor {
    /// Appends the source text of the union's conversion function to
    /// `tokens`.
    pub fn to_tokens(&self, tokens: &mut String)
        ensures
            final(tokens)@ == old(tokens)@ + function_text(function_of(self@)),
    {
        let function = generate(self);
        let text = function.render();
        tokens.append(text.as_str());
    }
}

} // verus!
