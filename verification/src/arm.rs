//! Synthesis of one dispatch arm per variant.
//!
//! An arm is a pattern that matches the variant whatever its payload holds,
//! and an expression that builds the response. Which of the two expression
//! forms an arm gets is decided here, once, from the presence of a status
//! annotation; at conversion time only the build mode is left to test.

use vstd::prelude::*;
use vstd::string::*;
use crate::descriptor::{effective_status, is_unclassified, Shape, VariantDescriptor, VariantModel};

verus! {

/// The message that replaces the failure's own text in a redacted body.
pub const REDACTED_MESSAGE: &'static str = "Internal server error";

/// The message of the log record written when a body is redacted.
pub const LOG_MESSAGE: &'static str = "internal server error";

/// One dispatch arm, as source text.
#[derive(Clone, Debug, PartialEq, Eq)]
pub struct Arm {
    pub pattern: String,
    pub expression: String,
}

/// The mathematical value of an [`Arm`].
pub struct ArmModel {
    pub pattern: Seq<char>,
    pub expression: Seq<char>,
}

impl View for Arm {
    type V = ArmModel;

    open spec fn view(&self) -> ArmModel {
        ArmModel { pattern: self.pattern@, expression: self.expression@ }
    }
}

/// `arity` wildcards, separated by commas.
pub open spec fn placeholders(arity: nat) -> Seq<char>
    decreases arity,
{
    if arity == 0 {
        Seq::empty()
    } else if arity == 1 {
        "_"@
    } else {
        placeholders((arity - 1) as nat) + ", _"@
    }
}

/// What follows the variant's name in its pattern. No payload value is
/// ever bound.
pub open spec fn payload_pattern(shape: Shape) -> Seq<char> {
    match shape {
        Shape::NoPayload => Seq::empty(),
        Shape::PositionalPayload(arity) => "("@ + placeholders(arity as nat) + ")"@,
        Shape::NamedPayload => " { .. }"@,
    }
}

/// The pattern of a variant's arm: the union's name, the variant's name,
/// and the payload pattern of its shape.
pub open spec fn pattern_text(union_name: Seq<char>, variant: VariantModel) -> Seq<char> {
    union_name + " :: "@ + variant.name + payload_pattern(variant.shape)
}

/// The body that shows the failure's own text.
pub open spec fn revealed_body() -> Seq<char> {
    "::serde_json::json!({ \"code\": status.as_u16(), \"message\": self.to_string() })"@
}

/// The body that hides the failure's text behind the fixed message.
pub open spec fn redacted_body() -> Seq<char> {
    "::serde_json::json!({ \"code\": status.as_u16(), \"message\": \""@ + REDACTED_MESSAGE@
        + "\" })"@
}

/// The statement that writes the failure's text to the log at error
/// severity.
pub open spec fn log_statement() -> Seq<char> {
    "::tracing::error!(error = %self, \""@ + LOG_MESSAGE@ + "\");"@
}

/// The expression that yields the body. For an unclassified variant it
/// tests the build mode and, in a release build, logs and redacts; for any
/// other variant it shows the failure's text without a test.
pub open spec fn body_expression(unclassified: bool) -> Seq<char> {
    if unclassified {
        "if !::core::cfg!(debug_assertions) { "@ + log_statement() + " "@ + redacted_body()
            + " } else { "@ + revealed_body() + " }"@
    } else {
        revealed_body()
    }
}

/// The expression of a variant's arm: it binds the effective status, builds
/// the body, and wraps both into the response.
pub open spec fn expression_text(variant: VariantModel) -> Seq<char> {
    "{ let status: ::axum::http::StatusCode = "@ + effective_status(variant) + "; let value = "@
        + body_expression(is_unclassified(variant))
        + "; ::axum::response::IntoResponse::into_response((status, ::axum::Json(value))) }"@
}

/// The arm of one variant of the union called `union_name`.
pub open spec fn arm_of(union_name: Seq<char>, variant: VariantModel) -> ArmModel {
    ArmModel {
        pattern: pattern_text(union_name, variant),
        expression: expression_text(variant),
    }
}

/// The source text of an arm.
pub open spec fn arm_text(arm: ArmModel) -> Seq<char> {
    arm.pattern + " => "@ + arm.expression
}

fn placeholder_list(arity: usize) -> (out: String)
    ensures
        out@ == placeholders(arity as nat),
{
    let mut out = String::new();
    let mut i: usize = 0;
    while i < arity
        invariant
            i <= arity,
            out@ == placeholders(i as nat),
        decreases arity - i,
    {
        if i == 0 {
            out.append("_");
            assert(out@ =~= "_"@);
        } else {
            out.append(", _");
        }
        i = i + 1;
    }
    out
}

fn payload(shape: Shape) -> (out: String)
    ensures
        out@ == payload_pattern(shape),
{
    match shape {
        Shape::NoPayload => String::new(),
        Shape::PositionalPayload(arity) => {
            let mut out = String::from_str("(");
            let list = placeholder_list(arity);
            out.append(list.as_str());
            out.append(")");
            out
        },
        Shape::NamedPayload => String::from_str(" { .. }"),
    }
}

fn body(unclassified: bool) -> (out: String)
    ensures
        out@ == body_expression(unclassified),
{
    let revealed =
        "::serde_json::json!({ \"code\": status.as_u16(), \"message\": self.to_string() })";
    if unclassified {
        let mut log = String::from_str("::tracing::error!(error = %self, \"");
        log.append(LOG_MESSAGE);
        log.append("\");");
        let mut redacted = String::from_str(
            "::serde_json::json!({ \"code\": status.as_u16(), \"message\": \"",
        );
        redacted.append(REDACTED_MESSAGE);
        redacted.append("\" })");
        let mut out = String::from_str("if !::core::cfg!(debug_assertions) { ");
        out.append(log.as_str());
        out.append(" ");
        out.append(redacted.as_str());
        out.append(" } else { ");
        out.append(revealed);
        out.append(" }");
        out
    } else {
        String::from_str(revealed)
    }
}

impl Arm {
    /// The arm as source text: pattern, arrow, expression.
    pub fn render(&self) -> (out: String)
        ensures
            out@ == arm_text(self@),
    {
        let mut out = self.pattern.clone();
        out.append(" => ");
        out.append(self.expression.as_str());
        out
    }
}

/// Builds the dispatch arm of `variant` for the union called `union_name`.
pub fn synthesize(union_name: &str, variant: &VariantDescriptor) -> (arm: Arm)
    ensures
        arm@ == arm_of(union_name@, variant@),
{
    let mut pattern = String::from_str(union_name);
    pattern.append(" :: ");
    pattern.append(variant.name.as_str());
    let shape_pattern = payload(variant.shape);
    pattern.append(shape_pattern.as_str());

    let status = variant.effective_status();
    let value = body(variant.is_unclassified());
    let mut expression = String::from_str("{ let status: ::axum::http::StatusCode = ");
    expression.append(status.as_str());
    expression.append("; let value = ");
    expression.append(value.as_str());
    expression.append(
        "; ::axum::response::IntoResponse::into_response((status, ::axum::Json(value))) }",
    );
    Arm { pattern, expression }
}

} // verus!
