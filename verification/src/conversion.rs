//! What the generated function does with a failure value.
//!
//! The arm of a variant yields a status, a body of a code and a message,
//! and at most one log record. Three things enter: whether the variant is
//! unclassified, which is fixed when the arm is generated; the build mode;
//! and the failure's own text. The number that a status annotation stands
//! for is not known to the generator and is passed in by the caller.

use vstd::prelude::*;
use vstd::string::*;
use crate::arm::{LOG_MESSAGE, REDACTED_MESSAGE};
use crate::descriptor::{is_unclassified, VariantDescriptor, VariantModel};

verus! {

/// The number of the status that a variant without an annotation gets.
pub const DEFAULT_INTERNAL_STATUS_CODE: u16 = 500;

/// The kind of build that the generated function runs in.
#[derive(Clone, Copy, Debug, PartialEq, Eq, Structural)]
pub enum BuildMode {
    Debug,
    Release,
}

/// A log record of error severity.
#[derive(Clone, Debug, PartialEq, Eq)]
pub struct ErrorRecord {
    /// The full text of the failure.
    pub error: String,
    pub message: String,
}

/// The mathematical value of an [`ErrorRecord`].
pub struct RecordModel {
    pub error: Seq<char>,
    pub message: Seq<char>,
}

impl View for ErrorRecord {
    type V = RecordModel;

    open spec fn view(&self) -> RecordModel {
        RecordModel { error: self.error@, message: self.message@ }
    }
}

/// The body of a response.
#[derive(Clone, Debug, PartialEq, Eq)]
pub struct ResponseBody {
    pub code: u16,
    pub message: String,
}

/// The mathematical value of a [`ResponseBody`].
pub struct EnvelopeModel {
    pub code: u16,
    pub message: Seq<char>,
}

impl View for ResponseBody {
    type V = EnvelopeModel;

    open spec fn view(&self) -> EnvelopeModel {
        EnvelopeModel { code: self.code, message: self.message@ }
    }
}

/// The outcome of converting one failure value.
#[derive(Clone, Debug, PartialEq, Eq)]
pub struct Conversion {
    /// The status of the response.
    pub status: u16,
    pub body: ResponseBody,
    /// The record written to the log, if any.
    pub log: Option<ErrorRecord>,
}

/// The mathematical value of a [`Conversion`].
pub struct ConversionModel {
    pub status: u16,
    pub body: EnvelopeModel,
    pub log: Option<RecordModel>,
}

/// The view of an optional log record.
pub open spec fn optional_record(record: Option<ErrorRecord>) -> Option<RecordModel> {
    match record {
        Some(r) => Some(r@),
        None => None,
    }
}

impl View for Conversion {
    type V = ConversionModel;

    open spec fn view(&self) -> ConversionModel {
        ConversionModel {
            status: self.status,
            body: self.body@,
            log: optional_record(self.log),
        }
    }
}

/// The number of a variant's effective status: `annotated` for a variant
/// with a status annotation, where `annotated` is the number that the
/// annotation stands for, and the default for a variant without one.
pub open spec fn effective_code(variant: VariantModel, annotated: u16) -> u16 {
    if is_unclassified(variant) {
        DEFAULT_INTERNAL_STATUS_CODE
    } else {
        annotated
    }
}

/// Whether the failure's text is withheld from the body: only for an
/// unclassified variant, and only in a release build.
pub open spec fn redacts(variant: VariantModel, mode: BuildMode) -> bool {
    mode == BuildMode::Release && is_unclassified(variant)
}

/// The outcome of converting a failure value of `variant` whose text is
/// `rendering`. Where the text is withheld, the body carries the fixed
/// message and one record with the full text goes to the log; otherwise
/// the body carries the text and nothing is logged. The status and the
/// code in the body are the effective one either way.
pub open spec fn converted(
    variant: VariantModel,
    annotated: u16,
    mode: BuildMode,
    rendering: Seq<char>,
) -> ConversionModel {
    let code = effective_code(variant, annotated);
    if redacts(variant, mode) {
        ConversionModel {
            status: code,
            body: EnvelopeModel { code, message: REDACTED_MESSAGE@ },
            log: Some(RecordModel { error: rendering, message: LOG_MESSAGE@ }),
        }
    } else {
        ConversionModel {
            status: code,
            body: EnvelopeModel { code, message: rendering },
            log: None,
        }
    }
}

impl VariantDescriptor {
    /// The number of the variant's effective status, given the number that
    /// its annotation stands for. A variant without an annotation does not
    /// consult `annotated`.
    pub fn effective_code(&self, annotated: u16) -> (code: u16)
        ensures
            code == effective_code(self@, annotated),
    {
        if self.is_unclassified() {
            DEFAULT_INTERNAL_STATUS_CODE
        } else {
            annotated
        }
    }

    /// Converts a failure value of this variant as the variant's arm does.
    /// `annotated` is the number that the variant's status annotation
    /// stands for, and `rendering` the full text of the failure value.
    pub fn convert(&self, annotated: u16, mode: BuildMode, rendering: &str) -> (conversion:
        Conversion)
        ensures
            conversion@ == converted(self@, annotated, mode, rendering@),
    {
        let code: u16 = self.effective_code(annotated);
        let release = match mode {
            BuildMode::Release => true,
            BuildMode::Debug => false,
        };
        if release && self.is_unclassified() {
            Conversion {
                status: code,
                body: ResponseBody { code, message: String::from_str(REDACTED_MESSAGE) },
                log: Some(
                    ErrorRecord {
                        error: String::from_str(rendering),
                        message: String::from_str(LOG_MESSAGE),
                    },
                ),
            }
        } else {
            Conversion {
                status: code,
                body: ResponseBody { code, message: String::from_str(rendering) },
                log: None,
            }
        }
    }
}

/// A variant without a status annotation is unclassified, and the number of
/// its effective status is 500, whatever number is passed for an annotation.
pub proof fn unannotated_variant_is_unclassified(variant: VariantModel, annotated: u16)
    requires
        variant.status is None,
    ensures
        is_unclassified(variant),
        effective_code(variant, annotated) == 500,
{
}

/// A variant with a status annotation is not unclassified, whatever the
/// annotation says and whatever number it stands for, 500 included; and its
/// body shows the failure's text in every build mode, with nothing logged.
pub proof fn annotated_variant_shows_its_message(
    variant: VariantModel,
    annotated: u16,
    mode: BuildMode,
    rendering: Seq<char>,
)
    requires
        variant.status is Some,
    ensures
        !is_unclassified(variant),
        !redacts(variant, mode),
        converted(variant, annotated, mode, rendering).body.message == rendering,
        converted(variant, annotated, mode, rendering).log is None,
{
}

/// In a release build, an unclassified variant yields status and code 500
/// with the fixed message, and exactly one log record, which carries the
/// failure's full text.
pub proof fn release_build_redacts_unclassified(
    variant: VariantModel,
    annotated: u16,
    rendering: Seq<char>,
)
    requires
        is_unclassified(variant),
    ensures
        converted(variant, annotated, BuildMode::Release, rendering) == (ConversionModel {
            status: 500,
            body: EnvelopeModel { code: 500, message: REDACTED_MESSAGE@ },
            log: Some(RecordModel { error: rendering, message: LOG_MESSAGE@ }),
        }),
{
}

/// In a debug build, an unclassified variant yields status and code 500
/// with the failure's full text, and no log record.
pub proof fn debug_build_shows_unclassified(
    variant: VariantModel,
    annotated: u16,
    rendering: Seq<char>,
)
    requires
        is_unclassified(variant),
    ensures
        converted(variant, annotated, BuildMode::Debug, rendering) == (ConversionModel {
            status: 500,
            body: EnvelopeModel { code: 500, message: rendering },
            log: None,
        }),
{
}

/// A variant whose status annotation stands for the number `annotated`
/// yields that number as status and code, with the failure's full text and
/// no log record, in every build mode.
pub proof fn classified_variant_keeps_its_code(
    variant: VariantModel,
    annotated: u16,
    mode: BuildMode,
    rendering: Seq<char>,
)
    requires
        variant.status is Some,
    ensures
        converted(variant, annotated, mode, rendering) == (ConversionModel {
            status: annotated,
            body: EnvelopeModel { code: annotated, message: rendering },
            log: None,
        }),
{
}

} // verus!
