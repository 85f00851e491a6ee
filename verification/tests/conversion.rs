use http_error_derive::arm::{LOG_MESSAGE, REDACTED_MESSAGE};
use http_error_derive::conversion::{
    BuildMode, Conversion, ErrorRecord, ResponseBody, DEFAULT_INTERNAL_STATUS_CODE,
};
use http_error_derive::declaration::{
    Declaration, DeclarationBody, PayloadStyle, VariantDeclaration,
};
use http_error_derive::descriptor::{
    GenericParameterList, Shape, VariantDescriptor, DEFAULT_INTERNAL_STATUS,
};
use http_error_derive::extract::extract;
use http_error_derive::json::{decimal, envelope};
use http_error_derive::{derive_http_error, GeneratorOutput};

fn unclassified() -> VariantDescriptor {
    VariantDescriptor {
        name: "Database".to_string(),
        shape: Shape::PositionalPayload(1),
        status: None,
    }
}

fn classified(status: &str) -> VariantDescriptor {
    VariantDescriptor {
        name: "NotFound".to_string(),
        shape: Shape::NoPayload,
        status: Some(status.to_string()),
    }
}

#[test]
fn default_code_is_that_of_internal_server_error() {
    assert_eq!(DEFAULT_INTERNAL_STATUS_CODE, 500);
    assert_eq!(
        axum::http::StatusCode::INTERNAL_SERVER_ERROR.as_u16(),
        DEFAULT_INTERNAL_STATUS_CODE
    );
    assert_eq!(
        axum::http::StatusCode::INTERNAL_SERVER_ERROR.canonical_reason(),
        Some("Internal Server Error")
    );
}

#[test]
fn effective_code_of_an_unannotated_variant_is_500() {
    assert_eq!(unclassified().effective_code(0), 500);
    assert_eq!(unclassified().effective_code(404), 500);
    assert!(unclassified().is_unclassified());
}

#[test]
fn effective_code_of_an_annotated_variant_is_its_own() {
    assert_eq!(classified("StatusCode::NOT_FOUND").effective_code(404), 404);
    assert_eq!(classified("StatusCode::BAD_REQUEST").effective_code(400), 400);
}

#[test]
fn release_build_redacts_and_logs_an_unclassified_failure() {
    let conversion = unclassified().convert(0, BuildMode::Release, "connection refused");
    assert_eq!(
        conversion,
        Conversion {
            status: 500,
            body: ResponseBody { code: 500, message: "Internal server error".to_string() },
            log: Some(ErrorRecord {
                error: "connection refused".to_string(),
                message: "internal server error".to_string(),
            }),
        }
    );
    assert_eq!(conversion.body.message, REDACTED_MESSAGE);
    assert_eq!(conversion.log.map(|record| record.message), Some(LOG_MESSAGE.to_string()));
}

#[test]
fn debug_build_shows_an_unclassified_failure() {
    let conversion = unclassified().convert(0, BuildMode::Debug, "connection refused");
    assert_eq!(
        conversion,
        Conversion {
            status: 500,
            body: ResponseBody { code: 500, message: "connection refused".to_string() },
            log: None,
        }
    );
}

#[test]
fn not_found_is_shown_in_both_build_modes() {
    let not_found = classified("StatusCode::NOT_FOUND");
    for mode in [BuildMode::Debug, BuildMode::Release] {
        assert_eq!(
            not_found.convert(404, mode, "no such user"),
            Conversion {
                status: 404,
                body: ResponseBody { code: 404, message: "no such user".to_string() },
                log: None,
            }
        );
    }
}

#[test]
fn explicit_internal_server_error_is_not_redacted() {
    let explicit = classified(DEFAULT_INTERNAL_STATUS);
    assert!(!explicit.is_unclassified());
    for mode in [BuildMode::Debug, BuildMode::Release] {
        assert_eq!(
            explicit.convert(500, mode, "disk full"),
            Conversion {
                status: 500,
                body: ResponseBody { code: 500, message: "disk full".to_string() },
                log: None,
            }
        );
    }
}

#[test]
fn empty_failure_text_is_kept() {
    let shown = classified("StatusCode::NOT_FOUND").convert(404, BuildMode::Release, "");
    assert_eq!(shown.body.message, "");
    let hidden = unclassified().convert(0, BuildMode::Release, "");
    assert_eq!(hidden.body.message, "Internal server error");
    assert_eq!(hidden.log.map(|record| record.error), Some(String::new()));
}

#[test]
fn decimal_of_small_and_large_numbers() {
    assert_eq!(decimal(0), "0");
    assert_eq!(decimal(7), "7");
    assert_eq!(decimal(9), "9");
    assert_eq!(decimal(10), "10");
    assert_eq!(decimal(404), "404");
    assert_eq!(decimal(500), "500");
    assert_eq!(decimal(1000), "1000");
    assert_eq!(decimal(65535), "65535");
}

#[test]
fn decimal_agrees_with_std_on_every_code() {
    for number in 0..=u16::MAX {
        assert_eq!(decimal(number), number.to_string());
    }
}

#[test]
fn envelope_places_code_and_message() {
    assert_eq!(envelope(404, "\"gone\""), "{\"code\":404,\"message\":\"gone\"}");
    assert_eq!(envelope(0, ""), "{\"code\":0,\"message\":}");
}

#[test]
fn body_as_json_text() {
    let body = ResponseBody { code: 500, message: "Internal server error".to_string() };
    assert_eq!(body.to_json(), "{\"code\":500,\"message\":\"Internal server error\"}");
}

#[test]
fn body_as_json_escapes_the_message() {
    let body = ResponseBody { code: 400, message: "bad \"name\"\n\\ tab\t".to_string() };
    assert_eq!(
        body.to_json(),
        "{\"code\":400,\"message\":\"bad \\\"name\\\"\\n\\\\ tab\\t\"}"
    );
}

#[test]
fn body_as_json_reads_back_with_serde_json() {
    let message = "caf\u{e9} \u{1}\u{1f600} \"quoted\" </script>";
    let body = ResponseBody { code: 418, message: message.to_string() };
    let value: serde_json::Value = serde_json::from_str(&body.to_json()).expect("valid JSON");
    let object = value.as_object().expect("an object");
    assert_eq!(object.len(), 2);
    assert_eq!(object.get("code").and_then(serde_json::Value::as_u64), Some(418));
    assert_eq!(object.get("message").and_then(serde_json::Value::as_str), Some(message));
}

#[test]
fn database_timeout_and_not_found() {
    let declaration = Declaration {
        name: "ApiError".to_string(),
        generics: GenericParameterList::none(),
        body: DeclarationBody::TaggedUnion(vec![
            VariantDeclaration {
                name: "NotFound".to_string(),
                style: PayloadStyle::Unit,
                field_count: 0,
                status: Some("::axum::http::StatusCode::NOT_FOUND".to_string()),
            },
            VariantDeclaration {
                name: "Database".to_string(),
                style: PayloadStyle::Tuple,
                field_count: 1,
                status: None,
            },
        ]),
    };
    let function = match derive_http_error(&declaration) {
        GeneratorOutput::Artifact(function) => function,
        GeneratorOutput::Report(report) => panic!("unexpected report: {}", report.message),
    };
    assert_eq!(function.arms.len(), 2);
    assert_eq!(function.arms[0].pattern, "ApiError :: NotFound");
    assert_eq!(function.arms[1].pattern, "ApiError :: Database(_)");

    let descriptor = extract(&declaration).expect("a tagged union");
    let not_found = &descriptor.variants[0];
    let database = &descriptor.variants[1];
    let not_found_code = axum::http::StatusCode::NOT_FOUND.as_u16();

    let hidden = database.convert(not_found_code, BuildMode::Release, "timeout");
    assert_eq!(hidden.status, 500);
    assert_eq!(hidden.body.to_json(), "{\"code\":500,\"message\":\"Internal server error\"}");
    let record = hidden.log.expect("one log record");
    assert!(record.error.contains("timeout"));

    for mode in [BuildMode::Debug, BuildMode::Release] {
        let shown = not_found.convert(not_found_code, mode, "NotFound");
        assert_eq!(shown.status, 404);
        assert_eq!(shown.body.to_json(), "{\"code\":404,\"message\":\"NotFound\"}");
        assert_eq!(shown.log, None);
    }
}
