use postboard::error_handlers::{fallback_handler, handle_invalid_path};
use postboard::errors::ApiError;
use postboard::response::{single_fail, AppError, FieldError, JsendResponse, ResponseData, Status};
use postboard::schema::{LoginUserSchema, PostSchema, RegisterUserSchema};

#[test]
fn success_envelope_shape() {
    let r = JsendResponse::success(None);
    assert!(matches!(r.status, Status::Success));
    assert!(r.message.is_none());
    assert!(r.data.is_none());
}

#[test]
fn error_envelope_shape() {
    let r = JsendResponse::error("boom".to_string());
    assert!(matches!(r.status, Status::Error));
    assert_eq!(r.message.as_deref(), Some("boom"));
    assert!(r.data.is_none());
}

#[test]
fn fail_envelope_shape() {
    let r = JsendResponse::fail(ResponseData::Fields(Vec::new()));
    assert!(matches!(r.status, Status::Fail));
    assert!(r.message.is_none());
    assert!(matches!(r.data, Some(ResponseData::Fields(_))));
}

#[test]
fn internal_error_maps_to_500() {
    let (code, body) = AppError::InternalServerError.into_response_parts();
    assert_eq!(code, 500);
    assert!(matches!(body.status, Status::Error));
    assert_eq!(body.message.as_deref(), Some("internal server error"));
    assert!(body.data.is_none());
}

#[test]
fn json_rejection_maps_to_400() {
    let (code, body) = AppError::JsonRejection.into_response_parts();
    assert_eq!(code, 400);
    assert_eq!(body.message.as_deref(), Some("invalid json data"));
}

#[test]
fn validation_failure_maps_to_200_fail() {
    let errs = vec![FieldError { field: "username".to_string(), message: "username too long".to_string() }];
    let (code, body) = AppError::ValidationError(errs).into_response_parts();
    assert_eq!(code, 200);
    assert!(matches!(body.status, Status::Fail));
    match body.data {
        Some(ResponseData::Fields(v)) => {
            assert_eq!(v.len(), 1);
            assert_eq!(v[0].field, "username");
            assert_eq!(v[0].message, "username too long");
        },
        _ => panic!("expected a fields payload"),
    }
}

#[test]
fn path_rejection_maps_to_200_error() {
    let (code, body) = AppError::PathRejection.into_response_parts();
    assert_eq!(code, 200);
    assert!(matches!(body.status, Status::Error));
    assert_eq!(body.message.as_deref(), Some("invalid path data"));
}

#[test]
fn jsend_fail_maps_to_500() {
    let (code, body) = single_fail("post", "post doesnt exist").into_response_parts();
    assert_eq!(code, 500);
    assert!(matches!(body.status, Status::Fail));
}

#[test]
fn jsend_error_keeps_its_message() {
    let (code, body) = AppError::JsendError("User not found".to_string()).into_response_parts();
    assert_eq!(code, 500);
    assert_eq!(body.message.as_deref(), Some("User not found"));
}

#[test]
fn api_error_status_codes() {
    let (c, b) = ApiError::NotFound("missing".to_string()).into_response_parts();
    assert_eq!(c, 404);
    assert_eq!(b.message, "missing");
    assert!(matches!(b.status, Status::Success));
    let (c, _) = ApiError::BadRequest("bad".to_string()).into_response_parts();
    assert_eq!(c, 400);
    let (c, _) = ApiError::Unauthorized("no".to_string()).into_response_parts();
    assert_eq!(c, 401);
    let (c, b) = ApiError::InternalServerError.into_response_parts();
    assert_eq!(c, 500);
    assert_eq!(b.message, "Internal server error");
}

#[test]
fn fallback_and_invalid_path_answer_404() {
    let (code, r) = fallback_handler();
    assert_eq!(code, 404);
    assert!(matches!(r.status, Status::Error));
    assert_eq!(r.message.as_deref(), Some("incorrect path placeholder message"));
    let (code, text) = handle_invalid_path();
    assert_eq!(code, 404);
    assert_eq!(text, "The requested resource was not found");
}

#[test]
fn register_schema_collects_every_bad_field() {
    let body = RegisterUserSchema {
        username: "a".to_string(),
        email: "".to_string(),
        password: "short".to_string(),
    };
    let v = body.validate().unwrap_err();
    assert_eq!(v.len(), 3);
    assert_eq!(v[0].field, "username");
    assert_eq!(v[0].message, "username cannot be empty");
    assert_eq!(v[1].field, "email");
    assert_eq!(v[1].message, "email cannot be empty");
    assert_eq!(v[2].field, "password");
    assert_eq!(v[2].message, "password too short");
}

#[test]
fn login_schema_passes_good_fields() {
    let body = LoginUserSchema { username: "alice".to_string(), password: "password1".to_string() };
    assert!(body.validate().is_ok());
}

#[test]
fn post_schema_rejects_long_title() {
    let body = PostSchema { title: "t".repeat(21), content: "fine content".to_string() };
    let v = body.validate().unwrap_err();
    assert_eq!(v.len(), 1);
    assert_eq!(v[0].field, "title");
    assert_eq!(v[0].message, "title too long");
}
