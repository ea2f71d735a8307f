use vixen::response::{ApiResult, WireBody};
use vixen::routes::{
    admin_download, download_database, health, match_route, not_found, route_is_protected, Route,
};

fn body_text(body: WireBody) -> String {
    match body {
        WireBody::Text(t) => t,
        WireBody::Bytes(_) => panic!("expected a JSON body, got raw bytes"),
    }
}

#[test]
fn health_with_reachable_storage_is_ok() {
    let wire = health(Some(1)).into_wire();
    assert_eq!(wire.status, 200);
    assert_eq!(wire.content_type, "application/json");
    assert!(wire.content_disposition.is_none());
    assert_eq!(
        body_text(wire.body),
        "{\"ok\":true,\"data\":{\"status\":\"OK\",\"database\":\"Connected\"}}"
    );
}

#[test]
fn health_with_unreachable_storage_is_a_database_error() {
    let wire = health(None).into_wire();
    assert_eq!(wire.status, 500);
    assert_eq!(
        body_text(wire.body),
        "{\"ok\":false,\"error\":{\"code\":\"DATABASE_ERROR\",\"message\":\"Database connection failed\"}}"
    );
}

#[test]
fn health_with_wrong_sentinel_is_a_database_error() {
    let wire = health(Some(0)).into_wire();
    assert_eq!(wire.status, 500);
    assert_eq!(
        body_text(wire.body),
        "{\"ok\":false,\"error\":{\"code\":\"DATABASE_ERROR\",\"message\":\"Database health check failed\"}}"
    );
}

#[test]
fn unmatched_route_is_a_structured_not_found() {
    let wire = not_found().into_wire();
    assert_eq!(wire.status, 404);
    assert_eq!(
        body_text(wire.body),
        "{\"ok\":false,\"error\":{\"code\":\"NOT_FOUND\",\"message\":\"The requested resource was not found\"}}"
    );
}

#[test]
fn download_streams_the_snapshot_as_an_attachment() {
    let wire = download_database(vec![1, 2, 3, 4, 5]).into_wire();
    assert_eq!(wire.status, 200);
    assert_eq!(wire.content_type, "application/octet-stream");
    assert_eq!(
        wire.content_disposition.as_deref(),
        Some("attachment; filename=\"database_backup.db\"")
    );
    match wire.body {
        WireBody::Bytes(b) => assert_eq!(b, vec![1, 2, 3, 4, 5]),
        WireBody::Text(_) => panic!("expected raw bytes, got a JSON body"),
    }
}

#[test]
fn download_without_credential_is_unauthorized_and_streams_nothing() {
    let r = admin_download(None, "s3cr3t", vec![9, 9, 9]);
    assert_eq!(r.err(), Some(401));
}

#[test]
fn download_with_wrong_credential_is_unauthorized() {
    let r = admin_download(Some("Bearer nope"), "s3cr3t", vec![9, 9, 9]);
    assert_eq!(r.err(), Some(401));
}

#[test]
fn download_with_the_exact_credential_streams_the_bytes() {
    let r = admin_download(Some("Bearer s3cr3t"), "s3cr3t", vec![9, 8, 7]);
    let wire = r.ok().expect("the exact credential must be admitted");
    assert_eq!(wire.status, 200);
    match wire.body {
        WireBody::Bytes(b) => assert_eq!(b, vec![9, 8, 7]),
        WireBody::Text(_) => panic!("expected raw bytes, got a JSON body"),
    }
}

#[test]
fn error_envelope_escapes_its_text() {
    let r: ApiResult<()> =
        ApiResult::error("E_\"QUOTE\"".to_string(), "line\nbreak\\and\ttab".to_string());
    let wire = r.into_wire();
    assert_eq!(wire.status, 400);
    assert_eq!(
        body_text(wire.body),
        "{\"ok\":false,\"error\":{\"code\":\"E_\\\"QUOTE\\\"\",\"message\":\"line\\nbreak\\\\and\\ttab\"}}"
    );
}

#[test]
fn error_envelope_escapes_bare_control_characters() {
    let r: ApiResult<()> = ApiResult::error("C".to_string(), "a\u{1}b\u{1f}c".to_string());
    let wire = r.into_wire();
    assert_eq!(
        body_text(wire.body),
        "{\"ok\":false,\"error\":{\"code\":\"C\",\"message\":\"a\\u0001b\\u001fc\"}}"
    );
}

#[test]
fn health_routes_answer_under_both_aliases() {
    assert_eq!(match_route("/health"), Route::Health);
    assert_eq!(match_route("/healthz"), Route::Health);
    assert_eq!(match_route("/admin/download"), Route::AdminDownload);
    assert_eq!(match_route("/admin/database"), Route::AdminDownload);
    assert_eq!(match_route("/"), Route::NotFound);
    assert_eq!(match_route("/health/"), Route::NotFound);
    assert_eq!(match_route("/admin"), Route::NotFound);
}

#[test]
fn only_the_download_route_is_protected() {
    assert!(route_is_protected(Route::AdminDownload));
    assert!(!route_is_protected(Route::Health));
    assert!(!route_is_protected(Route::NotFound));
}
