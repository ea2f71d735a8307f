//! The routes of the HTTP control surface, as decisions on plain values.
//!
//! The listener (outside the library) extracts the request path, the
//! credential header and, where a route needs it, the storage round-trip
//! row or the snapshot bytes, and hands them to these handlers; each
//! handler's contract says exactly which envelope comes back for which
//! input.

use vstd::prelude::*;

use crate::auth::{AuthDecision, authorize, spec_expected_credential};
use crate::response::{
    ApiResult,
    JsonPayload,
    WireResponse,
    WireBody,
    append_json_string,
    spec_json_string,
    spec_content_disposition,
};
use crate::text::str_equal;

verus! {

/// The payload of the health route.
pub struct HealthStatus {
    /// Whether the service answers: `"OK"` when it does.
    pub status: String,
    /// Whether the storage answers: `"Connected"` when it does.
    pub database: String,
}

impl JsonPayload for HealthStatus {
    open spec fn spec_json(&self) -> Seq<char> {
        "{\"status\":"@ + spec_json_string(self.status@) + ",\"database\":"@ + spec_json_string(
            self.database@,
        ) + "}"@
    }

    fn append_json(&self, out: &mut String)
        ensures
            final(out)@ == old(out)@ + self.spec_json(),
    {
        out.append("{\"status\":");
        append_json_string(out, self.status.as_str());
        out.append(",\"database\":");
        append_json_string(out, self.database.as_str());
        out.append("}");
        proof {
            assert(final(out)@ =~= old(out)@ + self.spec_json());
        }
    }
}

/// Health-check handler: decide the response from the storage round-trip.
///
/// The listener runs the trivial round-trip query against storage and
/// hands over the row it got: `None` when the query failed, otherwise the
/// single value of the row. The expected sentinel value is 1; any other
/// outcome is a storage error, answered with a generic code and no
/// internal detail.
pub fn health(row: Option<i64>) -> (r: ApiResult<HealthStatus>)
    ensures
        match row {
            Some(v) => if v == 1 {
                r matches ApiResult::Success(h) && h.status@ == "OK"@ && h.database@
                    == "Connected"@
            } else {
                r matches ApiResult::Error { code, message, status } && code@
                    == "DATABASE_ERROR"@ && message@ == "Database health check failed"@ && status
                    == 500
            },
            None => r matches ApiResult::Error { code, message, status } && code@
                == "DATABASE_ERROR"@ && message@ == "Database connection failed"@ && status == 500,
        },
{
    match row {
        Some(v) => {
            if v == 1 {
                ApiResult::success(
                    HealthStatus { status: "OK".to_owned(), database: "Connected".to_owned() },
                )
            } else {
                ApiResult::error_with_status(
                    "DATABASE_ERROR".to_owned(),
                    "Database health check failed".to_owned(),
                    500,
                )
            }
        },
        None => ApiResult::error_with_status(
            "DATABASE_ERROR".to_owned(),
            "Database connection failed".to_owned(),
            500,
        ),
    }
}

/// Handler of the storage snapshot download: wrap the snapshot bytes that
/// storage produced as a file attachment.
pub fn download_database(backup: Vec<u8>) -> (r: ApiResult<()>)
    ensures
        r matches ApiResult::File { content, filename, content_type } && content@ == backup@
            && filename@ == "database_backup.db"@ && content_type@
            == "application/octet-stream"@,
{
    ApiResult::file(
        backup,
        "database_backup.db".to_owned(),
        "application/octet-stream".to_owned(),
    )
}

/// Fallback handler: a structured not-found envelope, never a bare page.
pub fn not_found() -> (r: ApiResult<()>)
    ensures
        r matches ApiResult::Error { code, message, status } && code@ == "NOT_FOUND"@ && message@
            == "The requested resource was not found"@ && status == 404,
{
    ApiResult::error_with_status(
        "NOT_FOUND".to_owned(),
        "The requested resource was not found".to_owned(),
        404,
    )
}

/// The route a request path selects.
#[derive(Debug, PartialEq, Eq, Structural, Clone, Copy)]
pub enum Route {
    /// The public health probe.
    Health,
    /// The protected storage snapshot download.
    AdminDownload,
    /// Everything else: the structured not-found envelope.
    NotFound,
}

/// The route table: the health route and the download route each answer
/// under two aliases; every other path falls through.
pub open spec fn spec_route(path: Seq<char>) -> Route {
    if path == "/health"@ || path == "/healthz"@ {
        Route::Health
    } else if path == "/admin/download"@ || path == "/admin/database"@ {
        Route::AdminDownload
    } else {
        Route::NotFound
    }
}

/// Select the route a request path names.
pub fn match_route(path: &str) -> (route: Route)
    ensures
        route == spec_route(path@),
{
    if str_equal(path, "/health") || str_equal(path, "/healthz") {
        Route::Health
    } else if str_equal(path, "/admin/download") || str_equal(path, "/admin/database") {
        Route::AdminDownload
    } else {
        Route::NotFound
    }
}

/// Whether a route stands behind the authorization gate.
pub fn route_is_protected(route: Route) -> (protected: bool)
    ensures
        protected == (route == Route::AdminDownload),
{
    match route {
        Route::AdminDownload => true,
        Route::Health => false,
        Route::NotFound => false,
    }
}

/// Serve one request of the protected download route: authorization
/// first, the file only for the exact credential.
///
/// A rejected request is answered with a bare unauthorized status and
/// carries not a byte of the snapshot, and nothing of the credential it
/// presented.
pub fn admin_download(auth_header: Option<&str>, secret: &str, backup: Vec<u8>) -> (r: Result<
    WireResponse,
    u16,
>)
    ensures
        (auth_header matches Some(h) && h@ == spec_expected_credential(secret@)) <==> !(r matches
        Err(status) && status == 401u16),
        (auth_header matches Some(h) && h@ == spec_expected_credential(secret@)) ==> (r matches Ok(
            w,
        ) && w.status == 200 && (w.body matches WireBody::Bytes(b) && b@ == backup@)
            && w.content_type@ == "application/octet-stream"@ && (w.content_disposition matches
        Some(d) && d@ == spec_content_disposition("database_backup.db"@))),
{
    match authorize(auth_header, secret) {
        AuthDecision::Allow => Ok(download_database(backup).into_wire()),
        AuthDecision::Reject => Err(401),
    }
}

} // verus!
