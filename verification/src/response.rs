//! The response envelope of the HTTP control surface and its exact wire
//! rendering.
//!
//! Every route answers with an [`ApiResult`]: a success envelope
//! `{"ok":true,"data":...}`, an error envelope
//! `{"ok":false,"error":{"code":...,"message":...}}` with its status code,
//! or a raw file that bypasses the JSON envelope and carries an attachment
//! header. [`ApiResult::into_wire`] turns the envelope into a
//! [`WireResponse`] — status, content headers and body as plain values —
//! and its contract pins the rendered text down to the character.

use vstd::prelude::*;

use crate::numfmt::{spec_hex, hex_str};

verus! {

/// What a payload looks like on the wire: its JSON text.
pub trait JsonPayload {
    /// The JSON text of this payload.
    spec fn spec_json(&self) -> Seq<char>;

    /// Append the JSON text of this payload.
    fn append_json(&self, out: &mut String)
        ensures
            final(out)@ == old(out)@ + self.spec_json(),
    ;
}

/// Basic structure for successful API responses.
pub struct ApiResponse<T> {
    pub ok: bool,
    pub data: T,
}

/// Basic error structure for API responses.
pub struct ApiError {
    pub code: String,
    pub message: String,
}

/// Standard error response.
pub struct ApiErrorResponse {
    pub ok: bool,
    pub error: ApiError,
}

/// The JSON text of one escaped character, as the JSON grammar demands:
/// quote and backslash escaped, the named control characters by their
/// short escapes, every other control character as `\u00` and two
/// lower-case hexadecimal digits, and everything else as itself.
pub open spec fn spec_escaped_char(c: char) -> Seq<char> {
    if c == '"' {
        seq!['\\', '"']
    } else if c == '\\' {
        seq!['\\', '\\']
    } else if c == '\u{0008}' {
        seq!['\\', 'b']
    } else if c == '\u{000C}' {
        seq!['\\', 'f']
    } else if c == '\n' {
        seq!['\\', 'n']
    } else if c == '\r' {
        seq!['\\', 'r']
    } else if c == '\t' {
        seq!['\\', 't']
    } else if (c as u32) < 0x20 {
        seq!['\\', 'u', '0', '0', spec_hex((c as u32 / 16) as nat), spec_hex(
            (c as u32 % 16) as nat,
        )]
    } else {
        seq![c]
    }
}

/// The text with every character escaped as the JSON grammar demands.
pub open spec fn spec_json_escaped(s: Seq<char>) -> Seq<char>
    decreases s.len(),
{
    if s.len() == 0 {
        Seq::empty()
    } else {
        spec_json_escaped(s.drop_last()) + spec_escaped_char(s.last())
    }
}

/// The JSON text of one string value: quoted and escaped.
pub open spec fn spec_json_string(s: Seq<char>) -> Seq<char> {
    seq!['"'] + spec_json_escaped(s) + seq!['"']
}

/// Append the escape of one character that the JSON grammar refuses bare.
fn append_escaped_char(out: &mut String, c: char)
    requires
        c == '"' || c == '\\' || (c as u32) < 0x20,
    ensures
        final(out)@ == old(out)@ + spec_escaped_char(c),
{
    if c == '"' {
        out.append("\\\"");
        proof {
            reveal_strlit("\\\"");
            assert(final(out)@ =~= old(out)@ + spec_escaped_char(c));
        }
    } else if c == '\\' {
        out.append("\\\\");
        proof {
            reveal_strlit("\\\\");
            assert(final(out)@ =~= old(out)@ + spec_escaped_char(c));
        }
    } else if c == '\u{0008}' {
        out.append("\\b");
        proof {
            reveal_strlit("\\b");
            assert(final(out)@ =~= old(out)@ + spec_escaped_char(c));
        }
    } else if c == '\u{000C}' {
        out.append("\\f");
        proof {
            reveal_strlit("\\f");
            assert(final(out)@ =~= old(out)@ + spec_escaped_char(c));
        }
    } else if c == '\n' {
        out.append("\\n");
        proof {
            reveal_strlit("\\n");
            assert(final(out)@ =~= old(out)@ + spec_escaped_char(c));
        }
    } else if c == '\r' {
        out.append("\\r");
        proof {
            reveal_strlit("\\r");
            assert(final(out)@ =~= old(out)@ + spec_escaped_char(c));
        }
    } else if c == '\t' {
        out.append("\\t");
        proof {
            reveal_strlit("\\t");
            assert(final(out)@ =~= old(out)@ + spec_escaped_char(c));
        }
    } else {
        let v = c as u32;
        out.append("\\u00");
        out.append(hex_str(v / 16));
        out.append(hex_str(v % 16));
        proof {
            reveal_strlit("\\u00");
            assert(final(out)@ =~= old(out)@ + spec_escaped_char(c));
        }
    }
}

/// Append the text with every character escaped.
#[verifier::loop_isolation(false)]
fn append_json_escaped(out: &mut String, s: &str)
    ensures
        final(out)@ == old(out)@ + spec_json_escaped(s@),
{
    let n = s.unicode_len();
    let mut i: usize = 0;
    while i < n
        invariant
            i <= n,
            out@ == old(out)@ + spec_json_escaped(s@.subrange(0, i as int)),
        decreases n - i,
    {
        let c = s.get_char(i);
        if c == '"' || c == '\\' || (c as u32) < 0x20 {
            append_escaped_char(out, c);
        } else {
            let piece = s.substring_char(i, i + 1);
            out.append(piece);
            proof {
                assert(piece@ =~= seq![c]);
                assert(piece@ =~= spec_escaped_char(c));
            }
        }
        proof {
            let upto = s@.subrange(0, i + 1);
            assert(upto.drop_last() =~= s@.subrange(0, i as int));
            assert(upto.last() == s@[i as int]);
            assert(out@ =~= old(out)@ + spec_json_escaped(upto));
        }
        i += 1;
    }
    proof {
        assert(s@.subrange(0, s@.len() as int) =~= s@);
    }
}

/// Append one string value: quoted and escaped.
pub fn append_json_string(out: &mut String, s: &str)
    ensures
        final(out)@ == old(out)@ + spec_json_string(s@),
{
    out.append("\"");
    append_json_escaped(out, s);
    out.append("\"");
    proof {
        reveal_strlit("\"");
        assert("\""@ =~= seq!['"']);
        assert(final(out)@ =~= old(out)@ + spec_json_string(s@));
    }
}

impl ApiError {
    /// The JSON text of the error: its code and message.
    pub open spec fn spec_json(&self) -> Seq<char> {
        "{\"code\":"@ + spec_json_string(self.code@) + ",\"message\":"@ + spec_json_string(
            self.message@,
        ) + "}"@
    }

    /// Append the JSON text of the error.
    pub fn append_json(&self, out: &mut String)
        ensures
            final(out)@ == old(out)@ + self.spec_json(),
    {
        out.append("{\"code\":");
        append_json_string(out, self.code.as_str());
        out.append(",\"message\":");
        append_json_string(out, self.message.as_str());
        out.append("}");
        proof {
            assert(final(out)@ =~= old(out)@ + self.spec_json());
        }
    }
}

impl ApiErrorResponse {
    /// The JSON text of the whole error envelope.
    pub open spec fn spec_json(&self) -> Seq<char> {
        "{\"ok\":"@ + (if self.ok {
            "true"@
        } else {
            "false"@
        }) + ",\"error\":"@ + self.error.spec_json() + "}"@
    }

    /// Append the JSON text of the whole error envelope.
    pub fn append_json(&self, out: &mut String)
        ensures
            final(out)@ == old(out)@ + self.spec_json(),
    {
        out.append("{\"ok\":");
        if self.ok {
            out.append("true");
        } else {
            out.append("false");
        }
        out.append(",\"error\":");
        self.error.append_json(out);
        out.append("}");
        proof {
            assert(final(out)@ =~= old(out)@ + self.spec_json());
        }
    }
}

impl<T: JsonPayload> ApiResponse<T> {
    /// The JSON text of the whole success envelope.
    pub open spec fn spec_json(&self) -> Seq<char> {
        "{\"ok\":"@ + (if self.ok {
            "true"@
        } else {
            "false"@
        }) + ",\"data\":"@ + self.data.spec_json() + "}"@
    }

    /// Append the JSON text of the whole success envelope.
    pub fn append_json(&self, out: &mut String)
        ensures
            final(out)@ == old(out)@ + self.spec_json(),
    {
        out.append("{\"ok\":");
        if self.ok {
            out.append("true");
        } else {
            out.append("false");
        }
        out.append(",\"data\":");
        self.data.append_json(out);
        out.append("}");
        proof {
            assert(final(out)@ =~= old(out)@ + self.spec_json());
        }
    }
}

/// A payload of nothing renders as JSON `null`.
impl JsonPayload for () {
    open spec fn spec_json(&self) -> Seq<char> {
        "null"@
    }

    fn append_json(&self, out: &mut String)
        ensures
            final(out)@ == old(out)@ + self.spec_json(),
    {
        out.append("null");
    }
}

/// Enum for every possible API response type.
pub enum ApiResult<T> {
    Success(T),
    Error { code: String, message: String, status: u16 },
    File { content: Vec<u8>, filename: String, content_type: String },
}

/// The body of a wire response: JSON text, or the raw bytes of a file.
pub enum WireBody {
    Text(String),
    Bytes(Vec<u8>),
}

/// One HTTP response as plain values: the status code, the content
/// headers, and the body.
pub struct WireResponse {
    /// The HTTP status code.
    pub status: u16,
    /// The value of the content-type header.
    pub content_type: String,
    /// The value of the content-disposition header, for file responses.
    pub content_disposition: Option<String>,
    /// The response body.
    pub body: WireBody,
}

/// The attachment header value naming the downloaded file.
pub open spec fn spec_content_disposition(filename: Seq<char>) -> Seq<char> {
    "attachment; filename=\""@ + filename + "\""@
}

/// The JSON text of a success envelope around the given payload text.
pub open spec fn spec_success_body(data_json: Seq<char>) -> Seq<char> {
    "{\"ok\":true,\"data\":"@ + data_json + "}"@
}

/// The JSON text of an error envelope around the given code and message.
pub open spec fn spec_error_body(code: Seq<char>, message: Seq<char>) -> Seq<char> {
    "{\"ok\":false,\"error\":{\"code\":"@ + spec_json_string(code) + ",\"message\":"@
        + spec_json_string(message) + "}}"@
}

impl<T> ApiResult<T> {
    /// Creates a successful response with the provided data.
    pub fn success(data: T) -> (r: Self)
        ensures
            r == ApiResult::Success(data),
    {
        Self::Success(data)
    }

    /// Creates an error response with a default status of 400 Bad Request
    /// and a custom error code and message.
    pub fn error(code: String, message: String) -> (r: Self)
        ensures
            r == (ApiResult::<T>::Error { code, message, status: 400 }),
    {
        Self::Error { code, message, status: 400 }
    }

    /// Creates an error response with a custom status code,
    /// along with a custom error code and message.
    pub fn error_with_status(code: String, message: String, status: u16) -> (r: Self)
        ensures
            r == (ApiResult::<T>::Error { code, message, status }),
    {
        Self::Error { code, message, status }
    }

    /// Creates a file response with the provided content, filename, and
    /// content type.
    pub fn file(content: Vec<u8>, filename: String, content_type: String) -> (r: Self)
        ensures
            r == (ApiResult::<T>::File { content, filename, content_type }),
    {
        Self::File { content, filename, content_type }
    }
}

impl<T: JsonPayload> ApiResult<T> {
    /// Convert the envelope into the response that goes on the wire.
    ///
    /// A success envelope becomes status 200 with the JSON success body; an
    /// error envelope keeps its status and becomes the JSON error body; a
    /// file bypasses JSON and streams its bytes with the given content type
    /// and an attachment header naming the file.
    pub fn into_wire(self) -> (wire: WireResponse)
        ensures
            match self {
                ApiResult::Success(data) => {
                    &&& wire.status == 200
                    &&& wire.content_type@ == "application/json"@
                    &&& wire.content_disposition is None
                    &&& wire.body matches WireBody::Text(t) && t@ == spec_success_body(
                        data.spec_json(),
                    )
                },
                ApiResult::Error { code, message, status } => {
                    &&& wire.status == status
                    &&& wire.content_type@ == "application/json"@
                    &&& wire.content_disposition is None
                    &&& wire.body matches WireBody::Text(t) && t@ == spec_error_body(
                        code@,
                        message@,
                    )
                },
                ApiResult::File { content, filename, content_type } => {
                    &&& wire.status == 200
                    &&& wire.content_type@ == content_type@
                    &&& wire.content_disposition matches Some(d) && d@
                        == spec_content_disposition(filename@)
                    &&& wire.body matches WireBody::Bytes(b) && b@ == content@
                },
            },
    {
        match self {
            ApiResult::Success(data) => {
                let response = ApiResponse { ok: true, data };
                let mut body = String::new();
                response.append_json(&mut body);
                proof {
                    reveal_strlit("{\"ok\":");
                    reveal_strlit("true");
                    reveal_strlit(",\"data\":");
                    reveal_strlit("{\"ok\":true,\"data\":");
                    assert("{\"ok\":"@ + "true"@ + ",\"data\":"@ =~= "{\"ok\":true,\"data\":"@);
                    assert(body@ =~= spec_success_body(response.data.spec_json()));
                }
                WireResponse {
                    status: 200,
                    content_type: "application/json".to_owned(),
                    content_disposition: None,
                    body: WireBody::Text(body),
                }
            },
            ApiResult::Error { code, message, status } => {
                let response = ApiErrorResponse { ok: false, error: ApiError { code, message } };
                let mut body = String::new();
                response.append_json(&mut body);
                proof {
                    reveal_strlit("{\"ok\":");
                    reveal_strlit("false");
                    reveal_strlit(",\"error\":");
                    reveal_strlit("{\"code\":");
                    reveal_strlit("{\"ok\":false,\"error\":{\"code\":");
                    reveal_strlit("}");
                    reveal_strlit("}}");
                    assert("{\"ok\":"@ + "false"@ + ",\"error\":"@ + "{\"code\":"@
                        =~= "{\"ok\":false,\"error\":{\"code\":"@);
                    assert("}"@ + "}"@ =~= "}}"@);
                    assert(body@ =~= spec_error_body(
                        response.error.code@,
                        response.error.message@,
                    ));
                }
                WireResponse {
                    status,
                    content_type: "application/json".to_owned(),
                    content_disposition: None,
                    body: WireBody::Text(body),
                }
            },
            ApiResult::File { content, filename, content_type } => {
                let mut disposition = String::new();
                disposition.append("attachment; filename=\"");
                disposition.append(filename.as_str());
                disposition.append("\"");
                proof {
                    assert(disposition@ =~= spec_content_disposition(filename@));
                }
                WireResponse {
                    status: 200,
                    content_type,
                    content_disposition: Some(disposition),
                    body: WireBody::Bytes(content),
                }
            },
        }
    }
}

} // verus!
