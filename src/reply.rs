use vstd::prelude::*;
use crate::opt_string_view;

verus! {

/// Whether `serde_json::from_str` accepts a text as a JSON value.
pub uninterp spec fn parses_as_json(text: Seq<char>) -> bool;

/// The string found at a JSON pointer in a document: `serde_json::from_str`,
/// then `Value::pointer`, then `Value::as_str`.
pub uninterp spec fn json_text_at(text: Seq<char>, pointer: Seq<char>) -> Option<Seq<char>>;

/// The integer found at a JSON pointer in a document: `serde_json::from_str`,
/// then `Value::pointer`, then `Value::as_i64`.
pub uninterp spec fn json_int_at(text: Seq<char>, pointer: Seq<char>) -> Option<i64>;

/// The indented rendering of the value found at a JSON pointer in a document:
/// `serde_json::from_str`, then `Value::pointer`, then
/// `serde_json::to_string_pretty`.
pub uninterp spec fn json_pretty_at(text: Seq<char>, pointer: Seq<char>) -> Option<Seq<char>>;

/// Relies on `serde_json::from_str`: whether the text parses as a value,
/// which depends on the text alone.
#[verifier::external_body]
fn is_json(text: &str) -> (r: bool)
    ensures
        r == parses_as_json(text@),
{
    serde_json::from_str::<serde_json::Value>(text).is_ok()
}

/// Relies on `serde_json::from_str`, `Value::pointer` and `Value::as_str`:
/// nothing is found in a text that does not parse.
#[verifier::external_body]
fn text_at(text: &str, pointer: &str) -> (r: Option<String>)
    ensures
        opt_string_view(r) == json_text_at(text@, pointer@),
        !parses_as_json(text@) ==> r is None,
{
    let v = serde_json::from_str::<serde_json::Value>(text).ok()?;
    v.pointer(pointer)?.as_str().map(String::from)
}

/// Relies on `serde_json::from_str`, `Value::pointer` and `Value::as_i64`:
/// nothing is found in a text that does not parse.
#[verifier::external_body]
fn int_at(text: &str, pointer: &str) -> (r: Option<i64>)
    ensures
        r == json_int_at(text@, pointer@),
        !parses_as_json(text@) ==> r is None,
{
    let v = serde_json::from_str::<serde_json::Value>(text).ok()?;
    v.pointer(pointer)?.as_i64()
}

/// Relies on `serde_json::from_str`, `Value::pointer` and
/// `serde_json::to_string_pretty`: nothing is found in a text that does not
/// parse.
#[verifier::external_body]
fn pretty_at(text: &str, pointer: &str) -> (r: Option<String>)
    ensures
        opt_string_view(r) == json_pretty_at(text@, pointer@),
        !parses_as_json(text@) ==> r is None,
{
    let v = serde_json::from_str::<serde_json::Value>(text).ok()?;
    serde_json::to_string_pretty(v.pointer(pointer)?).ok()
}

/// Why a reply from the server cannot be used.
#[derive(Clone, Copy, Debug, PartialEq, Eq, Structural)]
pub enum ResponseError {
    /// The server answered with this status, outside 2xx.
    Rejected(u16),
    /// The body is not JSON.
    Malformed,
    /// A field the client needs is absent or has the wrong type.
    MissingField,
}

/// What the client shows of a finished build.
pub struct BuildDetail {
    pub version: String,
    pub created: String,
    pub description: String,
    pub qr_code_url: String,
    pub shortcut: String,
}

/// A reply of the API: `{code, message?, data?}`, with the body kept as it
/// came.
pub struct ApiReply {
    pub code: Option<i64>,
    pub message: Option<String>,
    pub detail: Option<BuildDetail>,
    pub data_pretty: Option<String>,
    pub raw: String,
}

/// Temporary object-storage credentials for one upload.
pub struct UploadCredential {
    pub signature: String,
    pub security_token: String,
    pub key: String,
    pub endpoint: String,
}

/// The version of a build: `data.buildVersion`, else `data.buildBuildVersion`.
pub open spec fn version_in(text: Seq<char>) -> Option<Seq<char>> {
    match json_text_at(text, "/data/buildVersion"@) {
        Some(v) => Some(v),
        None => json_text_at(text, "/data/buildBuildVersion"@),
    }
}

/// The build details in a reply body: present exactly when the version and
/// the four other `data` members are strings, each field taken from its
/// member.
pub open spec fn detail_in(text: Seq<char>, d: Option<BuildDetail>) -> bool {
    match d {
        Some(d) => {
            &&& version_in(text) == Some(d.version@)
            &&& json_text_at(text, "/data/buildCreated"@) == Some(d.created@)
            &&& json_text_at(text, "/data/buildDescription"@) == Some(d.description@)
            &&& json_text_at(text, "/data/buildQRCodeURL"@) == Some(d.qr_code_url@)
            &&& json_text_at(text, "/data/buildShortcutUrl"@) == Some(d.shortcut@)
        },
        None => {
            ||| version_in(text) is None
            ||| json_text_at(text, "/data/buildCreated"@) is None
            ||| json_text_at(text, "/data/buildDescription"@) is None
            ||| json_text_at(text, "/data/buildQRCodeURL"@) is None
            ||| json_text_at(text, "/data/buildShortcutUrl"@) is None
        },
    }
}

fn read_version(body: &str) -> (r: Option<String>)
    ensures
        opt_string_view(r) == version_in(body@),
{
    match text_at(body, "/data/buildVersion") {
        Some(v) => Some(v),
        None => text_at(body, "/data/buildBuildVersion"),
    }
}

fn read_detail(body: &str) -> (r: Option<BuildDetail>)
    ensures
        detail_in(body@, r),
{
    let version = read_version(body)?;
    let created = text_at(body, "/data/buildCreated")?;
    let description = text_at(body, "/data/buildDescription")?;
    let qr_code_url = text_at(body, "/data/buildQRCodeURL")?;
    let shortcut = text_at(body, "/data/buildShortcutUrl")?;
    Some(BuildDetail { version, created, description, qr_code_url, shortcut })
}

/// Reads a reply body. It is refused only when it is not JSON; each field
/// that is absent or of another type is left out.
pub fn read_reply(body: &str) -> (r: Result<ApiReply, ResponseError>)
    ensures
        r is Ok <==> parses_as_json(body@),
        r is Err ==> r == Err::<ApiReply, ResponseError>(ResponseError::Malformed),
        r matches Ok(a) ==> {
            &&& a.raw@ == body@
            &&& a.code == json_int_at(body@, "/code"@)
            &&& opt_string_view(a.message) == json_text_at(body@, "/message"@)
            &&& detail_in(body@, a.detail)
            &&& opt_string_view(a.data_pretty) == json_pretty_at(body@, "/data"@)
        },
{
    if !is_json(body) {
        return Err(ResponseError::Malformed);
    }
    let code = int_at(body, "/code");
    let message = text_at(body, "/message");
    let detail = read_detail(body);
    let data_pretty = pretty_at(body, "/data");
    Ok(ApiReply { code, message, detail, data_pretty, raw: body.to_owned() })
}

pub open spec fn is_success_status(status: u16) -> bool {
    200 <= status <= 299
}

/// The four members that make up the credentials, in the reply to the token
/// request.
pub open spec fn credential_parts(text: Seq<char>) -> Seq<Option<Seq<char>>> {
    seq![
        json_text_at(text, "/data/params/signature"@),
        json_text_at(text, "/data/params/x-cos-security-token"@),
        json_text_at(text, "/data/key"@),
        json_text_at(text, "/data/endpoint"@),
    ]
}

pub open spec fn credential_complete(text: Seq<char>) -> bool {
    forall|i: int| 0 <= i < 4 ==> (#[trigger] credential_parts(text)[i]) is Some
}

/// Why the reply to the token request gives no credentials, checks taken in
/// order; `None` when it gives them.
pub open spec fn credential_error(status: u16, text: Seq<char>) -> Option<ResponseError> {
    if !is_success_status(status) {
        Some(ResponseError::Rejected(status))
    } else if !parses_as_json(text) {
        Some(ResponseError::Malformed)
    } else if !credential_complete(text) {
        Some(ResponseError::MissingField)
    } else {
        None
    }
}

/// Reads the credentials out of the reply to the token request, given its
/// HTTP status and body: `data.params.signature`,
/// `data.params.x-cos-security-token`, `data.key` and `data.endpoint`.
pub fn read_credential(status: u16, body: &str) -> (r: Result<UploadCredential, ResponseError>)
    ensures
        r is Ok <==> credential_error(status, body@) is None,
        r matches Err(e) ==> credential_error(status, body@) == Some(e),
        r matches Ok(c) ==> credential_parts(body@) == seq![
            Some(c.signature@),
            Some(c.security_token@),
            Some(c.key@),
            Some(c.endpoint@),
        ],
{
    if !(200 <= status && status <= 299) {
        return Err(ResponseError::Rejected(status));
    }
    if !is_json(body) {
        return Err(ResponseError::Malformed);
    }
    let signature = text_at(body, "/data/params/signature");
    let security_token = text_at(body, "/data/params/x-cos-security-token");
    let key = text_at(body, "/data/key");
    let endpoint = text_at(body, "/data/endpoint");
    proof {
        assert(credential_parts(body@) =~= seq![
            opt_string_view(signature),
            opt_string_view(security_token),
            opt_string_view(key),
            opt_string_view(endpoint),
        ]);
    }
    match (signature, security_token, key, endpoint) {
        (Some(signature), Some(security_token), Some(key), Some(endpoint)) => {
            proof {
                assert(credential_complete(body@));
            }
            Ok(UploadCredential { signature, security_token, key, endpoint })
        },
        (s, t, k, e) => {
            proof {
                let parts = credential_parts(body@);
                if s is None {
                    assert(parts[0] is None);
                } else if t is None {
                    assert(parts[1] is None);
                } else if k is None {
                    assert(parts[2] is None);
                } else {
                    assert(parts[3] is None);
                }
            }
            Err(ResponseError::MissingField)
        },
    }
}

/// What a failed call reports: the server's message, else the whole body.
pub open spec fn failure_text(reply: ApiReply) -> Seq<char> {
    match reply.message {
        Some(m) => m@,
        None => reply.raw@,
    }
}

/// The outcome of a one-shot call (list, delete): code 0 gives the rendered
/// `data`, if the reply has one; any other code gives the text to report.
pub fn reply_outcome(reply: &ApiReply) -> (r: Result<Option<String>, String>)
    ensures
        r is Ok <==> reply.code == Some(0i64),
        r matches Ok(d) ==> opt_string_view(d) == opt_string_view(reply.data_pretty),
        r matches Err(m) ==> m@ == failure_text(*reply),
{
    if reply.code == Some(0i64) {
        Ok(reply.data_pretty.clone())
    } else {
        match &reply.message {
            Some(m) => Err(m.clone()),
            None => Err(reply.raw.clone()),
        }
    }
}

/// The rendered details of a build, whatever its status code: for a reply
/// from `read_reply`, the indented rendering of its `data`.
pub fn print_build_info(reply: &ApiReply) -> (r: Option<String>)
    ensures
        opt_string_view(r) == opt_string_view(reply.data_pretty),
{
    reply.data_pretty.clone()
}

} // verus!
