use vstd::prelude::*;

verus! {

/// Kind of installable package, decided by the file extension.
#[derive(Clone, Copy, Debug, PartialEq, Eq, Structural)]
pub enum BuildType {
    Apk,
    Ipa,
}

impl BuildType {
    pub open spec fn spec_name(self) -> Seq<char> {
        match self {
            BuildType::Apk => "apk"@,
            BuildType::Ipa => "ipa"@,
        }
    }

    /// The value sent as `buildType`.
    pub fn name(self) -> (r: String)
        ensures
            r@ == self.spec_name(),
    {
        match self {
            BuildType::Apk => String::from_str("apk"),
            BuildType::Ipa => String::from_str("ipa"),
        }
    }
}

/// The options of one upload, as given on the command line.
/// `install_type` is "1" (public), "2" (password) or "3" (invite);
/// `install_date` is "1" (a date range) or "2" (forever).
pub struct UploadRequest {
    pub channel: Option<String>,
    pub description: Option<String>,
    pub install_date: Option<String>,
    pub install_start_date: Option<String>,
    pub install_end_date: Option<String>,
    pub password: Option<String>,
    pub install_type: Option<String>,
}

/// Why an upload request is refused before the token call.
#[derive(Clone, Copy, Debug, PartialEq, Eq, Structural)]
pub enum RequestError {
    /// Password install type without a password.
    MissingPassword,
    /// Ranged install date without both bounds.
    MissingInstallDates,
    /// A date that is not ten characters long.
    InvalidDate,
}

/// A form-encoded POST: the URL and its text fields, in order.
pub struct ApiCall {
    pub url: String,
    pub fields: Vec<(String, String)>,
}

pub open spec fn or_empty(o: Option<String>) -> Seq<char> {
    match o {
        Some(s) => s@,
        None => Seq::empty(),
    }
}

pub open spec fn field_is(p: (String, String), name: Seq<char>, value: Seq<char>) -> bool {
    p.0@ == name && p.1@ == value
}

pub open spec fn is_password_install(r: UploadRequest) -> bool {
    r.install_type matches Some(t) && t@ == "2"@
}

pub open spec fn is_ranged_install(r: UploadRequest) -> bool {
    r.install_date matches Some(d) && d@ == "1"@
}

/// A supplied date must be exactly ten characters (YYYY-MM-DD).
pub open spec fn date_ok(d: Option<String>) -> bool {
    match d {
        Some(s) => s@.len() == 0 || s@.len() == 10,
        None => true,
    }
}

/// The outcome of validating an upload request, checks taken in order.
pub open spec fn spec_validate(r: UploadRequest) -> Result<(), RequestError> {
    if is_password_install(r) && r.password is None {
        Err(RequestError::MissingPassword)
    } else if is_ranged_install(r) && (r.install_start_date is None || r.install_end_date is None) {
        Err(RequestError::MissingInstallDates)
    } else if !date_ok(r.install_start_date) || !date_ok(r.install_end_date) {
        Err(RequestError::InvalidDate)
    } else {
        Ok(())
    }
}

pub open spec fn api_url(endpoint: Seq<char>) -> Seq<char> {
    "https://www.pgyer.com/apiv2/app/"@ + endpoint
}

fn text(s: &str) -> (r: String)
    ensures
        r@ == s@,
{
    s.to_owned()
}

fn opt_text(o: &Option<String>) -> (r: String)
    ensures
        r@ == or_empty(*o),
{
    match o {
        Some(s) => s.clone(),
        None => String::new(),
    }
}

fn is_text(o: &Option<String>, lit: &str) -> (r: bool)
    ensures
        r == (o matches Some(s) && s@ == lit@),
{
    match o {
        Some(s) => *s == lit.to_owned(),
        None => false,
    }
}

fn date_len_ok(d: &Option<String>) -> (r: bool)
    ensures
        r == date_ok(*d),
{
    match d {
        Some(s) => {
            let n = s.as_str().unicode_len();
            n == 0 || n == 10
        },
        None => true,
    }
}

fn endpoint_url(endpoint: &str) -> (r: String)
    ensures
        r@ == api_url(endpoint@),
{
    let base = String::from_str("https://www.pgyer.com/apiv2/app/");
    base.concat(endpoint)
}

/// Checks the conditional parameters of an upload request.
pub fn validate_request(req: &UploadRequest) -> (r: Result<(), RequestError>)
    ensures
        r == spec_validate(*req),
{
    if is_text(&req.install_type, "2") && req.password.is_none() {
        return Err(RequestError::MissingPassword);
    }
    if is_text(&req.install_date, "1") && (req.install_start_date.is_none()
        || req.install_end_date.is_none()) {
        return Err(RequestError::MissingInstallDates);
    }
    if !date_len_ok(&req.install_start_date) || !date_len_ok(&req.install_end_date) {
        return Err(RequestError::InvalidDate);
    }
    Ok(())
}

/// The fields of the token request, in the order the server lists them.
pub open spec fn cos_token_fields(
    req: UploadRequest,
    api_key: Seq<char>,
    build_type: BuildType,
    f: Seq<(String, String)>,
) -> bool {
    &&& f.len() == 9
    &&& field_is(f[0], "_api_key"@, api_key)
    &&& field_is(f[1], "buildType"@, build_type.spec_name())
    &&& field_is(f[2], "buildChannelShortcut"@, or_empty(req.channel))
    &&& field_is(f[3], "buildInstallEndDate"@, or_empty(req.install_end_date))
    &&& field_is(f[4], "buildInstallStartDate"@, or_empty(req.install_start_date))
    &&& field_is(f[5], "buildInstallDate"@, or_empty(req.install_date))
    &&& field_is(f[6], "buildDescription"@, or_empty(req.description))
    &&& field_is(f[7], "buildPassword"@, or_empty(req.password))
    &&& field_is(f[8], "buildInstallType"@, or_empty(req.install_type))
}

/// Validates the request and builds the call that asks for upload
/// credentials; nothing is built when validation fails.
pub fn get_cos_token(req: &UploadRequest, api_key: &str, build_type: BuildType) -> (r: Result<
    ApiCall,
    RequestError,
>)
    ensures
        spec_validate(*req) is Err ==> r == Err::<ApiCall, RequestError>(
            spec_validate(*req)->Err_0,
        ),
        spec_validate(*req) is Ok ==> r is Ok,
        r matches Ok(call) ==> call.url@ == api_url("getCOSToken"@) && cos_token_fields(
            *req,
            api_key@,
            build_type,
            call.fields@,
        ),
{
    match validate_request(req) {
        Err(e) => { return Err(e); },
        Ok(()) => {},
    }
    let mut fields: Vec<(String, String)> = Vec::new();
    fields.push((text("_api_key"), text(api_key)));
    fields.push((text("buildType"), build_type.name()));
    fields.push((text("buildChannelShortcut"), opt_text(&req.channel)));
    fields.push((text("buildInstallEndDate"), opt_text(&req.install_end_date)));
    fields.push((text("buildInstallStartDate"), opt_text(&req.install_start_date)));
    fields.push((text("buildInstallDate"), opt_text(&req.install_date)));
    fields.push((text("buildDescription"), opt_text(&req.description)));
    fields.push((text("buildPassword"), opt_text(&req.password)));
    fields.push((text("buildInstallType"), opt_text(&req.install_type)));
    Ok(ApiCall { url: endpoint_url("getCOSToken"), fields })
}

/// Builds the call that deletes an app; the app key is required.
pub fn delete_app(api_key: &str, app_key: Option<&str>) -> (r: Option<ApiCall>)
    ensures
        r is Some <==> app_key is Some,
        r matches Some(call) ==> {
            &&& call.url@ == api_url("deleteApp"@)
            &&& call.fields@.len() == 2
            &&& field_is(call.fields@[0], "_api_key"@, api_key@)
            &&& field_is(call.fields@[1], "appKey"@, app_key->Some_0@)
        },
{
    match app_key {
        None => None,
        Some(k) => {
            let mut fields: Vec<(String, String)> = Vec::new();
            fields.push((text("_api_key"), text(api_key)));
            fields.push((text("appKey"), text(k)));
            Some(ApiCall { url: endpoint_url("deleteApp"), fields })
        },
    }
}

/// Builds the call that deletes one build; the build key is required.
pub fn delete_build(api_key: &str, build_key: Option<&str>) -> (r: Option<ApiCall>)
    ensures
        r is Some <==> build_key is Some,
        r matches Some(call) ==> {
            &&& call.url@ == api_url("buildDelete"@)
            &&& call.fields@.len() == 2
            &&& field_is(call.fields@[0], "_api_key"@, api_key@)
            &&& field_is(call.fields@[1], "buildKey"@, build_key->Some_0@)
        },
{
    match build_key {
        None => None,
        Some(k) => {
            let mut fields: Vec<(String, String)> = Vec::new();
            fields.push((text("_api_key"), text(api_key)));
            fields.push((text("buildKey"), text(k)));
            Some(ApiCall { url: endpoint_url("buildDelete"), fields })
        },
    }
}

/// Builds the call that lists the user's apps, one page at a time.
pub fn get_app_list(api_key: &str, page: &str) -> (r: ApiCall)
    ensures
        r.url@ == api_url("listMy"@),
        r.fields@.len() == 2,
        field_is(r.fields@[0], "_api_key"@, api_key@),
        field_is(r.fields@[1], "page"@, page@),
{
    let mut fields: Vec<(String, String)> = Vec::new();
    fields.push((text("_api_key"), text(api_key)));
    fields.push((text("page"), text(page)));
    ApiCall { url: endpoint_url("listMy"), fields }
}

pub open spec fn build_info_url(api_key: Seq<char>, build_key: Seq<char>) -> Seq<char> {
    api_url("buildInfo?_api_key="@) + api_key + "&buildKey="@ + build_key
}

/// Builds the call that fetches the status and details of one build; the
/// keys travel both in the query string and in the form.
pub fn get_build_info(api_key: &str, build_key: &str) -> (r: ApiCall)
    ensures
        r.url@ == build_info_url(api_key@, build_key@),
        r.fields@.len() == 2,
        field_is(r.fields@[0], "_api_key"@, api_key@),
        field_is(r.fields@[1], "buildKey"@, build_key@),
{
    let url = endpoint_url("buildInfo?_api_key=").concat(api_key).concat("&buildKey=").concat(
        build_key,
    );
    let mut fields: Vec<(String, String)> = Vec::new();
    fields.push((text("_api_key"), text(api_key)));
    fields.push((text("buildKey"), text(build_key)));
    ApiCall { url, fields }
}

/// A password install without a password fails validation, so no token
/// call is built.
pub proof fn lemma_password_required(req: UploadRequest)
    requires
        is_password_install(req),
        req.password is None,
    ensures
        spec_validate(req) == Err::<(), RequestError>(RequestError::MissingPassword),
{
}

/// A ranged install that lacks either bound fails validation.
pub proof fn lemma_range_needs_both_bounds(req: UploadRequest)
    requires
        is_ranged_install(req),
        req.install_start_date is None || req.install_end_date is None,
    ensures
        spec_validate(req) is Err,
{
}

/// A non-empty date whose length is not ten fails validation.
pub proof fn lemma_date_length_checked(req: UploadRequest, date: String)
    requires
        req.install_start_date == Some(date) || req.install_end_date == Some(date),
        date@.len() != 0,
        date@.len() != 10,
    ensures
        spec_validate(req) is Err,
{
}

} // verus!
