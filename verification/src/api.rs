//! The fixed set of API namespaces this client talks to, the descriptor
//! (version bounds and endpoint path) discovered for each one, and the
//! version-negotiation check every call must pass before it is sent.

use vstd::prelude::*;

use crate::error::ClientError;
use crate::stamp::Timestamp;
use crate::stamp::spec_stamped;
use crate::stamp::timestamp_wf;

verus! {

/// The fixed protocol version of login and logout calls.
pub const AUTH_VERSION: u8 = 3;

/// The fixed protocol version of the share-listing call.
pub const LIST_VERSION: u8 = 2;

/// The fixed protocol version of the upload call.
pub const UPLOAD_VERSION: u8 = 2;

/// The closed set of API namespaces the client uses. The server knows many
/// more, but only these five are ever requested, so an unknown namespace is
/// rejected at the discovery boundary instead of deep inside a call path.
#[derive(Clone, Copy, PartialEq, Eq, Structural, Debug)]
pub enum Namespace {
    /// The discovery namespace itself (capability queries).
    ApiInfo,
    /// Session login/logout.
    Auth,
    /// File-station information.
    FileStationInfo,
    /// File-station uploads.
    FileStationUpload,
    /// File-station share listing.
    FileStationList,
}

pub open spec fn spec_api_name(ns: Namespace) -> Seq<char> {
    match ns {
        Namespace::ApiInfo => "SYNO.API.Info"@,
        Namespace::Auth => "SYNO.API.Auth"@,
        Namespace::FileStationInfo => "SYNO.FileStation.Info"@,
        Namespace::FileStationUpload => "SYNO.FileStation.Upload"@,
        Namespace::FileStationList => "SYNO.FileStation.List"@,
    }
}

/// The wire name of a namespace, as it appears in the `api` query parameter.
pub fn api_name(ns: Namespace) -> (r: &'static str)
    ensures
        r@ == spec_api_name(ns),
{
    match ns {
        Namespace::ApiInfo => "SYNO.API.Info",
        Namespace::Auth => "SYNO.API.Auth",
        Namespace::FileStationInfo => "SYNO.FileStation.Info",
        Namespace::FileStationUpload => "SYNO.FileStation.Upload",
        Namespace::FileStationList => "SYNO.FileStation.List",
    }
}

/// What discovery learns about one namespace: the closed interval of protocol
/// versions the server accepts and the relative endpoint path to call.
pub struct ApiDescriptor {
    pub min_version: u8,
    pub max_version: u8,
    pub path: String,
}

/// True when a call made at protocol version `v` is acceptable to a server
/// that advertised descriptor `d`.
pub open spec fn version_ok(d: ApiDescriptor, v: u8) -> bool {
    d.min_version <= v && v <= d.max_version
}

/// Version negotiation: a call is sent only when its fixed protocol version
/// lies within the advertised `[min_version, max_version]` bounds.
pub fn version_supported(d: &ApiDescriptor, v: u8) -> (r: bool)
    ensures
        r == version_ok(*d, v),
{
    d.min_version <= v && v <= d.max_version
}

/// The complete namespace-to-descriptor table produced by discovery. One
/// field per required namespace: discovery fails closed, so a `Directory`
/// never exists with a namespace missing.
pub struct Directory {
    pub info: ApiDescriptor,
    pub auth: ApiDescriptor,
    pub fs_info: ApiDescriptor,
    pub upload: ApiDescriptor,
    pub list: ApiDescriptor,
}

pub open spec fn spec_descriptor(dir: Directory, ns: Namespace) -> ApiDescriptor {
    match ns {
        Namespace::ApiInfo => dir.info,
        Namespace::Auth => dir.auth,
        Namespace::FileStationInfo => dir.fs_info,
        Namespace::FileStationUpload => dir.upload,
        Namespace::FileStationList => dir.list,
    }
}

impl Directory {
    /// Total lookup: every namespace of the closed set has a descriptor.
    pub fn get(&self, ns: Namespace) -> (r: &ApiDescriptor)
        ensures
            *r == spec_descriptor(*self, ns),
    {
        match ns {
            Namespace::ApiInfo => &self.info,
            Namespace::Auth => &self.auth,
            Namespace::FileStationInfo => &self.fs_info,
            Namespace::FileStationUpload => &self.upload,
            Namespace::FileStationList => &self.list,
        }
    }
}

/// A GET request, ready to send: the endpoint path relative to the API
/// base, and the query parameters in order.
pub struct QuerySpec {
    pub path: String,
    pub params: Vec<(String, String)>,
}

/// The (key, value) character sequences of a parameter list.
pub open spec fn params_view(params: Seq<(String, String)>) -> Seq<(Seq<char>, Seq<char>)> {
    params.map_values(|p: (String, String)| (p.0@, p.1@))
}

pub open spec fn spec_discovery_params() -> Seq<(Seq<char>, Seq<char>)> {
    seq![
        ("api"@, "SYNO.API.Info"@),
        ("version"@, "1"@),
        ("method"@, "query"@),
        (
            "query"@,
            "SYNO.API.Info,SYNO.API.Auth,SYNO.FileStation.Info,SYNO.FileStation.Upload,SYNO.FileStation.List"@,
        ),
    ]
}

/// The capability discovery request: one query against the discovery
/// namespace's fixed bootstrap path, asking for exactly the namespaces this
/// client needs. Discovery precedes the directory, so no version check
/// applies here.
pub fn build_discovery_request() -> (r: QuerySpec)
    ensures
        r.path@ == "query.cgi"@,
        params_view(r.params@) == spec_discovery_params(),
{
    let mut params: Vec<(String, String)> = Vec::new();
    params.push(("api".to_owned(), api_name(Namespace::ApiInfo).to_owned()));
    params.push(("version".to_owned(), "1".to_owned()));
    params.push(("method".to_owned(), "query".to_owned()));
    params.push((
        "query".to_owned(),
        "SYNO.API.Info,SYNO.API.Auth,SYNO.FileStation.Info,SYNO.FileStation.Upload,SYNO.FileStation.List".to_owned(),
    ));
    let r = QuerySpec { path: "query.cgi".to_owned(), params };
    proof {
        assert(params_view(r.params@) =~= spec_discovery_params());
    }
    r
}

pub open spec fn spec_login_params(account: Seq<char>, secret: Seq<char>) -> Seq<
    (Seq<char>, Seq<char>),
> {
    seq![
        ("api"@, "SYNO.API.Auth"@),
        ("version"@, "3"@),
        ("method"@, "login"@),
        ("account"@, account),
        ("passwd"@, secret),
        ("format"@, "cookie"@),
    ]
}

/// The login request: sent only when the fixed Auth protocol version lies
/// within the discovered bounds; a version outside them is a fatal
/// precondition violation, and no request exists to send.
pub fn build_login_request(dir: &Directory, account: &str, secret: &str) -> (r: Result<
    QuerySpec,
    ClientError,
>)
    ensures
        r is Ok <==> version_ok(dir.auth, AUTH_VERSION),
        r matches Ok(q) ==> q.path@ == dir.auth.path@ && params_view(q.params@)
            == spec_login_params(account@, secret@),
        r matches Err(e) ==> e == (ClientError::Precondition {
            namespace: Namespace::Auth,
            version: AUTH_VERSION,
        }),
{
    let d = dir.get(Namespace::Auth);
    if !version_supported(d, AUTH_VERSION) {
        return Err(ClientError::Precondition { namespace: Namespace::Auth, version: AUTH_VERSION });
    }
    let mut params: Vec<(String, String)> = Vec::new();
    params.push(("api".to_owned(), api_name(Namespace::Auth).to_owned()));
    params.push(("version".to_owned(), "3".to_owned()));
    params.push(("method".to_owned(), "login".to_owned()));
    params.push(("account".to_owned(), account.to_owned()));
    params.push(("passwd".to_owned(), secret.to_owned()));
    params.push(("format".to_owned(), "cookie".to_owned()));
    let q = QuerySpec { path: d.path.clone(), params };
    proof {
        assert(params_view(q.params@) =~= spec_login_params(account@, secret@));
    }
    Ok(q)
}

pub open spec fn spec_logout_params() -> Seq<(Seq<char>, Seq<char>)> {
    seq![
        ("api"@, "SYNO.API.Auth"@),
        ("version"@, "3"@),
        ("method"@, "logout"@),
        ("format"@, "cookie"@),
    ]
}

/// The logout request, version-checked like every Auth call.
pub fn build_logout_request(dir: &Directory) -> (r: Result<QuerySpec, ClientError>)
    ensures
        r is Ok <==> version_ok(dir.auth, AUTH_VERSION),
        r matches Ok(q) ==> q.path@ == dir.auth.path@ && params_view(q.params@)
            == spec_logout_params(),
        r matches Err(e) ==> e == (ClientError::Precondition {
            namespace: Namespace::Auth,
            version: AUTH_VERSION,
        }),
{
    let d = dir.get(Namespace::Auth);
    if !version_supported(d, AUTH_VERSION) {
        return Err(ClientError::Precondition { namespace: Namespace::Auth, version: AUTH_VERSION });
    }
    let mut params: Vec<(String, String)> = Vec::new();
    params.push(("api".to_owned(), api_name(Namespace::Auth).to_owned()));
    params.push(("version".to_owned(), "3".to_owned()));
    params.push(("method".to_owned(), "logout".to_owned()));
    params.push(("format".to_owned(), "cookie".to_owned()));
    let q = QuerySpec { path: d.path.clone(), params };
    proof {
        assert(params_view(q.params@) =~= spec_logout_params());
    }
    Ok(q)
}

pub open spec fn spec_list_params() -> Seq<(Seq<char>, Seq<char>)> {
    seq![
        ("api"@, "SYNO.FileStation.List"@),
        ("version"@, "2"@),
        ("method"@, "list_share"@),
    ]
}

/// The share-listing request, version-checked against the file-list
/// namespace's descriptor.
pub fn build_list_request(dir: &Directory) -> (r: Result<QuerySpec, ClientError>)
    ensures
        r is Ok <==> version_ok(dir.list, LIST_VERSION),
        r matches Ok(q) ==> q.path@ == dir.list.path@ && params_view(q.params@)
            == spec_list_params(),
        r matches Err(e) ==> e == (ClientError::Precondition {
            namespace: Namespace::FileStationList,
            version: LIST_VERSION,
        }),
{
    let d = dir.get(Namespace::FileStationList);
    if !version_supported(d, LIST_VERSION) {
        return Err(ClientError::Precondition {
            namespace: Namespace::FileStationList,
            version: LIST_VERSION,
        });
    }
    let mut params: Vec<(String, String)> = Vec::new();
    params.push(("api".to_owned(), api_name(Namespace::FileStationList).to_owned()));
    params.push(("version".to_owned(), "2".to_owned()));
    params.push(("method".to_owned(), "list_share".to_owned()));
    let q = QuerySpec { path: d.path.clone(), params };
    proof {
        assert(params_view(q.params@) =~= spec_list_params());
    }
    Ok(q)
}

/// A multipart upload request, ready to send: the endpoint path, the text
/// fields in order, the name of the file part, and the collision-avoiding
/// filename the uploaded file is to carry.
pub struct UploadSpec {
    pub path: String,
    pub fields: Vec<(String, String)>,
    pub file_field: String,
    pub remote_name: String,
}

pub open spec fn spec_upload_fields(target_path: Seq<char>) -> Seq<(Seq<char>, Seq<char>)> {
    seq![
        ("api"@, "SYNO.FileStation.Upload"@),
        ("version"@, "2"@),
        ("method"@, "upload"@),
        ("path"@, target_path),
        ("create_parents"@, "true"@),
        ("overwrite"@, "true"@),
    ]
}

/// The upload request. It exists only when the fixed upload protocol
/// version lies within the discovered bounds (else a precondition
/// violation) and the local file exists (else a missing-resource error);
/// the file part carries the timestamped remote name.
pub fn build_upload_request(
    dir: &Directory,
    target_path: &str,
    local_name: &str,
    file_exists: bool,
    ts: &Timestamp,
) -> (r: Result<UploadSpec, ClientError>)
    requires
        timestamp_wf(*ts),
    ensures
        r is Ok <==> (version_ok(dir.upload, UPLOAD_VERSION) && file_exists),
        r matches Ok(u) ==> u.path@ == dir.upload.path@ && params_view(u.fields@)
            == spec_upload_fields(target_path@) && u.file_field@ == "file"@ && u.remote_name@
            == spec_stamped(local_name@, *ts),
        !version_ok(dir.upload, UPLOAD_VERSION) ==> (r matches Err(e) && e
            == (ClientError::Precondition {
            namespace: Namespace::FileStationUpload,
            version: UPLOAD_VERSION,
        })),
        version_ok(dir.upload, UPLOAD_VERSION) && !file_exists ==> (r matches Err(e) && e
            == ClientError::LocalFileMissing),
{
    let d = dir.get(Namespace::FileStationUpload);
    if !version_supported(d, UPLOAD_VERSION) {
        return Err(ClientError::Precondition {
            namespace: Namespace::FileStationUpload,
            version: UPLOAD_VERSION,
        });
    }
    if !file_exists {
        return Err(ClientError::LocalFileMissing);
    }
    let remote_name = crate::stamp::stamped_filename(local_name, ts);
    let mut fields: Vec<(String, String)> = Vec::new();
    fields.push(("api".to_owned(), api_name(Namespace::FileStationUpload).to_owned()));
    fields.push(("version".to_owned(), "2".to_owned()));
    fields.push(("method".to_owned(), "upload".to_owned()));
    fields.push(("path".to_owned(), target_path.to_owned()));
    fields.push(("create_parents".to_owned(), "true".to_owned()));
    fields.push(("overwrite".to_owned(), "true".to_owned()));
    let u = UploadSpec {
        path: d.path.clone(),
        fields,
        file_field: "file".to_owned(),
        remote_name,
    };
    proof {
        assert(params_view(u.fields@) =~= spec_upload_fields(target_path@));
    }
    Ok(u)
}

} // verus!
