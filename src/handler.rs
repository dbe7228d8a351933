//! What the connection handler does with a request: the decision taken once
//! the header section is in, and the responses built from what the caller
//! then reports (a stored file, the stored names, the outcome of a write).

use vstd::prelude::*;
use vstd::utf8::encode_utf8;
use crate::bytes::starts_with;
use crate::multipart::{
    body_after_headers, boundary_delimiter, extract_upload, file_name_of, initial_body,
    is_safe_name, payload_of, request_delimiter, safe_name,
};
use crate::pages::{download_page, download_page_bytes, upload_page, upload_page_bytes};
use crate::request::{method_of, path_of, route, route_of, Route, RouteModel};
use crate::response::{ContentType, Response, ResponseModel, Status};
use crate::words::{
    download_page_path, download_prefix, file_not_found_text, file_not_found_text_bytes,
    get_word, invalid_name_text, invalid_name_text_bytes, missing_boundary_text,
    missing_boundary_text_bytes, page_not_found_text, page_not_found_text_bytes, root_path, store_failed_text, store_failed_text_bytes,
    upload_page_path, uploaded_text, uploaded_text_bytes,
};

verus! {

/// The JSON text that serde_json writes for a list of strings.
pub uninterp spec fn json_array_of(names: Seq<Seq<char>>) -> Seq<char>;

/// The texts of a list of strings.
pub open spec fn texts(names: Seq<String>) -> Seq<Seq<char>> {
    names.map_values(|n: String| n@)
}

/// A character that serde_json writes inside a JSON string as it stands:
/// no control character, double quote or backslash.
pub open spec fn plain_json_char(c: char) -> bool {
    c as u32 >= 0x20 && c != '"' && c != '\\'
}

/// No string of the list holds a character that serde_json escapes.
pub open spec fn plain_names(names: Seq<Seq<char>>) -> bool {
    forall|i: int, j: int|
        0 <= i < names.len() && 0 <= j < names[i].len() ==> plain_json_char(#[trigger] names[i][j])
}

/// `s` between double quotes.
pub open spec fn quoted(s: Seq<char>) -> Seq<char> {
    seq!['"'] + s + seq!['"']
}

/// The strings of `names`, each quoted, separated by commas.
pub open spec fn joined_quoted(names: Seq<Seq<char>>) -> Seq<char>
    decreases names.len(),
{
    if names.len() == 0 {
        Seq::empty()
    } else if names.len() == 1 {
        quoted(names[0])
    } else {
        joined_quoted(names.drop_last()) + seq![','] + quoted(names.last())
    }
}

/// The JSON array of strings that need no escapes: `[`, the quoted strings
/// separated by commas, `]`.
pub open spec fn plain_json_array(names: Seq<Seq<char>>) -> Seq<char> {
    seq!['['] + joined_quoted(names) + seq![']']
}

/// Relies on serde_json::to_string: it writes a list of strings as a compact
/// JSON array of JSON strings, a text that depends on the strings alone, in
/// which a string without control characters, double quotes or backslashes
/// stands as it is between quotes. Writing into its own byte vector, it
/// reports no error for a list of strings.
#[verifier::external_body]
fn names_to_json(names: &Vec<String>) -> (r: String)
    ensures
        r@ == json_array_of(texts(names@)),
        plain_names(texts(names@)) ==> r@ == plain_json_array(texts(names@)),
{
    match serde_json::to_string(names) {
        Ok(s) => s,
        Err(_) => String::new(),
    }
}

/// A `200` answer with an HTML page.
pub open spec fn page_answer(page: Seq<u8>) -> ResponseModel {
    ResponseModel {
        status: Status::Success,
        content_type: ContentType::Html,
        attachment: None,
        body: page,
    }
}

/// A plain-text answer.
pub open spec fn text_answer(status: Status, text: Seq<u8>) -> ResponseModel {
    ResponseModel { status, content_type: ContentType::Text, attachment: None, body: text }
}

/// The answer to a download request for `name`, given what storage holds
/// under that name.
pub open spec fn stored_file_answer(name: Seq<u8>, data: Option<Seq<u8>>) -> ResponseModel {
    match data {
        Some(d) => ResponseModel {
            status: Status::Success,
            content_type: ContentType::Binary,
            attachment: Some(name),
            body: d,
        },
        None => text_answer(Status::NotFound, file_not_found_text()),
    }
}

/// The answer to a file-list request, given the JSON text of the list.
pub open spec fn list_answer(json: Seq<u8>) -> ResponseModel {
    ResponseModel {
        status: Status::Success,
        content_type: ContentType::Json,
        attachment: None,
        body: json,
    }
}

/// The answer to an upload, given whether storing the payload succeeded
/// (a skipped write counts as success).
pub open spec fn upload_answer(stored: bool) -> ResponseModel {
    if stored {
        text_answer(Status::Success, uploaded_text())
    } else {
        text_answer(Status::ServerError, store_failed_text())
    }
}

/// What the caller does next with a request whose header section is in.
pub enum Step {
    /// Send this response and close.
    Reply(Response),
    /// Look up the stored file of this name, then answer with
    /// [`stored_file_response`].
    ServeFile(Vec<u8>),
    /// List the stored names, then answer with [`file_list_response`].
    ListFiles,
    /// Read the rest of the body until [`crate::multipart::is_body_complete`]
    /// holds or the peer stops sending, then decide with
    /// [`plan_upload`].
    ReceiveUpload { delimiter: Vec<u8>, body: Vec<u8> },
}

/// The mathematical form of a [`Step`].
pub enum StepModel {
    Reply(ResponseModel),
    ServeFile(Seq<u8>),
    ListFiles,
    ReceiveUpload(Seq<u8>, Seq<u8>),
}

impl View for Step {
    type V = StepModel;

    open spec fn view(&self) -> StepModel {
        match self {
            Step::Reply(r) => StepModel::Reply(r@),
            Step::ServeFile(name) => StepModel::ServeFile(name@),
            Step::ListFiles => StepModel::ListFiles,
            Step::ReceiveUpload { delimiter, body } => StepModel::ReceiveUpload(
                delimiter@,
                body@,
            ),
        }
    }
}

/// The step for a request: the pages are answered at once, a stored file
/// (whose name must stay inside the storage directory, else it is not
/// found) and the list need storage, an upload needs its delimiter (a request
/// without one is answered `400`) and the rest of its body, and anything
/// else is answered `404`.
pub open spec fn step_of(buf: Seq<u8>) -> StepModel {
    match route_of(buf) {
        RouteModel::UploadPage => StepModel::Reply(page_answer(upload_page())),
        RouteModel::DownloadPage => StepModel::Reply(page_answer(download_page())),
        RouteModel::StoredFile(name) => if safe_name(name) {
            StepModel::ServeFile(name)
        } else {
            StepModel::Reply(stored_file_answer(name, None))
        },
        RouteModel::FileList => StepModel::ListFiles,
        RouteModel::Upload => match request_delimiter(buf) {
            Some(d) => StepModel::ReceiveUpload(d, body_after_headers(buf)),
            None => StepModel::Reply(text_answer(Status::BadRequest, missing_boundary_text())),
        },
        RouteModel::Unknown => StepModel::Reply(
            text_answer(Status::NotFound, page_not_found_text()),
        ),
    }
}

fn page_response(body: Vec<u8>) -> (r: Response)
    ensures
        r@ == page_answer(body@),
{
    Response { status: Status::Success, content_type: ContentType::Html, attachment: None, body }
}

fn text_response(status: Status, body: Vec<u8>) -> (r: Response)
    ensures
        r@ == text_answer(status, body@),
{
    Response { status, content_type: ContentType::Text, attachment: None, body }
}

/// Decides what to do with a request whose header section has been read.
pub fn first_step(buf: &[u8]) -> (r: Step)
    ensures
        r@ == step_of(buf@),
{
    match route(buf) {
        Route::UploadPage => Step::Reply(page_response(upload_page_bytes())),
        Route::DownloadPage => Step::Reply(page_response(download_page_bytes())),
        Route::StoredFile(name) => if is_safe_name(name.as_slice()) {
            Step::ServeFile(name)
        } else {
            Step::Reply(text_response(Status::NotFound, file_not_found_text_bytes()))
        },
        Route::FileList => Step::ListFiles,
        Route::Upload => match boundary_delimiter(buf) {
            Some(d) => Step::ReceiveUpload { delimiter: d, body: initial_body(buf) },
            None => Step::Reply(text_response(Status::BadRequest, missing_boundary_text_bytes())),
        },
        Route::Unknown => Step::Reply(text_response(Status::NotFound, page_not_found_text_bytes())),
    }
}

/// The answer to a download request for `name`, given the stored file's
/// bytes, or `None` where storage holds no such file.
pub fn stored_file_response(name: &[u8], data: Option<Vec<u8>>) -> (r: Response)
    ensures
        r@ == stored_file_answer(
            name@,
            match data {
                Some(d) => Some(d@),
                None => None,
            },
        ),
{
    match data {
        Some(d) => Response {
            status: Status::Success,
            content_type: ContentType::Binary,
            attachment: Some(vstd::slice::slice_to_vec(name)),
            body: d,
        },
        None => text_response(Status::NotFound, file_not_found_text_bytes()),
    }
}

/// The answer to a file-list request, given the JSON text of the list.
pub fn json_list_response(json: String) -> (r: Response)
    ensures
        r@ == list_answer(encode_utf8(json@)),
{
    let body: Vec<u8> = vstd::slice::slice_to_vec(json.as_str().as_bytes());
    Response { status: Status::Success, content_type: ContentType::Json, attachment: None, body }
}

/// The answer to a file-list request for the stored names `names`: their
/// JSON array, in the order given.
pub fn file_list_response(names: &Vec<String>) -> (r: Response)
    ensures
        r@ == list_answer(encode_utf8(json_array_of(texts(names@)))),
        plain_names(texts(names@)) ==> r@ == list_answer(
            encode_utf8(plain_json_array(texts(names@))),
        ),
{
    json_list_response(names_to_json(names))
}

/// What to do with a complete multipart body.
pub enum UploadPlan {
    /// Write `payload` to the file `name` in the storage directory, replacing
    /// any file of that name, then answer with [`upload_response`].
    Store { name: Vec<u8>, payload: Vec<u8> },
    /// Write nothing (the payload is empty) and answer with
    /// [`upload_response`] as if the write had succeeded.
    Skip,
    /// Write nothing and send this response.
    Reject(Response),
}

/// The mathematical form of an [`UploadPlan`].
pub enum UploadPlanModel {
    Store(Seq<u8>, Seq<u8>),
    Skip,
    Reject(ResponseModel),
}

impl View for UploadPlan {
    type V = UploadPlanModel;

    open spec fn view(&self) -> UploadPlanModel {
        match self {
            UploadPlan::Store { name, payload } => UploadPlanModel::Store(name@, payload@),
            UploadPlan::Skip => UploadPlanModel::Skip,
            UploadPlan::Reject(r) => UploadPlanModel::Reject(r@),
        }
    }
}

/// The plan for an upload: a file name that would leave the storage
/// directory is answered `400`; otherwise the payload is stored under the
/// name, unless it is empty.
pub open spec fn upload_plan_of(body: Seq<u8>, delim: Seq<u8>) -> UploadPlanModel {
    if !safe_name(file_name_of(body)) {
        UploadPlanModel::Reject(text_answer(Status::BadRequest, invalid_name_text()))
    } else {
        match payload_of(body, delim) {
            Some(p) => UploadPlanModel::Store(file_name_of(body), p),
            None => UploadPlanModel::Skip,
        }
    }
}

/// Decides what to do with a complete multipart body.
pub fn plan_upload(body: &[u8], delim: &[u8]) -> (r: UploadPlan)
    ensures
        r@ == upload_plan_of(body@, delim@),
{
    let up = extract_upload(body, delim);
    if !is_safe_name(up.name.as_slice()) {
        return UploadPlan::Reject(text_response(Status::BadRequest, invalid_name_text_bytes()));
    }
    match up.payload {
        Some(payload) => UploadPlan::Store { name: up.name, payload },
        None => UploadPlan::Skip,
    }
}

/// The answer to an upload, given whether storing its payload succeeded.
pub fn upload_response(stored: bool) -> (r: Response)
    ensures
        r@ == upload_answer(stored),
{
    if stored {
        text_response(Status::Success, uploaded_text_bytes())
    } else {
        text_response(Status::ServerError, store_failed_text_bytes())
    }
}

/// Storage after an upload of `body` with delimiter `delim`: the payload
/// stored under the file name, replacing what was there; unchanged where
/// the upload is skipped or rejected.
pub open spec fn stored_after(
    store: Map<Seq<u8>, Seq<u8>>,
    body: Seq<u8>,
    delim: Seq<u8>,
) -> Map<Seq<u8>, Seq<u8>> {
    match upload_plan_of(body, delim) {
        UploadPlanModel::Store(name, p) => store.insert(name, p),
        _ => store,
    }
}

/// What storage holds under `name`.
pub open spec fn lookup(store: Map<Seq<u8>, Seq<u8>>, name: Seq<u8>) -> Option<Seq<u8>> {
    if store.contains_key(name) {
        Some(store[name])
    } else {
        None
    }
}

/// The answer to a request that needs nothing but its header section and
/// storage; `None` for the file list and for uploads.
pub open spec fn answer_with(buf: Seq<u8>, store: Map<Seq<u8>, Seq<u8>>) -> Option<
    ResponseModel,
> {
    match step_of(buf) {
        StepModel::Reply(r) => Some(r),
        StepModel::ServeFile(name) => Some(stored_file_answer(name, lookup(store, name))),
        _ => None,
    }
}

/// A `GET` of `/download/` followed by `name` asks for the stored file
/// `name`.
pub proof fn lemma_download_route(req: Seq<u8>, name: Seq<u8>)
    requires
        method_of(req) == get_word(),
        path_of(req) == download_prefix() + name,
    ensures
        route_of(req) == RouteModel::StoredFile(name),
{
    let t = path_of(req);
    assert(t[1] == 100u8);
    assert(t[9] == 47u8);
    assert(t.len() >= 10);
    if starts_with(t, upload_page_path()) {
        assert(t.subrange(0, 12)[1] == upload_page_path()[1]);
    }
    if starts_with(t, download_page_path()) {
        assert(t.subrange(0, 14)[9] == download_page_path()[9]);
    }
    assert(t != root_path());
    assert(t.subrange(0, 10) =~= download_prefix());
    assert(t.subrange(10, t.len() as int) =~= name);
}

/// Round trip: after an upload has stored its payload, a `GET` of
/// `/download/<name>` for the uploaded file's name is answered `200` with
/// exactly the uploaded bytes, as an attachment of that name.
pub proof fn download_after_upload(
    store: Map<Seq<u8>, Seq<u8>>,
    body: Seq<u8>,
    delim: Seq<u8>,
    req: Seq<u8>,
)
    requires
        payload_of(body, delim) is Some,
        safe_name(file_name_of(body)),
        method_of(req) == get_word(),
        path_of(req) == download_prefix() + file_name_of(body),
    ensures
        answer_with(req, stored_after(store, body, delim)) == Some(
            ResponseModel {
                status: Status::Success,
                content_type: ContentType::Binary,
                attachment: Some(file_name_of(body)),
                body: payload_of(body, delim).unwrap(),
            },
        ),
{
    lemma_download_route(req, file_name_of(body));
}

/// A `GET` of `/download/<name>` for a name that storage does not hold is
/// answered `404` with `File not found`.
pub proof fn download_of_missing_file(
    store: Map<Seq<u8>, Seq<u8>>,
    name: Seq<u8>,
    req: Seq<u8>,
)
    requires
        !store.contains_key(name),
        method_of(req) == get_word(),
        path_of(req) == download_prefix() + name,
    ensures
        answer_with(req, store) == Some(text_answer(Status::NotFound, file_not_found_text())),
{
    lemma_download_route(req, name);
}

/// Uploading two files of the same name leaves one file of that name,
/// holding the second payload, and every other stored file as it was.
pub proof fn second_upload_replaces_first(
    store: Map<Seq<u8>, Seq<u8>>,
    first: Seq<u8>,
    first_delim: Seq<u8>,
    second: Seq<u8>,
    second_delim: Seq<u8>,
)
    requires
        file_name_of(first) == file_name_of(second),
        safe_name(file_name_of(second)),
        payload_of(first, first_delim) is Some,
        payload_of(second, second_delim) is Some,
    ensures
        stored_after(stored_after(store, first, first_delim), second, second_delim) == store.insert(
            file_name_of(second),
            payload_of(second, second_delim).unwrap(),
        ),
{
    assert(stored_after(stored_after(store, first, first_delim), second, second_delim)
        =~= store.insert(file_name_of(second), payload_of(second, second_delim).unwrap()));
}

/// `GET /` and `GET /upload.html` get the same answer: the upload page.
pub proof fn root_serves_upload_page(root_req: Seq<u8>, page_req: Seq<u8>)
    requires
        method_of(root_req) == get_word(),
        path_of(root_req) == root_path(),
        method_of(page_req) == get_word(),
        path_of(page_req) == upload_page_path(),
    ensures
        step_of(root_req) == step_of(page_req),
        step_of(root_req) == StepModel::Reply(page_answer(upload_page())),
{
    assert(upload_page_path().subrange(0, 12) =~= upload_page_path());
}

} // verus!
