//! The fixed byte strings of the protocol, as spec values and as vectors.

use vstd::prelude::*;

verus! {

/// The method `GET`.
pub open spec fn get_word() -> Seq<u8> {
    seq![71u8, 69, 84]
}

pub fn get_word_bytes() -> (r: Vec<u8>)
    ensures
        r@ == get_word(),
{
    vec![71u8, 69, 84]
}

/// The method `POST`.
pub open spec fn post_word() -> Seq<u8> {
    seq![80u8, 79, 83, 84]
}

pub fn post_word_bytes() -> (r: Vec<u8>)
    ensures
        r@ == post_word(),
{
    vec![80u8, 79, 83, 84]
}

/// The site root, `/`.
pub open spec fn root_path() -> Seq<u8> {
    seq![47u8]
}

pub fn root_path_bytes() -> (r: Vec<u8>)
    ensures
        r@ == root_path(),
{
    vec![47u8]
}

/// The upload page, `/upload.html`.
pub open spec fn upload_page_path() -> Seq<u8> {
    seq![47u8, 117, 112, 108, 111, 97, 100, 46, 104, 116, 109, 108]
}

pub fn upload_page_path_bytes() -> (r: Vec<u8>)
    ensures
        r@ == upload_page_path(),
{
    vec![47u8, 117, 112, 108, 111, 97, 100, 46, 104, 116, 109, 108]
}

/// The download page, `/download.html`.
pub open spec fn download_page_path() -> Seq<u8> {
    seq![47u8, 100, 111, 119, 110, 108, 111, 97, 100, 46, 104, 116, 109, 108]
}

pub fn download_page_path_bytes() -> (r: Vec<u8>)
    ensures
        r@ == download_page_path(),
{
    vec![47u8, 100, 111, 119, 110, 108, 111, 97, 100, 46, 104, 116, 109, 108]
}

/// The prefix of a stored file's path, `/download/`.
pub open spec fn download_prefix() -> Seq<u8> {
    seq![47u8, 100, 111, 119, 110, 108, 111, 97, 100, 47]
}

pub fn download_prefix_bytes() -> (r: Vec<u8>)
    ensures
        r@ == download_prefix(),
{
    vec![47u8, 100, 111, 119, 110, 108, 111, 97, 100, 47]
}

/// The file list, `/files`.
pub open spec fn files_path() -> Seq<u8> {
    seq![47u8, 102, 105, 108, 101, 115]
}

pub fn files_path_bytes() -> (r: Vec<u8>)
    ensures
        r@ == files_path(),
{
    vec![47u8, 102, 105, 108, 101, 115]
}

/// The upload target, `/upload_file`.
pub open spec fn upload_path() -> Seq<u8> {
    seq![47u8, 117, 112, 108, 111, 97, 100, 95, 102, 105, 108, 101]
}

pub fn upload_path_bytes() -> (r: Vec<u8>)
    ensures
        r@ == upload_path(),
{
    vec![47u8, 117, 112, 108, 111, 97, 100, 95, 102, 105, 108, 101]
}

/// The header line that announces a multipart body.
pub open spec fn multipart_marker() -> Seq<u8> {
    seq![67u8, 111, 110, 116, 101, 110, 116, 45, 84, 121, 112, 101, 58, 32, 109, 117, 108, 116, 105, 112, 97, 114, 116, 47, 102, 111, 114, 109, 45, 100, 97, 116, 97]
}

pub fn multipart_marker_bytes() -> (r: Vec<u8>)
    ensures
        r@ == multipart_marker(),
{
    vec![67u8, 111, 110, 116, 101, 110, 116, 45, 84, 121, 112, 101, 58, 32, 109, 117, 108, 116, 105, 112, 97, 114, 116, 47, 102, 111, 114, 109, 45, 100, 97, 116, 97]
}

/// The parameter that names the multipart boundary.
pub open spec fn boundary_key() -> Seq<u8> {
    seq![98u8, 111, 117, 110, 100, 97, 114, 121, 61]
}

pub fn boundary_key_bytes() -> (r: Vec<u8>)
    ensures
        r@ == boundary_key(),
{
    vec![98u8, 111, 117, 110, 100, 97, 114, 121, 61]
}

/// What marks the part header line that names the file.
pub open spec fn filename_key() -> Seq<u8> {
    seq![102u8, 105, 108, 101, 110, 97, 109, 101, 61]
}

pub fn filename_key_bytes() -> (r: Vec<u8>)
    ensures
        r@ == filename_key(),
{
    vec![102u8, 105, 108, 101, 110, 97, 109, 101, 61]
}

/// What precedes the quoted file name.
pub open spec fn quoted_filename_key() -> Seq<u8> {
    seq![102u8, 105, 108, 101, 110, 97, 109, 101, 61, 34]
}

pub fn quoted_filename_key_bytes() -> (r: Vec<u8>)
    ensures
        r@ == quoted_filename_key(),
{
    vec![102u8, 105, 108, 101, 110, 97, 109, 101, 61, 34]
}

/// The name used when the part names no file.
pub open spec fn default_filename() -> Seq<u8> {
    seq![117u8, 112, 108, 111, 97, 100, 46, 98, 105, 110]
}

pub fn default_filename_bytes() -> (r: Vec<u8>)
    ensures
        r@ == default_filename(),
{
    vec![117u8, 112, 108, 111, 97, 100, 46, 98, 105, 110]
}

/// What precedes the boundary in the body.
pub open spec fn dashes() -> Seq<u8> {
    seq![45u8, 45]
}

pub fn dashes_bytes() -> (r: Vec<u8>)
    ensures
        r@ == dashes(),
{
    vec![45u8, 45]
}

/// Status line `200 OK`.
pub open spec fn status_ok() -> Seq<u8> {
    seq![72u8, 84, 84, 80, 47, 49, 46, 49, 32, 50, 48, 48, 32, 79, 75, 13, 10]
}

pub fn status_ok_bytes() -> (r: Vec<u8>)
    ensures
        r@ == status_ok(),
{
    vec![72u8, 84, 84, 80, 47, 49, 46, 49, 32, 50, 48, 48, 32, 79, 75, 13, 10]
}

/// Status line `400 BAD REQUEST`.
pub open spec fn status_bad_request() -> Seq<u8> {
    seq![72u8, 84, 84, 80, 47, 49, 46, 49, 32, 52, 48, 48, 32, 66, 65, 68, 32, 82, 69, 81, 85, 69, 83, 84, 13, 10]
}

pub fn status_bad_request_bytes() -> (r: Vec<u8>)
    ensures
        r@ == status_bad_request(),
{
    vec![72u8, 84, 84, 80, 47, 49, 46, 49, 32, 52, 48, 48, 32, 66, 65, 68, 32, 82, 69, 81, 85, 69, 83, 84, 13, 10]
}

/// Status line `404 NOT FOUND`.
pub open spec fn status_not_found() -> Seq<u8> {
    seq![72u8, 84, 84, 80, 47, 49, 46, 49, 32, 52, 48, 52, 32, 78, 79, 84, 32, 70, 79, 85, 78, 68, 13, 10]
}

pub fn status_not_found_bytes() -> (r: Vec<u8>)
    ensures
        r@ == status_not_found(),
{
    vec![72u8, 84, 84, 80, 47, 49, 46, 49, 32, 52, 48, 52, 32, 78, 79, 84, 32, 70, 79, 85, 78, 68, 13, 10]
}

/// Status line `500 INTERNAL SERVER ERROR`.
pub open spec fn status_server_error() -> Seq<u8> {
    seq![72u8, 84, 84, 80, 47, 49, 46, 49, 32, 53, 48, 48, 32, 73, 78, 84, 69, 82, 78, 65, 76, 32, 83, 69, 82, 86, 69, 82, 32, 69, 82, 82, 79, 82, 13, 10]
}

pub fn status_server_error_bytes() -> (r: Vec<u8>)
    ensures
        r@ == status_server_error(),
{
    vec![72u8, 84, 84, 80, 47, 49, 46, 49, 32, 53, 48, 48, 32, 73, 78, 84, 69, 82, 78, 65, 76, 32, 83, 69, 82, 86, 69, 82, 32, 69, 82, 82, 79, 82, 13, 10]
}

/// The header that lets any origin read the response.
pub open spec fn allow_origin_header() -> Seq<u8> {
    seq![65u8, 99, 99, 101, 115, 115, 45, 67, 111, 110, 116, 114, 111, 108, 45, 65, 108, 108, 111, 119, 45, 79, 114, 105, 103, 105, 110, 58, 32, 42, 13, 10]
}

pub fn allow_origin_header_bytes() -> (r: Vec<u8>)
    ensures
        r@ == allow_origin_header(),
{
    vec![65u8, 99, 99, 101, 115, 115, 45, 67, 111, 110, 116, 114, 111, 108, 45, 65, 108, 108, 111, 119, 45, 79, 114, 105, 103, 105, 110, 58, 32, 42, 13, 10]
}

/// Content type of the pages.
pub open spec fn html_type_header() -> Seq<u8> {
    seq![67u8, 111, 110, 116, 101, 110, 116, 45, 84, 121, 112, 101, 58, 32, 116, 101, 120, 116, 47, 104, 116, 109, 108, 13, 10]
}

pub fn html_type_header_bytes() -> (r: Vec<u8>)
    ensures
        r@ == html_type_header(),
{
    vec![67u8, 111, 110, 116, 101, 110, 116, 45, 84, 121, 112, 101, 58, 32, 116, 101, 120, 116, 47, 104, 116, 109, 108, 13, 10]
}

/// Content type of a stored file.
pub open spec fn binary_type_header() -> Seq<u8> {
    seq![67u8, 111, 110, 116, 101, 110, 116, 45, 84, 121, 112, 101, 58, 32, 97, 112, 112, 108, 105, 99, 97, 116, 105, 111, 110, 47, 111, 99, 116, 101, 116, 45, 115, 116, 114, 101, 97, 109, 13, 10]
}

pub fn binary_type_header_bytes() -> (r: Vec<u8>)
    ensures
        r@ == binary_type_header(),
{
    vec![67u8, 111, 110, 116, 101, 110, 116, 45, 84, 121, 112, 101, 58, 32, 97, 112, 112, 108, 105, 99, 97, 116, 105, 111, 110, 47, 111, 99, 116, 101, 116, 45, 115, 116, 114, 101, 97, 109, 13, 10]
}

/// Content type of the file list.
pub open spec fn json_type_header() -> Seq<u8> {
    seq![67u8, 111, 110, 116, 101, 110, 116, 45, 84, 121, 112, 101, 58, 32, 97, 112, 112, 108, 105, 99, 97, 116, 105, 111, 110, 47, 106, 115, 111, 110, 13, 10]
}

pub fn json_type_header_bytes() -> (r: Vec<u8>)
    ensures
        r@ == json_type_header(),
{
    vec![67u8, 111, 110, 116, 101, 110, 116, 45, 84, 121, 112, 101, 58, 32, 97, 112, 112, 108, 105, 99, 97, 116, 105, 111, 110, 47, 106, 115, 111, 110, 13, 10]
}

/// Content type of the plain-text messages.
pub open spec fn text_type_header() -> Seq<u8> {
    seq![67u8, 111, 110, 116, 101, 110, 116, 45, 84, 121, 112, 101, 58, 32, 116, 101, 120, 116, 47, 112, 108, 97, 105, 110, 13, 10]
}

pub fn text_type_header_bytes() -> (r: Vec<u8>)
    ensures
        r@ == text_type_header(),
{
    vec![67u8, 111, 110, 116, 101, 110, 116, 45, 84, 121, 112, 101, 58, 32, 116, 101, 120, 116, 47, 112, 108, 97, 105, 110, 13, 10]
}

/// What precedes the file name in the attachment header.
pub open spec fn disposition_start() -> Seq<u8> {
    seq![67u8, 111, 110, 116, 101, 110, 116, 45, 68, 105, 115, 112, 111, 115, 105, 116, 105, 111, 110, 58, 32, 97, 116, 116, 97, 99, 104, 109, 101, 110, 116, 59, 32, 102, 105, 108, 101, 110, 97, 109, 101, 61, 34]
}

pub fn disposition_start_bytes() -> (r: Vec<u8>)
    ensures
        r@ == disposition_start(),
{
    vec![67u8, 111, 110, 116, 101, 110, 116, 45, 68, 105, 115, 112, 111, 115, 105, 116, 105, 111, 110, 58, 32, 97, 116, 116, 97, 99, 104, 109, 101, 110, 116, 59, 32, 102, 105, 108, 101, 110, 97, 109, 101, 61, 34]
}

/// What follows the file name in the attachment header.
pub open spec fn disposition_end() -> Seq<u8> {
    seq![34u8, 13, 10]
}

pub fn disposition_end_bytes() -> (r: Vec<u8>)
    ensures
        r@ == disposition_end(),
{
    vec![34u8, 13, 10]
}

/// What precedes the body length.
pub open spec fn length_key() -> Seq<u8> {
    seq![67u8, 111, 110, 116, 101, 110, 116, 45, 76, 101, 110, 103, 116, 104, 58, 32]
}

pub fn length_key_bytes() -> (r: Vec<u8>)
    ensures
        r@ == length_key(),
{
    vec![67u8, 111, 110, 116, 101, 110, 116, 45, 76, 101, 110, 103, 116, 104, 58, 32]
}

/// The end of the last header line and the blank line after it.
pub open spec fn head_end() -> Seq<u8> {
    seq![13u8, 10, 13, 10]
}

pub fn head_end_bytes() -> (r: Vec<u8>)
    ensures
        r@ == head_end(),
{
    vec![13u8, 10, 13, 10]
}

/// Body of the answer for a missing file.
pub open spec fn file_not_found_text() -> Seq<u8> {
    seq![70u8, 105, 108, 101, 32, 110, 111, 116, 32, 102, 111, 117, 110, 100]
}

pub fn file_not_found_text_bytes() -> (r: Vec<u8>)
    ensures
        r@ == file_not_found_text(),
{
    vec![70u8, 105, 108, 101, 32, 110, 111, 116, 32, 102, 111, 117, 110, 100]
}

/// Body of the answer for an unknown route.
pub open spec fn page_not_found_text() -> Seq<u8> {
    seq![80u8, 97, 103, 101, 32, 110, 111, 116, 32, 102, 111, 117, 110, 100]
}

pub fn page_not_found_text_bytes() -> (r: Vec<u8>)
    ensures
        r@ == page_not_found_text(),
{
    vec![80u8, 97, 103, 101, 32, 110, 111, 116, 32, 102, 111, 117, 110, 100]
}

/// Body of the answer to an upload.
pub open spec fn uploaded_text() -> Seq<u8> {
    seq![70u8, 105, 108, 101, 32, 117, 112, 108, 111, 97, 100, 101, 100, 32, 115, 117, 99, 99, 101, 115, 115, 102, 117, 108, 108, 121]
}

pub fn uploaded_text_bytes() -> (r: Vec<u8>)
    ensures
        r@ == uploaded_text(),
{
    vec![70u8, 105, 108, 101, 32, 117, 112, 108, 111, 97, 100, 101, 100, 32, 115, 117, 99, 99, 101, 115, 115, 102, 117, 108, 108, 121]
}

/// Body of the answer to an upload without a boundary.
pub open spec fn missing_boundary_text() -> Seq<u8> {
    seq![77u8, 105, 115, 115, 105, 110, 103, 32, 109, 117, 108, 116, 105, 112, 97, 114, 116, 32, 98, 111, 117, 110, 100, 97, 114, 121]
}

pub fn missing_boundary_text_bytes() -> (r: Vec<u8>)
    ensures
        r@ == missing_boundary_text(),
{
    vec![77u8, 105, 115, 115, 105, 110, 103, 32, 109, 117, 108, 116, 105, 112, 97, 114, 116, 32, 98, 111, 117, 110, 100, 97, 114, 121]
}

/// Body of the answer when storing an upload failed.
pub open spec fn store_failed_text() -> Seq<u8> {
    seq![67u8, 111, 117, 108, 100, 32, 110, 111, 116, 32, 115, 116, 111, 114, 101, 32, 116, 104, 101, 32, 102, 105, 108, 101]
}

pub fn store_failed_text_bytes() -> (r: Vec<u8>)
    ensures
        r@ == store_failed_text(),
{
    vec![67u8, 111, 117, 108, 100, 32, 110, 111, 116, 32, 115, 116, 111, 114, 101, 32, 116, 104, 101, 32, 102, 105, 108, 101]
}

/// Body of the answer to an upload whose file name is refused.
pub open spec fn invalid_name_text() -> Seq<u8> {
    seq![73u8, 110, 118, 97, 108, 105, 100, 32, 102, 105, 108, 101, 32, 110, 97, 109, 101]
}

pub fn invalid_name_text_bytes() -> (r: Vec<u8>)
    ensures
        r@ == invalid_name_text(),
{
    vec![73u8, 110, 118, 97, 108, 105, 100, 32, 102, 105, 108, 101, 32, 110, 97, 109, 101]
}

} // verus!
