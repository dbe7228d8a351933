use std::collections::HashMap;

use upload_server::bytes::{find_first, find_last};
use upload_server::handler::{
    file_list_response, first_step, json_list_response, plan_upload, stored_file_response,
    upload_response, Step, UploadPlan,
};
use upload_server::multipart::{
    boundary_delimiter, extract_upload, initial_body, is_body_complete, is_safe_name, trim_bytes,
};
use upload_server::pages::{DOWNLOAD_HTML, UPLOAD_HTML};
use upload_server::request::{has_header_terminator, header_end, method_and_path, route, Route};
use upload_server::response::{push_decimal, ContentType, Response, Status};

const BOUNDARY: &str = "----WebKitFormBoundaryXYZ";

fn upload_request(name: &str, content: &[u8], closing: &str) -> Vec<u8> {
    let mut req = format!(
        "POST /upload_file HTTP/1.1\r\nHost: localhost:8080\r\nContent-Type: multipart/form-data; boundary={}\r\n\r\n--{}\r\nContent-Disposition: form-data; name=\"file\"; filename=\"{}\"\r\nContent-Type: text/plain\r\n\r\n",
        BOUNDARY, BOUNDARY, name
    )
    .into_bytes();
    req.extend_from_slice(content);
    req.extend_from_slice(format!("\r\n--{}{}", BOUNDARY, closing).as_bytes());
    req
}

fn get(path: &str) -> Vec<u8> {
    format!("GET {} HTTP/1.1\r\nHost: localhost\r\n\r\n", path).into_bytes()
}

fn reply(step: Step) -> Response {
    match step {
        Step::Reply(r) => r,
        _ => panic!("expected an immediate reply"),
    }
}

/// Runs an upload request against a map standing for the storage directory.
fn upload_into(store: &mut HashMap<Vec<u8>, Vec<u8>>, req: &[u8]) -> Response {
    match first_step(req) {
        Step::ReceiveUpload { delimiter, body } => match plan_upload(&body, &delimiter) {
            UploadPlan::Store { name, payload } => {
                store.insert(name, payload);
                upload_response(true)
            }
            UploadPlan::Skip => upload_response(true),
            UploadPlan::Reject(r) => r,
        },
        _ => panic!("expected an upload"),
    }
}

/// Runs a download request against a map standing for the storage directory.
fn download_from(store: &HashMap<Vec<u8>, Vec<u8>>, req: &[u8]) -> Response {
    match first_step(req) {
        Step::ServeFile(name) => {
            let data = store.get(&name).cloned();
            stored_file_response(&name, data)
        }
        Step::Reply(r) => r,
        _ => panic!("expected a download"),
    }
}

fn text(r: &Response) -> String {
    String::from_utf8(r.encode()).unwrap()
}

#[test]
fn upload_then_download_report() {
    let mut store = HashMap::new();
    let req = upload_request("report.txt", b"hello world", "--\r\n");
    let r = upload_into(&mut store, &req);
    assert_eq!(r.status, Status::Success);
    assert_eq!(r.body, b"File uploaded successfully".to_vec());
    assert_eq!(store.len(), 1);
    assert_eq!(store.get(&b"report.txt".to_vec()).unwrap(), &b"hello world".to_vec());

    let d = download_from(&store, &get("/download/report.txt"));
    assert_eq!(
        text(&d),
        "HTTP/1.1 200 OK\r\nAccess-Control-Allow-Origin: *\r\nContent-Type: application/octet-stream\r\nContent-Disposition: attachment; filename=\"report.txt\"\r\nContent-Length: 11\r\n\r\nhello world"
    );
}

#[test]
fn upload_response_bytes() {
    assert_eq!(
        text(&upload_response(true)),
        "HTTP/1.1 200 OK\r\nAccess-Control-Allow-Origin: *\r\nContent-Type: text/plain\r\nContent-Length: 26\r\n\r\nFile uploaded successfully"
    );
    let failed = upload_response(false);
    assert_eq!(failed.status, Status::ServerError);
    assert!(text(&failed).starts_with("HTTP/1.1 500 INTERNAL SERVER ERROR\r\n"));
}

#[test]
fn download_of_missing_file_is_not_found() {
    let store = HashMap::new();
    let d = download_from(&store, &get("/download/does-not-exist.txt"));
    assert_eq!(d.status, Status::NotFound);
    assert_eq!(d.body, b"File not found".to_vec());
    assert_eq!(
        text(&d),
        "HTTP/1.1 404 NOT FOUND\r\nAccess-Control-Allow-Origin: *\r\nContent-Type: text/plain\r\nContent-Length: 14\r\n\r\nFile not found"
    );
}

#[test]
fn unknown_path_is_not_found() {
    let r = reply(first_step(&get("/unknown-path")));
    assert_eq!(r.status, Status::NotFound);
    assert_eq!(r.body, b"Page not found".to_vec());
    assert!(text(&r).starts_with("HTTP/1.1 404 NOT FOUND\r\n"));
}

#[test]
fn root_and_upload_page_match() {
    let a = reply(first_step(&get("/")));
    let b = reply(first_step(&get("/upload.html")));
    assert_eq!(a.encode(), b.encode());
    assert_eq!(a.body, UPLOAD_HTML.as_bytes().to_vec());
    assert_eq!(a.content_type, ContentType::Html);
    let expected = format!("Content-Length: {}\r\n\r\n", UPLOAD_HTML.len());
    assert!(text(&a).contains(&expected));
    assert!(text(&a).ends_with(UPLOAD_HTML));
}

#[test]
fn download_page_is_served() {
    let r = reply(first_step(&get("/download.html")));
    assert_eq!(r.status, Status::Success);
    assert_eq!(r.body, DOWNLOAD_HTML.as_bytes().to_vec());
}

#[test]
fn content_length_matches_every_body() {
    let responses = vec![
        reply(first_step(&get("/"))),
        reply(first_step(&get("/nowhere"))),
        stored_file_response(b"a.bin", Some(vec![0u8; 1234])),
        stored_file_response(b"a.bin", Some(Vec::new())),
        stored_file_response(b"a.bin", None),
        upload_response(true),
        file_list_response(&vec!["x".to_string()]),
    ];
    for r in responses {
        let bytes = r.encode();
        let split = bytes.windows(4).position(|w| w == b"\r\n\r\n").unwrap();
        let head = String::from_utf8(bytes[..split].to_vec()).unwrap();
        let len: usize = head
            .lines()
            .find_map(|l| l.strip_prefix("Content-Length: "))
            .unwrap()
            .parse()
            .unwrap();
        assert_eq!(len, bytes.len() - split - 4);
        assert_eq!(len, r.body.len());
        assert!(head.contains("Access-Control-Allow-Origin: *"));
    }
}

#[test]
fn file_list_holds_exactly_the_names() {
    let names = vec!["a".to_string(), "b".to_string(), "c".to_string()];
    let r = file_list_response(&names);
    assert_eq!(r.status, Status::Success);
    assert_eq!(r.content_type, ContentType::Json);
    let mut parsed: Vec<String> = serde_json::from_slice(&r.body).unwrap();
    parsed.sort();
    assert_eq!(parsed, names);
    assert_eq!(r.body, b"[\"a\",\"b\",\"c\"]".to_vec());
}

#[test]
fn file_list_escapes_names() {
    let r = file_list_response(&vec!["say \"hi\".txt".to_string()]);
    assert_eq!(r.body, b"[\"say \\\"hi\\\".txt\"]".to_vec());
    let empty = file_list_response(&Vec::new());
    assert_eq!(empty.body, b"[]".to_vec());
}

#[test]
fn json_list_response_carries_the_text() {
    let r = json_list_response("[\"q\"]".to_string());
    assert_eq!(r.body, b"[\"q\"]".to_vec());
    assert_eq!(r.content_type, ContentType::Json);
}

#[test]
fn file_list_route() {
    assert!(matches!(first_step(&get("/files")), Step::ListFiles));
    assert!(matches!(first_step(&get("/files?all")), Step::ListFiles));
}

#[test]
fn second_upload_overwrites_first() {
    let mut store = HashMap::new();
    upload_into(&mut store, &upload_request("x", b"first", "--\r\n"));
    upload_into(&mut store, &upload_request("x", b"second contents", "--\r\n"));
    assert_eq!(store.len(), 1);
    assert_eq!(store.get(&b"x".to_vec()).unwrap(), &b"second contents".to_vec());
}

#[test]
fn binary_round_trip_with_delimiter_like_bytes() {
    let mut store = HashMap::new();
    let mut payload = vec![0u8, 255, 13, 10, 13, 10];
    payload.extend_from_slice(format!("--{}", BOUNDARY).as_bytes());
    payload.extend_from_slice(&[7, 8, 9]);
    upload_into(&mut store, &upload_request("blob.bin", &payload, "--\r\n"));
    let d = download_from(&store, &get("/download/blob.bin"));
    assert_eq!(d.status, Status::Success);
    assert_eq!(d.body, payload);
    assert_eq!(d.attachment, Some(b"blob.bin".to_vec()));
}

#[test]
fn header_terminator_detection() {
    assert!(!has_header_terminator(b"GET / HTTP/1.1\r\nHost: a\r\n"));
    assert!(has_header_terminator(b"GET / HTTP/1.1\r\n\r\n"));
    assert_eq!(header_end(b"GET / HTTP/1.1\r\n\r\nbody"), Some(14));
    assert_eq!(header_end(b"\r\n\r"), None);
    assert_eq!(header_end(b""), None);
}

#[test]
fn request_line_words() {
    let (m, p) = method_and_path(b"  GET\t /files   HTTP/1.1\r\nHost: x\r\n\r\n");
    assert_eq!(m, b"GET".to_vec());
    assert_eq!(p, b"/files".to_vec());
    let (m, p) = method_and_path(b"GET\r\n\r\n");
    assert_eq!(m, b"GET".to_vec());
    assert_eq!(p, Vec::<u8>::new());
}

#[test]
fn routes_in_order() {
    assert!(matches!(route(&get("/")), Route::UploadPage));
    assert!(matches!(route(&get("/upload.html")), Route::UploadPage));
    assert!(matches!(route(&get("/download.html")), Route::DownloadPage));
    match route(&get("/download/a.txt")) {
        Route::StoredFile(n) => assert_eq!(n, b"a.txt".to_vec()),
        _ => panic!("expected a stored file"),
    }
    match route(&get("/download//download/a.txt")) {
        Route::StoredFile(n) => assert_eq!(n, b"/download/a.txt".to_vec()),
        _ => panic!("expected a stored file"),
    }
    assert!(matches!(route(&get("/index.html")), Route::Unknown));
    assert!(matches!(route(b"POST /upload_file HTTP/1.1\r\n\r\n"), Route::Upload));
    assert!(matches!(route(b"GET /upload_file HTTP/1.1\r\n\r\n"), Route::Unknown));
    assert!(matches!(route(b"POST /files HTTP/1.1\r\n\r\n"), Route::Unknown));
    assert!(matches!(route(b"garbage\r\n\r\n"), Route::Unknown));
}

#[test]
fn upload_without_boundary_is_rejected() {
    let req = b"POST /upload_file HTTP/1.1\r\nContent-Type: text/plain\r\n\r\nabc";
    let r = reply(first_step(req));
    assert_eq!(r.status, Status::BadRequest);
    assert_eq!(r.body, b"Missing multipart boundary".to_vec());
    assert!(text(&r).starts_with("HTTP/1.1 400 BAD REQUEST\r\n"));
    let no_param = b"POST /upload_file HTTP/1.1\r\nContent-Type: multipart/form-data\r\n\r\n";
    assert_eq!(boundary_delimiter(no_param), None);
}

#[test]
fn boundary_is_trimmed_and_prefixed() {
    let req = b"POST /upload_file HTTP/1.1\r\nContent-Type: multipart/form-data; boundary=  abc \r\n\r\nrest";
    assert_eq!(boundary_delimiter(req), Some(b"--abc".to_vec()));
    assert_eq!(initial_body(req), b"rest".to_vec());
    assert_eq!(trim_bytes(b" \t x y \r"), b"x y".to_vec());
}

#[test]
fn body_complete_when_it_ends_with_delimiter() {
    let req = upload_request("a.txt", b"abc", "");
    match first_step(&req) {
        Step::ReceiveUpload { delimiter, body } => {
            assert_eq!(delimiter, format!("--{}", BOUNDARY).into_bytes());
            assert!(is_body_complete(&body, &delimiter));
            let up = extract_upload(&body, &delimiter);
            assert_eq!(up.name, b"a.txt".to_vec());
            assert_eq!(up.payload, Some(b"abc".to_vec()));
        }
        _ => panic!("expected an upload"),
    }
    assert!(!is_body_complete(b"--abc--\r\n", b"--abc"));
}

#[test]
fn upload_body_arriving_in_pieces() {
    let req = upload_request("a.txt", b"abc", "--\r\n");
    let split = req.windows(4).position(|w| w == b"\r\n\r\n").unwrap() + 10;
    match first_step(&req[..split]) {
        Step::ReceiveUpload { delimiter, mut body } => {
            assert!(!is_body_complete(&body, &delimiter));
            body.extend_from_slice(&req[split..]);
            let up = extract_upload(&body, &delimiter);
            assert_eq!(up.payload, Some(b"abc".to_vec()));
        }
        _ => panic!("expected an upload"),
    }
}

#[test]
fn empty_payload_is_not_stored() {
    let mut store = HashMap::new();
    let r = upload_into(&mut store, &upload_request("e.txt", b"", "--\r\n"));
    assert_eq!(r.status, Status::Success);
    assert!(store.is_empty());
}

#[test]
fn part_without_filename_gets_default_name() {
    let body = b"--b\r\nContent-Disposition: form-data; name=\"file\"\r\n\r\ndata\r\n--b";
    let up = extract_upload(body, b"--b");
    assert_eq!(up.name, b"upload.bin".to_vec());
    assert_eq!(up.payload, Some(b"data".to_vec()));
}

#[test]
fn part_without_header_separator() {
    let up = extract_upload(b"raw bytes\r\n--b", b"--b");
    assert_eq!(up.name, b"upload.bin".to_vec());
    assert_eq!(up.payload, Some(b"raw bytes".to_vec()));
    let none = extract_upload(b"--b", b"--b");
    assert_eq!(none.payload, None);
    let no_delim = extract_upload(b"h\r\n\r\nall of it", b"--zz");
    assert_eq!(no_delim.payload, Some(b"all of it".to_vec()));
}

#[test]
fn search_helpers() {
    assert_eq!(find_first(b"abcabc", b"bc"), Some(1));
    assert_eq!(find_last(b"abcabc", b"bc"), Some(4));
    assert_eq!(find_first(b"abc", b"abcd"), None);
    assert_eq!(find_last(b"abc", b"x"), None);
}

#[test]
fn decimal_digits() {
    let mut out = b"n=".to_vec();
    push_decimal(&mut out, 0);
    assert_eq!(out, b"n=0".to_vec());
    let mut out = Vec::new();
    push_decimal(&mut out, 1234567);
    assert_eq!(out, b"1234567".to_vec());
    let mut out = Vec::new();
    push_decimal(&mut out, usize::MAX);
    assert_eq!(out, usize::MAX.to_string().into_bytes());
}

#[test]
fn names_outside_storage_are_refused() {
    let store: HashMap<Vec<u8>, Vec<u8>> = HashMap::new();
    let d = download_from(&store, &get("/download/../Cargo.toml"));
    assert_eq!(d.status, Status::NotFound);
    assert_eq!(d.body, b"File not found".to_vec());
    assert!(matches!(first_step(&get("/download/..")), Step::Reply(_)));

    let mut store = HashMap::new();
    let r = upload_into(&mut store, &upload_request("../evil.txt", b"x", "--\r\n"));
    assert_eq!(r.status, Status::BadRequest);
    assert_eq!(r.body, b"Invalid file name".to_vec());
    assert!(store.is_empty());
}

#[test]
fn safe_names() {
    assert!(is_safe_name(b"report.txt"));
    assert!(is_safe_name(b"..hidden"));
    assert!(is_safe_name(b"a"));
    assert!(!is_safe_name(b""));
    assert!(!is_safe_name(b"."));
    assert!(!is_safe_name(b".."));
    assert!(!is_safe_name(b"a/b"));
    assert!(!is_safe_name(b"a\\b"));
    assert!(!is_safe_name(b"a\0b"));
}

#[test]
fn download_prefix_is_removed_once() {
    let mut store = HashMap::new();
    store.insert(b"a".to_vec(), b"secret".to_vec());
    let d = download_from(&store, &get("/download//download/a"));
    assert_eq!(d.status, Status::NotFound);
    assert_eq!(d.body, b"File not found".to_vec());
    let ok = download_from(&store, &get("/download/a"));
    assert_eq!(ok.body, b"secret".to_vec());
}
