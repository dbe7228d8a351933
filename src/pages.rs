//! The two pages that the server hands out as they stand.

use vstd::prelude::*;
use vstd::string::StringSliceAdditionalSpecFns;

verus! {

/// The page with the upload form.
pub const UPLOAD_HTML: &'static str = r#"<!DOCTYPE html>
<html>
<head><title>Upload File</title></head>
<body>
<h2>Upload a file</h2>
<input type="file" id="fileInput" />
<button id="submit">Upload</button>
<script>
const SERVER_URL = '';
const fileInput = document.getElementById('fileInput');
const submitButton = document.getElementById('submit');
submitButton.addEventListener('click', async (e) => {
    e.preventDefault();
    const file = fileInput.files[0];
    if (!file) { alert("Select a file first!"); return; }
    const formData = new FormData();
    formData.append('file', file);
    try {
        const res = await fetch(`${SERVER_URL}/upload_file`, { method: 'POST', body: formData });
        const text = await res.text();
        alert(text);
    } catch (err) { console.error(err); alert("Upload failed!"); }
});
</script>
</body>
</html>"#;

/// The page that lists the stored files for download.
pub const DOWNLOAD_HTML: &'static str = r#"<!DOCTYPE html>
<html>
<head><title>Download Files</title></head>
<body>
<h2>Uploaded Files</h2>
<ul id="fileList"></ul>
<script>
const SERVER_URL = '';
async function fetchFiles() {
    try {
        const res = await fetch(`${SERVER_URL}/files`);
        const files = await res.json();
        const list = document.getElementById('fileList');
        list.innerHTML = "";
        files.forEach(f => {
            const li = document.createElement('li');
            const a = document.createElement('a');
            a.href = `${SERVER_URL}/download/${f}`;
            a.textContent = f;
            a.download = f;
            li.appendChild(a);
            list.appendChild(li);
        });
    } catch(e){ console.error(e); }
}
window.onload = fetchFiles;
</script>
</body>
</html>"#;

/// The bytes of the upload page.
pub open spec fn upload_page() -> Seq<u8> {
    UPLOAD_HTML.spec_bytes()
}

/// The bytes of the download page.
pub open spec fn download_page() -> Seq<u8> {
    DOWNLOAD_HTML.spec_bytes()
}

pub fn upload_page_bytes() -> (r: Vec<u8>)
    ensures
        r@ == upload_page(),
{
    vstd::slice::slice_to_vec(UPLOAD_HTML.as_bytes())
}

pub fn download_page_bytes() -> (r: Vec<u8>)
    ensures
        r@ == download_page(),
{
    vstd::slice::slice_to_vec(DOWNLOAD_HTML.as_bytes())
}

} // verus!
