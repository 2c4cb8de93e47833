//! The AntMiner web API (2020 firmware): bodies of the firmware upload
//! request and of the messages reported when an upload fails.
use vstd::prelude::*;
use vstd::utf8::encode_utf8;

verus! {

/// A firmware image to upload.
pub struct FirmwareImage {
    pub filename: String,
    pub bytes: Vec<u8>,
}

/// The AntMiner web API.
pub struct AntMinerWebAPI;

/// The multipart boundary of a firmware upload.
pub open spec fn upload_boundary() -> Seq<char> {
    "asic-rs-antminer-firmware-boundary"@
}

/// The part header that precedes the firmware bytes.
pub open spec fn upload_head_text(filename: Seq<char>) -> Seq<char> {
    "--"@ + upload_boundary() + "\r\nContent-Disposition: form-data; name=\"firmware\"; filename=\""@
        + filename + "\"\r\nContent-Type: application/octet-stream\r\n\r\n"@
}

/// The closing delimiter after the firmware bytes.
pub open spec fn upload_tail_text() -> Seq<char> {
    "\r\n--"@ + upload_boundary() + "--\r\n"@
}

/// The longest part of a reply body kept in an error message, in characters.
pub open spec fn max_body_chars() -> nat {
    512
}

/// A reply body as reported in an error: its first 512 characters, with
/// `...` when it was longer.
pub open spec fn truncated_text(body: Seq<char>) -> Seq<char> {
    if body.len() > max_body_chars() {
        body.subrange(0, max_body_chars() as int) + "..."@
    } else {
        body
    }
}

impl AntMinerWebAPI {
    /// The boundary that separates the parts of a firmware upload.
    pub fn firmware_upload_boundary() -> (r: &'static str)
        ensures
            r@ == upload_boundary(),
    {
        "asic-rs-antminer-firmware-boundary"
    }

    /// The reply body of a failed upload as reported in the error.
    pub fn truncated_firmware_upgrade_response_body(body: &str) -> (r: String)
        ensures
            r@ == truncated_text(body@),
    {
        let n = body.unicode_len();
        if n > 512 {
            let mut s = body.substring_char(0, 512).to_string();
            s.append("...");
            s
        } else {
            body.to_string()
        }
    }

    /// The multipart body of a firmware upload and its content type: the
    /// part header naming the file, the file's bytes, then the closing
    /// delimiter.
    pub fn build_firmware_upload_request_body(image: FirmwareImage) -> (r: (Vec<u8>, String))
        ensures
            r.0@ == encode_utf8(upload_head_text(image.filename@)) + image.bytes@ + encode_utf8(
                upload_tail_text(),
            ),
            r.1@ == "multipart/form-data; boundary="@ + upload_boundary(),
    {
        let FirmwareImage { filename, bytes } = image;
        let boundary = Self::firmware_upload_boundary();
        let mut head = String::from_str("--");
        head.append(boundary);
        head.append("\r\nContent-Disposition: form-data; name=\"firmware\"; filename=\"");
        head.append(filename.as_str());
        head.append("\"\r\nContent-Type: application/octet-stream\r\n\r\n");
        let mut tail = String::from_str("\r\n--");
        tail.append(boundary);
        tail.append("--\r\n");
        let mut body: Vec<u8> = Vec::new();
        body.extend_from_slice(head.as_str().as_bytes());
        body.extend_from_slice(bytes.as_slice());
        body.extend_from_slice(tail.as_str().as_bytes());
        assert(body@ =~= encode_utf8(head@) + bytes@ + encode_utf8(tail@));
        let mut content_type = String::from_str("multipart/form-data; boundary=");
        content_type.append(boundary);
        (body, content_type)
    }
}

/// A reported reply body keeps at most its first 512 characters: a body of
/// at most 512 characters is kept whole, a longer one is cut to its first
/// 512 characters followed by `...`.
pub proof fn lemma_truncation_keeps_a_prefix(body: Seq<char>)
    ensures
        truncated_text(body).len() <= 515,
        body.len() <= 512 ==> truncated_text(body) == body,
        body.len() > 512 ==> truncated_text(body).len() == 515 && truncated_text(body).take(512)
            == body.take(512) && truncated_text(body).skip(512) == "..."@,
{
    reveal_strlit("...");
    if body.len() > 512 {
        assert(truncated_text(body).take(512) =~= body.take(512));
        assert(truncated_text(body).skip(512) =~= "..."@);
    }
}

} // verus!
