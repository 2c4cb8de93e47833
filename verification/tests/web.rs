use asic_rs::antminer::{AntMinerWebAPI, FirmwareImage};
use asic_rs::braiins::BraiinsWebAPI;

#[test]
fn short_bodies_are_kept() {
    assert_eq!(AntMinerWebAPI::truncated_firmware_upgrade_response_body("oops"), "oops");
    let exact = "é".repeat(512);
    assert_eq!(AntMinerWebAPI::truncated_firmware_upgrade_response_body(&exact), exact);
}

#[test]
fn long_bodies_are_cut_at_512_characters() {
    let long = "é".repeat(600);
    let cut = AntMinerWebAPI::truncated_firmware_upgrade_response_body(&long);
    assert_eq!(cut, format!("{}...", "é".repeat(512)));
}

#[test]
fn upload_body() {
    let image = FirmwareImage { filename: "fw.tar.gz".to_string(), bytes: vec![0, 1, 2, 255] };
    let (body, content_type) = AntMinerWebAPI::build_firmware_upload_request_body(image);
    assert_eq!(content_type, "multipart/form-data; boundary=asic-rs-antminer-firmware-boundary");
    let mut expected = b"--asic-rs-antminer-firmware-boundary\r\nContent-Disposition: form-data; name=\"firmware\"; filename=\"fw.tar.gz\"\r\nContent-Type: application/octet-stream\r\n\r\n".to_vec();
    expected.extend_from_slice(&[0, 1, 2, 255]);
    expected.extend_from_slice(b"\r\n--asic-rs-antminer-firmware-boundary--\r\n");
    assert_eq!(body, expected);
}

#[test]
fn session_cookie() {
    let headers = vec![
        "theme=dark; Path=/".to_string(),
        "sysauth=x; session_id=; Path=/".to_string(),
        "a=b;  session_id=abc123 ; HttpOnly".to_string(),
        "session_id=later".to_string(),
    ];
    assert_eq!(BraiinsWebAPI::session_from_cookies(&headers), Some("abc123".to_string()));
    assert_eq!(BraiinsWebAPI::session_from_cookies(&vec![]), None);
    assert_eq!(BraiinsWebAPI::session_from_header("session_id=z"), Some("z".to_string()));
    assert_eq!(BraiinsWebAPI::session_from_header("xsession_id=z"), None);
    assert_eq!(BraiinsWebAPI::segment_session(" session_id=q "), Some("q".to_string()));
}
