use camera_driver::text::{bytes_eq, host_prefix, replace_all};

fn bytes(s: &str) -> Vec<u8> {
    s.as_bytes().to_vec()
}

#[test]
fn replace_all_rewrites_single_occurrence() {
    let out = replace_all(
        &bytes("rtsp://localhost/stream"),
        &bytes("//localhost"),
        &bytes("//10.0.0.5"),
    );
    assert_eq!(out, bytes("rtsp://10.0.0.5/stream"));
}

#[test]
fn replace_all_rewrites_every_occurrence() {
    let out = replace_all(&bytes("abcabcab"), &bytes("ab"), &bytes("X"));
    assert_eq!(out, bytes("XcXcX"));
}

#[test]
fn replace_all_scans_without_overlap() {
    let out = replace_all(&bytes("aaa"), &bytes("aa"), &bytes("b"));
    assert_eq!(out, bytes("ba"));
}

#[test]
fn replace_all_leaves_text_without_match_untouched() {
    let out = replace_all(&bytes("plain text"), &bytes("{CAMERA_URL}"), &bytes("x"));
    assert_eq!(out, bytes("plain text"));
}

#[test]
fn replace_all_accepts_empty_replacement() {
    let out = replace_all(&bytes("a-b-c"), &bytes("-"), &bytes(""));
    assert_eq!(out, bytes("abc"));
}

#[test]
fn host_prefix_cuts_port_off() {
    assert_eq!(host_prefix(&bytes("10.0.0.5:8000")), bytes("10.0.0.5"));
}

#[test]
fn host_prefix_keeps_portless_host_whole() {
    assert_eq!(host_prefix(&bytes("camera.local")), bytes("camera.local"));
}

#[test]
fn host_prefix_of_bare_port_is_empty() {
    assert_eq!(host_prefix(&bytes(":8000")), bytes(""));
}

#[test]
fn bytes_eq_compares_contents() {
    assert!(bytes_eq(b"/up", b"/up"));
    assert!(!bytes_eq(b"/up", b"/down"));
    assert!(!bytes_eq(b"/up", b"/u"));
}
