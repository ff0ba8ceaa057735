use plz::clipboard::{attempt_order, base64, osc52_sequence, Method};

#[test]
fn base64_matches_known_vectors() {
    assert_eq!(base64(b""), "");
    assert_eq!(base64(b"f"), "Zg==");
    assert_eq!(base64(b"fo"), "Zm8=");
    assert_eq!(base64(b"foo"), "Zm9v");
    assert_eq!(base64(b"foob"), "Zm9vYg==");
    assert_eq!(base64(b"fooba"), "Zm9vYmE=");
    assert_eq!(base64(b"foobar"), "Zm9vYmFy");
}

#[test]
fn base64_handles_shell_commands() {
    assert_eq!(base64(b"ls -la"), "bHMgLWxh");
    assert_eq!(
        base64("ps aux | awk '{print $2}'".as_bytes()),
        "cHMgYXV4IHwgYXdrICd7cHJpbnQgJDJ9Jw=="
    );
}

#[test]
fn base64_handles_non_ascii() {
    // What matters is that UTF-8 bytes are encoded.
    assert_eq!(base64("café".as_bytes()), "Y2Fmw6k=");
}

#[test]
fn base64_uses_the_whole_alphabet() {
    assert_eq!(base64(&[0xfb, 0xff, 0xbf]), "+/+/");
    assert_eq!(base64(&[0x00, 0x10, 0x83]), "ABCD");
}

#[test]
fn linux_prefers_osc52() {
    // On Linux the system clipboard dies with the process, so the option that
    // outlives the exit has to come first.
    assert_eq!(attempt_order(true)[0], Method::Osc52);
    assert_eq!(attempt_order(false)[0], Method::System);
    assert_eq!(attempt_order(true)[1], Method::System);
}

#[test]
fn methods_describe_themselves_differently() {
    assert_ne!(Method::System.describe(), Method::Osc52.describe());
    assert_ne!(Method::System.label(), Method::Osc52.label());
}

#[test]
fn the_terminal_gets_an_osc52_request() {
    assert_eq!(osc52_sequence(b"ls"), "\x1b]52;c;bHM=\x07");
}
