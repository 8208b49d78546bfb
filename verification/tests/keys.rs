use ptytest::AsAnsi;
use ptytest::Code;
use ptytest::PtyTest;

#[test]
fn each_key_has_its_control_sequence() {
    assert_eq!(PtyTest::encode(&Code::Left), "\x1b[D");
    assert_eq!(PtyTest::encode(&Code::Right), "\x1b[C");
    assert_eq!(PtyTest::encode(&Code::Up), "\x1b[A");
    assert_eq!(PtyTest::encode(&Code::Down), "\x1b[B");
    assert_eq!(PtyTest::encode(&Code::PageUp), "\x1b[5~");
    assert_eq!(PtyTest::encode(&Code::PageDown), "\x1b[6~");
    assert_eq!(PtyTest::encode(&Code::Home), "\x1b[1~");
    assert_eq!(PtyTest::encode(&Code::End), "\x1b[4~");
}

#[test]
fn key_bytes_are_escape_bracket_letter() {
    assert_eq!(Code::Left.as_str().as_bytes(), &[0x1b, b'[', b'D']);
    assert_eq!(Code::End.as_str().as_bytes(), &[0x1b, b'[', b'4', b'~']);
}

#[test]
fn literal_text_passes_unchanged() {
    assert_eq!(PtyTest::encode(&"bla"), "bla");
    assert_eq!(PtyTest::encode(&String::from("x y\n")), "x y\n");
    assert_eq!(PtyTest::encode(&""), "");
}

#[test]
fn encodings_are_appended_to_what_is_there() {
    let mut out = String::from("ab");
    Code::Up.add_to_string(&mut out);
    "cd".add_to_string(&mut out);
    String::from("ef").add_to_string(&mut out);
    assert_eq!(out, "ab\x1b[Acdef");
}

#[test]
fn a_key_refers_to_itself() {
    let code = Code::Home;
    let same: &Code = code.as_ref();
    assert_eq!(*same, Code::Home);
}
