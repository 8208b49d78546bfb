use ptytest::engine::WaitStep;
use ptytest::wait::WaitState;
use ptytest::AsciiScreen;
use ptytest::AsciiScreenFragment;
use ptytest::Change;
use ptytest::PtyTest;
use ptytest::SizeInfo;

fn engine_with(output: &[u8]) -> PtyTest {
    let mut test = PtyTest::new(&SizeInfo::new(30, 15));
    let mut wait = WaitState::new();
    assert!(test.on_read(&mut wait, Ok(output)).is_ok());
    test
}

#[test]
fn a_new_terminal_is_blank_with_the_cursor_at_home() {
    let test = PtyTest::new(&SizeInfo::new(30, 15));
    let state = test.ascii_state();
    assert_eq!(state.contents(), "");
    assert_eq!(state.cursor(), Some((0, 0)));
    assert_eq!(state.source_info(), None);
    assert_eq!(test.wait_timeout_ms(), 1000);
}

#[test]
fn output_is_drawn_on_the_screen() {
    let test = engine_with(b"Hello world.\r\nPrompt >> ");
    let state = test.ascii_state();
    assert_eq!(state.contents(), "Hello world.\nPrompt >> ");
    assert_eq!(state.cursor(), Some((1, 10)));
}

#[test]
fn output_is_drawn_in_the_order_in_which_it_arrives() {
    let mut test = PtyTest::new(&SizeInfo::new(30, 15));
    let mut wait = WaitState::new();
    assert!(test.on_read(&mut wait, Ok(b"ab")).is_ok());
    assert!(test.on_read(&mut wait, Ok(b"\x1b")).is_ok());
    assert!(test.on_read(&mut wait, Ok(b"[Dc")).is_ok());
    let state = test.ascii_state();
    assert_eq!(state.contents(), "ac");
    assert_eq!(state.cursor(), Some((0, 2)));
}

#[test]
fn control_sequences_move_the_cursor() {
    let test = engine_with(b"abcdef\x1b[D\x1b[D");
    assert_eq!(test.ascii_state().cursor(), Some((0, 4)));
    let test = engine_with(b"abc\x1b[3;5H");
    let state = test.ascii_state();
    assert_eq!(state.contents(), "abc");
    assert_eq!(state.cursor(), Some((2, 4)));
}

#[test]
fn a_hidden_cursor_is_absent() {
    let test = engine_with(b"ab\x1b[?25l");
    let state = test.ascii_state();
    assert_eq!(state.contents(), "ab");
    assert_eq!(state.cursor(), None);
    let test = engine_with(b"ab\x1b[?25l\x1b[?25h");
    assert_eq!(test.ascii_state().cursor(), Some((0, 2)));
}

#[test]
fn the_screen_is_as_wide_and_high_as_asked() {
    let mut test = PtyTest::new(&SizeInfo::new(4, 2));
    let mut wait = WaitState::new();
    assert!(test.on_read(&mut wait, Ok(b"abcdefgh\x1b[9;9H")).is_ok());
    let state = test.ascii_state();
    assert_eq!(state.contents(), "abcdefgh");
    assert_eq!(state.cursor(), Some((1, 3)));
}

#[test]
fn the_live_screen_is_compared_with_the_expected_one() {
    let test = engine_with(b"Prompt >> bla");
    let expected = AsciiScreen::new(
        "t.rs",
        1,
        &[
            AsciiScreenFragment::String("Prompt >> bla"),
            AsciiScreenFragment::Underscore(13),
            AsciiScreenFragment::CursorPosition,
        ],
    );
    assert!(test.diff(&expected).is_ok());

    let other = AsciiScreen::new(
        "t.rs",
        2,
        &[
            AsciiScreenFragment::String("Prompt >> "),
            AsciiScreenFragment::Underscore(10),
            AsciiScreenFragment::CursorPosition,
        ],
    );
    let diff = test.diff(&other).unwrap_err();
    assert_eq!(diff.content_diff(), Some(("Prompt >> ", "Prompt >> bla")));
    assert_eq!(
        diff.cursor_pos_diff(),
        Some(Change { expected: Some((0, 10)), received: Some((0, 13)) })
    );
}

#[test]
fn a_hidden_cursor_matches_an_expectation_without_cursor() {
    let test = engine_with(b"ab\x1b[?25l");
    let expected = AsciiScreen::new("t.rs", 1, &[AsciiScreenFragment::String("ab")]);
    assert!(test.diff(&expected).is_ok());
    let shown = engine_with(b"ab");
    let diff = shown.diff(&expected).unwrap_err();
    assert_eq!(diff.content_diff(), None);
    assert_eq!(diff.cursor_pos_diff(), Some(Change { expected: None, received: Some((0, 2)) }));
}

#[test]
fn sizes_that_cannot_be_emulated_are_told_apart() {
    assert!(PtyTest::supports(&SizeInfo::new(30, 15)));
    assert!(PtyTest::supports(&SizeInfo::new(2, 2)));
    assert!(PtyTest::supports(&SizeInfo::new(65527, 65535)));
    assert!(!PtyTest::supports(&SizeInfo::new(30, 0)));
    assert!(!PtyTest::supports(&SizeInfo::new(30, 1)));
    assert!(!PtyTest::supports(&SizeInfo::new(1, 15)));
    assert!(!PtyTest::supports(&SizeInfo::new(0, 15)));
    assert!(!PtyTest::supports(&SizeInfo::new(65528, 15)));
    assert!(!PtyTest::supports(&SizeInfo::new(30, 65536)));
}

#[test]
fn a_wait_on_a_matching_screen_is_over_at_once() {
    let test = engine_with(b"ab");
    let expected = AsciiScreen::observed(String::from("ab"), Some((0, 2)));
    let fresh = WaitState::new();
    assert!(matches!(test.wait_step(&fresh, &expected, 0), WaitStep::Finished(Ok(()))));
    let late = WaitState { exited: true, had_data: false };
    assert!(matches!(test.wait_step(&late, &expected, 5000), WaitStep::Finished(Ok(()))));
}

fn assorted_output() -> Vec<u8> {
    let mut out: Vec<u8> = Vec::new();
    for round in 0..3 {
        for byte in 0..=255u8 {
            out.push(byte);
            if round == 1 {
                out.extend_from_slice("日".as_bytes());
            }
        }
    }
    out.extend_from_slice("日本語\t\t\tabc\r\n\n\n".as_bytes());
    out.extend_from_slice("e\u{301}\u{301}".as_bytes());
    out.extend_from_slice(b"\x1b[999;999H\x1b[65535C\x1b[65535B\t\t\x1b[65535@\x1b[65535P");
    out.extend_from_slice(b"\x1b[65535L\x1b[65535M\x1b[65535S\x1b[65535T\x1b[65535X");
    out.extend_from_slice(b"\x1b[2;1r\x1b[?6h\x1b[5;5H\x1bM\x1bM\x1bD\x1bD\x1b[?1049h");
    out.extend_from_slice("日\u{301}\x08\x08日本".as_bytes());
    out.extend_from_slice(b"\x1b[?1049l\x1b7\x1b8\x1b[J\x1b[1J\x1b[2J\x1b[K\x1b[1K\x1b[2K\x1bc");
    out
}

fn scrambled_output(seed: u64, len: usize) -> Vec<u8> {
    let common = b"\x1b\x1b[[[;;;??0123456789ABCDHJKLMPSTXhlmr\r\n\t\x08 ab";
    let mut state = seed;
    let mut out = Vec::with_capacity(len);
    for _ in 0..len {
        state = state.wrapping_mul(6364136223846793005).wrapping_add(1442695040888963407);
        let pick = (state >> 33) as usize;
        if pick % 4 == 0 {
            out.push((pick >> 8) as u8);
        } else {
            out.push(common[(pick >> 8) % common.len()]);
        }
    }
    out
}

#[test]
fn small_terminals_take_any_output() {
    for (cols, lines) in [(2, 2), (3, 2), (2, 3), (4, 2), (8, 2), (9, 4), (80, 24)] {
        let mut test = PtyTest::new(&SizeInfo::new(cols, lines));
        let mut wait = WaitState::new();
        let output = assorted_output();
        assert!(test.on_read(&mut wait, Ok(&output)).is_ok());
        for byte in output.iter().rev() {
            assert!(test.on_read(&mut wait, Ok(&[*byte])).is_ok());
        }
        for seed in 0..20 {
            assert!(test.on_read(&mut wait, Ok(&scrambled_output(seed, 4000))).is_ok());
            let state = test.ascii_state();
            assert!(state.contents().lines().count() <= lines);
        }
    }
}

#[test]
fn the_widest_terminal_takes_a_tab_at_the_end_of_a_line() {
    let mut test = PtyTest::new(&SizeInfo::new(65527, 2));
    let mut wait = WaitState::new();
    let line = vec![b'a'; 65527];
    assert!(test.on_read(&mut wait, Ok(&line)).is_ok());
    assert_eq!(test.ascii_state().cursor(), Some((0, 65527)));
    assert!(test.on_read(&mut wait, Ok(b"\t")).is_ok());
    assert_eq!(test.ascii_state().cursor(), Some((0, 65526)));
    assert!(test.on_read(&mut wait, Ok(b"\x1b[65535C\t\x1b[65535C")).is_ok());
    assert!(test.on_read(&mut wait, Ok(&scrambled_output(7, 4000))).is_ok());
}
