use ptytest::AsciiScreen;
use ptytest::Change;

fn screen(text: &str, cursor: Option<(u16, u16)>) -> AsciiScreen {
    AsciiScreen::observed(String::from(text), cursor)
}

#[test]
fn a_screen_does_not_differ_from_itself() {
    let a = screen("ab\ncd", Some((1, 2)));
    assert!(a.diff(&a).is_ok());
    let hidden = screen("", None);
    assert!(hidden.diff(&hidden).is_ok());
}

#[test]
fn equal_screens_match_whatever_their_origin() {
    let observed = screen("ab", Some((0, 2)));
    let expected = AsciiScreen::new(
        "t.rs",
        4,
        &[
            ptytest::AsciiScreenFragment::String("ab"),
            ptytest::AsciiScreenFragment::Underscore(2),
            ptytest::AsciiScreenFragment::CursorPosition,
        ],
    );
    assert!(observed.diff(&expected).is_ok());
}

#[test]
fn only_the_text_differs() {
    let observed = screen("ab\ncx", Some((1, 2)));
    let expected = screen("ab\ncd", Some((1, 2)));
    let diff = observed.diff(&expected).unwrap_err();
    assert_eq!(diff.content_diff(), Some(("ab\ncd", "ab\ncx")));
    assert_eq!(diff.cursor_pos_diff(), None);
}

#[test]
fn only_the_cursor_differs() {
    let observed = screen("ab", Some((0, 1)));
    let expected = screen("ab", Some((0, 2)));
    let diff = observed.diff(&expected).unwrap_err();
    assert_eq!(diff.content_diff(), None);
    assert_eq!(
        diff.cursor_pos_diff(),
        Some(Change { expected: Some((0, 2)), received: Some((0, 1)) })
    );
}

#[test]
fn text_and_cursor_are_reported_together() {
    let observed = screen("xy", None);
    let expected = screen("ab", Some((0, 2)));
    let diff = observed.diff(&expected).unwrap_err();
    assert_eq!(diff.content_diff(), Some(("ab", "xy")));
    assert_eq!(diff.cursor_pos_diff(), Some(Change { expected: Some((0, 2)), received: None }));
}

#[test]
fn a_hidden_cursor_differs_from_a_visible_one() {
    let observed = screen("ab", Some((0, 0)));
    let expected = screen("ab", None);
    let diff = observed.diff(&expected).unwrap_err();
    assert_eq!(diff.content_diff(), None);
    assert_eq!(diff.cursor_pos_diff(), Some(Change { expected: None, received: Some((0, 0)) }));
}

#[test]
fn rows_and_columns_are_both_compared() {
    let observed = screen("ab", Some((1, 0)));
    let expected = screen("ab", Some((0, 1)));
    assert!(observed.diff(&expected).is_err());
    let swapped = screen("ab", Some((0, 1)));
    assert!(swapped.diff(&expected).is_ok());
}
