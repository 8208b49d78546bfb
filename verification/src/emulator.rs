//! The terminal emulator that turns the child's output into a screen. The
//! emulation is `vt100`'s; this module states what the rest of the library
//! relies on.

use vstd::prelude::*;

use crate::screen::ScreenModel;

verus! {

/// `vt100::Parser`, an emulator with its screen. Nothing is seen inside it.
#[verifier::external_type_specification]
#[verifier::external_body]
pub struct ExParser(vt100::Parser);

/// The rows, the columns and the scrollback length that an emulator was made
/// with.
pub uninterp spec fn emulator_setup(parser: vt100::Parser) -> (u16, u16, usize);

/// All the bytes that an emulator has consumed since it was made, in the
/// order in which it got them.
pub uninterp spec fn emulator_input(parser: vt100::Parser) -> Seq<u8>;

/// The text on the screen of an emulator of the given setup that has consumed
/// `input`: what `vt100::Screen::contents` returns.
pub uninterp spec fn screen_text(rows: u16, cols: u16, scrollback: usize, input: Seq<u8>) -> Seq<
    char,
>;

/// Row and column of the cursor of such an emulator: what
/// `vt100::Screen::cursor_position` returns.
pub uninterp spec fn screen_cursor(rows: u16, cols: u16, scrollback: usize, input: Seq<u8>) -> (
    u16,
    u16,
);

/// Whether such an emulator has been told to hide the cursor: what
/// `vt100::Screen::hide_cursor` returns.
pub uninterp spec fn screen_cursor_hidden(
    rows: u16,
    cols: u16,
    scrollback: usize,
    input: Seq<u8>,
) -> bool;

/// The widest terminal that is emulated. A tab stop is found by adding 8 to a
/// column, which has to stay a 16-bit number.
pub const MAX_COLS: u16 = 65527;

/// The geometries that are emulated: two rows at least, so that a line that
/// wraps has a row above the one it scrolls to, and room for a character of
/// double width in each row.
pub open spec fn geometry_supported(rows: u16, cols: u16) -> bool {
    2 <= rows && 2 <= cols <= MAX_COLS
}

/// `vt100::Parser::new`: a fresh emulator of the given size and scrollback
/// length, which has consumed nothing yet. The emulator subtracts 1 from the
/// number of rows and 1 or 2 from the number of columns, so room for that is
/// asked for.
#[verifier::external_body]
pub(crate) fn emulator_new(rows: u16, cols: u16, scrollback_len: usize) -> (parser: vt100::Parser)
    requires
        geometry_supported(rows, cols),
    ensures
        emulator_setup(parser) == (rows, cols, scrollback_len),
        emulator_input(parser) == Seq::<u8>::empty(),
{
    vt100::Parser::new(rows, cols, scrollback_len)
}

/// `vt100::Parser::process`: the emulator consumes `bytes` one by one, after
/// what it has consumed before, and keeps its setup. Its arithmetic on rows
/// and columns stays in range for the geometries asked for.
#[verifier::external_body]
pub(crate) fn emulator_process(parser: &mut vt100::Parser, bytes: &[u8])
    requires
        geometry_supported(emulator_setup(*old(parser)).0, emulator_setup(*old(parser)).1),
    ensures
        emulator_setup(*final(parser)) == emulator_setup(*old(parser)),
        emulator_input(*final(parser)) == emulator_input(*old(parser)) + bytes@,
{
    parser.process(bytes)
}

/// `vt100::Screen::contents` of the emulator's screen: the text that it
/// shows, which its setup and the bytes consumed determine.
#[verifier::external_body]
pub(crate) fn emulator_contents(parser: &vt100::Parser) -> (text: String)
    ensures
        text@ == screen_text(
            emulator_setup(*parser).0,
            emulator_setup(*parser).1,
            emulator_setup(*parser).2,
            emulator_input(*parser),
        ),
{
    parser.screen().contents()
}

/// `vt100::Screen::cursor_position` of the emulator's screen: row and column
/// of the cursor, which its setup and the bytes consumed determine.
#[verifier::external_body]
pub(crate) fn emulator_cursor_position(parser: &vt100::Parser) -> (position: (u16, u16))
    ensures
        position == screen_cursor(
            emulator_setup(*parser).0,
            emulator_setup(*parser).1,
            emulator_setup(*parser).2,
            emulator_input(*parser),
        ),
{
    parser.screen().cursor_position()
}

/// `vt100::Screen::hide_cursor` of the emulator's screen: whether the cursor
/// is hidden, which its setup and the bytes consumed determine.
#[verifier::external_body]
pub(crate) fn emulator_hide_cursor(parser: &vt100::Parser) -> (hidden: bool)
    ensures
        hidden == screen_cursor_hidden(
            emulator_setup(*parser).0,
            emulator_setup(*parser).1,
            emulator_setup(*parser).2,
            emulator_input(*parser),
        ),
{
    parser.screen().hide_cursor()
}

/// The screen of an emulator without scrollback, of `rows` by `cols` cells,
/// that has consumed `input`: its text, and its cursor unless it is hidden.
pub open spec fn rendered(rows: u16, cols: u16, input: Seq<u8>) -> ScreenModel {
    ScreenModel {
        contents: screen_text(rows, cols, 0, input),
        cursor: if screen_cursor_hidden(rows, cols, 0, input) {
            None
        } else {
            Some(screen_cursor(rows, cols, 0, input))
        },
    }
}

} // verus!
