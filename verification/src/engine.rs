//! The test engine: the emulated terminal of the program under test, and
//! what a test asks of it.

use vstd::prelude::*;

use crate::commands::AsAnsi;
use crate::diff::compared;
use crate::diff::matches_screen;
use crate::diff::DiffModel;
use crate::diff::ScreenDiff;
use crate::emulator::emulator_contents;
use crate::emulator::emulator_cursor_position;
use crate::emulator::emulator_hide_cursor;
use crate::emulator::emulator_input;
use crate::emulator::emulator_new;
use crate::emulator::emulator_process;
use crate::emulator::emulator_setup;
use crate::emulator::geometry_supported;
use crate::emulator::rendered;
use crate::emulator::MAX_COLS;
use crate::error::Error;
use crate::screen::AsciiScreen;
use crate::screen::ScreenModel;
use crate::term::SizeInfo;
use crate::wait::verdict;
use crate::wait::Notice;
use crate::wait::Verdict;
use crate::wait::WaitState;

verus! {

/// The time that a wait may take, in milliseconds, unless another is set.
pub const DEFAULT_WAIT_TIMEOUT_MS: u64 = 1000;

/// The part of the timeout that one poll may take.
pub const POLL_SLICES: u64 = 10;

/// The state of a test: the screen of the program under test, as the bytes
/// that it has written so far have drawn it, and the time that a wait may
/// take.
pub struct PtyTest {
    parser: vt100::Parser,
    wait_timeout_ms: u64,
}

/// How a wait goes on.
#[derive(Debug)]
pub enum WaitStep {
    /// The wait is over, with this result.
    Finished(Result<(), Error>),
    /// Poll for events, for this many milliseconds at most, then hand them in
    /// and ask again.
    Poll(u64),
}

/// True if a terminal of this size can be emulated.
pub open spec fn size_supported(size: SizeInfo) -> bool {
    2 <= size.lines <= u16::MAX && 2 <= size.cols <= MAX_COLS
}

/// True if `diff` and `screen` are the report on `live`, a screen that does
/// not match `expected`: the difference between the two, and `live` itself as
/// a screen that no source location stands for.
pub open spec fn reports(
    diff: ScreenDiff,
    screen: AsciiScreen,
    live: ScreenModel,
    expected: ScreenModel,
) -> bool {
    &&& compared(live, expected) == Err::<(), DiffModel>(diff@)
    &&& screen@ == live
    &&& screen.origin() is None
}

impl PtyTest {
    /// The terminal is one that can be emulated, and keeps no scrollback.
    /// This holds of every test that `new` has made.
    pub closed spec fn wf(&self) -> bool {
        &&& geometry_supported(emulator_setup(self.parser).0, emulator_setup(self.parser).1)
        &&& emulator_setup(self.parser).2 == 0
    }

    /// The number of rows of the terminal.
    pub closed spec fn rows(&self) -> u16 {
        emulator_setup(self.parser).0
    }

    /// The number of columns of the terminal.
    pub closed spec fn cols(&self) -> u16 {
        emulator_setup(self.parser).1
    }

    /// All that the program has written so far.
    pub closed spec fn output(&self) -> Seq<u8> {
        emulator_input(self.parser)
    }

    /// The time that a wait may take, in milliseconds.
    pub closed spec fn wait_timeout(&self) -> u64 {
        self.wait_timeout_ms
    }

    /// The screen as it is now: what a terminal of this size shows after the
    /// program's output.
    pub open spec fn screen(&self) -> ScreenModel {
        rendered(self.rows(), self.cols(), self.output())
    }

    /// Whether a terminal of this size can be emulated.
    pub fn supports(size: &SizeInfo) -> (ok: bool)
        ensures
            ok == size_supported(*size),
    {
        2 <= size.lines && size.lines <= u16::MAX as usize && 2 <= size.cols && size.cols
            <= MAX_COLS as usize
    }

    /// A test on a blank terminal of the given size, without scrollback,
    /// whose waits take a second at most.
    pub fn new(size: &SizeInfo) -> (test: Self)
        requires
            size_supported(*size),
        ensures
            test.wf(),
            test.rows() == size.lines,
            test.cols() == size.cols,
            test.output() == Seq::<u8>::empty(),
            test.wait_timeout() == DEFAULT_WAIT_TIMEOUT_MS,
    {
        let parser = emulator_new(size.lines as u16, size.cols as u16, 0);
        Self { parser, wait_timeout_ms: DEFAULT_WAIT_TIMEOUT_MS }
    }

    /// The time that a wait may take, in milliseconds.
    pub fn wait_timeout_ms(&self) -> (ms: u64)
        ensures
            ms == self.wait_timeout(),
    {
        self.wait_timeout_ms
    }

    /// Sets the time that a wait may take, in milliseconds. The screen stays
    /// as it is.
    pub fn set_wait_timeout_ms(&mut self, ms: u64)
        ensures
            final(self).wait_timeout() == ms,
            final(self).wf() == old(self).wf(),
            final(self).rows() == old(self).rows(),
            final(self).cols() == old(self).cols(),
            final(self).output() == old(self).output(),
    {
        self.wait_timeout_ms = ms;
    }

    /// The screen as it is now, with the cursor unless it is hidden.
    pub fn ascii_state(&self) -> (state: AsciiScreen)
        requires
            self.wf(),
        ensures
            state@ == self.screen(),
            state.origin() is None,
    {
        let cursor = if emulator_hide_cursor(&self.parser) {
            None
        } else {
            Some(emulator_cursor_position(&self.parser))
        };
        AsciiScreen::observed(emulator_contents(&self.parser), cursor)
    }

    /// Compares the screen as it is now with the expected one: success
    /// exactly if text and cursor are the same, else what differs.
    pub fn diff(&self, screen_state: &AsciiScreen) -> (r: Result<(), ScreenDiff>)
        requires
            self.wf(),
        ensures
            r is Ok <==> self.screen() == screen_state@,
            match r {
                Ok(()) => compared(self.screen(), screen_state@) == Ok::<(), DiffModel>(()),
                Err(d) => compared(self.screen(), screen_state@) == Err::<(), DiffModel>(d@),
            },
    {
        let observed = self.ascii_state();
        observed.diff(screen_state)
    }

    /// One look at the screen during a wait that has lasted `elapsed_ms`
    /// milliseconds. The wait succeeds if the screen matches, whatever else
    /// holds. Else it fails with the difference and the screen: as timed out
    /// if the time is up, as ended by the program's exit if that was noticed
    /// and the last poll cycle brought no output. Else the caller polls, for a
    /// tenth of the timeout at most.
    pub fn wait_step(&self, wait: &WaitState, screen_state: &AsciiScreen, elapsed_ms: u64) -> (step:
        WaitStep)
        requires
            self.wf(),
        ensures
            match verdict(
                matches_screen(self.screen(), screen_state@),
                elapsed_ms >= self.wait_timeout(),
                *wait,
            ) {
                Verdict::Matched => step matches WaitStep::Finished(Ok(())),
                Verdict::TimedOut => step matches WaitStep::Finished(
                    Err(Error::TimeoutForScreenState(d, s)),
                ) && reports(d, s, self.screen(), screen_state@),
                Verdict::ProcessExited => step matches WaitStep::Finished(
                    Err(Error::ProcessExited(d, s)),
                ) && reports(d, s, self.screen(), screen_state@),
                Verdict::KeepWaiting => step == WaitStep::Poll(
                    (self.wait_timeout() / POLL_SLICES) as u64,
                ),
            },
    {
        let diff = match self.diff(screen_state) {
            Ok(()) => {
                return WaitStep::Finished(Ok(()));
            },
            Err(diff) => diff,
        };
        match wait.decide(false, elapsed_ms >= self.wait_timeout_ms) {
            Verdict::TimedOut => WaitStep::Finished(
                Err(Error::TimeoutForScreenState(diff, self.ascii_state())),
            ),
            Verdict::ProcessExited => WaitStep::Finished(
                Err(Error::ProcessExited(diff, self.ascii_state())),
            ),
            _ => WaitStep::Poll(self.wait_timeout_ms / POLL_SLICES),
        }
    }

    /// Takes in the outcome of a read from the terminal. Bytes that were read
    /// are drawn on the screen, after all earlier ones, and count as output
    /// of the current poll cycle if there is at least one. A failed read ends
    /// the wait with the error, and changes nothing.
    pub fn on_read(
        &mut self,
        wait: &mut WaitState,
        outcome: Result<&[u8], std::io::Error>,
    ) -> (r: Result<(), Error>)
        requires
            old(self).wf(),
        ensures
            final(self).wf(),
            final(self).rows() == old(self).rows(),
            final(self).cols() == old(self).cols(),
            final(self).wait_timeout() == old(self).wait_timeout(),
            match outcome {
                Ok(bytes) => {
                    &&& r is Ok
                    &&& final(self).output() == old(self).output() + bytes@
                    &&& *final(wait) == old(wait).after_notice(Notice::Read(bytes@.len()))
                },
                Err(e) => {
                    &&& r matches Err(Error::IoError(cause)) && cause == e
                    &&& final(self).output() == old(self).output()
                    &&& *final(wait) == *old(wait)
                },
            },
    {
        match outcome {
            Ok(bytes) => {
                wait.data_read(bytes.len());
                emulator_process(&mut self.parser, bytes);
                Ok(())
            },
            Err(err) => Err(Error::IoError(err)),
        }
    }

    /// Judges the outcome of writing `requested` bytes to the terminal: a
    /// failed write is the step's failure. A write that took only a part is
    /// not provided for.
    pub fn on_write(requested: usize, outcome: Result<usize, std::io::Error>) -> (r: Result<
        (),
        Error,
    >)
        requires
            outcome matches Ok(written) ==> written == requested,
        ensures
            match outcome {
                Ok(_) => r is Ok,
                Err(e) => r matches Err(Error::IoError(cause)) && cause == e,
            },
    {
        match outcome {
            Err(io) => Err(Error::IoError(io)),
            Ok(_n) => Ok(()),
        }
    }

    /// The text that stands for `code` on the wire: a key's control sequence,
    /// or literal text as it is.
    pub fn encode<T: AsAnsi>(code: &T) -> (s: String)
        ensures
            s@ == code.ansi(),
    {
        let mut s = String::new();
        code.add_to_string(&mut s);
        s
    }
}

} // verus!
