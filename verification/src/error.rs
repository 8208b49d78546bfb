//! The ways in which a test step fails.

use vstd::prelude::*;

use crate::diff::ScreenDiff;
use crate::screen::AsciiScreen;

verus! {

/// `std::io::Error`, which is carried along as it is.
#[verifier::external_type_specification]
#[verifier::external_body]
pub struct ExIoError(std::io::Error);

/// Why a test step failed. The first and the last kind carry the difference
/// to the expected screen and the screen that was last observed.
#[derive(Debug)]
pub enum Error {
    /// The program exited before its screen matched.
    ProcessExited(ScreenDiff, AsciiScreen),
    /// Reading from or writing to the program's terminal failed.
    IoError(std::io::Error),
    /// The screen did not match within the time allowed.
    TimeoutForScreenState(ScreenDiff, AsciiScreen),
}

} // verus!
