//! Events that a terminal takes from the test.

use vstd::prelude::*;

use crate::term::SizeInfo;

verus! {

/// Something that follows the size of the terminal.
pub trait OnResize {
    /// Takes note of the terminal's new size.
    fn on_resize(&mut self, size: &SizeInfo);
}

} // verus!
