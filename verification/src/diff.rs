//! The difference between an observed screen and an expected one.

use vstd::prelude::*;

use crate::screen::AsciiScreen;
use crate::screen::ScreenModel;

verus! {

/// A disagreement about one attribute: what was expected and what was found.
#[derive(Debug, PartialEq, Eq)]
pub struct Change<E> {
    pub expected: E,
    pub received: E,
}

/// What differs between two screens; an attribute that agrees is absent.
#[derive(Debug)]
pub struct ScreenDiff {
    cursor_pos_diff: Option<Change<Option<(u16, u16)>>>,
    content_diff: Option<(String, String)>,
}

/// A screen difference as plain values.
pub struct DiffModel {
    /// The expected and the observed cursor, if they differ.
    pub cursor: Option<Change<Option<(u16, u16)>>>,
    /// The expected and the observed text, in this order, if they differ.
    pub content: Option<(Seq<char>, Seq<char>)>,
}

impl DiffModel {
    /// True if no attribute differs.
    pub open spec fn is_empty(self) -> bool {
        self.cursor is None && self.content is None
    }
}

/// The attributes in which `observed` differs from `expected`, each compared
/// on its own.
pub open spec fn difference(observed: ScreenModel, expected: ScreenModel) -> DiffModel {
    DiffModel {
        cursor: if observed.cursor != expected.cursor {
            Some(Change { expected: expected.cursor, received: observed.cursor })
        } else {
            None
        },
        content: if observed.contents != expected.contents {
            Some((expected.contents, observed.contents))
        } else {
            None
        },
    }
}

/// The outcome of comparing `observed` with `expected`: success without a
/// difference if nothing differs, else the difference.
pub open spec fn compared(observed: ScreenModel, expected: ScreenModel) -> Result<(), DiffModel> {
    let d = difference(observed, expected);
    if d.is_empty() {
        Ok(())
    } else {
        Err(d)
    }
}

/// True if `observed` shows what `expected` asks for.
pub open spec fn matches_screen(observed: ScreenModel, expected: ScreenModel) -> bool {
    compared(observed, expected) is Ok
}

impl View for ScreenDiff {
    type V = DiffModel;

    closed spec fn view(&self) -> DiffModel {
        DiffModel {
            cursor: self.cursor_pos_diff,
            content: match self.content_diff {
                Some((expected, received)) => Some((expected@, received@)),
                None => None,
            },
        }
    }
}

impl ScreenDiff {
    /// The expected and the observed cursor, if they differ.
    pub fn cursor_pos_diff(&self) -> (change: Option<Change<Option<(u16, u16)>>>)
        ensures
            change == self@.cursor,
    {
        match &self.cursor_pos_diff {
            Some(change) => Some(Change { expected: change.expected, received: change.received }),
            None => None,
        }
    }

    /// The expected and the observed text, in this order, if they differ.
    pub fn content_diff(&self) -> (texts: Option<(&str, &str)>)
        ensures
            texts is Some == self@.content is Some,
            texts matches Some((expected, received)) ==> self@.content == Some(
                (expected@, received@),
            ),
    {
        match &self.content_diff {
            Some((expected, received)) => Some((expected.as_str(), received.as_str())),
            None => None,
        }
    }
}

impl AsciiScreen {
    /// Compares this screen, as the one observed, with the expected one.
    /// Text and cursor are each compared, so one call reports both where both
    /// differ; where neither does there is no difference to report.
    pub fn diff(&self, expected: &AsciiScreen) -> (r: Result<(), ScreenDiff>)
        ensures
            r is Ok <==> self@ == expected@,
            match r {
                Ok(()) => compared(self@, expected@) == Ok::<(), DiffModel>(()),
                Err(d) => compared(self@, expected@) == Err::<(), DiffModel>(d@),
            },
    {
        let mut content_diff: Option<(String, String)> = None;
        let mut cursor_pos_diff: Option<Change<Option<(u16, u16)>>> = None;

        if !(*expected.text() == *self.text()) {
            content_diff = Some((expected.text().clone(), self.text().clone()));
        }
        let cursor = self.cursor();
        let wanted = expected.cursor();
        if !same_cursor(cursor, wanted) {
            cursor_pos_diff = Some(Change { expected: wanted, received: cursor });
        }
        if cursor_pos_diff.is_some() || content_diff.is_some() {
            return Err(ScreenDiff { cursor_pos_diff, content_diff });
        }
        Ok(())
    }
}

/// Whether two cursors are the same: both absent, or both at one place.
pub fn same_cursor(a: Option<(u16, u16)>, b: Option<(u16, u16)>) -> (same: bool)
    ensures
        same == (a == b),
{
    match (a, b) {
        (None, None) => true,
        (Some(p), Some(q)) => p.0 == q.0 && p.1 == q.1,
        _ => false,
    }
}

/// Comparing a screen with itself finds no difference.
pub proof fn lemma_diff_reflexive(a: ScreenModel)
    ensures
        compared(a, a) == Ok::<(), DiffModel>(()),
{
}

/// Comparing two screens that differ reports a difference, in which exactly
/// the attributes that differ are present, each with the expected value
/// first and the observed one second.
pub proof fn lemma_diff_exact(observed: ScreenModel, expected: ScreenModel)
    requires
        observed != expected,
    ensures
        compared(observed, expected) matches Err(d) && {
            &&& !d.is_empty()
            &&& d.content is Some <==> observed.contents != expected.contents
            &&& d.cursor is Some <==> observed.cursor != expected.cursor
            &&& d.content matches Some(texts) ==> texts == (expected.contents, observed.contents)
            &&& d.cursor matches Some(change) ==> change == (Change {
                expected: expected.cursor,
                received: observed.cursor,
            })
        },
{
}

/// A comparison succeeds exactly on equal screens.
pub proof fn lemma_compared_exact(observed: ScreenModel, expected: ScreenModel)
    ensures
        compared(observed, expected) is Ok <==> observed == expected,
{
}

} // verus!
