//! The screen model and the builder that assembles an expected screen from
//! fragments.

use vstd::pervasive::unreached;
use vstd::prelude::*;
use vstd::string::StrSliceExecFns;
use vstd::string::StringExecFns;

use crate::text::strip_newline;
use crate::text::without_final_newline;

verus! {

/// One piece of an expected screen, as it is written down in a test.
pub enum AsciiScreenFragment {
    /// Ends the current line.
    Newline,
    /// Literal text; the column counter starts over with it.
    String(&'static str),
    /// Moves the column counter on without adding text.
    Underscore(usize),
    /// Marks where the cursor is expected.
    CursorPosition,
    /// Stands for nothing; separators map to it.
    Nothing,
}

/// True if `s` is made of underscores only, the form of an indent.
pub open spec fn is_indent(s: Seq<char>) -> bool {
    forall|i: int| 0 <= i < s.len() ==> s[i] == '_'
}

impl AsciiScreenFragment {
    /// The indent that `s` spells, one column for each underscore, if `s` is
    /// an indent at all.
    pub fn try_by_ident(s: &'static str) -> (r: Option<Self>)
        ensures
            is_indent(s@) ==> r == Some(AsciiScreenFragment::Underscore(s@.len() as usize)),
            !is_indent(s@) ==> r is None,
            s@.len() <= usize::MAX,
    {
        broadcast use vstd::string::group_string_axioms;

        let total = s.unicode_len();
        let mut underscore_prefix: usize = 0;
        let chars = s.chars();
        for c in it: chars
            invariant
                it.seq() == s@,
                total == s@.len(),
                underscore_prefix == it.index(),
                is_indent(s@.subrange(0, it.index())),
        {
            if c != '_' {
                return None;
            }
            underscore_prefix += 1;
        }
        assert(s@.subrange(0, s@.len() as int) =~= s@);
        Some(AsciiScreenFragment::Underscore(underscore_prefix))
    }

    /// The indent that `s` spells, one column for each underscore.
    pub fn by_ident(s: &'static str) -> (r: Self)
        requires
            is_indent(s@),
        ensures
            r == AsciiScreenFragment::Underscore(s@.len() as usize),
            s@.len() <= usize::MAX,
    {
        match Self::try_by_ident(s) {
            Some(indent) => indent,
            None => unreached(),
        }
    }
}

/// What a screen shows: its text and where its cursor is, if it is visible.
/// Two screens are the same screen exactly if their models are equal.
pub struct ScreenModel {
    /// The rows, joined by line breaks.
    pub contents: Seq<char>,
    /// Row and column of the cursor, counted from 0.
    pub cursor: Option<(u16, u16)>,
}

/// The builder's state after some fragments.
pub struct Assembly {
    /// The text so far.
    pub text: Seq<char>,
    /// The number of line breaks so far.
    pub row: nat,
    /// The columns indented since the last literal text.
    pub col: nat,
    /// Where the last cursor marker stood.
    pub cursor: Option<(nat, nat)>,
}

/// The state of the builder before the first fragment.
pub open spec fn blank() -> Assembly {
    Assembly { text: Seq::empty(), row: 0, col: 0, cursor: None }
}

/// The effect of one fragment on the builder's state.
pub open spec fn place(a: Assembly, fragment: AsciiScreenFragment) -> Assembly {
    match fragment {
        AsciiScreenFragment::String(line) => Assembly { text: a.text + line@, col: 0, ..a },
        AsciiScreenFragment::Newline => Assembly { text: a.text.push('\n'), row: a.row + 1, ..a },
        AsciiScreenFragment::Underscore(added) => Assembly { col: a.col + added as nat, ..a },
        AsciiScreenFragment::CursorPosition => Assembly { cursor: Some((a.row, a.col)), ..a },
        AsciiScreenFragment::Nothing => a,
    }
}

/// The builder's state after all of `fragments`, taken from left to right.
pub open spec fn assemble(fragments: Seq<AsciiScreenFragment>) -> Assembly
    decreases fragments.len(),
{
    if fragments.len() == 0 {
        blank()
    } else {
        place(assemble(fragments.drop_last()), fragments.last())
    }
}

/// No two fragments are cursor markers.
pub open spec fn at_most_one_cursor(fragments: Seq<AsciiScreenFragment>) -> bool {
    forall|i: int, j: int|
        #![trigger fragments[i], fragments[j]]
        0 <= i < j < fragments.len() && fragments[i] is CursorPosition
            ==> !(fragments[j] is CursorPosition)
}

/// The column counter stays within the machine's range all the way.
pub open spec fn columns_fit(fragments: Seq<AsciiScreenFragment>) -> bool {
    forall|n: int|
        0 <= n <= fragments.len() ==> (#[trigger] assemble(fragments.take(n))).col <= usize::MAX
}

/// A counter as the screen's 16-bit coordinates hold it.
pub open spec fn coordinate(counter: nat) -> u16 {
    (counter % 0x10000) as u16
}

/// The screen that `fragments` describe: their text without one final line
/// break, and the cursor where the marker stood.
pub open spec fn built(fragments: Seq<AsciiScreenFragment>) -> ScreenModel {
    let a = assemble(fragments);
    ScreenModel {
        contents: without_final_newline(a.text),
        cursor: match a.cursor {
            Some((row, col)) => Some((coordinate(row), coordinate(col))),
            None => None,
        },
    }
}

/// Adding one fragment to a sequence is one step of the builder.
pub proof fn lemma_assemble_step(fragments: Seq<AsciiScreenFragment>, n: int)
    requires
        0 <= n < fragments.len(),
    ensures
        assemble(fragments.take(n + 1)) == place(assemble(fragments.take(n)), fragments[n]),
{
    assert(fragments.take(n + 1).drop_last() =~= fragments.take(n));
}

/// An expected or observed screen: its text, the cursor, and where in the
/// test's source it was written down.
#[derive(Debug)]
pub struct AsciiScreen {
    source_info: Option<(&'static str, u32)>,
    contents: String,
    cursor_rowcol: Option<(u16, u16)>,
}

impl View for AsciiScreen {
    type V = ScreenModel;

    closed spec fn view(&self) -> ScreenModel {
        ScreenModel { contents: self.contents@, cursor: self.cursor_rowcol }
    }
}

impl AsciiScreen {
    /// File and line at which the screen was written down; a screen taken from
    /// a running terminal has none.
    pub closed spec fn origin(&self) -> Option<(&'static str, u32)> {
        self.source_info
    }

    /// A screen with the given text and cursor that no source location
    /// stands for.
    pub fn observed(contents: String, cursor: Option<(u16, u16)>) -> (screen: Self)
        ensures
            screen@ == (ScreenModel { contents: contents@, cursor }),
            screen.origin() is None,
    {
        AsciiScreen { source_info: None, contents, cursor_rowcol: cursor }
    }

    /// Builds the screen that the fragments describe, or nothing if they hold
    /// more than one cursor marker or indent beyond the machine's range.
    pub fn try_new(file: &'static str, line: u32, asf_list: &[AsciiScreenFragment]) -> (r: Option<
        Self,
    >)
        ensures
            r is Some <==> at_most_one_cursor(asf_list@) && columns_fit(asf_list@),
            r matches Some(screen) ==> screen@ == built(asf_list@) && screen.origin() == Some(
                (file, line),
            ),
    {
        let mut contents = String::new();
        let mut rows: usize = 0;
        let mut cols: usize = 0;
        let mut cursor_rowcol: Option<(u16, u16)> = None;
        let ghost mut marker: int = 0;

        let mut i: usize = 0;
        while i < asf_list.len()
            invariant
                i <= asf_list.len(),
                contents@ == assemble(asf_list@.take(i as int)).text,
                rows == assemble(asf_list@.take(i as int)).row,
                cols == assemble(asf_list@.take(i as int)).col,
                rows <= i,
                cursor_rowcol == built(asf_list@.take(i as int)).cursor,
                cursor_rowcol is Some ==> 0 <= marker < i && asf_list@[marker] is CursorPosition,
                cursor_rowcol is None ==> forall|k: int|
                    0 <= k < i ==> !(#[trigger] asf_list@[k] is CursorPosition),
                forall|m: int, n: int|
                    #![trigger asf_list@[m], asf_list@[n]]
                    0 <= m < n < i && asf_list@[m] is CursorPosition ==> !(
                    asf_list@[n] is CursorPosition),
                forall|n: int|
                    0 <= n <= i ==> (#[trigger] assemble(asf_list@.take(n))).col <= usize::MAX,
            decreases asf_list.len() - i,
        {
            proof {
                lemma_assemble_step(asf_list@, i as int);
            }
            match &asf_list[i] {
                AsciiScreenFragment::String(line) => {
                    cols = 0;
                    contents.append(line);
                },
                AsciiScreenFragment::Newline => {
                    contents.push('\n');
                    rows += 1;
                },
                AsciiScreenFragment::Underscore(added_cols) => {
                    match cols.checked_add(*added_cols) {
                        Some(sum) => {
                            cols = sum;
                        },
                        None => {
                            return None;
                        },
                    }
                },
                AsciiScreenFragment::CursorPosition => {
                    if cursor_rowcol.is_some() {
                        assert(asf_list@[marker] is CursorPosition && asf_list@[i as int]
                            is CursorPosition);
                        return None;
                    }
                    assert(rows as u16 == coordinate(rows as nat)) by (bit_vector);
                    assert(cols as u16 == coordinate(cols as nat)) by (bit_vector);
                    cursor_rowcol = Some((
                        #[verifier::truncate]
                        (rows as u16),
                        #[verifier::truncate]
                        (cols as u16),
                    ));
                    proof {
                        marker = i as int;
                    }
                },
                AsciiScreenFragment::Nothing => {},
            }
            i += 1;
        }
        assert(asf_list@.take(i as int) =~= asf_list@);

        strip_newline(&mut contents);

        Some(AsciiScreen { source_info: Some((file, line)), contents, cursor_rowcol })
    }

    /// Builds the screen that the fragments describe: their text from left to
    /// right without one final line break, and the cursor at the row and the
    /// column that the counters had reached at the cursor marker.
    pub fn new(file: &'static str, line: u32, asf_list: &[AsciiScreenFragment]) -> (screen: Self)
        requires
            at_most_one_cursor(asf_list@),
            columns_fit(asf_list@),
        ensures
            screen@ == built(asf_list@),
            screen.origin() == Some((file, line)),
    {
        match Self::try_new(file, line, asf_list) {
            Some(screen) => screen,
            None => unreached(),
        }
    }

    /// The text of the screen as the string that holds it.
    pub(crate) fn text(&self) -> (s: &String)
        ensures
            s@ == self@.contents,
    {
        &self.contents
    }

    /// The text of the screen.
    pub fn contents(&self) -> (s: &str)
        ensures
            s@ == self@.contents,
    {
        self.contents.as_str()
    }

    /// Row and column of the cursor, if the screen has one.
    pub fn cursor(&self) -> (c: Option<(u16, u16)>)
        ensures
            c == self@.cursor,
    {
        self.cursor_rowcol
    }

    /// File and line at which the screen was written down.
    pub fn source_info(&self) -> (origin: Option<(&'static str, u32)>)
        ensures
            origin == self.origin(),
    {
        self.source_info
    }
}

} // verus!
