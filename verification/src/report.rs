//! Failures as text for a test's output: a screen difference line by line,
//! with what was removed, added or kept, and the screen that was observed.

use vstd::prelude::*;
use vstd::string::StringExecFns;

use crate::diff::DiffModel;
use crate::diff::ScreenDiff;
use crate::error::Error;
use crate::screen::AsciiScreen;
use crate::screen::ScreenModel;
use crate::text::lines_with;
use crate::text::nonempty;
use crate::text::push_lines;
use crate::text::push_nonempty_lines;
use crate::text::split_lines;
use crate::text::split_on;
use crate::text::texts;

verus! {

/// A run of lines of a comparison of two texts.
#[derive(Debug)]
pub enum LineChange {
    /// Lines that both texts have.
    Same(String),
    /// Lines that only the second text has.
    Add(String),
    /// Lines that only the first text has.
    Rem(String),
}

/// A run of lines as plain values.
pub enum ChangeModel {
    Same(Seq<char>),
    Add(Seq<char>),
    Rem(Seq<char>),
}

impl View for LineChange {
    type V = ChangeModel;

    open spec fn view(&self) -> ChangeModel {
        match self {
            LineChange::Same(lines) => ChangeModel::Same(lines@),
            LineChange::Add(lines) => ChangeModel::Add(lines@),
            LineChange::Rem(lines) => ChangeModel::Rem(lines@),
        }
    }
}

/// The runs as plain values.
pub open spec fn change_models(changes: Seq<LineChange>) -> Seq<ChangeModel> {
    Seq::new(changes.len(), |i: int| changes[i]@)
}

/// The runs of lines into which `difference::Changeset::new` divides the two
/// texts, split at `split`: its field `diffs`.
pub uninterp spec fn changeset(orig: Seq<char>, edit: Seq<char>, split: Seq<char>) -> Seq<
    ChangeModel,
>;

/// A text as `std`'s `Debug` writes a string slice: in double quotes, with
/// what cannot stand there as it is escaped.
pub uninterp spec fn quoted(text: Seq<char>) -> Seq<char>;

/// `difference::Changeset::new`, of which the runs of lines are kept, each
/// as the same kind of run with the same text. They are a function of the
/// three texts.
#[verifier::external_body]
pub(crate) fn line_changes(orig: &str, edit: &str, split: &str) -> (changes: Vec<LineChange>)
    ensures
        change_models(changes@) == changeset(orig@, edit@, split@),
{
    let diffs = difference::Changeset::new(orig, edit, split).diffs;
    diffs.into_iter().map(
        |d| match d {
            difference::Difference::Same(x) => LineChange::Same(x),
            difference::Difference::Add(x) => LineChange::Add(x),
            difference::Difference::Rem(x) => LineChange::Rem(x),
        },
    ).collect()
}

/// `Debug` formatting of a string slice by `std`, which is a function of the
/// text.
#[verifier::external_body]
pub(crate) fn debug_quoted(text: &str) -> (out: String)
    ensures
        out@ == quoted(text@),
{
    format!("{:?}", text)
}

/// `Debug` formatting of an I/O error by `std`. The text may depend on the
/// system that produced the error, so nothing is said of it.
#[verifier::external_body]
pub(crate) fn io_error_debug(err: &std::io::Error) -> String {
    format!("{:?}", err)
}

/// What stands before each line of a run.
pub open spec fn marker(change: ChangeModel) -> Seq<char> {
    match change {
        ChangeModel::Rem(_) => "  -"@,
        ChangeModel::Add(_) => "  +"@,
        ChangeModel::Same(_) => "   "@,
    }
}

/// The lines of a run.
pub open spec fn run_text(change: ChangeModel) -> Seq<char> {
    match change {
        ChangeModel::Rem(lines) => lines,
        ChangeModel::Add(lines) => lines,
        ChangeModel::Same(lines) => lines,
    }
}

/// The runs one after the other, each line of each run after its marker.
pub open spec fn changes_text(changes: Seq<ChangeModel>) -> Seq<char>
    decreases changes.len(),
{
    if changes.len() == 0 {
        Seq::empty()
    } else {
        changes_text(changes.drop_last()) + lines_with(
            marker(changes.last()),
            split_on(run_text(changes.last()), '\n'),
        )
    }
}

/// The report on a difference whose texts compare as `changes` say.
pub open spec fn diff_report(changes: Seq<ChangeModel>) -> Seq<char> {
    "ScreenDiff {\n"@ + changes_text(changes) + "}"@
}

impl DiffModel {
    /// The runs of lines in which the expected and the observed text compare;
    /// none if the texts are the same.
    pub open spec fn changes(self) -> Seq<ChangeModel> {
        match self.content {
            Some((expected, received)) => changeset(expected, received, "\n"@),
            None => Seq::empty(),
        }
    }

    /// The report on the difference. It shows the texts, not the cursors.
    pub open spec fn report(self) -> Seq<char> {
        diff_report(self.changes())
    }
}

/// Lines of fragments, as a test would write them down: each quoted line
/// with the word for a line break after it.
pub open spec fn fragment_lines(quoted_lines: Seq<Seq<char>>) -> Seq<char>
    decreases quoted_lines.len(),
{
    if quoted_lines.len() == 0 {
        Seq::empty()
    } else {
        fragment_lines(quoted_lines.drop_last()) + quoted_lines.last() + ", NL, \n"@
    }
}

/// Each of the lines, quoted.
pub open spec fn quoted_each(lines: Seq<Seq<char>>) -> Seq<Seq<char>> {
    Seq::new(lines.len(), |i: int| quoted(lines[i]))
}

/// A screen's text as lines of fragments.
pub open spec fn screen_dump(contents: Seq<char>) -> Seq<char> {
    fragment_lines(quoted_each(split_on(contents, '\n')))
}

/// What a report says of the observed screen: the difference, indented, and
/// the screen as fragments, one line each, between braces.
pub open spec fn observation(diff: DiffModel, screen: ScreenModel) -> Seq<char> {
    lines_with("  "@, split_on(diff.report(), '\n')) + "  Screen {\n"@ + lines_with(
        "    "@,
        nonempty(split_on(screen_dump(screen.contents), '\n')),
    ) + "  }\n"@
}

impl Error {
    /// The report on the failure, where `io_detail` is what the system says
    /// of a failed read or write.
    pub open spec fn report(&self, io_detail: Seq<char>) -> Seq<char> {
        "PTYError {\n"@ + match self {
            Error::TimeoutForScreenState(diff, screen) => observation(diff@, screen@)
                + "  Screen timeout\n"@,
            Error::ProcessExited(diff, screen) => observation(diff@, screen@)
                + "  Process exited\n"@,
            Error::IoError(_) => "  IoError: "@ + io_detail + "\n"@,
        } + "}\n"@
    }
}

/// The report on a difference whose texts compare as `changes` say: between
/// a heading and a closing brace, each line of each run after the marker of
/// its kind.
pub fn render_changes(changes: &Vec<LineChange>) -> (out: String)
    ensures
        out@ == diff_report(change_models(changes@)),
{
    let mut out = String::new();
    out.append("ScreenDiff {\n");
    let mut i: usize = 0;
    while i < changes.len()
        invariant
            i <= changes.len(),
            out@ == "ScreenDiff {\n"@ + changes_text(change_models(changes@.take(i as int))),
        decreases changes.len() - i,
    {
        let ghost before = change_models(changes@.take(i as int));
        let ghost now = change_models(changes@.take(i + 1));
        assert(now.drop_last() =~= before);
        match &changes[i] {
            LineChange::Rem(x) => {
                let lines = split_lines(x.as_str());
                push_lines(&mut out, "  -", &lines);
            },
            LineChange::Add(x) => {
                let lines = split_lines(x.as_str());
                push_lines(&mut out, "  +", &lines);
            },
            LineChange::Same(x) => {
                let lines = split_lines(x.as_str());
                push_lines(&mut out, "   ", &lines);
            },
        }
        i += 1;
    }
    assert(changes@.take(i as int) =~= changes@);
    out.append("}");
    out
}

impl ScreenDiff {
    /// The report on the difference: the expected and the observed text
    /// compared line by line, with `-` before a line that is missing, `+`
    /// before one that is not expected, and the lines that agree.
    pub fn render(&self) -> (out: String)
        ensures
            out@ == self@.report(),
    {
        let changes = match self.content_diff() {
            None => Vec::new(),
            Some((expected, found)) => line_changes(expected, found, "\n"),
        };
        render_changes(&changes)
    }
}

/// Lines of fragments from lines that are quoted already: each with the word
/// for a line break after it.
pub fn render_fragments(quoted_lines: &Vec<String>) -> (out: String)
    ensures
        out@ == fragment_lines(texts(quoted_lines@)),
{
    let mut s = String::new();
    let mut i: usize = 0;
    while i < quoted_lines.len()
        invariant
            i <= quoted_lines.len(),
            s@ == fragment_lines(texts(quoted_lines@.take(i as int))),
        decreases quoted_lines.len() - i,
    {
        let ghost before = texts(quoted_lines@.take(i as int));
        let ghost now = texts(quoted_lines@.take(i + 1));
        assert(now.drop_last() =~= before);
        s.append(quoted_lines[i].as_str());
        s.append(", NL, \n");
        i += 1;
    }
    assert(quoted_lines@.take(i as int) =~= quoted_lines@);
    s
}

impl AsciiScreen {
    /// The screen as fragments, as a test would write them down: each line
    /// of the text quoted, with the word for a line break after it. The
    /// cursor is not shown.
    pub fn as_fragments(&self) -> (out: String)
        ensures
            out@ == screen_dump(self@.contents),
    {
        let lines = split_lines(self.contents());
        let mut quoted_lines: Vec<String> = Vec::new();
        let mut i: usize = 0;
        while i < lines.len()
            invariant
                i <= lines.len(),
                texts(quoted_lines@) == quoted_each(texts(lines@.take(i as int))),
            decreases lines.len() - i,
        {
            let line = debug_quoted(lines[i].as_str());
            proof {
                let now = quoted_each(texts(lines@.take(i + 1)));
                let pushed = texts(quoted_lines@.push(line));
                assert(texts(quoted_lines@).len() == i);
                assert forall|k: int| 0 <= k < pushed.len() implies pushed[k] == now[k] by {
                    if k < i {
                        assert(pushed[k] == texts(quoted_lines@)[k]);
                    }
                }
            }
            quoted_lines.push(line);
            i += 1;
        }
        assert(lines@.take(i as int) =~= lines@);
        render_fragments(&quoted_lines)
    }
}

/// Appends what a report says of the observed screen.
fn push_observation(out: &mut String, diff: &ScreenDiff, screen: &AsciiScreen)
    ensures
        final(out)@ == old(out)@ + observation(diff@, screen@),
{
    let diff_text = diff.render();
    let diff_lines = split_lines(diff_text.as_str());
    push_lines(out, "  ", &diff_lines);
    out.append("  Screen {\n");
    let fragments = screen.as_fragments();
    let fragment_lines = split_lines(fragments.as_str());
    push_nonempty_lines(out, "    ", &fragment_lines);
    out.append("  }\n");
}

impl Error {
    /// The report on the failure, where `io_detail` is what the system says
    /// of a failed read or write: between a heading and a closing brace, the
    /// difference and the observed screen, if the failure has them, and a
    /// line that names the kind of failure.
    pub fn render_with(&self, io_detail: &str) -> (out: String)
        ensures
            out@ == self.report(io_detail@),
    {
        let mut out = String::new();
        out.append("PTYError {\n");
        match self {
            Error::TimeoutForScreenState(screen_diff, ascii_state) => {
                push_observation(&mut out, screen_diff, ascii_state);
                out.append("  Screen timeout\n");
            },
            Error::ProcessExited(screen_diff, ascii_state) => {
                push_observation(&mut out, screen_diff, ascii_state);
                out.append("  Process exited\n");
            },
            Error::IoError(_) => {
                out.append("  IoError: ");
                out.append(io_detail);
                out.append("\n");
            },
        }
        out.append("}\n");
        out
    }

    /// The report on the failure. For a failed read or write it holds what
    /// the system says of it; for the other kinds it is the same whatever
    /// that would be.
    pub fn render(&self) -> (out: String)
        ensures
            exists|io_detail: Seq<char>| out@ == self.report(io_detail),
            !(self is IoError) ==> out@ == self.report(Seq::empty()),
    {
        match self {
            Error::IoError(err) => {
                let detail = io_error_debug(err);
                self.render_with(detail.as_str())
            },
            _ => {
                let out = self.render_with("");
                assert(""@ =~= Seq::<char>::empty()) by {
                    reveal_strlit("");
                }
                out
            },
        }
    }
}

} // verus!
