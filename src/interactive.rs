//! Line-based dialogue with a child: what to write to its stdin, and reading
//! its stdout line by line until a line holds the expected marker.
use vstd::prelude::*;

use crate::text::{contains_seq, contains_str};

verus! {

/// What goes wrong in one exchange with the child.
#[derive(Debug, Clone, Copy, PartialEq, Eq, Structural)]
pub enum InteractError {
    /// Stdout ended before a line held the marker.
    PatternNotFound,
    /// The marker was found but the reply is empty.
    EmptyOutput,
    /// A line of stdout is not valid UTF-8.
    BadEncoding,
}

/// One reading from the child's stdout.
pub enum LineEvent {
    /// A line, without its line break.
    Line(String),
    /// Stdout has ended.
    Eof,
    /// The next line is not valid UTF-8.
    BadEncoding,
}

/// Where a reading leaves the exchange.
pub enum ReadStep {
    /// The marker has not been seen yet: read on.
    Pending,
    /// The reply: every line read, the marker's line last, each ended by a
    /// line break.
    Found(String),
    Failed(InteractError),
}

/// The text so far with `line` and a line break added.
pub open spec fn with_line(text: Seq<char>, line: Seq<char>) -> Seq<char> {
    text + line + seq!['\n']
}

/// What is written to the child's stdin for `input`: nothing when it is
/// empty.
pub fn stdin_payload(input: &str) -> (r: Option<&str>)
    ensures
        input@.len() == 0 ==> r is None,
        input@.len() > 0 ==> r == Some(input),
{
    if input.unicode_len() == 0 {
        None
    } else {
        Some(input)
    }
}

/// Collects the child's stdout lines until one holds the marker.
pub struct MarkerReader {
    marker: String,
    text: String,
}

impl MarkerReader {
    pub closed spec fn marker_spec(&self) -> Seq<char> {
        self.marker@
    }

    /// The lines read so far in this exchange, each with its line break.
    pub closed spec fn text_spec(&self) -> Seq<char> {
        self.text@
    }

    /// A reader waiting for a line that holds `marker`.
    pub fn new(marker: &str) -> (r: MarkerReader)
        ensures
            r.marker_spec() == marker@,
            r.text_spec() == Seq::<char>::empty(),
    {
        MarkerReader { marker: marker.to_owned(), text: String::new() }
    }

    /// Takes in one reading. A line that holds the marker ends the exchange
    /// with the text read, that line included; another line is kept and
    /// the reading goes on; the end of stdout or a line that is not UTF-8
    /// fails it, and the text read is dropped. After the exchange ends the
    /// reader is empty again, ready for the next.
    pub fn feed(&mut self, ev: LineEvent) -> (r: ReadStep)
        ensures
            final(self).marker_spec() == old(self).marker_spec(),
            match ev {
                LineEvent::Line(l) => if contains_seq(l@, old(self).marker_spec()) {
                    final(self).text_spec() == Seq::<char>::empty() && if with_line(
                        old(self).text_spec(),
                        l@,
                    ).len() == 0 {
                        r == ReadStep::Failed(InteractError::EmptyOutput)
                    } else {
                        r matches ReadStep::Found(t) && t@ == with_line(old(self).text_spec(), l@)
                    }
                } else {
                    r == ReadStep::Pending && final(self).text_spec() == with_line(
                        old(self).text_spec(),
                        l@,
                    )
                },
                LineEvent::Eof => r == ReadStep::Failed(InteractError::PatternNotFound)
                    && final(self).text_spec() == Seq::<char>::empty(),
                LineEvent::BadEncoding => r == ReadStep::Failed(InteractError::BadEncoding)
                    && final(self).text_spec() == Seq::<char>::empty(),
            },
    {
        proof {
            reveal_strlit("\n");
        }
        match ev {
            LineEvent::Line(l) => {
                self.text.append(l.as_str());
                self.text.append("\n");
                proof {
                    assert(self.text@ =~= with_line(old(self).text@, l@));
                }
                if contains_str(l.as_str(), self.marker.as_str()) {
                    let mut out = String::new();
                    std::mem::swap(&mut out, &mut self.text);
                    if out.unicode_len() == 0 {
                        ReadStep::Failed(InteractError::EmptyOutput)
                    } else {
                        ReadStep::Found(out)
                    }
                } else {
                    ReadStep::Pending
                }
            },
            LineEvent::Eof => {
                self.text = String::new();
                ReadStep::Failed(InteractError::PatternNotFound)
            },
            LineEvent::BadEncoding => {
                self.text = String::new();
                ReadStep::Failed(InteractError::BadEncoding)
            },
        }
    }
}

/// When the first line read already holds the marker, the reply is that
/// line with its line break, and it is never empty.
pub proof fn lemma_marker_in_first_line(line: Seq<char>, marker: Seq<char>)
    requires
        contains_seq(line, marker),
    ensures
        with_line(Seq::<char>::empty(), line) == line.push('\n'),
        with_line(Seq::<char>::empty(), line).len() > 0,
{
    assert(with_line(Seq::<char>::empty(), line) =~= line.push('\n'));
}

} // verus!
