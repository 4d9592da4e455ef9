use vstd::prelude::*;
use crate::json::Json;
use crate::message::{Request, decoded, decode};

verus! {

/// What one read of the input stream gave. For a line, `parsed` is the JSON
/// value that its text holds, or why it holds none.
#[derive(Debug, PartialEq)]
pub enum Input {
    Line { text: String, parsed: Result<Json, String> },
    End,
    Failed(String),
}

/// What the loop does next.
#[derive(Debug, PartialEq)]
pub enum Action {
    /// The stream ended: stop, successfully.
    Stop,
    /// Reading failed: report this diagnostic and stop, unsuccessfully.
    Abort(String),
    /// Nothing to do for this line.
    Skip,
    /// The line is no request: report this diagnostic and go on.
    Report(String),
    /// Dispatch this request and write its answer as one line.
    Handle(Request),
}

#[derive(Debug, PartialEq, Eq)]
pub enum Phase {
    Open,
    Closed,
    Broken,
}

/// The per-line decisions of the serving loop.
#[derive(Debug, PartialEq)]
pub struct Session {
    pub phase: Phase,
}

/// The characters that `char::is_whitespace` accepts (Unicode White_Space).
pub open spec fn is_space(c: char) -> bool {
    ||| c == ' '
    ||| ('\u{9}' <= c && c <= '\u{d}')
    ||| c == '\u{85}'
    ||| c == '\u{a0}'
    ||| c == '\u{1680}'
    ||| ('\u{2000}' <= c && c <= '\u{200a}')
    ||| c == '\u{2028}'
    ||| c == '\u{2029}'
    ||| c == '\u{202f}'
    ||| c == '\u{205f}'
    ||| c == '\u{3000}'
}

/// A line of nothing but white space, the empty line included.
pub open spec fn is_blank(text: Seq<char>) -> bool {
    forall|i: int| 0 <= i < text.len() ==> is_space(#[trigger] text[i])
}

fn space(c: char) -> (r: bool)
    ensures
        r == is_space(c),
{
    c == ' ' || ('\u{9}' <= c && c <= '\u{d}') || c == '\u{85}' || c == '\u{a0}' || c == '\u{1680}'
        || ('\u{2000}' <= c && c <= '\u{200a}') || c == '\u{2028}' || c == '\u{2029}' || c
        == '\u{202f}' || c == '\u{205f}' || c == '\u{3000}'
}

/// Whether a line is blank.
pub fn blank(text: &str) -> (r: bool)
    ensures
        r == is_blank(text@),
{
    let n = text.unicode_len();
    let mut i: usize = 0;
    while i < n
        invariant
            n == text@.len(),
            i <= n,
            forall|k: int| 0 <= k < i ==> is_space(#[trigger] text@[k]),
        decreases n - i,
    {
        if !space(text.get_char(i)) {
            return false;
        }
        i = i + 1;
    }
    true
}

/// The diagnostic for a line that holds no request.
pub open spec fn parse_diagnostic(why: Seq<char>) -> Seq<char> {
    "Failed to parse request: "@ + why
}

/// The diagnostic for a failed read.
pub open spec fn read_diagnostic(why: Seq<char>) -> Seq<char> {
    "Failed to read line: "@ + why
}

/// From an open session, `input` leads to action `a` and phase `p`: the end
/// of the stream closes the session, a failed read breaks it, and a line
/// leaves it open. A blank line is skipped; a line that does not parse, or
/// whose value is no request, is reported; a request is handled.
pub open spec fn steps(input: Input, a: Action, p: Phase) -> bool {
    match input {
        Input::End => a == Action::Stop && p == Phase::Closed,
        Input::Failed(why) => (a matches Action::Abort(m) && m@ == read_diagnostic(why@)) && p
            == Phase::Broken,
        Input::Line { text, parsed } => p == Phase::Open && if is_blank(text@) {
            a == Action::Skip
        } else {
            match parsed {
                Err(why) => a matches Action::Report(m) && m@ == parse_diagnostic(why@),
                Ok(j) => match decoded(j) {
                    Ok(request) => a == Action::Handle(request),
                    Err(f) => a matches Action::Report(m) && m@ == parse_diagnostic(f.text()),
                },
            }
        },
    }
}

/// Whether an action writes to the output.
pub open spec fn writes(a: Action) -> bool {
    a is Handle
}

fn diagnostic(prefix: &str, why: &str) -> (r: String)
    ensures
        r@ == prefix@ + why@,
{
    let mut r = String::from_str(prefix);
    r.append(why);
    r
}

/// A run of the loop: `actions[i]` answers `inputs[i]`, every input but the
/// last left the session open, and the last left it in phase `end`.
pub open spec fn ran(inputs: Seq<Input>, actions: Seq<Action>, end: Phase) -> bool
    decreases inputs.len(),
{
    &&& inputs.len() == actions.len()
    &&& if inputs.len() == 0 {
        end == Phase::Open
    } else {
        ran(inputs.drop_last(), actions.drop_last(), Phase::Open) && steps(
            inputs.last(),
            actions.last(),
            end,
        )
    }
}

/// The requests that a run handles, in order; each is answered by one line.
pub open spec fn handled(actions: Seq<Action>) -> Seq<Request>
    decreases actions.len(),
{
    if actions.len() == 0 {
        Seq::empty()
    } else {
        match actions.last() {
            Action::Handle(request) => handled(actions.drop_last()).push(request),
            _ => handled(actions.drop_last()),
        }
    }
}

/// A line that holds a request.
pub open spec fn holds_request(input: Input) -> bool {
    input matches Input::Line { text, parsed } && !is_blank(text@) && (parsed matches Ok(j)
        && decoded(j) is Ok)
}

/// The request that such a line holds.
pub open spec fn request_in(input: Input) -> Request {
    match input {
        Input::Line { parsed: Ok(j), .. } => decoded(j)->Ok_0,
        _ => arbitrary(),
    }
}

/// A line that does not parse writes nothing, and the loop goes on.
pub proof fn lemma_malformed_line_skipped(text: String, why: String, a: Action, p: Phase)
    requires
        steps(Input::Line { text, parsed: Err(why) }, a, p),
    ensures
        !writes(a),
        p == Phase::Open,
{
}

/// A blank line is skipped: no answer, and the loop goes on.
pub proof fn lemma_blank_line_skipped(text: String, parsed: Result<Json, String>, a: Action, p: Phase)
    requires
        is_blank(text@),
        steps(Input::Line { text, parsed }, a, p),
    ensures
        a == Action::Skip,
        p == Phase::Open,
{
}

/// Where `lines` all hold requests, the loop stays open and handles each
/// request once, in the order of the lines.
pub proof fn lemma_lines_handled_in_order(lines: Seq<Input>, actions: Seq<Action>, end: Phase)
    requires
        forall|i: int| 0 <= i < lines.len() ==> holds_request(#[trigger] lines[i]),
        ran(lines, actions, end),
    ensures
        end == Phase::Open,
        handled(actions) == lines.map_values(|l: Input| request_in(l)),
    decreases lines.len(),
{
    if lines.len() > 0 {
        assert(holds_request(lines[lines.len() - 1]));
        lemma_lines_handled_in_order(lines.drop_last(), actions.drop_last(), Phase::Open);
        assert(lines.drop_last().map_values(|l: Input| request_in(l)).push(request_in(lines.last()))
            =~= lines.map_values(|l: Input| request_in(l)));
    } else {
        assert(lines.map_values(|l: Input| request_in(l)) =~= Seq::<Request>::empty());
    }
}

/// Where the stream ends after `lines` that all hold requests, the run
/// handles exactly those requests, in order, and stops successfully.
pub proof fn lemma_end_after_requests(lines: Seq<Input>, actions: Seq<Action>, end: Phase)
    requires
        forall|i: int| 0 <= i < lines.len() ==> holds_request(#[trigger] lines[i]),
        ran(lines.push(Input::End), actions, end),
    ensures
        end == Phase::Closed,
        actions.last() == Action::Stop,
        handled(actions) == lines.map_values(|l: Input| request_in(l)),
{
    assert(lines.push(Input::End).drop_last() =~= lines);
    lemma_lines_handled_in_order(lines, actions.drop_last(), Phase::Open);
}

impl Session {
    /// A session that is ready for its first line.
    pub fn new() -> (r: Session)
        ensures
            r.phase == Phase::Open,
    {
        Session { phase: Phase::Open }
    }

    /// Whether the loop goes on reading.
    pub fn is_open(&self) -> (r: bool)
        ensures
            r == (self.phase == Phase::Open),
    {
        match self.phase {
            Phase::Open => true,
            _ => false,
        }
    }

    /// Decides what to do with what was read.
    pub fn step(&mut self, input: Input) -> (a: Action)
        requires
            old(self).phase == Phase::Open,
        ensures
            steps(input, a, final(self).phase),
    {
        proof {
            reveal_strlit("Failed to parse request: ");
            reveal_strlit("Failed to read line: ");
        }
        match input {
            Input::End => {
                self.phase = Phase::Closed;
                Action::Stop
            },
            Input::Failed(why) => {
                self.phase = Phase::Broken;
                Action::Abort(diagnostic("Failed to read line: ", why.as_str()))
            },
            Input::Line { text, parsed } => {
                if blank(text.as_str()) {
                    Action::Skip
                } else {
                    match parsed {
                        Err(why) => Action::Report(
                            diagnostic("Failed to parse request: ", why.as_str()),
                        ),
                        Ok(j) => match decode(j) {
                            Ok(request) => Action::Handle(request),
                            Err(f) => {
                                let why = f.message();
                                Action::Report(diagnostic("Failed to parse request: ", why.as_str()))
                            },
                        },
                    }
                }
            },
        }
    }
}

} // verus!
