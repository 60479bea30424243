//! A streaming display: tokens are printed as they come, with a spinner and a status
//! line kept under the last printed line. The decisions are made here, as terminal
//! operations; the threads that produce events and the terminal itself are the caller's.
use vstd::prelude::*;
use vstd::string::StringExecFns;

use crate::term::{ops_view, push_op, TermOp, TermOpView};
use crate::text::chars_of;

verus! {

/// What reaches the display.
#[derive(Debug)]
pub enum Event {
    Token(String),
    Cursor(String),
    Stop,
}

/// The frames of the spinner, in order.
pub const SPINNER: [&'static str; 10] = ["⠋", "⠙", "⠹", "⠸", "⠼", "⠴", "⠦", "⠧", "⠇", "⠏"];

/// The spinner frame that follows frame `i`.
pub fn next_spinner_index(i: usize) -> (res: usize)
    requires
        i < SPINNER.len(),
    ensures
        res == (i + 1) % 10,
        res < SPINNER.len(),
{
    (i + 1) % SPINNER.len()
}

/// The status line under the output: the spinner frame and a label.
pub open spec fn status_text(spinner: Seq<char>) -> Seq<char> {
    spinner + " STREAMING..."@
}

/// Redraws the status line and comes back to the saved position.
pub open spec fn status_ops(spinner: Seq<char>) -> Seq<TermOpView> {
    seq![
        TermOpView::RestorePosition,
        TermOpView::MoveDown(1),
        TermOpView::MoveToColumn(0),
        TermOpView::Print(status_text(spinner)),
        TermOpView::RestorePosition,
    ]
}

/// The operations for one character of a token: a line break opens a fresh line,
/// clears the one below and redraws the status line there; any other character is printed.
/// Either way the position after it is saved.
pub open spec fn char_ops(spinner: Seq<char>, c: char) -> Seq<TermOpView> {
    if c == '\n' {
        seq![
            TermOpView::Print("\r\n"@),
            TermOpView::ClearCurrentLine,
            TermOpView::Print("\r\n"@),
            TermOpView::MoveUp(1),
            TermOpView::MoveToColumn(0),
            TermOpView::SavePosition,
        ] + status_ops(spinner) + seq![TermOpView::SavePosition]
    } else {
        seq![TermOpView::Print(seq![c]), TermOpView::SavePosition]
    }
}

/// The operations for the characters of a token, in order.
pub open spec fn token_ops(spinner: Seq<char>, cs: Seq<char>) -> Seq<TermOpView>
    decreases cs.len(),
{
    if cs.len() == 0 {
        Seq::empty()
    } else {
        token_ops(spinner, cs.drop_last()) + char_ops(spinner, cs.last())
    }
}

/// The operations that end the display.
pub open spec fn stop_ops() -> Seq<TermOpView> {
    seq![
        TermOpView::RestorePosition,
        TermOpView::MoveDown(1),
        TermOpView::MoveToColumn(0),
        TermOpView::ClearCurrentLine,
        TermOpView::Print("STOP\r\n"@),
    ]
}

/// The display's state: the spinner frame last seen.
pub struct StreamDisplay {
    spinner: String,
}

impl View for StreamDisplay {
    type V = Seq<char>;

    closed spec fn view(&self) -> Seq<char> {
        self.spinner@
    }
}

fn status_line(spinner: &str) -> (res: String)
    ensures
        res@ == status_text(spinner@),
{
    let mut s = String::from_str(spinner);
    s.append(" STREAMING...");
    s
}

fn push_status_ops(ops: &mut Vec<TermOp>, spinner: &str)
    ensures
        ops_view(final(ops)@) == ops_view(old(ops)@) + status_ops(spinner@),
{
    let ghost before = ops_view(ops@);
    push_op(ops, TermOp::RestorePosition);
    push_op(ops, TermOp::MoveDown(1));
    push_op(ops, TermOp::MoveToColumn(0));
    push_op(ops, TermOp::Print(status_line(spinner)));
    push_op(ops, TermOp::RestorePosition);
    assert(ops_view(ops@) =~= before + status_ops(spinner@));
}

impl StreamDisplay {
    /// A display with no spinner frame yet.
    pub fn new() -> (res: Self)
        ensures
            res@ == Seq::<char>::empty(),
    {
        StreamDisplay { spinner: String::new() }
    }

    /// What opens the display: a fresh line, whose start is saved.
    pub fn opening(&self) -> (res: Vec<TermOp>)
        ensures
            ops_view(res@) == seq![
                TermOpView::Print("\r\n"@),
                TermOpView::MoveUp(1),
                TermOpView::MoveToColumn(0),
                TermOpView::SavePosition,
            ],
    {
        let mut ops: Vec<TermOp> = Vec::new();
        push_op(&mut ops, TermOp::Print(String::from_str("\r\n")));
        push_op(&mut ops, TermOp::MoveUp(1));
        push_op(&mut ops, TermOp::MoveToColumn(0));
        push_op(&mut ops, TermOp::SavePosition);
        assert(ops_view(ops@) =~= seq![
            TermOpView::Print("\r\n"@),
            TermOpView::MoveUp(1),
            TermOpView::MoveToColumn(0),
            TermOpView::SavePosition,
        ]);
        ops
    }

    /// The operations for one event, and whether the display stops with it.
    pub fn render(&mut self, event: &Event) -> (res: (Vec<TermOp>, bool))
        ensures
            match event {
                Event::Token(t) => {
                    &&& ops_view(res.0@) == token_ops(old(self)@, t@)
                    &&& !res.1
                    &&& final(self)@ == old(self)@
                },
                Event::Cursor(s) => {
                    &&& ops_view(res.0@) == status_ops(s@)
                    &&& !res.1
                    &&& final(self)@ == s@
                },
                Event::Stop => {
                    &&& ops_view(res.0@) == stop_ops()
                    &&& res.1
                    &&& final(self)@ == old(self)@
                },
            },
    {
        let mut ops: Vec<TermOp> = Vec::new();
        match event {
            Event::Token(token) => {
                let cs = chars_of(token.as_str());
                let n = cs.len();
                for i in 0..n
                    invariant
                        n == cs@.len(),
                        cs@ == token@,
                        ops_view(ops@) == token_ops(self.spinner@, cs@.take(i as int)),
                {
                    let c = cs[i];
                    let ghost before = ops_view(ops@);
                    if c == '\n' {
                        push_op(&mut ops, TermOp::Print(String::from_str("\r\n")));
                        push_op(&mut ops, TermOp::ClearCurrentLine);
                        push_op(&mut ops, TermOp::Print(String::from_str("\r\n")));
                        push_op(&mut ops, TermOp::MoveUp(1));
                        push_op(&mut ops, TermOp::MoveToColumn(0));
                        push_op(&mut ops, TermOp::SavePosition);
                        push_status_ops(&mut ops, self.spinner.as_str());
                    } else {
                        let mut one = String::new();
                        crate::text::push_char(&mut one, c);
                        push_op(&mut ops, TermOp::Print(one));
                    }
                    push_op(&mut ops, TermOp::SavePosition);
                    proof {
                        let pre = cs@.take(i + 1);
                        assert(pre.drop_last() =~= cs@.take(i as int));
                        assert(pre.last() == c);
                        assert(ops_view(ops@) =~= before + char_ops(self.spinner@, c));
                    }
                }
                assert(cs@.take(n as int) =~= cs@);
                (ops, false)
            },
            Event::Cursor(spinner) => {
                self.spinner = spinner.clone();
                push_status_ops(&mut ops, spinner.as_str());
                assert(ops_view(ops@) =~= status_ops(spinner@));
                (ops, false)
            },
            Event::Stop => {
                push_op(&mut ops, TermOp::RestorePosition);
                push_op(&mut ops, TermOp::MoveDown(1));
                push_op(&mut ops, TermOp::MoveToColumn(0));
                push_op(&mut ops, TermOp::ClearCurrentLine);
                push_op(&mut ops, TermOp::Print(String::from_str("STOP\r\n")));
                assert(ops_view(ops@) =~= stop_ops());
                (ops, true)
            },
        }
    }
}

} // verus!
