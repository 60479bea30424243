//! Decides what the terminal shows while an answer streams in: reasoning is set
//! apart between `<THINK>` tags, tool calls and resets are colored with ANSI codes.
//! Each method returns the text to write; writing it is the caller's.
use vstd::prelude::*;
use vstd::string::StringExecFns;

verus! {

/// What the printer is showing.
#[derive(Debug, Clone, Copy, PartialEq, Eq, Structural)]
pub enum Mode {
    Idle,
    Reasoning,
    ToolCall,
    Tool,
    Content,
}

/// Tracks the mode of the output stream.
#[derive(Debug, Clone, Copy)]
pub struct Printer {
    mode: Mode,
}

pub const ANSI_RESET: &'static str = "\x1b[0m";
pub const ANSI_RESET_FAINT: &'static str = "\x1b[22m";
pub const ANSI_FAINT: &'static str = "\x1b[2m";
pub const ANSI_BOLD: &'static str = "\x1b[1m";
pub const ANSI_GREEN: &'static str = "\x1b[32m";
pub const ANSI_BLUE: &'static str = "\x1b[34m";
pub const ANSI_LIGHT_BLUE: &'static str = "\x1b[94m";
pub const ANSI_BRIGHT_BLUE: &'static str = "\x1b[94m";
pub const ANSI_MAGENTA: &'static str = "\x1b[35m";
pub const ANSI_CYAN: &'static str = "\x1b[36m";
pub const ANSI_BRIGHT_CYAN: &'static str = "\x1b[96m";
pub const ANSI_BACKTICK: &'static str = ANSI_CYAN;
pub const ANSI_COLOR_24: &'static str = "\x1b[38;5;24m";
pub const ANSI_COLOR_30: &'static str = "\x1b[38;5;30m";
pub const ANSI_COLOR_37: &'static str = "\x1b[38;5;37m";
pub const ANSI_TOOL: &'static str = ANSI_COLOR_37;
pub const ANSI_HIDE_CURSOR: &'static str = "\x1b[?25l";
pub const ANSI_SHOW_CURSOR: &'static str = "\x1b[?25h";

/// What is written between the output of mode `from` and that of mode `to`:
/// entering reasoning opens a `<THINK>` section (on a new line after content),
/// leaving it for content closes it.
pub open spec fn transition_marker(from: Mode, to: Mode) -> Seq<char> {
    if from == Mode::Idle && to == Mode::Reasoning {
        "<THINK>\n"@
    } else if from == Mode::Content && to == Mode::Reasoning {
        "\n<THINK>\n"@
    } else if from == Mode::Reasoning && to == Mode::Content {
        "</THINK>\n"@
    } else {
        Seq::empty()
    }
}

/// The codes that end all styling.
pub open spec fn reset_codes() -> Seq<char> {
    ANSI_RESET@ + ANSI_RESET_FAINT@
}

impl View for Printer {
    type V = Mode;

    closed spec fn view(&self) -> Mode {
        self.mode
    }
}

impl Default for Printer {
    fn default() -> (res: Self)
        ensures
            res@ == Mode::Idle,
    {
        Printer { mode: Mode::Idle }
    }
}

fn marker(from: Mode, to: Mode) -> (res: &'static str)
    ensures
        res@ == transition_marker(from, to),
{
    if from == Mode::Idle && to == Mode::Reasoning {
        "<THINK>\n"
    } else if from == Mode::Content && to == Mode::Reasoning {
        "\n<THINK>\n"
    } else if from == Mode::Reasoning && to == Mode::Content {
        "</THINK>\n"
    } else {
        proof {
            reveal_strlit("");
        }
        ""
    }
}

impl Printer {
    /// The current mode.
    pub fn mode(&self) -> (res: Mode)
        ensures
            res == self@,
    {
        self.mode
    }

    /// Sets the mode.
    pub fn set_mode(&mut self, mode: Mode)
        ensures
            final(self)@ == mode,
    {
        self.mode = mode;
    }

    /// Hides the cursor and turns bold on.
    pub fn hide_cursor(&self) -> (res: String)
        ensures
            res@ == ANSI_HIDE_CURSOR@ + ANSI_BOLD@,
    {
        let mut res = String::from_str(ANSI_HIDE_CURSOR);
        res.append(ANSI_BOLD);
        res
    }

    /// Shows the cursor.
    pub fn show_cursor(&self) -> (res: String)
        ensures
            res@ == ANSI_SHOW_CURSOR@,
    {
        String::from_str(ANSI_SHOW_CURSOR)
    }

    /// A tool call, `[name] arguments` on a line of its own in the tool color, then a reset.
    pub fn tool(&mut self, tool_name: &str, tool_args: &str) -> (res: String)
        ensures
            res@ == ANSI_TOOL@ + "["@ + tool_name@ + "] "@ + tool_args@ + "\n"@ + reset_codes(),
            final(self)@ == Mode::Idle,
    {
        let mut res = String::from_str(ANSI_TOOL);
        res.append("[");
        res.append(tool_name);
        res.append("] ");
        res.append(tool_args);
        res.append("\n");
        let reset = self.reset();
        res.append(reset.as_str());
        res
    }

    /// A piece of output in mode `mode`, preceded by the marker of the change of mode.
    pub fn print(&mut self, mode: Mode, content: &str) -> (res: String)
        ensures
            res@ == transition_marker(old(self)@, mode) + content@,
            final(self)@ == mode,
    {
        let mut res = String::from_str(marker(self.mode, mode));
        self.mode = mode;
        res.append(content);
        res
    }

    /// Ends all styling and goes back to idle.
    pub fn reset(&mut self) -> (res: String)
        ensures
            res@ == reset_codes(),
            final(self)@ == Mode::Idle,
    {
        self.mode = Mode::Idle;
        let mut res = String::from_str(ANSI_RESET);
        res.append(ANSI_RESET_FAINT);
        res
    }

    /// A line break.
    pub fn new_line(&mut self) -> (res: String)
        ensures
            res@ == "\n"@,
            final(self)@ == old(self)@,
    {
        String::from_str("\n")
    }
}

} // verus!

verus! {

/// How a marker changes the number of open `<THINK>` sections: +1 for an opening marker,
/// -1 for a closing one.
pub open spec fn think_delta(from: Mode, to: Mode) -> int {
    let m = transition_marker(from, to);
    if m == "<THINK>\n"@ || m == "\n<THINK>\n"@ {
        1
    } else if m == "</THINK>\n"@ {
        -1
    } else {
        0
    }
}

/// The mode after printing in the modes `modes`, in order, starting in `from`.
pub open spec fn mode_after(from: Mode, modes: Seq<Mode>) -> Mode {
    if modes.len() == 0 {
        from
    } else {
        modes.last()
    }
}

/// The number of `<THINK>` sections left open by printing in the modes `modes`, in order,
/// starting in `from`.
pub open spec fn open_thinks(from: Mode, modes: Seq<Mode>) -> int
    decreases modes.len(),
{
    if modes.len() == 0 {
        0
    } else {
        open_thinks(from, modes.drop_last()) + think_delta(
            mode_after(from, modes.drop_last()),
            modes.last(),
        )
    }
}

proof fn lemma_think_delta_values(from: Mode, to: Mode)
    requires
        to == Mode::Reasoning || to == Mode::Content,
    ensures
        think_delta(from, to) == if to == Mode::Reasoning && from != Mode::Reasoning && (from
            == Mode::Idle || from == Mode::Content) {
            1int
        } else if from == Mode::Reasoning && to == Mode::Content {
            -1int
        } else {
            0int
        },
{
    reveal_strlit("<THINK>\n");
    reveal_strlit("\n<THINK>\n");
    reveal_strlit("</THINK>\n");
    assert("<THINK>\n"@[0] != "</THINK>\n"@[0] || "<THINK>\n"@[1] != "</THINK>\n"@[1]);
    assert("\n<THINK>\n"@[0] != "</THINK>\n"@[0]);
    assert("\n<THINK>\n"@[0] != "<THINK>\n"@[0]);
    assert(Seq::<char>::empty().len() == 0);
}

/// `<THINK>` sections are balanced: when reasoning and content are printed in any order
/// from a printer that is not in reasoning, exactly one section is open while the printer
/// is in reasoning, and none otherwise: every section is closed before content follows.
pub proof fn lemma_think_sections_balanced(from: Mode, modes: Seq<Mode>)
    requires
        from == Mode::Idle || from == Mode::Content,
        forall|i: int| 0 <= i < modes.len() ==> #[trigger] modes[i] == Mode::Reasoning || modes[i] == Mode::Content,
    ensures
        open_thinks(from, modes) == if mode_after(from, modes) == Mode::Reasoning {
            1int
        } else {
            0int
        },
    decreases modes.len(),
{
    if modes.len() > 0 {
        let init = modes.drop_last();
        assert forall|i: int| 0 <= i < init.len() implies #[trigger] init[i] == Mode::Reasoning
            || init[i] == Mode::Content by {
            assert(init[i] == modes[i]);
        }
        lemma_think_sections_balanced(from, init);
        assert(modes.last() == modes[modes.len() - 1]);
        lemma_think_delta_values(mode_after(from, init), modes.last());
        if init.len() > 0 {
            assert(init.last() == modes[modes.len() - 2]);
        }
    }
}

} // verus!
