//! Editing the user's prompt key by key: what each key does to the prompt and what is
//! echoed. Reading the keys, the clipboard, the editor and the terminal are the caller's.
use vstd::prelude::*;
use vstd::string::StringExecFns;

use crate::term::{ops_view, push_op, TermOp, TermOpView};
use crate::text::{byte_len, chars_of, push_char, string_from_chars, trim, trim_str};

verus! {

/// How reading the prompt ended: with a prompt, or with a request to leave.
#[derive(Debug, Clone, Copy, PartialEq, Eq, Structural)]
pub enum HandleEventsAction {
    Proceed,
    Exit,
}

/// The key of a key press, as far as the prompt cares.
#[derive(Debug, Clone, Copy, PartialEq, Eq, Structural)]
pub enum KeyCode {
    Char(char),
    Enter,
    Backspace,
    Other,
}

/// The modifiers held with a key: control, shift, and whether any other was held.
#[derive(Debug, Clone, Copy, PartialEq, Eq, Structural)]
pub struct KeyModifiers {
    pub control: bool,
    pub shift: bool,
    pub other: bool,
}

/// A key press.
#[derive(Debug, Clone, Copy, PartialEq, Eq, Structural)]
pub struct KeyEvent {
    pub code: KeyCode,
    pub modifiers: KeyModifiers,
}

/// What the caller does after a key.
#[derive(Debug, Clone, Copy, PartialEq, Eq, Structural)]
pub enum KeyStep {
    /// Leave the chat.
    Exit,
    /// Copy the prompt to the clipboard, then read on.
    Copy,
    /// Perform the operations, replace the prompt by what the editor gives, echo it, read on.
    Edit,
    /// The prompt is complete.
    Submit,
    /// Perform the operations and read on.
    Continue,
}

/// The uppercase form of `c`, as `char::to_uppercase` gives it.
pub uninterp spec fn char_to_uppercase(c: char) -> Seq<char>;

/// Calls `char::to_uppercase` and collects the characters it yields: the uppercase
/// mapping of the Unicode tables, one to three characters, a function of `c` alone.
#[verifier::external_body]
fn to_uppercase(c: char) -> (res: String)
    ensures
        res@ == char_to_uppercase(c),
{
    c.to_uppercase().collect::<String>()
}

/// Number of line breaks in `s`.
pub open spec fn newline_count(s: Seq<char>) -> nat
    decreases s.len(),
{
    if s.len() == 0 {
        0
    } else {
        newline_count(s.drop_last()) + if s.last() == '\n' { 1nat } else { 0nat }
    }
}

/// Number of lines of `s`, as `str::lines` counts them: a final line break ends the
/// last line and does not open another.
pub open spec fn line_count(s: Seq<char>) -> nat {
    newline_count(s) + if s.len() > 0 && s.last() != '\n' { 1nat } else { 0nat }
}

/// What follows the last line break of `s`.
pub open spec fn after_last_newline(s: Seq<char>) -> Seq<char>
    decreases s.len(),
{
    if s.len() == 0 || s.last() == '\n' {
        Seq::empty()
    } else {
        after_last_newline(s.drop_last()).push(s.last())
    }
}

/// The last line of `s` as `str::lines` yields it, the empty line when there is none:
/// a line ended by a line break loses a carriage return before it.
pub open spec fn last_line(s: Seq<char>) -> Seq<char> {
    if s.len() == 0 {
        Seq::empty()
    } else if s.last() == '\n' {
        let l = after_last_newline(s.drop_last());
        if l.len() > 0 && l.last() == '\r' {
            l.drop_last()
        } else {
            l
        }
    } else {
        after_last_newline(s)
    }
}

/// The column the cursor goes to after a line break is erased, leaving prompt `p`:
/// the end of the last line, two columns further on the first line (past the prompt sign).
/// The byte length is cut to 16 bits as the terminal's column type holds it.
pub open spec fn column_after_join(p: Seq<char>) -> int {
    let len = byte_len(last_line(p)) as u16;
    if line_count(p) <= 1 {
        len + 2
    } else {
        len as int
    }
}

/// `s` with each line break written as carriage return and line feed.
pub open spec fn crlf(s: Seq<char>) -> Seq<char>
    decreases s.len(),
{
    if s.len() == 0 {
        Seq::empty()
    } else {
        crlf(s.drop_last()) + if s.last() == '\n' {
            "\r\n"@
        } else {
            seq![s.last()]
        }
    }
}

/// Whether `key` is a character key held with control and nothing said about the rest.
pub open spec fn is_control_char(key: KeyEvent, c: char) -> bool {
    key.code == KeyCode::Char(c) && key.modifiers.control
}

/// Whether no modifier is held.
pub open spec fn no_modifiers(m: KeyModifiers) -> bool {
    !m.control && !m.shift && !m.other
}

/// The keys whose handling would not fit the terminal's 16-bit counters: control-e on a
/// prompt of more than 65535 lines, and backspace over a line break that leaves a
/// first line whose 16-bit byte length is within two of the largest column.
pub open spec fn key_overflows(p: Seq<char>, key: KeyEvent) -> bool {
    if is_control_char(key, 'c') || is_control_char(key, 'y') {
        false
    } else if is_control_char(key, 'e') {
        newline_count(p) > u16::MAX
    } else if key.code == KeyCode::Enter {
        false
    } else if key.code == KeyCode::Backspace {
        p.len() > 0 && p.last() == '\n' && column_after_join(p.drop_last()) > u16::MAX
    } else {
        false
    }
}

/// What a key does to prompt `p`: the step, the new prompt and the operations, in order of
/// precedence: control-c leaves, control-y copies, control-e edits (moving to the start of
/// the prompt and clearing below), shift-enter adds a line break, enter submits, backspace
/// erases the last character (over a line break, going to the end of the line above;
/// otherwise erasing it on screen), an unmodified character or a shifted one (uppercased)
/// is added and echoed; anything else is ignored.
pub open spec fn key_effect(p: Seq<char>, key: KeyEvent) -> (KeyStep, Seq<char>, Seq<TermOpView>) {
    if is_control_char(key, 'c') {
        (KeyStep::Exit, p, Seq::empty())
    } else if is_control_char(key, 'y') {
        (KeyStep::Copy, p, Seq::empty())
    } else if is_control_char(key, 'e') {
        let n = newline_count(p);
        (
            KeyStep::Edit,
            p,
            (if n > 0 { seq![TermOpView::MoveUp(n as u16)] } else { Seq::empty() }) + seq![
                TermOpView::MoveToColumn(2),
                TermOpView::ClearFromCursorDown,
            ],
        )
    } else if key.code == KeyCode::Enter && key.modifiers.shift {
        (KeyStep::Continue, p.push('\n'), seq![TermOpView::Print("\r\n"@)])
    } else if key.code == KeyCode::Enter {
        (KeyStep::Submit, p, Seq::empty())
    } else if key.code == KeyCode::Backspace {
        if p.len() == 0 {
            (KeyStep::Continue, p, Seq::empty())
        } else if p.last() == '\n' {
            (
                KeyStep::Continue,
                p.drop_last(),
                seq![
                    TermOpView::MoveUp(1),
                    TermOpView::MoveToColumn(column_after_join(p.drop_last()) as u16),
                ],
            )
        } else {
            (KeyStep::Continue, p.drop_last(), seq![TermOpView::Print("\x08 \x08"@)])
        }
    } else if no_modifiers(key.modifiers) {
        match key.code {
            KeyCode::Char(c) => (KeyStep::Continue, p.push(c), seq![TermOpView::Print(seq![c])]),
            _ => (KeyStep::Continue, p, Seq::empty()),
        }
    } else if key.modifiers.shift {
        match key.code {
            KeyCode::Char(c) => (
                KeyStep::Continue,
                p + char_to_uppercase(c),
                seq![TermOpView::Print(char_to_uppercase(c))],
            ),
            _ => (KeyStep::Continue, p, Seq::empty()),
        }
    } else {
        (KeyStep::Continue, p, Seq::empty())
    }
}

fn count_newlines(cs: &[char]) -> (res: usize)
    ensures
        res == newline_count(cs@),
        res <= cs@.len(),
{
    let n = cs.len();
    let mut k: usize = 0;
    for i in 0..n
        invariant
            n == cs@.len(),
            k == newline_count(cs@.take(i as int)),
            k <= i,
    {
        assert(cs@.take(i + 1).drop_last() =~= cs@.take(i as int));
        if cs[i] == '\n' {
            k = k + 1;
        }
    }
    assert(cs@.take(n as int) =~= cs@);
    k
}

/// Where the characters after the last line break of `cs[..end]` start.
fn last_line_start(cs: &[char], end: usize) -> (res: usize)
    requires
        end <= cs@.len(),
    ensures
        res <= end,
        cs@.subrange(res as int, end as int) == after_last_newline(cs@.take(end as int)),
{
    let mut j = end;
    while j > 0 && cs[j - 1] != '\n'
        invariant
            j <= end <= cs@.len(),
            after_last_newline(cs@.take(end as int)) == after_last_newline(cs@.take(j as int))
                + cs@.subrange(j as int, end as int),
        decreases j,
    {
        proof {
            let t = cs@.take(j as int);
            assert(t.drop_last() =~= cs@.take(j - 1));
            assert(t.last() == cs@[j - 1]);
            assert(cs@.subrange(j - 1, end as int) =~= seq![cs@[j - 1]] + cs@.subrange(
                j as int,
                end as int,
            ));
            assert(after_last_newline(t) == after_last_newline(cs@.take(j - 1)).push(cs@[j - 1]));
            assert(after_last_newline(cs@.take(j - 1)).push(cs@[j - 1]) + cs@.subrange(
                j as int,
                end as int,
            ) =~= after_last_newline(cs@.take(j - 1)) + cs@.subrange(j - 1, end as int));
        }
        j = j - 1;
    }
    proof {
        let t = cs@.take(j as int);
        if j > 0 {
            assert(t.last() == cs@[j - 1]);
        }
        assert(after_last_newline(t) =~= Seq::<char>::empty());
        assert(after_last_newline(cs@.take(end as int)) =~= cs@.subrange(j as int, end as int));
    }
    j
}

/// The column of [`column_after_join`], when it fits.
fn join_column(p: &[char]) -> (res: Option<u16>)
    ensures
        res matches Some(c) ==> c as int == column_after_join(p@),
        res is None <==> column_after_join(p@) > u16::MAX,
{
    let n = p.len();
    let newlines = count_newlines(p);
    let at_most_one_line = if n > 0 && p[n - 1] != '\n' {
        newlines == 0
    } else {
        newlines <= 1
    };
    let s: String = if n == 0 {
        String::new()
    } else if p[n - 1] == '\n' {
        let start = last_line_start(p, n - 1);
        proof {
            assert(p@.drop_last() =~= p@.take(n - 1));
        }
        if start < n - 1 && p[n - 2] == '\r' {
            let v = string_from_chars(&p[start..n - 2]);
            proof {
                let l = after_last_newline(p@.drop_last());
                assert(l =~= p@.subrange(start as int, n - 1));
                assert(l.last() == p@[n - 2]);
                assert(v@ =~= l.drop_last());
            }
            v
        } else {
            let v = string_from_chars(&p[start..n - 1]);
            proof {
                let l = after_last_newline(p@.drop_last());
                assert(l =~= p@.subrange(start as int, n - 1));
                if l.len() > 0 {
                    assert(l.last() == p@[n - 2]);
                }
            }
            v
        }
    } else {
        let start = last_line_start(p, n);
        assert(p@.take(n as int) =~= p@);
        string_from_chars(&p[start..n])
    };
    assert(s@ == last_line(p@));
    let len = s.as_str().len() as u16;
    assert(len == byte_len(last_line(p@)) as u16);
    if at_most_one_line {
        len.checked_add(2)
    } else {
        Some(len)
    }
}

/// Whether handling `key` on `prompt` would overflow the terminal's 16-bit counters,
/// the inputs that [`handle_key`] leaves out.
pub fn key_would_overflow(prompt: &str, key: &KeyEvent) -> (res: bool)
    ensures
        res == key_overflows(prompt@, *key),
{
    let control = key.modifiers.control;
    if (key.code == KeyCode::Char('c') && control) || (key.code == KeyCode::Char('y') && control) {
        return false;
    }
    if key.code == KeyCode::Char('e') && control {
        let cs = chars_of(prompt);
        return count_newlines(cs.as_slice()) > 65535;
    }
    if key.code == KeyCode::Enter {
        return false;
    }
    if key.code == KeyCode::Backspace {
        let cs = chars_of(prompt);
        let n = cs.len();
        if n == 0 || cs[n - 1] != '\n' {
            return false;
        }
        assert(cs@.subrange(0, n - 1) =~= cs@.drop_last());
        return join_column(&cs.as_slice()[0..n - 1]).is_none();
    }
    false
}

/// Handles one key: updates the prompt and returns the step and the operations to perform.
pub fn handle_key(prompt: &mut String, key: &KeyEvent) -> (res: (KeyStep, Vec<TermOp>))
    requires
        !key_overflows(old(prompt)@, *key),
    ensures
        ({
            let (step, p, ops) = key_effect(old(prompt)@, *key);
            &&& res.0 == step
            &&& final(prompt)@ == p
            &&& ops_view(res.1@) == ops
        }),
{
    let mut ops: Vec<TermOp> = Vec::new();
    let control = key.modifiers.control;
    if key.code == KeyCode::Char('c') && control {
        assert(ops_view(ops@) =~= Seq::empty());
        return (KeyStep::Exit, ops);
    }
    if key.code == KeyCode::Char('y') && control {
        assert(ops_view(ops@) =~= Seq::empty());
        return (KeyStep::Copy, ops);
    }
    if key.code == KeyCode::Char('e') && control {
        let cs = chars_of(prompt.as_str());
        let n = count_newlines(cs.as_slice());
        if n > 0 {
            push_op(&mut ops, TermOp::MoveUp(n as u16));
        }
        push_op(&mut ops, TermOp::MoveToColumn(2));
        push_op(&mut ops, TermOp::ClearFromCursorDown);
        assert(ops_view(ops@) =~= key_effect(old(prompt)@, *key).2);
        return (KeyStep::Edit, ops);
    }
    if key.code == KeyCode::Enter && key.modifiers.shift {
        push_char(prompt, '\n');
        push_op(&mut ops, TermOp::Print(String::from_str("\r\n")));
        assert(ops_view(ops@) =~= key_effect(old(prompt)@, *key).2);
        return (KeyStep::Continue, ops);
    }
    if key.code == KeyCode::Enter {
        assert(ops_view(ops@) =~= Seq::empty());
        return (KeyStep::Submit, ops);
    }
    if key.code == KeyCode::Backspace {
        let cs = chars_of(prompt.as_str());
        let n = cs.len();
        if n > 0 {
            let rest = string_from_chars(&cs.as_slice()[0..n - 1]);
            assert(cs@.subrange(0, n - 1) =~= cs@.drop_last());
            if cs[n - 1] == '\n' {
                let col = join_column(&cs.as_slice()[0..n - 1]);
                *prompt = rest;
                push_op(&mut ops, TermOp::MoveUp(1));
                match col {
                    Some(c) => push_op(&mut ops, TermOp::MoveToColumn(c)),
                    None => {},
                }
            } else {
                *prompt = rest;
                push_op(&mut ops, TermOp::Print(String::from_str("\x08 \x08")));
            }
        }
        assert(ops_view(ops@) =~= key_effect(old(prompt)@, *key).2);
        return (KeyStep::Continue, ops);
    }
    let m = key.modifiers;
    if !m.control && !m.shift && !m.other {
        match key.code {
            KeyCode::Char(c) => {
                push_char(prompt, c);
                let mut one = String::new();
                push_char(&mut one, c);
                push_op(&mut ops, TermOp::Print(one));
            },
            _ => {},
        }
        assert(ops_view(ops@) =~= key_effect(old(prompt)@, *key).2);
        return (KeyStep::Continue, ops);
    }
    if m.shift {
        match key.code {
            KeyCode::Char(c) => {
                let up = to_uppercase(c);
                prompt.append(up.as_str());
                push_op(&mut ops, TermOp::Print(up));
            },
            _ => {},
        }
        assert(ops_view(ops@) =~= key_effect(old(prompt)@, *key).2);
        return (KeyStep::Continue, ops);
    }
    assert(ops_view(ops@) =~= Seq::empty());
    (KeyStep::Continue, ops)
}

/// The echo of `s` with each line break written as carriage return and line feed.
pub fn crlf_echo(s: &str) -> (res: String)
    ensures
        res@ == crlf(s@),
{
    let cs = chars_of(s);
    let n = cs.len();
    let mut res = String::new();
    for i in 0..n
        invariant
            n == cs@.len(),
            cs@ == s@,
            res@ == crlf(cs@.take(i as int)),
    {
        proof {
            let t = cs@.take(i + 1);
            assert(t.drop_last() =~= cs@.take(i as int));
            assert(t.last() == cs@[i as int]);
        }
        if cs[i] == '\n' {
            res.append("\r\n");
        } else {
            push_char(&mut res, cs[i]);
        }
    }
    assert(cs@.take(n as int) =~= cs@);
    res
}

/// The echo of a prompt that came back from the editor: trimmed, line breaks as CR LF.
pub fn edited_echo(prompt: &str) -> (res: String)
    ensures
        res@ == crlf(trim(prompt@)),
{
    let t = trim_str(prompt);
    crlf_echo(t.as_str())
}

/// Pastes text into the prompt; returns its echo.
pub fn paste(prompt: &mut String, text: &str) -> (res: String)
    ensures
        final(prompt)@ == old(prompt)@ + text@,
        res@ == crlf(text@),
{
    prompt.append(text);
    crlf_echo(text)
}

} // verus!

verus! {

/// Backspace undoes typing: a character typed without modifiers, then a backspace (with
/// any modifiers), leaves the prompt as it was.
pub proof fn lemma_backspace_undoes_typing(p: Seq<char>, c: char, m: KeyModifiers)
    ensures
        ({
            let typed = key_effect(
                p,
                KeyEvent {
                    code: KeyCode::Char(c),
                    modifiers: KeyModifiers { control: false, shift: false, other: false },
                },
            ).1;
            key_effect(typed, KeyEvent { code: KeyCode::Backspace, modifiers: m }).1 == p
        }),
{
    let typed = p.push(c);
    assert(typed.drop_last() =~= p);
}

/// Backspace undoes a line break added with shift-enter.
pub proof fn lemma_backspace_undoes_line_break(p: Seq<char>, m: KeyModifiers, n: KeyModifiers)
    requires
        m.shift,
    ensures
        ({
            let broken = key_effect(p, KeyEvent { code: KeyCode::Enter, modifiers: m }).1;
            key_effect(broken, KeyEvent { code: KeyCode::Backspace, modifiers: n }).1 == p
        }),
{
    let broken = p.push('\n');
    assert(broken.drop_last() =~= p);
}

/// Only editing keys change the prompt: leaving, copying, starting the editor and
/// submitting leave it as it is.
pub proof fn lemma_commands_keep_prompt(p: Seq<char>, key: KeyEvent)
    requires
        key_effect(p, key).0 != KeyStep::Continue,
    ensures
        key_effect(p, key).1 == p,
{
}

} // verus!

verus! {

/// An input event while the prompt is read: a key press, or pasted text.
pub enum PromptEvent {
    Key(KeyEvent),
    Paste(Seq<char>),
}

/// The prompt after one event: a key as [`key_effect`] has it, pasted text appended.
pub open spec fn event_prompt(p: Seq<char>, e: PromptEvent) -> Seq<char> {
    match e {
        PromptEvent::Key(k) => key_effect(p, k).1,
        PromptEvent::Paste(s) => p + s,
    }
}

/// The prompt after a sequence of events, taken in order.
pub open spec fn events_prompt(p: Seq<char>, es: Seq<PromptEvent>) -> Seq<char>
    decreases es.len(),
{
    if es.len() == 0 {
        p
    } else {
        event_prompt(events_prompt(p, es.drop_last()), es.last())
    }
}

/// Whether an event only adds text: a character typed without modifiers, shift-enter,
/// or a paste.
pub open spec fn is_text_event(e: PromptEvent) -> bool {
    match e {
        PromptEvent::Key(k) => (k.code is Char && no_modifiers(k.modifiers)) || (k.code
            == KeyCode::Enter && k.modifiers.shift),
        PromptEvent::Paste(_) => true,
    }
}

/// The text an event adds: the character typed, a line break, or the pasted text.
pub open spec fn event_text(e: PromptEvent) -> Seq<char> {
    match e {
        PromptEvent::Key(k) => match k.code {
            KeyCode::Char(c) => seq![c],
            _ => "\n"@,
        },
        PromptEvent::Paste(s) => s,
    }
}

/// The texts of a sequence of events, concatenated in order.
pub open spec fn events_text(es: Seq<PromptEvent>) -> Seq<char>
    decreases es.len(),
{
    if es.len() == 0 {
        Seq::empty()
    } else {
        events_text(es.drop_last()) + event_text(es.last())
    }
}

/// The enter key with no modifier.
pub open spec fn plain_enter() -> KeyEvent {
    KeyEvent { code: KeyCode::Enter, modifiers: KeyModifiers { control: false, shift: false, other: false } }
}

/// A key that only adds text continues the reading and fits the terminal's counters,
/// whatever the prompt.
pub proof fn lemma_text_key_continues(q: Seq<char>, k: KeyEvent)
    requires
        is_text_event(PromptEvent::Key(k)),
    ensures
        !key_overflows(q, k),
        key_effect(q, k).0 == KeyStep::Continue,
{
}

/// Typing and pasting build the prompt in order: after characters typed without modifiers,
/// shift-enters and pastes, the prompt is what it was followed by their texts in event
/// order, and a plain enter then submits that prompt unchanged.
pub proof fn lemma_events_build_prompt(p: Seq<char>, es: Seq<PromptEvent>)
    requires
        forall|i: int| 0 <= i < es.len() ==> is_text_event(#[trigger] es[i]),
    ensures
        events_prompt(p, es) == p + events_text(es),
        key_effect(events_prompt(p, es), plain_enter()) == (
            KeyStep::Submit,
            p + events_text(es),
            Seq::<TermOpView>::empty(),
        ),
    decreases es.len(),
{
    if es.len() == 0 {
        assert(p + events_text(es) =~= p);
    } else {
        let init = es.drop_last();
        assert forall|i: int| 0 <= i < init.len() implies is_text_event(#[trigger] init[i]) by {
            assert(init[i] == es[i]);
        }
        lemma_events_build_prompt(p, init);
        let q = events_prompt(p, init);
        let e = es.last();
        assert(is_text_event(es[es.len() - 1]));
        match e {
            PromptEvent::Key(k) => {
                match k.code {
                    KeyCode::Char(c) => {
                        assert(p + events_text(es) =~= (p + events_text(init)).push(c));
                    },
                    _ => {
                        reveal_strlit("\n");
                        assert(p + events_text(es) =~= (p + events_text(init)).push('\n'));
                    },
                }
            },
            PromptEvent::Paste(s) => {
                assert(p + events_text(es) =~= (p + events_text(init)) + s);
            },
        }
    }
}

} // verus!
