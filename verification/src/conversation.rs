//! The decisions of a chat session: the system prompt, skill invocations typed by the
//! user, the lines of the event stream, what each streamed chunk prints, and the
//! messages each turn adds. Sending requests, running tools and the terminal are the
//! caller's.
use vstd::prelude::*;
use vstd::string::StringExecFns;

use crate::assembler::{apply_delta, delta_overflows, Assembler, AssemblerView, ToolCall as AsmToolCall};
use crate::chat::{AssistantMessage, Chat, Message, SimpleMessage, Tool, ToolCall};
use crate::completions::Answer;
use crate::credits::{sat_add, TokenCounts};
use crate::printer::{transition_marker, Mode, Printer};
use crate::skill::{
    first_named, find_chars, format_skills, invocation_text, manually_invoke_skill,
    skills_listing, skills_view, Skill, SkillView,
};
use crate::text::{chars_of, find_from, matches_at, matches_at_exec, str_eq, string_from_chars, trim, trim_str};

verus! {

/// The opening of every system prompt.
pub const SYSTEM_PROMPT: &'static str = "You are an expert coding assistant operating inside mi, a simple and minimal coding agent harness.";

/// What the system prompt says of skills it does not list.
pub const SYSTEM_PROMPT_SKILLS_HOWTO: &'static str = "If the skill is not in the system prompt, then it is not available for auto-discovery! Do not try to find it! If you don't have the skill, do not make up the logic for this action and immediately tell the user that you don't have the skill and information about it.";

/// The skills the model may find by itself: those not reserved for manual invocation.
pub open spec fn model_visible(skills: Seq<SkillView>) -> Seq<SkillView>
    decreases skills.len(),
{
    if skills.len() == 0 {
        Seq::empty()
    } else if skills.last().disable_model_invocation {
        model_visible(skills.drop_last())
    } else {
        model_visible(skills.drop_last()).push(skills.last())
    }
}

/// The system prompt: the opening, then, when some skills are visible to the model,
/// their listing and what to do about skills that are not listed.
pub open spec fn system_prompt_text(skills: Seq<SkillView>) -> Seq<char> {
    let visible = model_visible(skills);
    if visible.len() == 0 {
        SYSTEM_PROMPT@
    } else {
        SYSTEM_PROMPT@ + "\n\n"@ + skills_listing(visible) + "\n"@ + SYSTEM_PROMPT_SKILLS_HOWTO@
    }
}

/// The system prompt for the skills found.
pub fn build_system_prompt(skills: &[Skill]) -> (res: String)
    ensures
        res@ == system_prompt_text(skills_view(skills@)),
{
    let mut visible: Vec<Skill> = Vec::new();
    let n = skills.len();
    for i in 0..n
        invariant
            n == skills@.len(),
            skills_view(visible@) == model_visible(skills_view(skills@.take(i as int))),
    {
        proof {
            let t = skills_view(skills@.take(i + 1));
            assert(t.drop_last() =~= skills_view(skills@.take(i as int)));
            assert(t.last() == skills@[i as int]@);
        }
        if !skills[i].disable_model_invocation {
            let ghost before = visible@;
            visible.push(skills[i].clone());
            assert(skills_view(visible@) =~= skills_view(before).push(skills@[i as int]@));
        }
    }
    assert(skills@.take(n as int) =~= skills@);
    let mut res = String::from_str(SYSTEM_PROMPT);
    if visible.len() > 0 {
        res.append("\n\n");
        let listing = format_skills(visible.as_slice());
        res.append(listing.as_str());
        res.append("\n");
        res.append(SYSTEM_PROMPT_SKILLS_HOWTO);
    }
    res
}

/// The skill name and arguments of a prompt that invokes a skill: once trimmed, it starts
/// with `/skill:`, and the name runs from there to the first space; the arguments follow it.
pub open spec fn skill_invocation(prompt: Seq<char>) -> Option<(Seq<char>, Seq<char>)> {
    let t = trim(prompt);
    if !matches_at(t, "/skill:"@, 0) {
        None
    } else {
        let rest = t.skip(7);
        match find_from(rest, " "@, 0) {
            Some(i) => Some((rest.take(i), rest.skip(i + 1))),
            None => None,
        }
    }
}

/// The skill name and arguments of a prompt that invokes a skill.
pub fn is_skill_invocation(prompt: &str) -> (res: Option<(String, String)>)
    ensures
        match skill_invocation(prompt@) {
            Some((name, args)) => res matches Some((n, a)) && n@ == name && a@ == args,
            None => res is None,
        },
{
    proof {
        reveal_strlit("/skill:");
        reveal_strlit(" ");
    }
    let t = trim_str(prompt);
    let cs = chars_of(t.as_str());
    let prefix = chars_of("/skill:");
    if cs.len() < 7 || !matches_at_exec(cs.as_slice(), prefix.as_slice(), 0) {
        return None;
    }
    let total = cs.len();
    let rest = &cs.as_slice()[7..total];
    assert(rest@ =~= cs@.skip(7));
    let space = chars_of(" ");
    match find_chars(rest, space.as_slice(), 0) {
        None => None,
        Some(i) => {
            let rest_len = rest.len();
            let name = string_from_chars(&rest[0..i]);
            let args = string_from_chars(&rest[i + 1..rest_len]);
            assert(rest@.subrange(0, i as int) =~= rest@.take(i as int));
            assert(rest@.subrange(i + 1, rest_len as int) =~= rest@.skip(i + 1));
            Some((name, args))
        },
    }
}

/// The prompt sent for what the user typed, and the skill invoked if any: an invocation of
/// a known skill is replaced by the skill's text; an unknown one gets a line saying so.
pub open spec fn expanded_prompt(skills: Seq<SkillView>, prompt: Seq<char>) -> (Seq<char>, Option<Seq<char>>) {
    match skill_invocation(prompt) {
        None => (prompt, None),
        Some((name, args)) => match first_named(skills, name) {
            Some(s) => (invocation_text(s, args), Some(name)),
            None => (prompt + "\n"@ + "Failed to find skill by name: "@ + name + "."@, None),
        },
    }
}

/// The prompt sent for what the user typed, and the skill invoked if any.
pub fn expand_prompt(skills: &[Skill], prompt: &str) -> (res: (String, Option<String>))
    ensures
        res.0@ == expanded_prompt(skills_view(skills@), prompt@).0,
        match expanded_prompt(skills_view(skills@), prompt@).1 {
            Some(n) => res.1 matches Some(m) && m@ == n,
            None => res.1 is None,
        },
{
    match is_skill_invocation(prompt) {
        None => (String::from_str(prompt), None),
        Some((name, args)) => match manually_invoke_skill(skills, name.as_str(), args.as_str()) {
            Some(text) => (text, Some(name)),
            None => {
                let mut p = String::from_str(prompt);
                p.append("\n");
                p.append("Failed to find skill by name: ");
                p.append(name.as_str());
                p.append(".");
                (p, None)
            },
        },
    }
}

/// One line of the event stream.
#[derive(Debug)]
pub enum SseLine {
    /// Blank, or not a data line.
    Skip,
    /// The end of the stream.
    Done,
    /// A data payload.
    Data(String),
}

/// What a line of the event stream is, once trimmed: blank lines and lines that do not
/// start with `data: ` are skipped; the payload `[DONE]` ends the stream.
pub open spec fn sse_line(line: Seq<char>) -> Option<Option<Seq<char>>> {
    let t = trim(line);
    if t.len() == 0 || !matches_at(t, "data: "@, 0) {
        None
    } else if t.skip(6) == "[DONE]"@ {
        Some(None)
    } else {
        Some(Some(t.skip(6)))
    }
}

/// Classifies a line of the event stream.
pub fn parse_sse_line(line: &str) -> (res: SseLine)
    ensures
        match sse_line(line@) {
            None => res is Skip,
            Some(None) => res is Done,
            Some(Some(d)) => res matches SseLine::Data(e) && e@ == d,
        },
{
    proof {
        reveal_strlit("data: ");
    }
    let t = trim_str(line);
    let cs = chars_of(t.as_str());
    let prefix = chars_of("data: ");
    if cs.len() == 0 || cs.len() < 6 || !matches_at_exec(cs.as_slice(), prefix.as_slice(), 0) {
        return SseLine::Skip;
    }
    let total = cs.len();
    let data = string_from_chars(&cs.as_slice()[6..total]);
    assert(cs@.subrange(6, total as int) =~= cs@.skip(6));
    if str_eq(data.as_str(), "[DONE]") {
        SseLine::Done
    } else {
        SseLine::Data(data)
    }
}

/// What a streamed chunk prints, starting in mode `mode`: its reasoning, then its content
/// (each only when non-empty, each with its change-of-mode marker), then a line break when
/// the chunk says why the model stopped. Also the mode it leaves.
pub open spec fn chunk_output(mode: Mode, answer: Answer) -> (Mode, Seq<char>) {
    let choice = answer.choices@[0];
    let delta = choice.delta;
    let (m1, o1) = match delta.reasoning {
        Some(r) if r@.len() > 0 => (Mode::Reasoning, transition_marker(mode, Mode::Reasoning) + r@),
        _ => (mode, Seq::empty()),
    };
    let (m2, o2) = match delta.content {
        Some(c) if c@.len() > 0 => (Mode::Content, o1 + transition_marker(m1, Mode::Content) + c@),
        _ => (m1, o1),
    };
    (m2, if choice.finish_reason is Some { o2 + "\n"@ } else { o2 })
}

/// Takes one streamed chunk: counts its tokens, gathers its delta and returns what to print.
/// A chunk without choices only counts.
pub fn handle_answer(
    assembler: &mut Assembler,
    printer: &mut Printer,
    tokens: &mut TokenCounts,
    answer: &Answer,
) -> (res: String)
    requires
        answer.choices@.len() > 0 ==> !delta_overflows(old(assembler)@, answer.choices@[0].delta),
    ensures
        match answer.usage {
            Some(u) => {
                &&& final(tokens).input_tokens == sat_add(old(tokens).input_tokens, u.prompt_tokens)
                &&& final(tokens).output_tokens == sat_add(
                    old(tokens).output_tokens,
                    u.completion_tokens,
                )
                &&& final(tokens).cache_tokens == sat_add(
                    old(tokens).cache_tokens,
                    u.prompt_tokens_details.cached_tokens,
                )
            },
            None => *final(tokens) == *old(tokens),
        },
        answer.choices@.len() == 0 ==> {
            &&& res@ == Seq::<char>::empty()
            &&& final(assembler)@ == old(assembler)@
            &&& final(printer)@ == old(printer)@
        },
        answer.choices@.len() > 0 ==> {
            &&& final(assembler)@ == apply_delta(old(assembler)@, answer.choices@[0].delta)
            &&& (final(printer)@, res@) == chunk_output(old(printer)@, *answer)
        },
{
    if let Some(usage) = &answer.usage {
        tokens.save_tokens(
            usage.prompt_tokens,
            usage.completion_tokens,
            usage.prompt_tokens_details.cached_tokens,
        );
    }
    let mut out = String::new();
    if answer.choices.len() == 0 {
        return out;
    }
    let choice = &answer.choices[0];
    assembler.push_delta(answer);
    if let Some(reasoning) = &choice.delta.reasoning {
        if !reasoning.as_str().is_empty() {
            let s = printer.print(Mode::Reasoning, reasoning.as_str());
            out.append(s.as_str());
        }
    }
    if let Some(content) = &choice.delta.content {
        if !content.as_str().is_empty() {
            let s = printer.print(Mode::Content, content.as_str());
            out.append(s.as_str());
        }
    }
    if choice.finish_reason.is_some() {
        let s = printer.new_line();
        out.append(s.as_str());
    }
    out
}

/// The tools the model can call.
#[derive(Debug, Clone, Copy, PartialEq, Eq, Structural)]
pub enum ToolKind {
    Read,
    Write,
    Edit,
    Bash,
}

/// The tool a call names, if it is one of the four.
pub open spec fn tool_named(name: Seq<char>) -> Option<ToolKind> {
    if name == "read"@ {
        Some(ToolKind::Read)
    } else if name == "write"@ {
        Some(ToolKind::Write)
    } else if name == "edit"@ {
        Some(ToolKind::Edit)
    } else if name == "bash"@ {
        Some(ToolKind::Bash)
    } else {
        None
    }
}

impl ToolKind {
    /// The tool a call names, if it is one of the four.
    pub fn for_name(name: &str) -> (res: Option<ToolKind>)
        ensures
            res == tool_named(name@),
    {
        if str_eq(name, "read") {
            Some(ToolKind::Read)
        } else if str_eq(name, "write") {
            Some(ToolKind::Write)
        } else if str_eq(name, "edit") {
            Some(ToolKind::Edit)
        } else if str_eq(name, "bash") {
            Some(ToolKind::Bash)
        } else {
            None
        }
    }
}

/// How running a tool call went.
pub enum ToolOutcome {
    /// No tool has the called name.
    NotFound,
    /// The tool failed.
    Failed,
    /// The tool's reply.
    Output(String),
}

/// The text sent back for a tool call.
pub open spec fn tool_reply_text(outcome: ToolOutcome) -> Seq<char> {
    match outcome {
        ToolOutcome::NotFound => "Wrong tool name! Tool not found!"@,
        ToolOutcome::Failed => "failed to call tool with this arg"@,
        ToolOutcome::Output(s) => s@,
    }
}

/// The message that answers tool call `call`.
pub fn tool_reply(call: &AsmToolCall, outcome: ToolOutcome) -> (res: Tool)
    ensures
        res.tool_call_id@ == call.id@,
        res.content@ == tool_reply_text(outcome),
{
    let content = match outcome {
        ToolOutcome::NotFound => String::from_str("Wrong tool name! Tool not found!"),
        ToolOutcome::Failed => String::from_str("failed to call tool with this arg"),
        ToolOutcome::Output(s) => s,
    };
    Tool::new(call.id.clone(), content)
}

/// The tool calls of an assembled message, as the chat records them.
pub fn chat_tool_calls(calls: &[AsmToolCall]) -> (res: Vec<ToolCall>)
    ensures
        res@.len() == calls@.len(),
        forall|i: int|
            0 <= i < calls@.len() ==> {
                let c = #[trigger] res@[i];
                &&& c.id == calls@[i].id
                &&& c.type_ == calls@[i].type_
                &&& c.index == calls@[i].index
                &&& c.function.name == calls@[i].function
                &&& c.function.arguments == calls@[i].arguments
            },
{
    let mut res: Vec<ToolCall> = Vec::new();
    for i in 0..calls.len()
        invariant
            res@.len() == i,
            forall|k: int|
                0 <= k < i ==> {
                    let c = #[trigger] res@[k];
                    &&& c.id == calls@[k].id
                    &&& c.type_ == calls@[k].type_
                    &&& c.index == calls@[k].index
                    &&& c.function.name == calls@[k].function
                    &&& c.function.arguments == calls@[k].arguments
                },
    {
        res.push(ToolCall::from(&calls[i]));
    }
    res
}

/// Records a turn: the assistant's message, then the tool replies in order. Returns
/// whether the model is to be asked again, that is whether there were tool replies.
pub fn record_turn(chat: &mut Chat, message: AssistantMessage, replies: Vec<Tool>) -> (res: bool)
    ensures
        res == (replies@.len() > 0),
        final(chat).model == old(chat).model,
        final(chat).providers == old(chat).providers,
        final(chat).reasoning_effort == old(chat).reasoning_effort,
        final(chat).tools == old(chat).tools,
        final(chat).tool_choice == old(chat).tool_choice,
        final(chat).stream == old(chat).stream,
        final(chat).messages@ == old(chat).messages@.push(Message::Assistant(message)) + replies@.map_values(
            |t: Tool| Message::Tool(t),
        ),
{
    chat.messages.push(Message::Assistant(message));
    let ghost base = chat.messages@;
    let n = replies.len();
    let mut replies = replies;
    let ghost all = replies@;
    let mut taken: Vec<Tool> = Vec::new();
    let mut i: usize = 0;
    while replies.len() > 0
        invariant
            all.len() == n,
            replies@.len() + i == n,
            replies@ == all.skip(i as int),
            chat.messages@ == base + all.take(i as int).map_values(|t: Tool| Message::Tool(t)),
            chat.model == old(chat).model,
            chat.providers == old(chat).providers,
            chat.reasoning_effort == old(chat).reasoning_effort,
            chat.tools == old(chat).tools,
            chat.tool_choice == old(chat).tool_choice,
            chat.stream == old(chat).stream,
        decreases replies@.len(),
    {
        let t = replies.remove(0);
        proof {
            assert(t == all[i as int]);
            assert(all.skip(i as int).drop_first() =~= all.skip(i + 1));
            assert(all.take(i + 1).map_values(|t: Tool| Message::Tool(t)) =~= all.take(
                i as int,
            ).map_values(|t: Tool| Message::Tool(t)).push(Message::Tool(t)));
        }
        chat.messages.push(Message::Tool(t));
        i = i + 1;
    }
    assert(all.take(n as int) =~= all);
    n > 0
}

/// Ends the turn of the user: an empty prompt ends the chat (`None`); otherwise the
/// prompt, expanded, is added as a user message, and the invoked skill's name returned.
pub fn next_user_turn(chat: &mut Chat, skills: &[Skill], prompt: &str) -> (res: Option<Option<String>>)
    ensures
        prompt@.len() == 0 ==> res is None && final(chat).messages@ == old(chat).messages@,
        prompt@.len() > 0 ==> {
            let (text, invoked) = expanded_prompt(skills_view(skills@), prompt@);
            &&& res is Some
            &&& final(chat).messages@.len() == old(chat).messages@.len() + 1
            &&& final(chat).messages@.take(old(chat).messages@.len() as int) == old(chat).messages@
            &&& final(chat).messages@.last() matches Message::User(m) && m.content@ == text
            &&& match invoked {
                Some(n) => res.unwrap() matches Some(m) && m@ == n,
                None => res.unwrap() is None,
            }
        },
        final(chat).model == old(chat).model,
        final(chat).providers == old(chat).providers,
        final(chat).reasoning_effort == old(chat).reasoning_effort,
        final(chat).tools == old(chat).tools,
        final(chat).tool_choice == old(chat).tool_choice,
        final(chat).stream == old(chat).stream,
{
    if prompt.is_empty() {
        return None;
    }
    let (text, invoked) = expand_prompt(skills, prompt);
    let ghost before = chat.messages@;
    chat.messages.push(Message::User(SimpleMessage { content: text }));
    assert(chat.messages@.take(before.len() as int) =~= before);
    Some(invoked)
}

} // verus!

verus! {

/// Each tool is dispatched under the name it is offered to the model by.
pub proof fn lemma_tools_dispatch_by_offered_name()
    ensures
        tool_named(crate::tool::read::read_tool_spec().name) == Some(ToolKind::Read),
        tool_named(crate::tool::write::write_tool_spec().name) == Some(ToolKind::Write),
        tool_named(crate::tool::edit::edit_tool_spec().name) == Some(ToolKind::Edit),
        tool_named(crate::tool::bash::bash_tool_spec().name) == Some(ToolKind::Bash),
{
    reveal_strlit("read");
    reveal_strlit("write");
    reveal_strlit("edit");
    reveal_strlit("bash");
    assert("write"@[0] != "read"@[0]);
    assert("edit"@[0] != "read"@[0]);
    assert("edit"@[0] != "write"@[0]);
    assert("bash"@[0] != "read"@[0]);
    assert("bash"@[0] != "write"@[0]);
    assert("bash"@[0] != "edit"@[0]);
}

} // verus!

verus! {

proof fn lemma_trim_unchanged(s: Seq<char>)
    requires
        s.len() > 0,
        !crate::text::is_whitespace(s[0]),
        !crate::text::is_whitespace(s.last()),
    ensures
        trim(s) == s,
{
    assert(crate::text::trim_start(s) == s);
}

/// A prompt `/skill:name args` is read as an invocation of skill `name` with arguments
/// `args`, when the name has no space and the prompt does not end with whitespace.
pub proof fn lemma_invocation_read_back(name: Seq<char>, args: Seq<char>)
    requires
        forall|i: int| 0 <= i < name.len() ==> name[i] != ' ',
        args.len() > 0,
        !crate::text::is_whitespace(args.last()),
    ensures
        skill_invocation("/skill:"@ + name + " "@ + args) == Some((name, args)),
{
    reveal_strlit("/skill:");
    reveal_strlit(" ");
    let t = "/skill:"@ + name + " "@ + args;
    assert(t[0] == '/');
    assert(t.last() == args.last());
    lemma_trim_unchanged(t);
    assert(t.subrange(0, 7) =~= "/skill:"@);
    let rest = t.skip(7);
    assert(rest =~= name + " "@ + args);
    let nl = name.len() as int;
    assert(rest.subrange(nl, nl + 1) =~= " "@);
    assert forall|j: int| 0 <= j < nl implies !matches_at(rest, " "@, j) by {
        assert(rest.subrange(j, j + 1)[0] == name[j]);
    }
    crate::text::lemma_find_first(rest, " "@, 0, nl);
    assert(rest.take(nl) =~= name);
    assert(rest.skip(nl + 1) =~= args);
}

} // verus!

verus! {

/// The skills visible to the model are exactly those not reserved for manual invocation,
/// every one of them, in their order.
pub proof fn lemma_model_visible_filters(skills: Seq<SkillView>)
    ensures
        model_visible(skills) == skills.filter(|s: SkillView| !s.disable_model_invocation),
    decreases skills.len(),
{
    reveal(Seq::filter);
    if skills.len() > 0 {
        lemma_model_visible_filters(skills.drop_last());
    }
}

/// A chunk that says why the model stopped prints what the same chunk prints without a
/// reason, followed by a line break, whatever the reason; the mode it leaves is the same.
pub proof fn lemma_finished_chunk_ends_line(mode: Mode, finished: Answer, open: Answer)
    requires
        finished.choices@.len() > 0,
        open.choices@.len() > 0,
        finished.choices@[0].delta == open.choices@[0].delta,
        finished.choices@[0].finish_reason is Some,
        open.choices@[0].finish_reason is None,
    ensures
        chunk_output(mode, finished).0 == chunk_output(mode, open).0,
        chunk_output(mode, finished).1 == chunk_output(mode, open).1 + "\n"@,
        chunk_output(mode, finished).1.len() > 0,
        chunk_output(mode, finished).1.last() == '\n',
{
    reveal_strlit("\n");
}

/// Two chunks with the same delta that both say why the model stopped print the same,
/// whatever their reasons.
pub proof fn lemma_finish_reason_irrelevant(mode: Mode, a: Answer, b: Answer)
    requires
        a.choices@.len() > 0,
        b.choices@.len() > 0,
        a.choices@[0].delta == b.choices@[0].delta,
        a.choices@[0].finish_reason is Some,
        b.choices@[0].finish_reason is Some,
    ensures
        chunk_output(mode, a) == chunk_output(mode, b),
{
}

} // verus!
