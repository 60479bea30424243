use mi::assembler::{self, Assembler};
use mi::chat::{AssistantMessage, Chat, Message};
use mi::completions::{Answer, Choice, FinishReason, Message as Delta, PromptTokensDetails, Usage};
use mi::conversation::{
    build_system_prompt, chat_tool_calls, expand_prompt, handle_answer, is_skill_invocation, next_user_turn,
    parse_sse_line, record_turn, tool_reply, SseLine, ToolKind, ToolOutcome, SYSTEM_PROMPT,
    SYSTEM_PROMPT_SKILLS_HOWTO,
};
use mi::credits::TokenCounts;
use mi::printer::{Mode, Printer};
use mi::skill::Skill;
use mi::tool::{bash::BashTool, edit::EditTool, read::Read, write::WriteTool};

fn skill(name: &str, full: &str, hidden: bool) -> Skill {
    Skill {
        base_path: format!("/s/{name}"),
        full: full.to_string(),
        name: name.to_string(),
        description: "desc".to_string(),
        disable_model_invocation: hidden,
        body: String::new(),
    }
}

fn chunk(reasoning: Option<&str>, content: Option<&str>, finish: Option<FinishReason>, usage: Option<Usage>) -> Answer {
    Answer {
        choices: vec![Choice {
            finish_reason: finish,
            index: 0,
            message: None,
            delta: Delta {
                role: None,
                content: content.map(|c| c.to_string()),
                reasoning: reasoning.map(|r| r.to_string()),
                tool_calls: None,
            },
            logprobs: None,
        }],
        created: 1,
        id: "x".to_string(),
        model: "m".to_string(),
        object: "chunk".to_string(),
        usage,
    }
}

#[test]
fn system_prompt_without_visible_skills() {
    assert_eq!(build_system_prompt(&[]), SYSTEM_PROMPT);
    assert_eq!(build_system_prompt(&[skill("h", "H", true)]), SYSTEM_PROMPT);
    assert_eq!(
        SYSTEM_PROMPT,
        "You are an expert coding assistant operating inside mi, a simple and minimal coding agent harness."
    );
}

#[test]
fn system_prompt_lists_visible_skills() {
    let p = build_system_prompt(&[skill("h", "H", true), skill("v", "V", false)]);
    assert_eq!(
        p,
        format!(
            "{SYSTEM_PROMPT}\n\nAvailable skills:\n\n- [/s/v] v: desc\n\nIf a user request matches any skill descriptions, load it first using `<base_path>/SKILL.md`.\n{SYSTEM_PROMPT_SKILLS_HOWTO}"
        )
    );
}

#[test]
fn skill_invocations_are_recognised() {
    assert_eq!(
        is_skill_invocation("  /skill:tidy the diff  "),
        Some(("tidy".to_string(), "the diff".to_string()))
    );
    assert_eq!(is_skill_invocation("/skill:tidy"), None);
    assert_eq!(is_skill_invocation("please /skill:tidy x"), None);
    assert_eq!(is_skill_invocation("/skill: x"), Some((String::new(), "x".to_string())));
}

#[test]
fn prompts_are_expanded() {
    let skills = vec![skill("r", "RULES", false)];
    assert_eq!(expand_prompt(&skills, "hello"), ("hello".to_string(), None));
    assert_eq!(
        expand_prompt(&skills, "/skill:r go"),
        (
            "[Manual skill invocation]\nAuto-inserting SKILL.md text:\nRULES\nARGUMENTS: go".to_string(),
            Some("r".to_string())
        )
    );
    assert_eq!(
        expand_prompt(&skills, "/skill:z go"),
        ("/skill:z go\nFailed to find skill by name: z.".to_string(), None)
    );
}

#[test]
fn stream_lines_are_classified() {
    assert!(matches!(parse_sse_line("   "), SseLine::Skip));
    assert!(matches!(parse_sse_line(": keep-alive"), SseLine::Skip));
    assert!(matches!(parse_sse_line("data: [DONE]"), SseLine::Done));
    match parse_sse_line("  data: {\"a\":1}\r") {
        SseLine::Data(d) => assert_eq!(d, "{\"a\":1}"),
        _ => panic!("expected data"),
    }
}

#[test]
fn chunks_print_and_count() {
    let mut a = Assembler::default();
    let mut p = Printer::default();
    let mut t = TokenCounts::default();
    let usage = Usage {
        completion_tokens: 2,
        prompt_tokens: 5,
        total_tokens: 7,
        prompt_tokens_details: PromptTokensDetails { cached_tokens: 1 },
    };
    let out = handle_answer(&mut a, &mut p, &mut t, &chunk(Some("hmm"), None, None, Some(usage)));
    assert_eq!(out, "<THINK>\nhmm");
    assert_eq!((t.input_tokens, t.output_tokens, t.cache_tokens), (5, 2, 1));
    let out = handle_answer(&mut a, &mut p, &mut t, &chunk(Some(""), Some("Hi"), Some(FinishReason::Stop), None));
    assert_eq!(out, "</THINK>\nHi\n");
    assert_eq!(p.mode(), Mode::Content);
    let m = a.assemble();
    assert_eq!(m.content.as_deref(), Some("Hi"));
}

#[test]
fn chunk_without_choices_only_counts() {
    let mut a = Assembler::default();
    let mut p = Printer::default();
    let mut t = TokenCounts::default();
    let mut c = chunk(None, Some("x"), None, Some(Usage {
        completion_tokens: 1,
        prompt_tokens: 1,
        total_tokens: 2,
        prompt_tokens_details: PromptTokensDetails::default(),
    }));
    c.choices.clear();
    assert_eq!(handle_answer(&mut a, &mut p, &mut t, &c), "");
    assert_eq!(t.output_tokens, 1);
    assert_eq!(a.assemble().content, None);
}

#[test]
fn tools_are_found_by_name() {
    assert_eq!(ToolKind::for_name("read"), Some(ToolKind::Read));
    assert_eq!(ToolKind::for_name("write"), Some(ToolKind::Write));
    assert_eq!(ToolKind::for_name("edit"), Some(ToolKind::Edit));
    assert_eq!(ToolKind::for_name("bash"), Some(ToolKind::Bash));
    assert_eq!(ToolKind::for_name("grep"), None);
}

#[test]
fn tool_replies() {
    let call = assembler::ToolCall::new("id7", 0, "function", "nope");
    let r = tool_reply(&call, ToolOutcome::NotFound);
    assert_eq!(r.tool_call_id, "id7");
    assert_eq!(r.content, "Wrong tool name! Tool not found!");
    assert_eq!(tool_reply(&call, ToolOutcome::Failed).content, "failed to call tool with this arg");
    assert_eq!(tool_reply(&call, ToolOutcome::Output("ok".to_string())).content, "ok");
}

#[test]
fn turns_are_recorded_in_order() {
    let mut chat = Chat::new("m", None, None, None, "s", "u");
    let calls = vec![assembler::ToolCall::new("c1", 0, "function", "read")];
    let chat_calls = chat_tool_calls(&calls);
    assert_eq!(chat_calls.len(), 1);
    assert_eq!(chat_calls[0].id, "c1");
    let replies = vec![tool_reply(&calls[0], ToolOutcome::Output("data".to_string()))];
    assert!(record_turn(&mut chat, AssistantMessage::new(None, chat_calls), replies));
    assert_eq!(chat.messages.len(), 4);
    assert!(matches!(chat.messages[2], Message::Assistant(_)));
    match &chat.messages[3] {
        Message::Tool(t) => assert_eq!(t.content, "data"),
        _ => panic!("expected a tool message"),
    }
    assert!(!record_turn(&mut chat, AssistantMessage::new(Some("done".to_string()), vec![]), vec![]));
    assert_eq!(chat.messages.len(), 5);
}

#[test]
fn user_turns() {
    let mut chat = Chat::new("m", None, None, None, "s", "u");
    assert_eq!(next_user_turn(&mut chat, &[], ""), None);
    assert_eq!(chat.messages.len(), 2);
    let skills = vec![skill("k", "KK", false)];
    assert_eq!(next_user_turn(&mut chat, &skills, "/skill:k "), Some(None));
    match &chat.messages[2] {
        Message::User(m) => assert_eq!(m.content, "/skill:k "),
        _ => panic!("expected a user message"),
    }
    assert_eq!(next_user_turn(&mut chat, &skills, "/skill:k now"), Some(Some("k".to_string())));
    match &chat.messages[3] {
        Message::User(m) => {
            assert_eq!(m.content, "[Manual skill invocation]\nAuto-inserting SKILL.md text:\nKK\nARGUMENTS: now")
        }
        _ => panic!("expected a user message"),
    }
}

#[test]
fn offered_tool_names_dispatch_to_their_tools() {
    assert_eq!(ToolKind::for_name(&Read.json().name), Some(ToolKind::Read));
    assert_eq!(ToolKind::for_name(&WriteTool.json().name), Some(ToolKind::Write));
    assert_eq!(ToolKind::for_name(&EditTool.json().name), Some(ToolKind::Edit));
    assert_eq!(ToolKind::for_name(&BashTool.json().name), Some(ToolKind::Bash));
}
