use mi::assembler::{Assembler, ToolCall};
use mi::completions::{Answer, Choice, Message, ToolCall as DeltaCall, ToolCallFunction};

fn answer(content: Option<&str>, calls: Option<Vec<DeltaCall>>) -> Answer {
    Answer {
        choices: vec![Choice {
            finish_reason: None,
            index: 0,
            message: None,
            delta: Message {
                role: None,
                content: content.map(|c| c.to_string()),
                reasoning: None,
                tool_calls: calls,
            },
            logprobs: None,
        }],
        created: 0,
        id: String::new(),
        model: String::new(),
        object: String::new(),
        usage: None,
    }
}

fn opening(index: usize, id: &str, name: &str, args: Option<&str>) -> DeltaCall {
    DeltaCall {
        id: Some(id.to_string()),
        type_: Some("function".to_string()),
        index,
        function: ToolCallFunction { name: Some(name.to_string()), arguments: args.map(|a| a.to_string()) },
    }
}

fn piece(index: usize, args: Option<&str>) -> DeltaCall {
    DeltaCall {
        id: None,
        type_: None,
        index,
        function: ToolCallFunction { name: None, arguments: args.map(|a| a.to_string()) },
    }
}

#[test]
fn tool_call_new_starts_without_arguments() {
    let mut c = ToolCall::new("id1", 3, "function", "read");
    assert_eq!(c.id, "id1");
    assert_eq!(c.index, 3);
    assert_eq!(c.type_, "function");
    assert_eq!(c.function, "read");
    assert_eq!(c.arguments, "");
    c.push_arguments("{\"pa");
    c.push_arguments("th\":1}");
    assert_eq!(c.arguments, "{\"path\":1}");
}

#[test]
fn content_pieces_are_concatenated() {
    let mut a = Assembler::default();
    a.push_delta(&answer(Some("Hel"), None));
    a.push_delta(&answer(Some("lo"), None));
    a.push_delta(&answer(None, None));
    a.push_delta(&answer(Some(", world"), None));
    let m = a.assemble();
    assert_eq!(m.content.as_deref(), Some("Hello, world"));
    assert!(m.tool_calls.is_empty());
}

#[test]
fn empty_assembler_assembles_nothing() {
    let m = Assembler::default().assemble();
    assert_eq!(m.content, None);
    assert!(m.tool_calls.is_empty());
}

#[test]
fn tool_call_arguments_arrive_in_pieces() {
    let mut a = Assembler::default();
    a.push_delta(&answer(None, Some(vec![opening(0, "call_1", "read", Some("{\"pa"))])));
    a.push_delta(&answer(None, Some(vec![piece(0, Some("th\":\"a\"}"))])));
    a.push_delta(&answer(None, Some(vec![opening(1, "call_2", "bash", None)])));
    a.push_delta(&answer(None, Some(vec![piece(1, Some("{}"))])));
    let m = a.assemble();
    assert_eq!(m.tool_calls.len(), 2);
    assert_eq!(m.tool_calls[0].id, "call_1");
    assert_eq!(m.tool_calls[0].function, "read");
    assert_eq!(m.tool_calls[0].type_, "function");
    assert_eq!(m.tool_calls[0].arguments, "{\"path\":\"a\"}");
    assert_eq!(m.tool_calls[1].function, "bash");
    assert_eq!(m.tool_calls[1].arguments, "{}");
}

#[test]
fn out_of_range_piece_drops_rest_of_chunk() {
    let mut a = Assembler::default();
    a.push_delta(&answer(None, Some(vec![piece(5, Some("x")), opening(0, "c", "read", None)])));
    let m = a.assemble();
    assert!(m.tool_calls.is_empty());
}

#[test]
fn first_piece_with_arguments_ends_the_chunk() {
    let mut a = Assembler::default();
    a.push_delta(&answer(None, Some(vec![opening(0, "c0", "read", None), opening(1, "c1", "write", None)])));
    a.push_delta(&answer(None, Some(vec![piece(0, Some("A")), piece(1, Some("B"))])));
    let m = a.assemble();
    assert_eq!(m.tool_calls[0].arguments, "A");
    assert_eq!(m.tool_calls[1].arguments, "");
}

#[test]
fn piece_without_arguments_is_passed_over() {
    let mut a = Assembler::default();
    a.push_delta(&answer(None, Some(vec![opening(0, "c0", "read", None), opening(1, "c1", "write", None)])));
    a.push_delta(&answer(None, Some(vec![piece(0, None), piece(1, Some("B"))])));
    let m = a.assemble();
    assert_eq!(m.tool_calls[0].arguments, "");
    assert_eq!(m.tool_calls[1].arguments, "B");
}

#[test]
fn content_after_content_ignores_tool_calls_of_the_chunk() {
    let mut a = Assembler::default();
    a.push_delta(&answer(Some("a"), None));
    a.push_delta(&answer(Some("b"), Some(vec![opening(0, "c0", "read", None)])));
    let m = a.assemble();
    assert_eq!(m.content.as_deref(), Some("ab"));
    assert!(m.tool_calls.is_empty());
}

#[test]
fn first_content_keeps_tool_calls_of_the_chunk() {
    let mut a = Assembler::default();
    a.push_delta(&answer(Some("a"), Some(vec![opening(0, "c0", "read", Some("{}"))])));
    let m = a.assemble();
    assert_eq!(m.content.as_deref(), Some("a"));
    assert_eq!(m.tool_calls.len(), 1);
    assert_eq!(m.tool_calls[0].arguments, "{}");
}

#[test]
fn out_of_range_delta_is_reported() {
    let mut a = Assembler::default();
    a.push_delta(&answer(None, Some(vec![opening(0, "c1", "read", Some("{"))])));
    let stray = answer(None, Some(vec![opening(1, "c2", "bash", None), piece(5, Some("x"))]));
    assert_eq!(a.delta_out_of_range(&stray), Some((5, 2)));
    let fine = answer(None, Some(vec![piece(0, Some("}"))]));
    assert_eq!(a.delta_out_of_range(&fine), None);
    let after_args = answer(None, Some(vec![piece(0, Some("}")), piece(9, None)]));
    assert_eq!(a.delta_out_of_range(&after_args), None);
    let with_content = answer(Some("hi"), Some(vec![piece(9, None)]));
    assert_eq!(a.delta_out_of_range(&with_content), Some((9, 1)));
    a.push_delta(&answer(Some("hi"), None));
    assert_eq!(a.delta_out_of_range(&with_content), None);
}
