use mi::assembler;
use mi::chat::{AssistantMessage, Chat, Message, ProviderRouting, SimpleMessage, Tool, ToolCall, TOOL_CHOICE_AUTO};
use mi::cmd::{find_context_length, ModelEntry, OpenRouterPreset};
use mi::completions::{Message as WireMessage, Role};

#[test]
fn chat_opens_with_system_and_user() {
    let chat = Chat::new(
        "m",
        Some(ProviderRouting { order: vec!["p".to_string()], allow_fallbacks: false }),
        Some("high".to_string()),
        None,
        "sys",
        "hello",
    );
    assert_eq!(chat.model, "m");
    assert!(chat.stream);
    assert_eq!(chat.tool_choice, TOOL_CHOICE_AUTO);
    assert_eq!(chat.tool_choice, "auto");
    assert_eq!(chat.reasoning_effort.as_deref(), Some("high"));
    assert_eq!(chat.providers.as_ref().unwrap().order, vec!["p".to_string()]);
    assert!(chat.tools.is_none());
    assert_eq!(chat.messages.len(), 2);
    match &chat.messages[0] {
        Message::System(m) => assert_eq!(m.content, "sys"),
        _ => panic!("first message is not the system message"),
    }
    match &chat.messages[1] {
        Message::User(m) => assert_eq!(m.content, "hello"),
        _ => panic!("second message is not the user message"),
    }
}

#[test]
fn assembled_tool_call_converts() {
    let mut a = assembler::ToolCall::new("id", 2, "function", "edit");
    a.push_arguments("{\"x\":1}");
    let c = ToolCall::from(&a);
    assert_eq!(c.id, "id");
    assert_eq!(c.type_, "function");
    assert_eq!(c.index, 2);
    assert_eq!(c.function.name, "edit");
    assert_eq!(c.function.arguments, "{\"x\":1}");
}

#[test]
fn message_constructors_keep_their_parts() {
    let s = SimpleMessage::new("txt");
    assert_eq!(s.content, "txt");
    let t = Tool::new("id".to_string(), "out".to_string());
    assert_eq!(t.tool_call_id, "id");
    assert_eq!(t.content, "out");
    let a = AssistantMessage::new(Some("c".to_string()), vec![]);
    assert_eq!(a.content.as_deref(), Some("c"));
    assert!(a.tool_calls.is_empty());
}

#[test]
fn wire_message_create() {
    let m = WireMessage::create(Role::User, "hi".to_string());
    assert_eq!(m.role, Some(Role::User));
    assert_eq!(m.content.as_deref(), Some("hi"));
    assert!(m.reasoning.is_none());
    assert!(m.tool_calls.is_none());
}

#[test]
fn presets_name_models() {
    assert_eq!(OpenRouterPreset::NoPreset.model(), "none");
    assert_eq!(OpenRouterPreset::DeepSeek.model(), "deepseek/deepseek-v4.1-flash");
    assert_eq!(OpenRouterPreset::GlmFlash.model(), "z-ai/glm-5.3-flash");
    assert_eq!(OpenRouterPreset::OpenAILuna.model(), "openai/gpt-5.6-luna");
    assert_eq!(OpenRouterPreset::default(), OpenRouterPreset::NoPreset);
}

#[test]
fn presets_pin_one_provider() {
    assert!(OpenRouterPreset::NoPreset.provider().is_none());
    let p = OpenRouterPreset::DeepSeek.provider().unwrap();
    assert_eq!(p.order, vec!["deepseek".to_string()]);
    assert!(!p.allow_fallbacks);
    assert_eq!(OpenRouterPreset::GlmFlash.provider().unwrap().order, vec!["z-ai/fp8".to_string()]);
    assert_eq!(OpenRouterPreset::OpenAILuna.provider().unwrap().order, vec!["openai/flex".to_string()]);
}

#[test]
fn only_luna_has_a_service_tier() {
    assert_eq!(OpenRouterPreset::OpenAILuna.service_tier().as_deref(), Some("flex"));
    assert!(OpenRouterPreset::DeepSeek.service_tier().is_none());
    assert!(OpenRouterPreset::GlmFlash.service_tier().is_none());
    assert!(OpenRouterPreset::NoPreset.service_tier().is_none());
}

#[test]
fn context_length_of_first_match() {
    let models = vec![
        ModelEntry { id: "a".to_string(), context_length: 10 },
        ModelEntry { id: "b".to_string(), context_length: 20 },
        ModelEntry { id: "b".to_string(), context_length: 30 },
    ];
    assert_eq!(find_context_length(&models, "b"), Some(20));
    assert_eq!(find_context_length(&models, "a"), Some(10));
    assert_eq!(find_context_length(&models, "c"), None);
    assert_eq!(find_context_length(&[], "a"), None);
}

#[test]
fn model_query_addresses() {
    assert_eq!(
        mi::cmd::model_query_url("https://openrouter.ai/api/v1/models", OpenRouterPreset::DeepSeek).unwrap(),
        "https://openrouter.ai/api/v1/models?q=deepseek%2Fdeepseek-v4.1-flash&providers=deepseek"
    );
    assert_eq!(
        mi::cmd::model_query_url("https://x.test/m?a=1", OpenRouterPreset::GlmFlash).unwrap(),
        "https://x.test/m?a=1&q=z-ai%2Fglm-5.3-flash&providers=z-ai%2Ffp8"
    );
    assert!(mi::cmd::model_query_url("not a url", OpenRouterPreset::OpenAILuna).is_err());
}
