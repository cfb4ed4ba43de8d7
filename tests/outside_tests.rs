use alloy_core::primitives::U256;
use async_openai::types::{
    ChatCompletionRequestAssistantMessageArgs, ChatCompletionRequestMessage, ChatCompletionRequestSystemMessageArgs,
    ChatCompletionRequestToolMessageArgs, ChatCompletionRequestUserMessageArgs,
};
use voda_core::message::{pack, HistoryMessage, Message, MessageRole, MessageType};
use voda_core::wei::{to_wei, to_wei_with_gas};

fn m(id: u128, role: MessageRole, content_type: MessageType, content: &str) -> HistoryMessage {
    HistoryMessage { id, role, content_type, owner: 1, character_id: 2, content: content.to_string(), created_at: 0 }
}

#[test]
fn to_wei_scales_by_ten_to_the_eighteen() {
    assert_eq!(to_wei(10), U256::from(10u64) * U256::from(10u64.pow(18)));
    assert_eq!(to_wei(0), U256::ZERO);
    assert_eq!(to_wei(u64::MAX), U256::from(u64::MAX) * U256::from(10u64.pow(18)));
}

#[test]
fn to_wei_with_gas_adds_the_allowance() {
    assert_eq!(to_wei_with_gas(1), U256::from(10u64.pow(18)) + U256::from(10u64.pow(16)));
    assert_eq!(to_wei_with_gas(0), U256::from(10u64.pow(16)));
}

#[test]
fn pack_maps_each_role() {
    let history = vec![
        m(1, MessageRole::System, MessageType::Text, "be nice"),
        m(2, MessageRole::User, MessageType::Text, "hello"),
        m(3, MessageRole::Assistant, MessageType::Text, "hi"),
        m(4, MessageRole::ToolCall, MessageType::Text, "done"),
        m(5, MessageRole::User, MessageType::Image("https://x/y.png".to_string()), "ignored"),
    ];
    let packed = pack(&history).unwrap();
    let expected = vec![
        ChatCompletionRequestMessage::System(
            ChatCompletionRequestSystemMessageArgs::default().content("be nice").build().unwrap(),
        ),
        ChatCompletionRequestMessage::User(ChatCompletionRequestUserMessageArgs::default().content("hello").build().unwrap()),
        ChatCompletionRequestMessage::Assistant(
            ChatCompletionRequestAssistantMessageArgs::default().content("hi").build().unwrap(),
        ),
        ChatCompletionRequestMessage::Tool(ChatCompletionRequestToolMessageArgs::default().content("done").build().unwrap()),
        ChatCompletionRequestMessage::User(ChatCompletionRequestUserMessageArgs::default().content("").build().unwrap()),
    ];
    assert_eq!(packed, expected);
    assert!(pack::<HistoryMessage>(&[]).unwrap().is_empty());
}

#[test]
fn message_accessors_follow_content_type() {
    let t = m(1, MessageRole::User, MessageType::Text, "hello");
    assert_eq!(t.text_content(), Some("hello".to_string()));
    assert_eq!(t.url_content(), None);
    let a = m(2, MessageRole::Assistant, MessageType::Audio("https://x/a.ogg".to_string()), "");
    assert_eq!(a.text_content(), None);
    assert_eq!(a.url_content(), Some("https://x/a.ogg".to_string()));
    assert_eq!(a.binary_content(), None);
    assert_eq!(Message::id(&a), 2);
    assert_eq!(Message::role(&a), MessageRole::Assistant);
    assert!(matches!(a.content_type(), MessageType::Audio(u) if u == "https://x/a.ogg"));
    assert_eq!(MessageRole::default(), MessageRole::User);
    assert!(matches!(MessageType::default(), MessageType::Text));
}
