use blockito::chat::{
    chat_messages, context_of, first_choice, instruction_prompt, BotherAction, BotherEvent,
    BotherFlow, RobotChoice, RobotMessage, RobotResponses,
};
use blockito::model::{Bother, Message};

fn strings(v: &[&str]) -> Vec<String> {
    v.iter().map(|s| s.to_string()).collect()
}

fn stored(sender: &str, text: &str) -> Message {
    Message {
        id: "m".to_string(),
        conversation_id: "c".to_string(),
        created_at: "t".to_string(),
        message: text.to_string(),
        sender_type: sender.to_string(),
    }
}

fn reply(texts: &[&str]) -> RobotResponses {
    RobotResponses {
        choices: texts
            .iter()
            .enumerate()
            .map(|(i, t)| RobotChoice {
                finish_reason: "stop".to_string(),
                index: i,
                message: RobotMessage { role: "assistant".to_string(), content: t.to_string() },
            })
            .collect(),
    }
}

const PROMPT_FOR_TWO: &str = "You are a helpful chatbot named Blockito.\nUse only the following pieces of context to answer the question. Don't make up any new information:\n - cats purr\n - cats sleep /no_think";

#[test]
fn context_bullets_each_chunk() {
    assert_eq!(context_of(&strings(&["cats purr", "cats sleep"])), " - cats purr\n - cats sleep");
    assert_eq!(context_of(&strings(&["one"])), " - one");
    assert_eq!(context_of(&vec![]), "");
}

#[test]
fn prompt_wraps_context() {
    assert_eq!(instruction_prompt(" - cats purr\n - cats sleep"), PROMPT_FOR_TWO);
}

#[test]
fn chat_messages_put_prompt_first() {
    let msgs = chat_messages("P".to_string(), &vec![stored("user", "hi"), stored("assistant", "hello")]);
    let pairs: Vec<(String, String)> = msgs.into_iter().map(|m| (m.role, m.content)).collect();
    assert_eq!(
        pairs,
        vec![
            ("system".to_string(), "P".to_string()),
            ("user".to_string(), "hi".to_string()),
            ("assistant".to_string(), "hello".to_string()),
        ]
    );
}

#[test]
fn first_choice_is_the_answer() {
    assert_eq!(first_choice(&reply(&["first", "second"])), "first");
}

#[test]
fn bother_without_conversation_creates_one() {
    let bother = Bother { user_id: "u-1".to_string(), conversation_id: None, message: "do cats purr?".to_string() };
    let (flow, action) = BotherFlow::start(bother);
    match action {
        BotherAction::Retrieve { query, top_n } => {
            assert_eq!(query, "do cats purr?");
            assert_eq!(top_n, None);
        }
        _ => panic!("expected a retrieval"),
    }
    let (flow, action) = flow.step(BotherEvent::Knowledge { chunks: strings(&["cats purr", "cats sleep"]) });
    match action {
        BotherAction::CreateConversation { user_id, title } => {
            assert_eq!(user_id, "u-1");
            assert_eq!(title, "temp title, we'll figure this out later");
        }
        _ => panic!("expected a new conversation"),
    }
    let (flow, action) = flow.step(BotherEvent::ConversationCreated { id: "c-9".to_string() });
    match action {
        BotherAction::LoadConversation { conversation_id } => assert_eq!(conversation_id, "c-9"),
        _ => panic!("expected loading the conversation"),
    }
    let (flow, action) = flow.step(BotherEvent::History { messages: vec![stored("user", "earlier")] });
    match action {
        BotherAction::SendChat { url, request } => {
            assert_eq!(url, "http://127.0.0.1:8765/v1/chat/completions");
            assert_eq!(request.model, "blockito-language");
            assert_eq!(request.messages.len(), 2);
            assert_eq!(request.messages[0].role, "system");
            assert_eq!(request.messages[0].content, PROMPT_FOR_TWO);
            assert_eq!(request.messages[1].role, "user");
            assert_eq!(request.messages[1].content, "earlier");
        }
        _ => panic!("expected a chat request"),
    }
    let (flow, action) = flow.step(BotherEvent::Reply { responses: reply(&["They do."]) });
    match action {
        BotherAction::Respond { reply } => assert_eq!(reply.message, "They do."),
        _ => panic!("expected the answer"),
    }
    assert!(matches!(flow, BotherFlow::Done));
}

#[test]
fn bother_with_conversation_loads_it() {
    let bother = Bother {
        user_id: "u-1".to_string(),
        conversation_id: Some("c-3".to_string()),
        message: "and dogs?".to_string(),
    };
    let (flow, _) = BotherFlow::start(bother);
    let (flow, action) = flow.step(BotherEvent::Knowledge { chunks: vec![] });
    match action {
        BotherAction::LoadConversation { conversation_id } => assert_eq!(conversation_id, "c-3"),
        _ => panic!("expected loading the named conversation"),
    }
    let (flow, action) = flow.step(BotherEvent::History { messages: vec![] });
    match action {
        BotherAction::SendChat { request, .. } => {
            assert_eq!(request.messages.len(), 1);
            assert!(request.messages[0].content.contains("information:\n /no_think"));
        }
        _ => panic!("expected a chat request"),
    }
    assert!(matches!(flow, BotherFlow::Asking));
}

#[test]
fn flow_refuses_out_of_turn_events() {
    let bother = Bother { user_id: "u".to_string(), conversation_id: None, message: "q".to_string() };
    let (flow, _) = BotherFlow::start(bother);
    assert!(!flow.accepts(&BotherEvent::ConversationCreated { id: "x".to_string() }));
    assert!(!flow.accepts(&BotherEvent::Reply { responses: reply(&["a"]) }));
    assert!(flow.accepts(&BotherEvent::Knowledge { chunks: vec![] }));
    assert!(!BotherFlow::Asking.accepts(&BotherEvent::Reply { responses: reply(&[]) }));
    assert!(BotherFlow::Asking.accepts(&BotherEvent::Reply { responses: reply(&["a"]) }));
}
