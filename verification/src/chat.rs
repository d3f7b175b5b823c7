//! Answering a question ("bothering" the assistant): retrieval, conversation bookkeeping and the
//! chat request to the language model, as a flow of decisions between outside steps.
//!
//! The flow starts from a [`Bother`] and asks for an outside step (a [`BotherAction`]); each
//! outcome of a step comes back as a [`BotherEvent`] and yields the next state and step.
use vstd::prelude::*;
use vstd::string::*;
use crate::consts::{LANGUAGE_MODEL, ROBOT_NAME, SYSTEM};
use crate::model::{Bother, BotherModel, Message};
use crate::text::views;

verus! {

/// Address of the chat completion endpoint of the llama server.
pub const CHAT_COMPLETIONS_URL: &'static str = "http://127.0.0.1:8765/v1/chat/completions";

/// Title given to a conversation that a question starts.
pub const CONVERSATION_TITLE: &'static str = "temp title, we'll figure this out later";

/// Text of the instruction prompt before the assistant's name.
pub const PROMPT_HEAD: &'static str = "You are a helpful chatbot named ";

/// Text of the instruction prompt between the assistant's name and the context.
pub const PROMPT_BODY: &'static str =
    ".\nUse only the following pieces of context to answer the question. Don't make up any new information:\n";

/// Text of the instruction prompt after the context.
pub const PROMPT_TAIL: &'static str = " /no_think";

/// Marks a retrieved chunk in the context.
pub const BULLET: &'static str = " - ";

/// Separates the chunks of the context.
pub const NEWLINE: &'static str = "\n";

/// A chunk as it stands in the context.
pub open spec fn bullet(chunk: Seq<char>) -> Seq<char> {
    BULLET@ + chunk
}

/// The context of the instruction prompt: one bulleted line per retrieved chunk.
pub open spec fn context_text(chunks: Seq<Seq<char>>) -> Seq<char>
    decreases chunks.len(),
{
    if chunks.len() == 0 {
        seq![]
    } else if chunks.len() == 1 {
        bullet(chunks[0])
    } else {
        context_text(chunks.drop_last()) + NEWLINE@ + bullet(chunks.last())
    }
}

/// The instruction prompt around a context.
pub open spec fn prompt_text(context: Seq<char>) -> Seq<char> {
    PROMPT_HEAD@ + ROBOT_NAME@ + PROMPT_BODY@ + context + PROMPT_TAIL@
}

/// The (role, content) pairs of stored messages: the sender type and the text.
pub open spec fn turns(history: Seq<Message>) -> Seq<(Seq<char>, Seq<char>)> {
    history.map_values(|m: Message| (m.sender_type@, m.message@))
}

/// The messages of a chat request: the instruction prompt as the system message, then the
/// stored messages in order.
pub open spec fn chat_turns(prompt: Seq<char>, history: Seq<(Seq<char>, Seq<char>)>) -> Seq<
    (Seq<char>, Seq<char>),
> {
    seq![(SYSTEM@, prompt)] + history
}

/// Joins the retrieved chunks into the context of the instruction prompt.
pub fn context_of(chunks: &Vec<String>) -> (context: String)
    ensures
        context@ == context_text(views(chunks@)),
{
    let mut context = String::new();
    let mut i: usize = 0;
    while i < chunks.len()
        invariant
            i <= chunks@.len(),
            context@ == context_text(views(chunks@).take(i as int)),
        decreases chunks@.len() - i,
    {
        let ghost done = views(chunks@).take(i as int);
        if i > 0 {
            context.append(NEWLINE);
        }
        context.append(BULLET);
        context.append(chunks[i].as_str());
        let ghost next = views(chunks@).take(i + 1);
        assert(next.drop_last() =~= done);
        assert(next.last() == chunks@[i as int]@);
        if i == 0 {
            assert(context@ =~= bullet(next[0]));
        } else {
            assert(context@ =~= context_text(next.drop_last()) + NEWLINE@ + bullet(next.last()));
        }
        i = i + 1;
    }
    assert(views(chunks@).take(chunks@.len() as int) =~= views(chunks@));
    context
}

/// The instruction prompt that asks the assistant to answer from `context` alone.
pub fn instruction_prompt(context: &str) -> (prompt: String)
    ensures
        prompt@ == prompt_text(context@),
        prompt@.len() == PROMPT_HEAD@.len() + ROBOT_NAME@.len() + PROMPT_BODY@.len() + context@.len()
            + PROMPT_TAIL@.len(),
        prompt@.subrange(
            (PROMPT_HEAD@.len() + ROBOT_NAME@.len() + PROMPT_BODY@.len()) as int,
            (PROMPT_HEAD@.len() + ROBOT_NAME@.len() + PROMPT_BODY@.len() + context@.len()) as int,
        ) == context@,
{
    let mut prompt = PROMPT_HEAD.to_owned();
    prompt.append(ROBOT_NAME);
    prompt.append(PROMPT_BODY);
    prompt.append(context);
    prompt.append(PROMPT_TAIL);
    proof {
        let k: int = (PROMPT_HEAD@.len() + ROBOT_NAME@.len() + PROMPT_BODY@.len()) as int;
        assert(prompt@.subrange(k, k + context@.len()) =~= context@);
    }
    prompt
}

/// A message of a chat request.
#[derive(Debug, Clone)]
pub struct ChatMessage {
    pub role: String,
    pub content: String,
}

/// The request sent to the language model.
#[derive(Debug, Clone)]
pub struct ChatRequest {
    pub model: String,
    pub messages: Vec<ChatMessage>,
}

/// A message that the language model answers with.
#[derive(Debug, Clone)]
pub struct RobotMessage {
    pub role: String,
    pub content: String,
}

/// One answer of the language model.
#[derive(Debug, Clone)]
pub struct RobotChoice {
    pub finish_reason: String,
    pub index: usize,
    pub message: RobotMessage,
}

/// The language model's reply to a chat request.
#[derive(Debug, Clone)]
pub struct RobotResponses {
    pub choices: Vec<RobotChoice>,
}

/// What the service answers to a question.
#[derive(Debug, Clone)]
pub struct BotherReply {
    pub message: String,
}

/// The (role, content) pairs of chat messages.
pub open spec fn message_pairs(messages: Seq<ChatMessage>) -> Seq<(Seq<char>, Seq<char>)> {
    messages.map_values(|m: ChatMessage| (m.role@, m.content@))
}

/// The texts of the language model's answers, in order.
pub open spec fn choice_contents(choices: Seq<RobotChoice>) -> Seq<Seq<char>> {
    choices.map_values(|c: RobotChoice| c.message.content@)
}

/// The messages of the chat request: the system message with the prompt, then the stored
/// messages with their sender types as roles.
pub fn chat_messages(prompt: String, history: &Vec<Message>) -> (messages: Vec<ChatMessage>)
    ensures
        message_pairs(messages@) == chat_turns(prompt@, turns(history@)),
        messages@.len() == history@.len() + 1,
        messages@[0].role@ == SYSTEM@,
        messages@[0].content@ == prompt@,
        forall|k: int|
            0 <= k < history@.len() ==> (#[trigger] messages@[k + 1]).role@ == history@[k].sender_type@
                && messages@[k + 1].content@ == history@[k].message@,
{
    let ghost p = prompt@;
    let mut messages: Vec<ChatMessage> = Vec::new();
    messages.push(ChatMessage { role: SYSTEM.to_owned(), content: prompt });
    let mut i: usize = 0;
    while i < history.len()
        invariant
            i <= history@.len(),
            message_pairs(messages@) == chat_turns(p, turns(history@).take(i as int)),
        decreases history@.len() - i,
    {
        let m = &history[i];
        let ghost before = messages@;
        messages.push(ChatMessage { role: m.sender_type.clone(), content: m.message.clone() });
        assert(message_pairs(messages@) =~= message_pairs(before).push(
            (m.sender_type@, m.message@),
        ));
        assert(turns(history@).take(i + 1) =~= turns(history@).take(i as int).push(
            (m.sender_type@, m.message@),
        ));
        assert(chat_turns(p, turns(history@).take(i + 1)) =~= chat_turns(
            p,
            turns(history@).take(i as int),
        ).push((m.sender_type@, m.message@)));
        i = i + 1;
    }
    assert(turns(history@).take(history@.len() as int) =~= turns(history@));
    proof {
        lemma_chat_turns(p, history@);
        assert forall|k: int| 0 <= k < messages@.len() implies #[trigger] message_pairs(messages@)[k]
            == (messages@[k].role@, messages@[k].content@) by {}
        assert forall|k: int| 0 <= k < history@.len() implies (#[trigger] messages@[k + 1]).role@
            == history@[k].sender_type@ && messages@[k + 1].content@ == history@[k].message@ by {
            assert(message_pairs(messages@)[k + 1] == chat_turns(p, turns(history@))[k + 1]);
        }
        assert(message_pairs(messages@)[0] == chat_turns(p, turns(history@))[0]);
        reveal_strlit("system");
    }
    messages
}

/// The text of the language model's first answer.
pub fn first_choice(responses: &RobotResponses) -> (content: String)
    requires
        responses.choices@.len() > 0,
    ensures
        content@ == choice_contents(responses.choices@)[0],
        content@ == responses.choices@[0].message.content@,
{
    responses.choices[0].message.content.clone()
}

/// The context lists each retrieved chunk on a line of its own, marked " - ", in order: no chunk
/// gives the empty context, one chunk gives its bulleted line, and one more chunk adds a line
/// feed and its bulleted line at the end.
pub proof fn lemma_context_lines(s: Seq<Seq<char>>, c: Seq<char>)
    ensures
        context_text(Seq::<Seq<char>>::empty()) == Seq::<char>::empty(),
        context_text(seq![c]) == seq![' ', '-', ' '] + c,
        s.len() > 0 ==> context_text(s.push(c)) == context_text(s) + seq!['\n', ' ', '-', ' '] + c,
{
    reveal_strlit(" - ");
    reveal_strlit("\n");
    assert(BULLET@ =~= seq![' ', '-', ' ']);
    assert(NEWLINE@ =~= seq!['\n']);
    if s.len() > 0 {
        assert(s.push(c).drop_last() =~= s);
        assert(context_text(s.push(c)) =~= context_text(s) + seq!['\n', ' ', '-', ' '] + c);
    }
}

/// The prompt holds the whole context, unchanged, between fixed texts: the prompt of a context is
/// the prompt of the empty context with the context put in before its last ten characters
/// (" /no_think").
pub proof fn lemma_prompt_holds_context(c: Seq<char>)
    ensures
        ({
            let empty = prompt_text(Seq::<char>::empty());
            &&& empty.len() >= 10
            &&& empty.skip(empty.len() - 10) == seq![' ', '/', 'n', 'o', '_', 't', 'h', 'i', 'n', 'k']
            &&& prompt_text(c) == empty.take(empty.len() - 10) + c + empty.skip(empty.len() - 10)
        }),
{
    reveal_strlit(" /no_think");
    let empty = prompt_text(Seq::<char>::empty());
    let head = PROMPT_HEAD@ + ROBOT_NAME@ + PROMPT_BODY@;
    assert(empty =~= head + PROMPT_TAIL@);
    assert(empty.take(empty.len() - 10) =~= head);
    assert(empty.skip(empty.len() - 10) =~= PROMPT_TAIL@);
    assert(PROMPT_TAIL@ =~= seq![' ', '/', 'n', 'o', '_', 't', 'h', 'i', 'n', 'k']);
    assert(prompt_text(c) =~= head + c + PROMPT_TAIL@);
}

/// The chat request carries one message more than the stored conversation: first the system
/// message with the prompt, then every stored message, in order, with its sender type as role.
pub proof fn lemma_chat_turns(prompt: Seq<char>, history: Seq<Message>)
    ensures
        ({
            let t = chat_turns(prompt, turns(history));
            &&& t.len() == history.len() + 1
            &&& t[0] == (seq!['s', 'y', 's', 't', 'e', 'm'], prompt)
            &&& forall|k: int|
                0 <= k < history.len() ==> #[trigger] t[k + 1] == (
                    history[k].sender_type@,
                    history[k].message@,
                )
        }),
{
    reveal_strlit("system");
    assert(SYSTEM@ =~= seq!['s', 'y', 's', 't', 'e', 'm']);
    let t = chat_turns(prompt, turns(history));
    assert forall|k: int| 0 <= k < history.len() implies #[trigger] t[k + 1] == (
        history[k].sender_type@,
        history[k].message@,
    ) by {
        assert(t[k + 1] == turns(history)[k]);
    }
}

/// The answer texts of a reply are the contents of its choices' messages, one per choice, in order.
pub proof fn lemma_choice_contents(choices: Seq<RobotChoice>)
    ensures
        choice_contents(choices).len() == choices.len(),
        forall|k: int|
            0 <= k < choices.len() ==> #[trigger] choice_contents(choices)[k]
                == choices[k].message.content@,
{
}

/// The pairs of chat messages are their roles and contents, one per message, in order.
pub proof fn lemma_message_pairs(messages: Seq<ChatMessage>)
    ensures
        message_pairs(messages).len() == messages.len(),
        forall|k: int|
            0 <= k < messages.len() ==> #[trigger] message_pairs(messages)[k] == (
                messages[k].role@,
                messages[k].content@,
            ),
{
}

/// Where the answering of a question stands.
#[derive(Debug)]
pub enum BotherFlow {
    /// Waiting for the chunks retrieved for the question.
    Retrieving { bother: Bother },
    /// Waiting for the identifier of the conversation created for the question.
    Creating { prompt: String },
    /// Waiting for the stored messages of the conversation.
    Loading { prompt: String },
    /// Waiting for the language model's reply.
    Asking,
    /// The question is answered.
    Done,
}

/// The outcome of an outside step.
#[derive(Debug)]
pub enum BotherEvent {
    /// The chunks retrieved for the question, closest first.
    Knowledge { chunks: Vec<String> },
    /// The identifier of the conversation just created.
    ConversationCreated { id: String },
    /// The stored messages of the conversation, oldest first.
    History { messages: Vec<Message> },
    /// The language model's reply.
    Reply { responses: RobotResponses },
}

/// An outside step to take.
#[derive(Debug)]
pub enum BotherAction {
    /// Retrieve the chunks closest to `query`; `top_n` chunks, the default number when `None`.
    Retrieve { query: String, top_n: Option<usize> },
    /// Create a conversation for a user.
    CreateConversation { user_id: String, title: String },
    /// Read the stored messages of a conversation.
    LoadConversation { conversation_id: String },
    /// Send a chat request.
    SendChat { url: String, request: ChatRequest },
    /// Answer the question.
    Respond { reply: BotherReply },
}

/// The state of the flow as text values.
pub enum FlowModel {
    Retrieving { bother: BotherModel },
    Creating { prompt: Seq<char> },
    Loading { prompt: Seq<char> },
    Asking,
    Done,
}

/// An event as text values: the stored messages as (sender type, text) pairs and the reply as
/// the texts of its answers.
pub enum EventModel {
    Knowledge { chunks: Seq<Seq<char>> },
    ConversationCreated { id: Seq<char> },
    History { turns: Seq<(Seq<char>, Seq<char>)> },
    Reply { contents: Seq<Seq<char>> },
}

/// An action as text values.
pub enum ActionModel {
    Retrieve { query: Seq<char>, top_n: Option<usize> },
    CreateConversation { user_id: Seq<char>, title: Seq<char> },
    LoadConversation { conversation_id: Seq<char> },
    SendChat { url: Seq<char>, model: Seq<char>, messages: Seq<(Seq<char>, Seq<char>)> },
    Respond { message: Seq<char> },
}

impl View for BotherFlow {
    type V = FlowModel;

    open spec fn view(&self) -> FlowModel {
        match self {
            BotherFlow::Retrieving { bother } => FlowModel::Retrieving { bother: bother@ },
            BotherFlow::Creating { prompt } => FlowModel::Creating { prompt: prompt@ },
            BotherFlow::Loading { prompt } => FlowModel::Loading { prompt: prompt@ },
            BotherFlow::Asking => FlowModel::Asking,
            BotherFlow::Done => FlowModel::Done,
        }
    }
}

impl View for BotherEvent {
    type V = EventModel;

    open spec fn view(&self) -> EventModel {
        match self {
            BotherEvent::Knowledge { chunks } => EventModel::Knowledge { chunks: views(chunks@) },
            BotherEvent::ConversationCreated { id } => EventModel::ConversationCreated { id: id@ },
            BotherEvent::History { messages } => EventModel::History { turns: turns(messages@) },
            BotherEvent::Reply { responses } => EventModel::Reply {
                contents: choice_contents(responses.choices@),
            },
        }
    }
}

impl View for BotherAction {
    type V = ActionModel;

    open spec fn view(&self) -> ActionModel {
        match self {
            BotherAction::Retrieve { query, top_n } => ActionModel::Retrieve {
                query: query@,
                top_n: *top_n,
            },
            BotherAction::CreateConversation { user_id, title } => ActionModel::CreateConversation {
                user_id: user_id@,
                title: title@,
            },
            BotherAction::LoadConversation { conversation_id } => ActionModel::LoadConversation {
                conversation_id: conversation_id@,
            },
            BotherAction::SendChat { url, request } => ActionModel::SendChat {
                url: url@,
                model: request.model@,
                messages: message_pairs(request.messages@),
            },
            BotherAction::Respond { reply } => ActionModel::Respond { message: reply.message@ },
        }
    }
}

/// The state and first step of answering a question: retrieve the chunks closest to it.
pub open spec fn flow_start(bother: BotherModel) -> (FlowModel, ActionModel) {
    (
        FlowModel::Retrieving { bother },
        ActionModel::Retrieve { query: bother.message, top_n: None },
    )
}

/// The events that a state takes: each state waits for the outcome of its own step, and a reply
/// must hold at least one answer.
pub open spec fn flow_accepts(state: FlowModel, event: EventModel) -> bool {
    match (state, event) {
        (FlowModel::Retrieving { .. }, EventModel::Knowledge { .. }) => true,
        (FlowModel::Creating { .. }, EventModel::ConversationCreated { .. }) => true,
        (FlowModel::Loading { .. }, EventModel::History { .. }) => true,
        (FlowModel::Asking, EventModel::Reply { contents }) => contents.len() > 0,
        _ => false,
    }
}

/// The next state and step after an event. With the retrieved chunks the prompt is built; a
/// question without a conversation then creates one for its user, a question with one loads it;
/// a created conversation is loaded; its messages follow the prompt in the chat request; the
/// first answer of the reply answers the question.
pub open spec fn flow_step(state: FlowModel, event: EventModel) -> (FlowModel, ActionModel) {
    match (state, event) {
        (FlowModel::Retrieving { bother }, EventModel::Knowledge { chunks }) => {
            let prompt = prompt_text(context_text(chunks));
            match bother.conversation_id {
                None => (
                    FlowModel::Creating { prompt },
                    ActionModel::CreateConversation {
                        user_id: bother.user_id,
                        title: CONVERSATION_TITLE@,
                    },
                ),
                Some(id) => (
                    FlowModel::Loading { prompt },
                    ActionModel::LoadConversation { conversation_id: id },
                ),
            }
        },
        (FlowModel::Creating { prompt }, EventModel::ConversationCreated { id }) => (
            FlowModel::Loading { prompt },
            ActionModel::LoadConversation { conversation_id: id },
        ),
        (FlowModel::Loading { prompt }, EventModel::History { turns }) => (
            FlowModel::Asking,
            ActionModel::SendChat {
                url: CHAT_COMPLETIONS_URL@,
                model: LANGUAGE_MODEL@,
                messages: chat_turns(prompt, turns),
            },
        ),
        (_, EventModel::Reply { contents }) => (
            FlowModel::Done,
            ActionModel::Respond { message: contents[0] },
        ),
        _ => (state, ActionModel::Respond { message: seq![] }),
    }
}

impl BotherFlow {
    /// Starts answering a question.
    pub fn start(bother: Bother) -> (res: (BotherFlow, BotherAction))
        ensures
            (res.0@, res.1@) == flow_start(bother@),
    {
        let query = bother.message.clone();
        (BotherFlow::Retrieving { bother }, BotherAction::Retrieve { query, top_n: None })
    }

    /// Whether the flow takes `event` now.
    pub fn accepts(&self, event: &BotherEvent) -> (ok: bool)
        ensures
            ok == flow_accepts(self@, event@),
    {
        match (self, event) {
            (BotherFlow::Retrieving { .. }, BotherEvent::Knowledge { .. }) => true,
            (BotherFlow::Creating { .. }, BotherEvent::ConversationCreated { .. }) => true,
            (BotherFlow::Loading { .. }, BotherEvent::History { .. }) => true,
            (BotherFlow::Asking, BotherEvent::Reply { responses }) => responses.choices.len() > 0,
            _ => false,
        }
    }

    /// Takes the outcome of the last step and decides the next one.
    pub fn step(self, event: BotherEvent) -> (res: (BotherFlow, BotherAction))
        requires
            flow_accepts(self@, event@),
        ensures
            (res.0@, res.1@) == flow_step(self@, event@),
    {
        match (self, event) {
            (BotherFlow::Retrieving { bother }, BotherEvent::Knowledge { chunks }) => {
                let context = context_of(&chunks);
                let prompt = instruction_prompt(context.as_str());
                match bother.conversation_id {
                    None => (
                        BotherFlow::Creating { prompt },
                        BotherAction::CreateConversation {
                            user_id: bother.user_id,
                            title: CONVERSATION_TITLE.to_owned(),
                        },
                    ),
                    Some(id) => (
                        BotherFlow::Loading { prompt },
                        BotherAction::LoadConversation { conversation_id: id },
                    ),
                }
            },
            (BotherFlow::Creating { prompt }, BotherEvent::ConversationCreated { id }) => (
                BotherFlow::Loading { prompt },
                BotherAction::LoadConversation { conversation_id: id },
            ),
            (BotherFlow::Loading { prompt }, BotherEvent::History { messages }) => {
                let request = ChatRequest {
                    model: LANGUAGE_MODEL.to_owned(),
                    messages: chat_messages(prompt, &messages),
                };
                (
                    BotherFlow::Asking,
                    BotherAction::SendChat { url: CHAT_COMPLETIONS_URL.to_owned(), request },
                )
            },
            (_, BotherEvent::Reply { responses }) => {
                let message = first_choice(&responses);
                (BotherFlow::Done, BotherAction::Respond { reply: BotherReply { message } })
            },
            (state, _) => (state, BotherAction::Respond { reply: BotherReply { message: String::new() } }),
        }
    }
}

/// The text values of the flow's states, events and actions are their fields' texts: the
/// question's fields, the prompt, the retrieved chunks, the stored messages' (sender type, text)
/// pairs, the reply's answer texts, and each action's fields, with a chat request's model and
/// (role, content) pairs.
pub proof fn lemma_flow_views(b: Bother, f: BotherFlow, e: BotherEvent, a: BotherAction)
    ensures
        b@.user_id == b.user_id@,
        b@.message == b.message@,
        b.conversation_id matches Some(id) ==> b@.conversation_id == Some(id@),
        b.conversation_id is None ==> b@.conversation_id is None,
        f matches BotherFlow::Retrieving { bother } ==> f@ == (FlowModel::Retrieving {
            bother: bother@,
        }),
        f matches BotherFlow::Creating { prompt } ==> f@ == (FlowModel::Creating {
            prompt: prompt@,
        }),
        f matches BotherFlow::Loading { prompt } ==> f@ == (FlowModel::Loading { prompt: prompt@ }),
        f matches BotherFlow::Asking ==> f@ == FlowModel::Asking,
        f matches BotherFlow::Done ==> f@ == FlowModel::Done,
        e matches BotherEvent::Knowledge { chunks } ==> e@ == (EventModel::Knowledge {
            chunks: views(chunks@),
        }),
        e matches BotherEvent::ConversationCreated { id } ==> e@
            == (EventModel::ConversationCreated { id: id@ }),
        e matches BotherEvent::History { messages } ==> e@ == (EventModel::History {
            turns: turns(messages@),
        }),
        e matches BotherEvent::Reply { responses } ==> e@ == (EventModel::Reply {
            contents: choice_contents(responses.choices@),
        }),
        a matches BotherAction::Retrieve { query, top_n } ==> a@ == (ActionModel::Retrieve {
            query: query@,
            top_n,
        }),
        a matches BotherAction::CreateConversation { user_id, title } ==> a@
            == (ActionModel::CreateConversation { user_id: user_id@, title: title@ }),
        a matches BotherAction::LoadConversation { conversation_id } ==> a@
            == (ActionModel::LoadConversation { conversation_id: conversation_id@ }),
        a matches BotherAction::SendChat { url, request } ==> a@ == (ActionModel::SendChat {
            url: url@,
            model: request.model@,
            messages: message_pairs(request.messages@),
        }),
        a matches BotherAction::Respond { reply } ==> a@ == (ActionModel::Respond {
            message: reply.message@,
        }),
{
}

/// The turns of stored messages are their (sender type, text) pairs, one per message, in order.
pub proof fn lemma_turns(history: Seq<Message>)
    ensures
        turns(history).len() == history.len(),
        forall|k: int|
            0 <= k < history.len() ==> #[trigger] turns(history)[k] == (
                history[k].sender_type@,
                history[k].message@,
            ),
{
}

/// Each state takes only the outcome of its own step: retrieved chunks while retrieving, a new
/// identifier while creating, stored messages while loading, and while asking only a reply that
/// holds at least one answer; a finished flow takes nothing.
pub proof fn lemma_flow_accepts(s: FlowModel, e: EventModel)
    ensures
        s is Retrieving ==> (flow_accepts(s, e) <==> e is Knowledge),
        s is Creating ==> (flow_accepts(s, e) <==> e is ConversationCreated),
        s is Loading ==> (flow_accepts(s, e) <==> e is History),
        s is Asking ==> (flow_accepts(s, e) <==> (e matches EventModel::Reply { contents }
            && contents.len() > 0)),
        s is Done ==> !flow_accepts(s, e),
{
}

/// A whole answering of question `b`, fed the outcomes of its steps in order: the retrieved
/// `chunks`, the identifier `created` of a created conversation (used only when `b` names none),
/// the stored `history` and the reply's answer texts `contents`. Gives the steps asked for, the
/// final state, and whether every outcome was taken.
pub open spec fn session(
    b: BotherModel,
    chunks: Seq<Seq<char>>,
    created: Seq<char>,
    history: Seq<(Seq<char>, Seq<char>)>,
    contents: Seq<Seq<char>>,
) -> (Seq<ActionModel>, FlowModel, bool) {
    let (s1, a1) = flow_start(b);
    let e2 = EventModel::Knowledge { chunks };
    let (s2, a2) = flow_step(s1, e2);
    let e_history = EventModel::History { turns: history };
    let e_reply = EventModel::Reply { contents };
    match b.conversation_id {
        None => {
            let e3 = EventModel::ConversationCreated { id: created };
            let (s3, a3) = flow_step(s2, e3);
            let (s4, a4) = flow_step(s3, e_history);
            let (s5, a5) = flow_step(s4, e_reply);
            (
                seq![a1, a2, a3, a4, a5],
                s5,
                flow_accepts(s1, e2) && flow_accepts(s2, e3) && flow_accepts(s3, e_history)
                    && flow_accepts(s4, e_reply),
            )
        },
        Some(_) => {
            let (s4, a4) = flow_step(s2, e_history);
            let (s5, a5) = flow_step(s4, e_reply);
            (
                seq![a1, a2, a4, a5],
                s5,
                flow_accepts(s1, e2) && flow_accepts(s2, e_history) && flow_accepts(s4, e_reply),
            )
        },
    }
}

/// How a question is answered. The flow takes the outcomes in order and ends done. It retrieves
/// the chunks for the question's text; a question without a conversation creates one for its
/// user with the placeholder title and loads the one created, a question with a conversation
/// loads that one and creates none; it sends the language model a chat request whose first
/// message is the system prompt built from the retrieved chunks and whose other messages are the
/// stored ones, in order; it answers with the first answer of the reply.
pub proof fn lemma_bother_session(
    b: BotherModel,
    chunks: Seq<Seq<char>>,
    created: Seq<char>,
    history: Seq<(Seq<char>, Seq<char>)>,
    contents: Seq<Seq<char>>,
)
    requires
        contents.len() > 0,
    ensures
        ({
            let (actions, last, taken) = session(b, chunks, created, history, contents);
            let send = ActionModel::SendChat {
                url: CHAT_COMPLETIONS_URL@,
                model: LANGUAGE_MODEL@,
                messages: chat_turns(prompt_text(context_text(chunks)), history),
            };
            let retrieve = ActionModel::Retrieve { query: b.message, top_n: None };
            let respond = ActionModel::Respond { message: contents[0] };
            &&& taken
            &&& last == FlowModel::Done
            &&& actions == match b.conversation_id {
                None => seq![
                    retrieve,
                    ActionModel::CreateConversation {
                        user_id: b.user_id,
                        title: CONVERSATION_TITLE@,
                    },
                    ActionModel::LoadConversation { conversation_id: created },
                    send,
                    respond,
                ],
                Some(id) => seq![
                    retrieve,
                    ActionModel::LoadConversation { conversation_id: id },
                    send,
                    respond,
                ],
            }
        }),
{
}

} // verus!
