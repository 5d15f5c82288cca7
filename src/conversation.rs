use vstd::prelude::*;
use crate::command::{classify, command_of, Command};
use crate::model::{
    history_view, ChatGPTEngine, ChatMessage, DialogueState, DialogueV, Error,
    MessageV, Role,
};

verus! {

/// A history without its oldest message; an empty history stays empty.
pub open spec fn drop_oldest(h: Seq<MessageV>) -> Seq<MessageV> {
    if h.len() == 0 {
        h
    } else {
        h.subrange(1, h.len() as int)
    }
}

/// The model version a switch command selects.
pub open spec fn selected_engine(c: Command) -> ChatGPTEngine {
    if c == Command::UseGpt4 {
        ChatGPTEngine::Gpt4
    } else {
        ChatGPTEngine::Gpt35Turbo
    }
}

/// The acknowledgement sent for a command.
pub open spec fn notice_of(c: Command) -> Seq<char> {
    match c {
        Command::Reset => "\u{2716}\u{fe0f} History Reseted"@,
        Command::Tail => "\u{2716}\u{fe0f} Take Tail"@,
        Command::UseGpt3 => "\u{1f579}GPT-3.5"@,
        Command::UseGpt4 => "\u{1f579}GPT-4"@,
        Command::Message => Seq::empty(),
    }
}

/// What to do with one inbound text of an active conversation.
pub enum Step {
    /// Store `state`, then send `notice`; the completion service is not asked.
    Store { state: DialogueState, notice: String },
    /// Ask the completion service to answer `prompt`, with `history` as
    /// context and `version` as the model.
    Ask { history: Vec<ChatMessage>, version: ChatGPTEngine, prompt: String },
}

/// A step as a mathematical value.
pub enum StepV {
    Store { state: DialogueV, notice: Seq<char> },
    Ask { history: Seq<MessageV>, version: ChatGPTEngine, prompt: Seq<char> },
}

impl View for Step {
    type V = StepV;

    open spec fn view(&self) -> StepV {
        match self {
            Step::Store { state, notice } => StepV::Store { state: state@, notice: notice@ },
            Step::Ask { history, version, prompt } => StepV::Ask {
                history: history_view(history@),
                version: *version,
                prompt: prompt@,
            },
        }
    }
}

/// The step for `text` in a conversation with history `h` and version `v`.
/// Commands change the history or the version and never ask the service;
/// any other text is asked of the service.
pub open spec fn step_spec(h: Seq<MessageV>, v: ChatGPTEngine, text: Seq<char>) -> StepV {
    let c = command_of(text);
    match c {
        Command::Reset => StepV::Store {
            state: DialogueV::Conversation { history: Seq::empty(), version: v },
            notice: notice_of(c),
        },
        Command::Tail => StepV::Store {
            state: DialogueV::Conversation { history: drop_oldest(h), version: v },
            notice: notice_of(c),
        },
        Command::UseGpt3 | Command::UseGpt4 => StepV::Store {
            state: DialogueV::Conversation { history: h, version: selected_engine(c) },
            notice: notice_of(c),
        },
        Command::Message => StepV::Ask { history: h, version: v, prompt: text },
    }
}

/// The history without its oldest message; an empty one is returned as it is.
pub fn drop_oldest_message(history: Vec<ChatMessage>) -> (r: Vec<ChatMessage>)
    ensures
        history_view(r@) == drop_oldest(history_view(history@)),
        history@.len() == 0 ==> r@.len() == 0,
{
    let mut r: Vec<ChatMessage> = Vec::new();
    if history.len() == 0 {
        return r;
    }
    let ghost hv = history_view(history@);
    let mut i: usize = 1;
    while i < history.len()
        invariant
            1 <= i <= history@.len(),
            hv == history_view(history@),
            history_view(r@) =~= hv.subrange(1, i as int),
        decreases history.len() - i,
    {
        r.push(history[i].duplicate());
        i = i + 1;
        assert(hv.subrange(1, i as int) =~= hv.subrange(1, i - 1 as int).push(hv[i - 1]));
    }
    r
}

/// The acknowledgement sent for a command.
pub fn notice(c: Command) -> (r: String)
    ensures
        r@ == notice_of(c),
{
    match c {
        Command::Reset => "\u{2716}\u{fe0f} History Reseted".to_owned(),
        Command::Tail => "\u{2716}\u{fe0f} Take Tail".to_owned(),
        Command::UseGpt3 => "\u{1f579}GPT-3.5".to_owned(),
        Command::UseGpt4 => "\u{1f579}GPT-4".to_owned(),
        Command::Message => String::new(),
    }
}

/// Decides what an inbound text does to an active conversation.
pub fn conversation_step(history: Vec<ChatMessage>, version: ChatGPTEngine, text: &str) -> (r: Step)
    ensures
        r@ == step_spec(history_view(history@), version, text@),
{
    let c = classify(text);
    match c {
        Command::Reset => {
            let empty: Vec<ChatMessage> = Vec::new();
            assert(history_view(empty@) =~= Seq::<MessageV>::empty());
            Step::Store {
                state: DialogueState::Conversation { history: empty, version },
                notice: notice(c),
            }
        },
        Command::Tail => Step::Store {
            state: DialogueState::Conversation { history: drop_oldest_message(history), version },
            notice: notice(c),
        },
        Command::UseGpt3 => Step::Store {
            state: DialogueState::Conversation { history, version: ChatGPTEngine::Gpt35Turbo },
            notice: notice(c),
        },
        Command::UseGpt4 => Step::Store {
            state: DialogueState::Conversation { history, version: ChatGPTEngine::Gpt4 },
            notice: notice(c),
        },
        Command::Message => Step::Ask { history, version, prompt: text.to_owned() },
    }
}

/// The notice sent when the completion service fails with `err`.
pub open spec fn failure_notice(err: Seq<char>) -> Seq<char> {
    "Error while request: "@ + err + ", You can try call /reset or /tail"@
}

/// What follows one answer of the completion service.
pub struct TurnOutcome {
    /// The state to store, if any.
    pub state: Option<DialogueState>,
    /// The text to send to the chat.
    pub reply: String,
}

/// Finishes a turn once the completion service has answered `prompt`. On
/// success the history grows by the prompt and then the answer, the version
/// stays, and the answer is sent; on failure nothing is stored and a notice
/// that names the recovery commands is sent.
pub fn complete_turn(
    history: Vec<ChatMessage>,
    version: ChatGPTEngine,
    prompt: String,
    outcome: Result<String, String>,
) -> (r: TurnOutcome)
    ensures
        match outcome {
            Ok(answer) => {
                &&& r.state is Some
                &&& r.state->Some_0@ == DialogueV::Conversation {
                    history: history_view(history@).push(
                        MessageV { role: Role::User, content: prompt@ },
                    ).push(MessageV { role: Role::Assistant, content: answer@ }),
                    version,
                }
                &&& r.reply@ == answer@
            },
            Err(err) => r.state is None && r.reply@ == failure_notice(err@),
        },
{
    match outcome {
        Ok(answer) => {
            let mut h = history;
            let ghost before = h@;
            h.push(ChatMessage { role: Role::User, content: prompt });
            let reply = answer.clone();
            h.push(ChatMessage { role: Role::Assistant, content: answer });
            assert(history_view(h@) =~= history_view(before).push(
                MessageV { role: Role::User, content: prompt@ },
            ).push(MessageV { role: Role::Assistant, content: reply@ }));
            TurnOutcome { state: Some(DialogueState::Conversation { history: h, version }), reply }
        },
        Err(err) => {
            let reply = "Error while request: ".to_owned().concat(err.as_str()).concat(
                ", You can try call /reset or /tail",
            );
            TurnOutcome { state: None, reply }
        },
    }
}

/// The reply to a submitted key, by the outcome of storing it.
pub open spec fn registration_reply_of(outcome: Result<(), Error>) -> Seq<char> {
    match outcome {
        Ok(()) => "Success! You can start conversation!"@,
        Err(Error::KeyRejected) => "API Key not working, please try again!"@,
        Err(_) => "Internal error, please try again later!"@,
    }
}

/// The reply to a submitted key: success, a rejected key, or a fault of the store.
pub fn registration_reply(outcome: Result<(), Error>) -> (r: String)
    ensures
        r@ == registration_reply_of(outcome),
{
    match outcome {
        Ok(()) => "Success! You can start conversation!".to_owned(),
        Err(Error::KeyRejected) => "API Key not working, please try again!".to_owned(),
        Err(_) => "Internal error, please try again later!".to_owned(),
    }
}

/// A switch of model version changes only the version, and the next
/// ordinary message is asked of the service with the version selected.
pub proof fn lemma_switch_then_ask(
    h: Seq<MessageV>,
    v: ChatGPTEngine,
    switch: Seq<char>,
    text: Seq<char>,
)
    requires
        command_of(switch) == Command::UseGpt3 || command_of(switch) == Command::UseGpt4,
        command_of(text) == Command::Message,
    ensures
        ({
            let chosen = selected_engine(command_of(switch));
            &&& step_spec(h, v, switch) matches StepV::Store { state, .. } && state
                == DialogueV::Conversation { history: h, version: chosen }
            &&& step_spec(h, chosen, text) == StepV::Ask { history: h, version: chosen, prompt: text }
        }),
{
}

} // verus!
