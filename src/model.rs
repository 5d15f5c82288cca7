use vstd::prelude::*;

verus! {

/// Who wrote one message of a conversation.
#[derive(Clone, Copy, Debug, PartialEq, Eq, Structural)]
pub enum Role {
    System,
    Assistant,
    User,
    Function,
}

/// The lowercase name under which a role is stored.
pub open spec fn role_name(r: Role) -> Seq<char> {
    match r {
        Role::System => seq!['s', 'y', 's', 't', 'e', 'm'],
        Role::Assistant => seq!['a', 's', 's', 'i', 's', 't', 'a', 'n', 't'],
        Role::User => seq!['u', 's', 'e', 'r'],
        Role::Function => seq!['f', 'u', 'n', 'c', 't', 'i', 'o', 'n'],
    }
}

/// The role stored under `s`, if any.
pub open spec fn role_of_name(s: Seq<char>) -> Option<Role> {
    if s == role_name(Role::System) {
        Some(Role::System)
    } else if s == role_name(Role::Assistant) {
        Some(Role::Assistant)
    } else if s == role_name(Role::User) {
        Some(Role::User)
    } else if s == role_name(Role::Function) {
        Some(Role::Function)
    } else {
        None
    }
}

/// Reading back the name of a role gives that role.
pub proof fn lemma_role_name_round_trip(r: Role)
    ensures
        role_of_name(role_name(r)) == Some(r),
{
    let n = role_name(r);
    assert(role_name(Role::System)[0] == 's');
    assert(role_name(Role::Assistant)[0] == 'a');
    assert(role_name(Role::User)[0] == 'u');
    assert(role_name(Role::Function)[0] == 'f');
    assert(n[0] == role_name(r)[0]);
}

impl Role {
    /// The stored name of this role.
    pub fn name(&self) -> (r: String)
        ensures
            r@ == role_name(*self),
    {
        let s = match self {
            Role::System => "system",
            Role::Assistant => "assistant",
            Role::User => "user",
            Role::Function => "function",
        };
        proof {
            reveal_strlit("system");
            reveal_strlit("assistant");
            reveal_strlit("user");
            reveal_strlit("function");
        }
        let r = s.to_owned();
        assert(r@ =~= role_name(*self));
        r
    }

    /// The role stored under `s`, or `None` for a name no role has.
    pub fn from_name(s: &str) -> (r: Option<Role>)
        ensures
            r == role_of_name(s@),
    {
        let t = s.to_owned();
        let roles = [Role::System, Role::Assistant, Role::User, Role::Function];
        let mut i: usize = 0;
        while i < 4
            invariant
                0 <= i <= 4,
                t@ == s@,
                roles@ == seq![Role::System, Role::Assistant, Role::User, Role::Function],
                forall|j: int| 0 <= j < i ==> role_name(#[trigger] roles@[j]) != s@,
            decreases 4 - i,
        {
            let role = roles[i];
            let n = role.name();
            if n == t {
                assert(role_name(roles@[i as int]) == s@);
                return Some(role);
            }
            i = i + 1;
        }
        assert(role_name(roles@[0]) != s@);
        assert(role_name(roles@[1]) != s@);
        assert(role_name(roles@[2]) != s@);
        assert(role_name(roles@[3]) != s@);
        None
    }
}

/// One message of a conversation: who wrote it and what it says.
#[derive(Clone, Debug)]
pub struct ChatMessage {
    pub role: Role,
    pub content: String,
}

/// A message as a mathematical value.
pub struct MessageV {
    pub role: Role,
    pub content: Seq<char>,
}

impl View for ChatMessage {
    type V = MessageV;

    open spec fn view(&self) -> MessageV {
        MessageV { role: self.role, content: self.content@ }
    }
}

/// A conversation history as a sequence of message values.
pub open spec fn history_view(h: Seq<ChatMessage>) -> Seq<MessageV> {
    h.map_values(|m: ChatMessage| m@)
}

impl ChatMessage {
    /// A message with the given role and content.
    pub fn new(role: Role, content: String) -> (r: ChatMessage)
        ensures
            r.role == role,
            r.content@ == content@,
    {
        ChatMessage { role, content }
    }

    /// A copy of this message.
    pub fn duplicate(&self) -> (r: ChatMessage)
        ensures
            r@ == self@,
    {
        ChatMessage { role: self.role, content: self.content.clone() }
    }
}

/// The model versions a conversation can be held with.
#[allow(non_camel_case_types)]
#[derive(Clone, Copy, Debug, PartialEq, Eq, Structural)]
pub enum ChatGPTEngine {
    Gpt35Turbo,
    Gpt35Turbo_0301,
    Gpt4,
    Gpt4_32k,
    Gpt4_0314,
    Gpt4_32k_0314,
}

/// The version a new conversation starts with, and the one an
/// unrecognised stored name falls back to.
pub open spec fn default_engine() -> ChatGPTEngine {
    ChatGPTEngine::Gpt35Turbo
}

/// The name under which a model version is stored.
pub open spec fn engine_name(e: ChatGPTEngine) -> Seq<char> {
    match e {
        ChatGPTEngine::Gpt35Turbo => "gpt-3.5-turbo"@,
        ChatGPTEngine::Gpt35Turbo_0301 => "gpt-3.5-turbo-0301"@,
        ChatGPTEngine::Gpt4 => "gpt-4"@,
        ChatGPTEngine::Gpt4_32k => "gpt-4-32k"@,
        ChatGPTEngine::Gpt4_0314 => "gpt-4-0314"@,
        ChatGPTEngine::Gpt4_32k_0314 => "gpt-4-32k-0314"@,
    }
}

/// The model version stored under `s`: the one with that name, or the
/// default one where no version has it.
pub open spec fn engine_of_name(s: Seq<char>) -> ChatGPTEngine {
    if s == engine_name(ChatGPTEngine::Gpt35Turbo) {
        ChatGPTEngine::Gpt35Turbo
    } else if s == engine_name(ChatGPTEngine::Gpt35Turbo_0301) {
        ChatGPTEngine::Gpt35Turbo_0301
    } else if s == engine_name(ChatGPTEngine::Gpt4) {
        ChatGPTEngine::Gpt4
    } else if s == engine_name(ChatGPTEngine::Gpt4_32k) {
        ChatGPTEngine::Gpt4_32k
    } else if s == engine_name(ChatGPTEngine::Gpt4_0314) {
        ChatGPTEngine::Gpt4_0314
    } else if s == engine_name(ChatGPTEngine::Gpt4_32k_0314) {
        ChatGPTEngine::Gpt4_32k_0314
    } else {
        default_engine()
    }
}

/// Reading back the name of a model version gives that version.
pub proof fn lemma_engine_name_round_trip(e: ChatGPTEngine)
    ensures
        engine_of_name(engine_name(e)) == e,
{
    reveal_strlit("gpt-3.5-turbo");
    reveal_strlit("gpt-3.5-turbo-0301");
    reveal_strlit("gpt-4");
    reveal_strlit("gpt-4-32k");
    reveal_strlit("gpt-4-0314");
    reveal_strlit("gpt-4-32k-0314");
    assert(engine_name(ChatGPTEngine::Gpt35Turbo).len() == 13);
    assert(engine_name(ChatGPTEngine::Gpt35Turbo_0301).len() == 18);
    assert(engine_name(ChatGPTEngine::Gpt4).len() == 5);
    assert(engine_name(ChatGPTEngine::Gpt4_32k).len() == 9);
    assert(engine_name(ChatGPTEngine::Gpt4_0314).len() == 10);
    assert(engine_name(ChatGPTEngine::Gpt4_32k_0314).len() == 14);
    assert(engine_name(ChatGPTEngine::Gpt4_32k)[6] == '3');
    assert(engine_name(ChatGPTEngine::Gpt4_0314)[6] == '0');
}

impl ChatGPTEngine {
    /// The stored name of this version.
    pub fn as_str(&self) -> (r: &'static str)
        ensures
            r@ == engine_name(*self),
    {
        match self {
            ChatGPTEngine::Gpt35Turbo => "gpt-3.5-turbo",
            ChatGPTEngine::Gpt35Turbo_0301 => "gpt-3.5-turbo-0301",
            ChatGPTEngine::Gpt4 => "gpt-4",
            ChatGPTEngine::Gpt4_32k => "gpt-4-32k",
            ChatGPTEngine::Gpt4_0314 => "gpt-4-0314",
            ChatGPTEngine::Gpt4_32k_0314 => "gpt-4-32k-0314",
        }
    }

    /// The version stored under `s`; an unknown name gives the default.
    pub fn from_name(s: &str) -> (r: ChatGPTEngine)
        ensures
            r == engine_of_name(s@),
    {
        let t = s.to_owned();
        if t == "gpt-3.5-turbo".to_owned() {
            ChatGPTEngine::Gpt35Turbo
        } else if t == "gpt-3.5-turbo-0301".to_owned() {
            ChatGPTEngine::Gpt35Turbo_0301
        } else if t == "gpt-4".to_owned() {
            ChatGPTEngine::Gpt4
        } else if t == "gpt-4-32k".to_owned() {
            ChatGPTEngine::Gpt4_32k
        } else if t == "gpt-4-0314".to_owned() {
            ChatGPTEngine::Gpt4_0314
        } else if t == "gpt-4-32k-0314".to_owned() {
            ChatGPTEngine::Gpt4_32k_0314
        } else {
            ChatGPTEngine::Gpt35Turbo
        }
    }
}

impl Default for ChatGPTEngine {
    fn default() -> (r: ChatGPTEngine)
        ensures
            r == default_engine(),
    {
        ChatGPTEngine::Gpt35Turbo
    }
}

/// Where one chat stands.
#[derive(Clone, Debug)]
pub enum DialogueState {
    /// No key has been accepted yet.
    ApiKeyRequest,
    /// A key was submitted and waits to be checked.
    Registration { api_key: String },
    /// The chat may converse.
    Conversation { history: Vec<ChatMessage>, version: ChatGPTEngine },
}

/// A dialogue state as a mathematical value.
pub enum DialogueV {
    ApiKeyRequest,
    Registration { api_key: Seq<char> },
    Conversation { history: Seq<MessageV>, version: ChatGPTEngine },
}

impl View for DialogueState {
    type V = DialogueV;

    open spec fn view(&self) -> DialogueV {
        match self {
            DialogueState::ApiKeyRequest => DialogueV::ApiKeyRequest,
            DialogueState::Registration { api_key } => DialogueV::Registration {
                api_key: api_key@,
            },
            DialogueState::Conversation { history, version } => DialogueV::Conversation {
                history: history_view(history@),
                version: *version,
            },
        }
    }
}

impl Default for DialogueState {
    fn default() -> (r: DialogueState)
        ensures
            r@ == DialogueV::ApiKeyRequest,
    {
        DialogueState::ApiKeyRequest
    }
}

/// Why an operation on a session failed.
#[derive(Clone, Copy, Debug, PartialEq, Eq, Structural)]
pub enum Error {
    /// The stored history cannot be read back.
    HistoryCorrupted,
    /// The backing store failed.
    DB,
    /// The store's schema could not be brought up to date.
    Migration,
    /// The submitted key is not in the allow-list.
    KeyRejected,
}

} // verus!
