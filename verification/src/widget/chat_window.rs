//! AI chat window: the conversation, the input line, and the provider.
use vstd::prelude::*;

use super::{BaseView, Widget, WidgetBase, WidgetId, WidgetIds, succ_id};
use crate::css::{added, ClassList, WidgetState};
use crate::event::{EventResult, Key, KeyEvent, KeyEventKind};
use crate::time::unix_time_nanos;
use crate::text::{
    char_count, hex, inserted, opt_view, owned, pad2, printable, push_char, push_hex, push_pad2,
    push_str, remove_at, removed, strip_control, insert_at, trim, trimmed,
};

verus! {

/// Who wrote a chat message.
#[derive(Debug, Clone, Copy, PartialEq, Eq, Structural)]
pub enum MessageRole {
    User,
    Assistant,
    System,
}

/// A chat message.
#[derive(Debug)]
pub struct ChatMessage {
    pub id: String,
    pub role: MessageRole,
    pub content: String,
    pub timestamp: String,
    pub is_streaming: bool,
    pub tokens: Option<u32>,
}

/// A message id made from a timestamp: its lowercase hexadecimal digits.
pub fn id_from_nanos(nanos: u128) -> (r: String)
    ensures
        r@ == hex(nanos as nat),
{
    let mut s = String::new();
    push_hex(&mut s, nanos);
    s
}

/// The hour and minute of the day (UTC), as `HH:MM`, for a time in seconds
/// since the epoch.
pub open spec fn clock_text(secs: nat) -> Seq<char> {
    pad2((secs % 86400) / 3600) + seq![':'] + pad2((secs % 3600) / 60)
}

/// `HH:MM` for a time in seconds since the epoch (see `clock_text`).
pub fn clock_text_of(secs: u64) -> (r: String)
    ensures
        r@ == clock_text(secs as nat),
{
    let mut s = String::new();
    push_pad2(&mut s, (secs % 86400) / 3600);
    push_char(&mut s, ':');
    push_pad2(&mut s, (secs % 3600) / 60);
    s
}

/// A fresh message id: the current time in nanoseconds since the epoch, in
/// hexadecimal (zero when the clock reads before the epoch).
pub fn uuid_simple() -> (r: String)
    ensures
        exists|n: u128| r@ == hex(n as nat),
{
    let n = match unix_time_nanos() {
        Some(n) => n,
        None => 0,
    };
    id_from_nanos(n)
}

/// The current time of day (UTC) as `HH:MM` (midnight when the clock reads
/// before the epoch).
pub fn current_time() -> (r: String)
    ensures
        exists|s: u64| r@ == clock_text(s as nat),
{
    let n = match unix_time_nanos() {
        Some(n) => n,
        None => 0,
    };
    clock_text_of(crate::time::whole_seconds(n))
}

/// `m` is a freshly made message: a time-derived id and timestamp, no tokens.
pub open spec fn fresh_message(m: ChatMessage, role: MessageRole, content: Seq<char>, streaming: bool) -> bool {
    &&& m.role == role
    &&& m.content@ == content
    &&& m.is_streaming == streaming
    &&& m.tokens is None
    &&& exists|n: u128| m.id@ == hex(n as nat)
    &&& exists|s: u64| m.timestamp@ == clock_text(s as nat)
}

impl ChatMessage {
    /// A message from the user.
    pub fn user(content: &str) -> (r: Self)
        ensures
            fresh_message(r, MessageRole::User, content@, false),
    {
        ChatMessage {
            id: uuid_simple(),
            role: MessageRole::User,
            content: owned(content),
            timestamp: current_time(),
            is_streaming: false,
            tokens: None,
        }
    }

    /// A complete message from the assistant.
    pub fn assistant(content: &str) -> (r: Self)
        ensures
            fresh_message(r, MessageRole::Assistant, content@, false),
    {
        ChatMessage {
            id: uuid_simple(),
            role: MessageRole::Assistant,
            content: owned(content),
            timestamp: current_time(),
            is_streaming: false,
            tokens: None,
        }
    }

    /// An empty assistant message whose content is still streaming in.
    pub fn assistant_streaming() -> (r: Self)
        ensures
            fresh_message(r, MessageRole::Assistant, Seq::empty(), true),
    {
        ChatMessage {
            id: uuid_simple(),
            role: MessageRole::Assistant,
            content: String::new(),
            timestamp: current_time(),
            is_streaming: true,
            tokens: None,
        }
    }

    /// A system message.
    pub fn system(content: &str) -> (r: Self)
        ensures
            fresh_message(r, MessageRole::System, content@, false),
    {
        ChatMessage {
            id: uuid_simple(),
            role: MessageRole::System,
            content: owned(content),
            timestamp: current_time(),
            is_streaming: false,
            tokens: None,
        }
    }
}

/// An AI backend.
#[derive(Debug)]
#[allow(inconsistent_fields)]
pub enum AiProvider {
    Ollama { host: String, model: String },
    LmStudio { host: String, model: String },
    LlamaCpp { host: String },
    OpenAi { api_key: String, model: String },
    Claude { api_key: String, model: String },
    OpenAiCompatible { host: String, api_key: Option<String>, model: String },
}

/// The display name of a provider.
pub open spec fn provider_name(p: AiProvider) -> Seq<char> {
    match p {
        AiProvider::Ollama { .. } => "Ollama"@,
        AiProvider::LmStudio { .. } => "LM Studio"@,
        AiProvider::LlamaCpp { .. } => "llama.cpp"@,
        AiProvider::OpenAi { .. } => "OpenAI"@,
        AiProvider::Claude { .. } => "Anthropic"@,
        AiProvider::OpenAiCompatible { .. } => "Custom API"@,
    }
}

/// The model a provider uses.
pub open spec fn provider_model(p: AiProvider) -> Seq<char> {
    match p {
        AiProvider::Ollama { model, .. } => model@,
        AiProvider::LmStudio { model, .. } => model@,
        AiProvider::LlamaCpp { .. } => "default"@,
        AiProvider::OpenAi { model, .. } => model@,
        AiProvider::Claude { model, .. } => model@,
        AiProvider::OpenAiCompatible { model, .. } => model@,
    }
}

impl AiProvider {
    /// A local Ollama server.
    pub fn ollama(model: &str) -> (r: Self)
        ensures
            r matches AiProvider::Ollama { host, model: m } && host@ == "http://localhost:11434"@ && m@ == model@,
    {
        AiProvider::Ollama { host: owned("http://localhost:11434"), model: owned(model) }
    }

    /// A local LM Studio server.
    pub fn lm_studio(model: &str) -> (r: Self)
        ensures
            r matches AiProvider::LmStudio { host, model: m } && host@ == "http://localhost:1234"@ && m@ == model@,
    {
        AiProvider::LmStudio { host: owned("http://localhost:1234"), model: owned(model) }
    }

    /// The OpenAI API.
    pub fn openai(api_key: &str, model: &str) -> (r: Self)
        ensures
            r matches AiProvider::OpenAi { api_key: k, model: m } && k@ == api_key@ && m@ == model@,
    {
        AiProvider::OpenAi { api_key: owned(api_key), model: owned(model) }
    }

    /// The Anthropic API.
    pub fn claude(api_key: &str, model: &str) -> (r: Self)
        ensures
            r matches AiProvider::Claude { api_key: k, model: m } && k@ == api_key@ && m@ == model@,
    {
        AiProvider::Claude { api_key: owned(api_key), model: owned(model) }
    }

    /// The display name (the hosted Anthropic API is shown under its
    /// vendor's name).
    pub fn display_name(&self) -> (r: &str)
        ensures
            r@ == provider_name(*self),
    {
        match self {
            AiProvider::Ollama { .. } => "Ollama",
            AiProvider::LmStudio { .. } => "LM Studio",
            AiProvider::LlamaCpp { .. } => "llama.cpp",
            AiProvider::OpenAi { .. } => "OpenAI",
            AiProvider::Claude { .. } => "Anthropic",
            AiProvider::OpenAiCompatible { .. } => "Custom API",
        }
    }

    /// The model name.
    pub fn model_name(&self) -> (r: &str)
        ensures
            r@ == provider_model(*self),
    {
        match self {
            AiProvider::Ollama { model, .. } => model.as_str(),
            AiProvider::LmStudio { model, .. } => model.as_str(),
            AiProvider::LlamaCpp { .. } => "default",
            AiProvider::OpenAi { model, .. } => model.as_str(),
            AiProvider::Claude { model, .. } => model.as_str(),
            AiProvider::OpenAiCompatible { model, .. } => model.as_str(),
        }
    }
}

/// Conversation state.
#[derive(Debug, Clone, Copy, PartialEq, Eq, Structural)]
pub enum ChatState {
    Idle,
    Connecting,
    Streaming,
    Error,
}

impl Default for ChatState {
    fn default() -> (r: Self)
        ensures
            r == ChatState::Idle,
    {
        ChatState::Idle
    }
}

/// Abstract contents of a `ChatWindow`.
pub struct ChatWindowView {
    pub base: BaseView,
    pub provider: Option<AiProvider>,
    pub system_prompt: Seq<char>,
    pub messages: Seq<ChatMessage>,
    pub input_text: Seq<char>,
    pub input_focused: bool,
    pub cursor: nat,
    pub auto_scroll: bool,
    pub state: ChatState,
    pub error_message: Option<Seq<char>>,
}

/// The cursor lies within the input text.
pub open spec fn chat_wf(v: ChatWindowView) -> bool {
    v.cursor <= v.input_text.len()
}

/// Which parts of the chat window lie under the pointer.
#[derive(Debug, Clone, Copy, PartialEq, Eq, Structural)]
pub struct ChatHit {
    /// Inside the window.
    pub in_bounds: bool,
    /// Inside the input line.
    pub in_input: bool,
    /// On the send button.
    pub in_send: bool,
}

/// What an event asks of the application.
#[derive(Debug)]
pub enum ChatAction {
    /// Nothing to do.
    Nothing,
    /// A message with the given content was sent: the application passes it
    /// and the conversation to the send handler.
    Sent(String),
    /// The conversation scrolled by the given number of wheel steps; the
    /// application moves the scroll position and auto-scroll is now off.
    Scrolled,
}

/// Chat window for talking to an AI assistant.
pub struct ChatWindow {
    base: WidgetBase,
    provider: Option<AiProvider>,
    system_prompt: String,
    messages: Vec<ChatMessage>,
    input_text: String,
    input_focused: bool,
    cursor_position: usize,
    auto_scroll: bool,
    state: ChatState,
    error_message: Option<String>,
}

impl View for ChatWindow {
    type V = ChatWindowView;

    closed spec fn view(&self) -> ChatWindowView {
        ChatWindowView {
            base: self.base@,
            provider: self.provider,
            system_prompt: self.system_prompt@,
            messages: self.messages@,
            input_text: self.input_text@,
            input_focused: self.input_focused,
            cursor: self.cursor_position as nat,
            auto_scroll: self.auto_scroll,
            state: self.state,
            error_message: opt_view(&self.error_message),
        }
    }
}

/// The conversation after sending `content`: the user's message and an
/// empty streaming assistant message appended.
pub open spec fn sent_messages(before: Seq<ChatMessage>, after: Seq<ChatMessage>, content: Seq<char>) -> bool {
    &&& after.len() == before.len() + 2
    &&& after.take(before.len() as int) == before
    &&& fresh_message(after[before.len() as int], MessageRole::User, content, false)
    &&& fresh_message(after[before.len() as int + 1], MessageRole::Assistant, Seq::empty(), true)
}

impl ChatWindow {
    /// Whether the cursor lies within the input text (see `chat_wf`); the
    /// window's own operations keep this so.
    pub fn well_formed(&self) -> (r: bool)
        ensures
            r == chat_wf(self@),
    {
        self.cursor_position <= char_count(self.input_text.as_str())
    }

    /// An idle chat window with no provider and no messages.
    pub fn new(ids: &mut WidgetIds) -> (r: Self)
        ensures
            r@.base.id == old(ids)@,
            final(ids)@ == succ_id(old(ids)@),
            r@.base.classes == seq!["chat-window"@],
            r@.base.element_id is None,
            r@.provider is None,
            r@.system_prompt == "You are a helpful AI assistant."@,
            r@.messages.len() == 0,
            r@.input_text.len() == 0,
            !r@.input_focused,
            r@.cursor == 0,
            r@.auto_scroll,
            r@.state == ChatState::Idle,
            r@.error_message is None,
            chat_wf(r@),
    {
        ChatWindow {
            base: WidgetBase::new(ids).with_class("chat-window"),
            provider: None,
            system_prompt: owned("You are a helpful AI assistant."),
            messages: Vec::new(),
            input_text: String::new(),
            input_focused: false,
            cursor_position: 0,
            auto_scroll: true,
            state: ChatState::Idle,
            error_message: None,
        }
    }

    /// Set the provider.
    pub fn provider(self, provider: AiProvider) -> (r: Self)
        ensures
            r@ == (ChatWindowView { provider: Some(provider), ..self@ }),
    {
        ChatWindow { provider: Some(provider), ..self }
    }

    /// Set the system prompt.
    pub fn system_prompt(self, prompt: &str) -> (r: Self)
        ensures
            r@ == (ChatWindowView { system_prompt: prompt@, ..self@ }),
    {
        ChatWindow { system_prompt: owned(prompt), ..self }
    }

    /// Append a message to the conversation.
    pub fn add_message(&mut self, message: ChatMessage)
        ensures
            final(self)@ == (ChatWindowView { messages: old(self)@.messages.push(message), ..old(self)@ }),
    {
        self.messages.push(message);
    }

    /// Append streamed content to the last message when it is a streaming
    /// assistant message.
    pub fn update_streaming(&mut self, content: &str)
        ensures
            ({
                let ms = old(self)@.messages;
                if ms.len() > 0 && ms.last().role == MessageRole::Assistant && ms.last().is_streaming {
                    &&& final(self)@.messages.len() == ms.len()
                    &&& final(self)@.messages.drop_last() == ms.drop_last()
                    &&& final(self)@.messages.last().content@ == ms.last().content@ + content@
                    &&& final(self)@.messages.last() == (ChatMessage { content: final(self)@.messages.last().content, ..ms.last() })
                    &&& final(self)@ == (ChatWindowView { messages: final(self)@.messages, ..old(self)@ })
                } else {
                    final(self)@ == old(self)@
                }
            }),
    {
        let n = self.messages.len();
        if n > 0 && self.messages[n - 1].role == MessageRole::Assistant && self.messages[n - 1].is_streaming {
            let ghost before = self.messages@;
            let mut last = self.messages.pop().unwrap();
            last.content.append(content);
            self.messages.push(last);
            assert(self.messages@.drop_last() =~= before.drop_last());
        }
    }

    /// Mark the last message, when it is the assistant's, as complete, and
    /// return to the idle state.
    pub fn complete_streaming(&mut self)
        ensures
            ({
                let ms = old(self)@.messages;
                &&& final(self)@.state == ChatState::Idle
                &&& if ms.len() > 0 && ms.last().role == MessageRole::Assistant {
                    final(self)@.messages == ms.drop_last().push(ChatMessage { is_streaming: false, ..ms.last() })
                } else {
                    final(self)@.messages == ms
                }
                &&& final(self)@ == (ChatWindowView { messages: final(self)@.messages, state: ChatState::Idle, ..old(self)@ })
            }),
    {
        let n = self.messages.len();
        if n > 0 && self.messages[n - 1].role == MessageRole::Assistant {
            let ghost before = self.messages@;
            let mut last = self.messages.pop().unwrap();
            last.is_streaming = false;
            self.messages.push(last);
            assert(self.messages@ =~= before.drop_last().push(ChatMessage { is_streaming: false, ..before.last() }));
        }
        self.state = ChatState::Idle;
    }

    /// Enter the error state with a message.
    pub fn set_error(&mut self, message: &str)
        ensures
            final(self)@ == (ChatWindowView { state: ChatState::Error, error_message: Some(message@), ..old(self)@ }),
    {
        self.state = ChatState::Error;
        self.error_message = Some(owned(message));
    }

    /// Leave the error state.
    pub fn clear_error(&mut self)
        ensures
            final(self)@ == (ChatWindowView { state: ChatState::Idle, error_message: None, ..old(self)@ }),
    {
        self.state = ChatState::Idle;
        self.error_message = None;
    }

    /// Remove all messages.
    pub fn clear(&mut self)
        ensures
            final(self)@ == (ChatWindowView { messages: Seq::empty(), ..old(self)@ }),
    {
        self.messages.clear();
    }

    /// The header title: the provider's name and model, or a note that no
    /// provider is set.
    pub fn title_text(&self) -> (r: String)
        ensures
            r@ == (match self@.provider {
                Some(p) => "AI Chat - "@ + provider_name(p) + " ("@ + provider_model(p) + ")"@,
                None => "AI Chat - No Provider"@,
            }),
    {
        match &self.provider {
            Some(p) => {
                let mut t = owned("AI Chat - ");
                push_str(&mut t, p.display_name());
                push_str(&mut t, " (");
                push_str(&mut t, p.model_name());
                push_str(&mut t, ")");
                t
            },
            None => owned("AI Chat - No Provider"),
        }
    }

    /// The text the input line shows: the input, or a prompt while it is empty.
    pub fn shown_input(&self) -> (r: &str)
        ensures
            r@ == (if self@.input_text.len() == 0 { "Type a message..."@ } else { self@.input_text }),
    {
        if self.input_text.as_str().is_empty() {
            "Type a message..."
        } else {
            self.input_text.as_str()
        }
    }

    /// The conversation.
    pub fn messages(&self) -> (r: &[ChatMessage])
        ensures
            r@ == self@.messages,
    {
        self.messages.as_slice()
    }

    /// The provider, if set.
    pub fn get_provider(&self) -> (r: Option<&AiProvider>)
        ensures
            match r {
                Some(p) => self@.provider == Some(*p),
                None => self@.provider is None,
            },
    {
        match &self.provider {
            Some(p) => Some(p),
            None => None,
        }
    }

    /// Replace the provider.
    pub fn set_provider(&mut self, provider: AiProvider)
        ensures
            final(self)@ == (ChatWindowView { provider: Some(provider), ..old(self)@ }),
    {
        self.provider = Some(provider);
    }

    /// The conversation state.
    pub fn chat_state(&self) -> (r: ChatState)
        ensures
            r == self@.state,
    {
        self.state
    }

    /// The text in the input line.
    pub fn input_text(&self) -> (r: &str)
        ensures
            r@ == self@.input_text,
    {
        self.input_text.as_str()
    }

    /// Send the input line: when it holds more than white space, it is
    /// cleared, the user's message and an empty streaming assistant message
    /// are appended, and the state becomes streaming. Returns the sent
    /// content, or `None` when nothing was sent.
    pub fn send_message(&mut self) -> (r: Option<String>)
        requires
            chat_wf(old(self)@),
        ensures
            chat_wf(final(self)@),
            if trimmed(old(self)@.input_text).len() == 0 {
                &&& r is None
                &&& final(self)@ == old(self)@
            } else {
                &&& r matches Some(c) && c@ == old(self)@.input_text
                &&& sent_messages(old(self)@.messages, final(self)@.messages, old(self)@.input_text)
                &&& final(self)@ == (ChatWindowView {
                    messages: final(self)@.messages,
                    input_text: Seq::empty(),
                    cursor: 0,
                    state: ChatState::Streaming,
                    ..old(self)@
                })
            },
    {
        let t = trim(self.input_text.as_str());
        if char_count(t.as_str()) == 0 {
            return None;
        }
        let mut content = String::new();
        std::mem::swap(&mut content, &mut self.input_text);
        self.cursor_position = 0;
        let ghost before = self.messages@;
        self.messages.push(ChatMessage::user(content.as_str()));
        self.messages.push(ChatMessage::assistant_streaming());
        assert(self.messages@.take(before.len() as int) =~= before);
        self.state = ChatState::Streaming;
        Some(content)
    }

    /// Handles a key event while the input line has the focus: Enter sends
    /// when idle, Backspace deletes before the cursor, arrows, Home and End
    /// move the cursor, Escape drops the focus, and typed text is inserted
    /// at the cursor without its control characters.
    pub fn handle_key(&mut self, ev: &KeyEvent) -> (r: (EventResult, ChatAction))
        requires
            chat_wf(old(self)@),
        ensures
            chat_wf(final(self)@),
            !(old(self)@.input_focused && ev.kind == KeyEventKind::Down) ==> {
                &&& final(self)@ == old(self)@
                &&& r.0 == EventResult::Ignored
                &&& r.1 is Nothing
            },
            old(self)@.input_focused && ev.kind == KeyEventKind::Down ==> {
                let v = old(self)@;
                let t = v.input_text;
                let c = v.cursor;
                match ev.key {
                    Key::Enter => {
                        &&& r.0 == EventResult::Handled
                        &&& if v.state == ChatState::Idle && trimmed(t).len() > 0 {
                            &&& r.1 matches ChatAction::Sent(m) && m@ == t
                            &&& sent_messages(v.messages, final(self)@.messages, t)
                            &&& final(self)@ == (ChatWindowView {
                                messages: final(self)@.messages,
                                input_text: Seq::empty(),
                                cursor: 0,
                                state: ChatState::Streaming,
                                ..v
                            })
                        } else {
                            r.1 is Nothing && final(self)@ == v
                        }
                    },
                    Key::Backspace => {
                        &&& r.0 == EventResult::Handled
                        &&& r.1 is Nothing
                        &&& final(self)@ == (if c > 0 {
                            ChatWindowView { input_text: removed(t, c - 1), cursor: (c - 1) as nat, ..v }
                        } else {
                            v
                        })
                    },
                    Key::Left | Key::Right | Key::Home | Key::End => {
                        &&& r.0 == EventResult::Handled
                        &&& r.1 is Nothing
                        &&& final(self)@ == (ChatWindowView {
                            cursor: match ev.key {
                                Key::Left => if c > 0 { (c - 1) as nat } else { c },
                                Key::Right => if c < t.len() { c + 1 } else { c },
                                Key::Home => 0,
                                _ => t.len(),
                            },
                            ..v
                        })
                    },
                    Key::Escape => {
                        &&& r.0 == EventResult::Handled
                        &&& r.1 is Nothing
                        &&& final(self)@ == (ChatWindowView { input_focused: false, ..v })
                    },
                    _ => match ev.text {
                        Some(s) => {
                            &&& r.0 == EventResult::Handled
                            &&& r.1 is Nothing
                            &&& final(self)@ == (ChatWindowView {
                                input_text: inserted(t, c as int, printable(s@)),
                                cursor: c + printable(s@).len(),
                                ..v
                            })
                        },
                        None => {
                            &&& r.0 == EventResult::Ignored
                            &&& r.1 is Nothing
                            &&& final(self)@ == v
                        },
                    },
                }
            },
    {
        if !(self.input_focused && ev.kind == KeyEventKind::Down) {
            return (EventResult::Ignored, ChatAction::Nothing);
        }
        match ev.key {
            Key::Enter => {
                if self.state == ChatState::Idle {
                    match self.send_message() {
                        Some(content) => (EventResult::Handled, ChatAction::Sent(content)),
                        None => (EventResult::Handled, ChatAction::Nothing),
                    }
                } else {
                    (EventResult::Handled, ChatAction::Nothing)
                }
            },
            Key::Backspace => {
                if self.cursor_position > 0 {
                    self.cursor_position = self.cursor_position - 1;
                    self.input_text = remove_at(self.input_text.as_str(), self.cursor_position);
                }
                (EventResult::Handled, ChatAction::Nothing)
            },
            Key::Left => {
                if self.cursor_position > 0 {
                    self.cursor_position = self.cursor_position - 1;
                }
                (EventResult::Handled, ChatAction::Nothing)
            },
            Key::Right => {
                if self.cursor_position < char_count(self.input_text.as_str()) {
                    self.cursor_position = self.cursor_position + 1;
                }
                (EventResult::Handled, ChatAction::Nothing)
            },
            Key::Home => {
                self.cursor_position = 0;
                (EventResult::Handled, ChatAction::Nothing)
            },
            Key::End => {
                self.cursor_position = char_count(self.input_text.as_str());
                (EventResult::Handled, ChatAction::Nothing)
            },
            Key::Escape => {
                self.input_focused = false;
                (EventResult::Handled, ChatAction::Nothing)
            },
            _ => {
                match &ev.text {
                    Some(s) => {
                        let p = strip_control(s.as_str());
                        let k = char_count(p.as_str());
                        let t = insert_at(self.input_text.as_str(), self.cursor_position, p.as_str());
                        let total = char_count(t.as_str());
                        assert(total == self.cursor_position + k + (old(self)@.input_text.len() - self.cursor_position));
                        self.input_text = t;
                        self.cursor_position = self.cursor_position + k;
                        (EventResult::Handled, ChatAction::Nothing)
                    },
                    None => (EventResult::Ignored, ChatAction::Nothing),
                }
            },
        }
    }

    /// Handles a left press (`scroll` false) or a wheel turn (`scroll`
    /// true) at a pointer position described by `hit`. A press on the send
    /// button sends when idle; a press in the input line focuses it; a
    /// press elsewhere in the window drops the input focus. A wheel turn in
    /// the window turns auto-scroll off.
    pub fn handle_pointer(&mut self, scroll: bool, hit: ChatHit) -> (r: (EventResult, ChatAction))
        requires
            chat_wf(old(self)@),
        ensures
            chat_wf(final(self)@),
            scroll ==> if hit.in_bounds {
                &&& final(self)@ == (ChatWindowView { auto_scroll: false, ..old(self)@ })
                &&& r.0 == EventResult::Handled
                &&& r.1 is Scrolled
            } else {
                final(self)@ == old(self)@ && r.0 == EventResult::Ignored && r.1 is Nothing
            },
            !scroll ==> if hit.in_send && old(self)@.state == ChatState::Idle {
                &&& r.0 == EventResult::Handled
                &&& if trimmed(old(self)@.input_text).len() > 0 {
                    &&& r.1 matches ChatAction::Sent(m) && m@ == old(self)@.input_text
                    &&& sent_messages(old(self)@.messages, final(self)@.messages, old(self)@.input_text)
                    &&& final(self)@ == (ChatWindowView {
                        messages: final(self)@.messages,
                        input_text: Seq::empty(),
                        cursor: 0,
                        state: ChatState::Streaming,
                        ..old(self)@
                    })
                } else {
                    r.1 is Nothing && final(self)@ == old(self)@
                }
            } else if hit.in_input {
                final(self)@ == (ChatWindowView { input_focused: true, ..old(self)@ })
                    && r.0 == EventResult::Handled && r.1 is Nothing
            } else if hit.in_bounds {
                final(self)@ == (ChatWindowView { input_focused: false, ..old(self)@ })
                    && r.0 == EventResult::Ignored && r.1 is Nothing
            } else {
                final(self)@ == old(self)@ && r.0 == EventResult::Ignored && r.1 is Nothing
            },
    {
        if scroll {
            if hit.in_bounds {
                self.auto_scroll = false;
                return (EventResult::Handled, ChatAction::Scrolled);
            }
            return (EventResult::Ignored, ChatAction::Nothing);
        }
        if hit.in_send && self.state == ChatState::Idle {
            return match self.send_message() {
                Some(content) => (EventResult::Handled, ChatAction::Sent(content)),
                None => (EventResult::Handled, ChatAction::Nothing),
            };
        }
        if hit.in_input {
            self.input_focused = true;
            return (EventResult::Handled, ChatAction::Nothing);
        }
        if hit.in_bounds {
            self.input_focused = false;
        }
        (EventResult::Ignored, ChatAction::Nothing)
    }

    /// Add a CSS class.
    pub fn class(self, class: &str) -> (r: Self)
        ensures
            r@ == (ChatWindowView { base: BaseView { classes: added(self@.base.classes, class@), ..self@.base }, ..self@ }),
    {
        let mut c = self;
        c.base.classes.add(class);
        c
    }

    /// Set the element ID.
    pub fn id(self, id: &str) -> (r: Self)
        ensures
            r@ == (ChatWindowView { base: BaseView { element_id: Some(id@), ..self@.base }, ..self@ }),
    {
        let mut c = self;
        c.base.element_id = Some(owned(id));
        c
    }
}

impl Widget for ChatWindow {
    fn id(&self) -> (r: WidgetId)
        ensures
            r == self@.base.id,
    {
        self.base.id
    }

    fn widget_type_name(&self) -> (r: &'static str)
        ensures
            r@ == "chat-window"@,
    {
        "chat-window"
    }

    fn element_id(&self) -> (r: Option<&str>)
        ensures
            match r {
                Some(s) => self@.base.element_id == Some(s@),
                None => self@.base.element_id is None,
            },
    {
        self.base.element_id_str()
    }

    fn classes(&self) -> (r: &ClassList)
        ensures
            r@ == self@.base.classes,
    {
        &self.base.classes
    }

    fn state(&self) -> (r: WidgetState)
        ensures
            r == self@.base.state,
    {
        self.base.state
    }
}

} // verus!
