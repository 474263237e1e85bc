//! The chat assistant's bookkeeping: which providers there are, which model
//! a request goes to, and how a conversation is laid out as one prompt.
//! Talking to a provider is the caller's part.

use vstd::prelude::*;
use vstd::string::*;
use crate::text::{first_word, first_word_of, lines_of, split_lines};

verus! {

/// One turn of a conversation.
#[derive(Clone, Debug, PartialEq, Eq)]
pub struct ChatMessage {
    /// `user`, `assistant` or `system`.
    pub role: String,
    pub content: String,
}

/// A conversation to continue, and who is to continue it.
#[derive(Clone, Debug, PartialEq, Eq)]
pub struct ChatRequest {
    pub messages: Vec<ChatMessage>,
    pub model: Option<String>,
    /// `ollama` or `openai`.
    pub provider: String,
}

/// A provider's answer.
#[derive(Clone, Debug, PartialEq, Eq)]
pub struct ChatResponse {
    pub content: String,
    pub model: String,
    pub provider: String,
}

/// A provider and the models it offers.
#[derive(Clone, Debug, PartialEq, Eq)]
pub struct AIProvider {
    pub name: String,
    pub available: bool,
    pub models: Vec<String>,
}

/// An `AIProvider` with its texts as sequences of characters.
pub struct ProviderView {
    pub name: Seq<char>,
    pub available: bool,
    pub models: Seq<Seq<char>>,
}

/// The views of a sequence of texts, in the same order.
pub open spec fn texts(items: Seq<String>) -> Seq<Seq<char>> {
    items.map_values(|t: String| t@)
}

impl View for AIProvider {
    type V = ProviderView;

    open spec fn view(&self) -> ProviderView {
        ProviderView { name: self.name@, available: self.available, models: texts(self.models@) }
    }
}

/// The entry for the local provider: available with the models that were
/// found installed, or unavailable with none.
pub open spec fn local_provider(installed: Option<Seq<Seq<char>>>) -> ProviderView {
    match installed {
        Some(models) => ProviderView { name: "ollama"@, available: true, models },
        None => ProviderView { name: "ollama"@, available: false, models: Seq::empty() },
    }
}

/// The entry for the cloud provider. It is always listed as available; a
/// request fails later where no key is at hand.
pub open spec fn cloud_provider() -> ProviderView {
    ProviderView {
        name: "openai"@,
        available: true,
        models: seq!["gpt-4o"@, "gpt-4o-mini"@, "gpt-4-turbo"@, "gpt-3.5-turbo"@],
    }
}

/// The views of an optional list of texts.
pub open spec fn optional_texts(items: Option<Vec<String>>) -> Option<Seq<Seq<char>>> {
    match items {
        Some(v) => Some(texts(v@)),
        None => None,
    }
}

/// Lists the providers: the local one first, with the models found
/// installed (`None` where the local provider is not installed or not
/// running), then the cloud one.
pub fn get_providers(installed: Option<Vec<String>>) -> (providers: Vec<AIProvider>)
    ensures
        providers@.len() == 2,
        providers@[0]@ == local_provider(optional_texts(installed)),
        providers@[1]@ == cloud_provider(),
{
    let mut providers: Vec<AIProvider> = Vec::new();
    match installed {
        Some(models) => {
            providers.push(
                AIProvider { name: String::from_str("ollama"), available: true, models },
            );
        },
        None => {
            let none: Vec<String> = Vec::new();
            assert(texts(none@) =~= Seq::<Seq<char>>::empty());
            providers.push(
                AIProvider { name: String::from_str("ollama"), available: false, models: none },
            );
        },
    }
    let mut models: Vec<String> = Vec::new();
    models.push(String::from_str("gpt-4o"));
    models.push(String::from_str("gpt-4o-mini"));
    models.push(String::from_str("gpt-4-turbo"));
    models.push(String::from_str("gpt-3.5-turbo"));
    assert(texts(models@) =~= cloud_provider().models);
    providers.push(AIProvider { name: String::from_str("openai"), available: true, models });
    providers
}

/// The text of the system prompt.
pub open spec fn system_prompt_text() -> Seq<char> {
    "You are Alagappa AI, a helpful assistant built into Alagappa Tools - a desktop application for:\n- Biometric attendance management (ZKTeco devices)\n- Document conversion (Excel, CSV, JSON, PDF)\n- Image processing (resize, convert, compress)\n- Video processing (convert, compress, extract audio)\n\nYou help users with:\n1. Using the app's features effectively\n2. Troubleshooting issues\n3. General questions and tasks\n4. Data analysis and insights\n\nBe concise, friendly, and helpful. Use emojis sparingly for clarity."@
}

/// The prompt that introduces the assistant to a model.
pub fn get_system_prompt() -> (prompt: String)
    ensures
        prompt@ == system_prompt_text(),
{
    String::from_str(
        "You are Alagappa AI, a helpful assistant built into Alagappa Tools - a desktop application for:\n- Biometric attendance management (ZKTeco devices)\n- Document conversion (Excel, CSV, JSON, PDF)\n- Image processing (resize, convert, compress)\n- Video processing (convert, compress, extract audio)\n\nYou help users with:\n1. Using the app's features effectively\n2. Troubleshooting issues\n3. General questions and tasks\n4. Data analysis and insights\n\nBe concise, friendly, and helpful. Use emojis sparingly for clarity.",
    )
}

fn same_text(text: &String, literal: &str) -> (same: bool)
    ensures
        same == (text@ == literal@),
{
    let other = String::from_str(literal);
    *text == other
}

/// The model a request goes to where it names none.
pub open spec fn default_model_name(provider: Seq<char>) -> Seq<char> {
    if provider == "openai"@ {
        "gpt-4o-mini"@
    } else {
        "llama3.2"@
    }
}

/// The model a request to `provider` goes to where it names none.
pub fn default_model(provider: &String) -> (model: String)
    ensures
        model@ == default_model_name(provider@),
{
    if same_text(provider, "openai") {
        String::from_str("gpt-4o-mini")
    } else {
        String::from_str("llama3.2")
    }
}

/// The speaker's label in a prompt: the three known roles are capitalised,
/// any other role stands as it is.
pub open spec fn speaker_label(role: Seq<char>) -> Seq<char> {
    if role == "system"@ {
        "System"@
    } else if role == "user"@ {
        "User"@
    } else if role == "assistant"@ {
        "Assistant"@
    } else {
        role
    }
}

/// One turn as a line of a prompt.
pub open spec fn prompt_line(role: Seq<char>, content: Seq<char>) -> Seq<char> {
    speaker_label(role) + ": "@ + content + "\n"@
}

/// The turns of a conversation, one line each.
pub open spec fn prompt_lines(messages: Seq<ChatMessage>) -> Seq<char>
    decreases messages.len(),
{
    if messages.len() == 0 {
        Seq::empty()
    } else {
        prompt_lines(messages.drop_last()) + prompt_line(
            messages.last().role@,
            messages.last().content@,
        )
    }
}

/// A conversation as one prompt: a line for each turn, and the cue for the
/// assistant's next turn.
pub open spec fn prompt_of(messages: Seq<ChatMessage>) -> Seq<char> {
    prompt_lines(messages) + "Assistant:"@
}

/// Lays a conversation out as one prompt for a model that takes plain text.
pub fn build_prompt(messages: &[ChatMessage]) -> (prompt: String)
    ensures
        prompt@ == prompt_of(messages@),
{
    let mut prompt = String::new();
    let mut i: usize = 0;
    while i < messages.len()
        invariant
            i <= messages@.len(),
            prompt@ == prompt_lines(messages@.take(i as int)),
        decreases messages@.len() - i,
    {
        let message = &messages[i];
        if same_text(&message.role, "system") {
            prompt.append("System");
        } else if same_text(&message.role, "user") {
            prompt.append("User");
        } else if same_text(&message.role, "assistant") {
            prompt.append("Assistant");
        } else {
            prompt.append(message.role.as_str());
        }
        prompt.append(": ");
        prompt.append(message.content.as_str());
        prompt.append("\n");
        i += 1;
        proof {
            assert(messages@.take(i as int).drop_last() =~= messages@.take(i - 1));
        }
    }
    proof {
        assert(messages@.take(i as int) =~= messages@);
    }
    prompt.append("Assistant:");
    prompt
}

/// Why a request cannot be passed on to a provider.
#[derive(Clone, Debug, PartialEq, Eq)]
pub enum ChatError {
    /// The cloud provider was asked for, and no key is at hand.
    ApiKeyRequired,
    /// The request names a provider that is not known.
    UnknownProvider(String),
}

impl ChatError {
    /// The error in words.
    pub open spec fn message_text(self) -> Seq<char> {
        match self {
            ChatError::ApiKeyRequired => "OpenAI API key required"@,
            ChatError::UnknownProvider(name) => "Unknown provider: "@ + name@,
        }
    }

    /// The error in words.
    pub fn message(&self) -> (text: String)
        ensures
            text@ == self.message_text(),
    {
        match self {
            ChatError::ApiKeyRequired => String::from_str("OpenAI API key required"),
            ChatError::UnknownProvider(name) => {
                let mut text = String::from_str("Unknown provider: ");
                text.append(name.as_str());
                text
            },
        }
    }
}

/// Where a request goes, with all that is needed to send it.
#[derive(Clone, Debug, PartialEq, Eq)]
pub enum ChatPlan {
    /// To the local provider, as one prompt.
    Ollama { messages: Vec<ChatMessage>, model: String },
    /// To the cloud provider, with the key to present.
    OpenAi { messages: Vec<ChatMessage>, model: String, api_key: String },
}

/// The model that a request goes to: the one it names, or the provider's
/// default.
pub open spec fn model_of(request: ChatRequest) -> Seq<char> {
    match request.model {
        Some(m) => m@,
        None => default_model_name(request.provider@),
    }
}

/// Whether `plan` is the decision on `request` with `api_key` at hand.
///
/// A request to the local provider always has a plan. One to the cloud
/// provider has one where a key is at hand, and fails without. A request to
/// any other provider fails and quotes the name. A plan carries the
/// conversation unchanged and the model that the request goes to.
pub open spec fn decides(
    request: ChatRequest,
    api_key: Option<String>,
    plan: Result<ChatPlan, ChatError>,
) -> bool {
    if request.provider@ == "ollama"@ {
        match plan {
            Ok(ChatPlan::Ollama { messages, model }) => messages == request.messages && model@
                == model_of(request),
            _ => false,
        }
    } else if request.provider@ == "openai"@ {
        match (api_key, plan) {
            (Some(key), Ok(ChatPlan::OpenAi { messages, model, api_key })) => messages
                == request.messages && model@ == model_of(request) && api_key == key,
            (None, Err(ChatError::ApiKeyRequired)) => true,
            _ => false,
        }
    } else {
        match plan {
            Err(ChatError::UnknownProvider(name)) => name@ == request.provider@,
            _ => false,
        }
    }
}

/// Decides where a request goes.
pub fn plan_chat(request: ChatRequest, api_key: Option<String>) -> (plan: Result<
    ChatPlan,
    ChatError,
>)
    ensures
        decides(request, api_key, plan),
{
    let model = match request.model {
        Some(m) => m,
        None => default_model(&request.provider),
    };
    if same_text(&request.provider, "ollama") {
        Ok(ChatPlan::Ollama { messages: request.messages, model })
    } else if same_text(&request.provider, "openai") {
        match api_key {
            Some(key) => Ok(ChatPlan::OpenAi { messages: request.messages, model, api_key: key }),
            None => Err(ChatError::ApiKeyRequired),
        }
    } else {
        Err(ChatError::UnknownProvider(request.provider))
    }
}

/// The first words of `lines`, in order, leaving out the lines that hold no
/// word.
pub open spec fn first_words(lines: Seq<Seq<char>>) -> Seq<Seq<char>>
    decreases lines.len(),
{
    if lines.len() == 0 {
        Seq::empty()
    } else if first_word_of(lines.last()).len() == 0 {
        first_words(lines.drop_last())
    } else {
        first_words(lines.drop_last()).push(first_word_of(lines.last()))
    }
}

/// The models that a listing of the local provider names: the first word of
/// each line after the heading.
pub open spec fn model_names(listing: Seq<char>) -> Seq<Seq<char>> {
    if lines_of(listing).len() == 0 {
        Seq::empty()
    } else {
        first_words(lines_of(listing).drop_first())
    }
}

/// Reads the names of the installed models out of the local provider's
/// listing: a heading, then one line per model that starts with its name.
pub fn parse_model_list(listing: &str) -> (models: Vec<String>)
    ensures
        texts(models@) == model_names(listing@),
{
    let lines = split_lines(listing);
    let mut models: Vec<String> = Vec::new();
    let ghost all = lines_of(listing@);
    if lines.len() == 0 {
        return models;
    }
    let mut i: usize = 1;
    while i < lines.len()
        invariant
            1 <= i <= lines@.len(),
            all == lines@.map_values(|l: String| l@),
            texts(models@) == first_words(all.drop_first().take(i - 1)),
        decreases lines@.len() - i,
    {
        let word = first_word(lines[i].as_str());
        proof {
            assert(all.drop_first().take(i as int).drop_last() =~= all.drop_first().take(i - 1));
        }
        if word.as_str().unicode_len() > 0 {
            models.push(word);
        }
        i += 1;
    }
    proof {
        assert(all.drop_first().take(i - 1) =~= all.drop_first());
    }
    models
}

/// The arguments that the local provider is run with to answer `prompt`
/// with `model`.
pub fn ollama_args(model: &str, prompt: &str) -> (args: Vec<String>)
    ensures
        texts(args@) == seq!["run"@, model@, prompt@],
{
    let mut args: Vec<String> = Vec::new();
    args.push(String::from_str("run"));
    args.push(String::from_str(model));
    args.push(String::from_str(prompt));
    args
}

/// The address that chat completions are asked of.
pub open spec fn completions_url() -> Seq<char> {
    "https://api.openai.com/v1/chat/completions"@
}

/// The arguments that `curl` is run with to post `body` to the cloud
/// provider under `api_key`.
pub open spec fn completion_request(api_key: Seq<char>, body: Seq<char>) -> Seq<Seq<char>> {
    seq![
        "-s"@,
        "-X"@,
        "POST"@,
        completions_url(),
        "-H"@,
        "Content-Type: application/json"@,
        "-H"@,
        "Authorization: Bearer "@ + api_key,
        "-d"@,
        body,
    ]
}

/// The arguments that `curl` is run with to post `body` to the cloud
/// provider under `api_key`.
pub fn openai_args(api_key: &str, body: &str) -> (args: Vec<String>)
    ensures
        texts(args@) == completion_request(api_key@, body@),
{
    let mut authorization = String::from_str("Authorization: Bearer ");
    authorization.append(api_key);
    let mut args: Vec<String> = Vec::new();
    args.push(String::from_str("-s"));
    args.push(String::from_str("-X"));
    args.push(String::from_str("POST"));
    args.push(String::from_str("https://api.openai.com/v1/chat/completions"));
    args.push(String::from_str("-H"));
    args.push(String::from_str("Content-Type: application/json"));
    args.push(String::from_str("-H"));
    args.push(authorization);
    args.push(String::from_str("-d"));
    args.push(String::from_str(body));
    args
}

/// What of the cloud provider's answer decides the outcome: whether it has
/// an `error` member and, if so, the error's message where that is a text;
/// and the content of the first choice's message, where there is one and it
/// is a text.
#[derive(Clone, Debug, PartialEq, Eq)]
pub struct CompletionReply {
    pub error: Option<Option<String>>,
    pub content: Option<String>,
}

/// Why the cloud provider's answer holds no content.
#[derive(Clone, Debug, PartialEq, Eq)]
pub enum CompletionError {
    /// The provider reported an error, with this message.
    Api(String),
    /// The answer has neither an error nor a content.
    NoContent,
}

impl CompletionError {
    /// The error in words.
    pub open spec fn message_text(self) -> Seq<char> {
        match self {
            CompletionError::Api(message) => "OpenAI API error: "@ + message@,
            CompletionError::NoContent => "Failed to extract response content"@,
        }
    }

    /// The error in words.
    pub fn message(&self) -> (text: String)
        ensures
            text@ == self.message_text(),
    {
        match self {
            CompletionError::Api(message) => {
                let mut text = String::from_str("OpenAI API error: ");
                text.append(message.as_str());
                text
            },
            CompletionError::NoContent => String::from_str("Failed to extract response content"),
        }
    }
}

/// Whether `outcome` is what `reply` amounts to: an error member wins over
/// any content, with its message or, lacking one, with `Unknown error`; else
/// the content counts, and lacking both is an error of its own.
pub open spec fn amounts_to(reply: CompletionReply, outcome: Result<String, CompletionError>)
    -> bool {
    match reply.error {
        Some(Some(message)) => outcome matches Err(CompletionError::Api(m)) && m@ == message@,
        Some(None) => outcome matches Err(CompletionError::Api(m)) && m@ == "Unknown error"@,
        None => match reply.content {
            Some(content) => outcome matches Ok(c) && c@ == content@,
            None => outcome matches Err(CompletionError::NoContent),
        },
    }
}

/// Reads the cloud provider's answer.
pub fn read_completion(reply: CompletionReply) -> (outcome: Result<String, CompletionError>)
    ensures
        amounts_to(reply, outcome),
{
    match reply.error {
        Some(Some(message)) => Err(CompletionError::Api(message)),
        Some(None) => Err(CompletionError::Api(String::from_str("Unknown error"))),
        None => match reply.content {
            Some(content) => Ok(content),
            None => Err(CompletionError::NoContent),
        },
    }
}

} // verus!
