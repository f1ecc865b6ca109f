//! The chat relay as the store sees it: the shapes of its messages, how a
//! request is written and a reply is read, and what each reply means for
//! the key that the store keeps. The requests themselves are not sent here.

use crate::json::{lemma_array_view, lemma_object_view, JsonValue, JsonView};
use crate::store::{StoreView, TodoState};
use crate::text::{contains_text, is_substring};
use vstd::prelude::*;
use vstd::string::StringExecFns;

verus! {

/// A key that the relay created.
#[derive(Debug)]
pub struct SpiderApiKey {
    pub key: String,
    pub name: String,
    pub permissions: Vec<String>,
    pub created_at: u64,
}

/// The key that the store now works with.
#[derive(Debug)]
pub struct SpiderConnectResult {
    pub api_key: String,
}

/// Whether the relay can be used.
#[derive(Debug, Clone, Copy, PartialEq, Eq, Structural)]
pub struct SpiderStatusInfo {
    pub connected: bool,
    pub has_api_key: bool,
    pub spider_available: bool,
}

/// The tool servers that the relay knows.
#[derive(Debug)]
pub struct SpiderMcpServersResult {
    pub servers: Vec<SpiderMcpServerSummary>,
}

/// A chat request for the relay.
#[derive(Debug)]
pub struct SpiderChatPayload {
    pub api_key: String,
    pub messages: Vec<SpiderMessage>,
    pub llm_provider: Option<String>,
    pub model: Option<String>,
    pub mcp_servers: Option<Vec<String>>,
    pub metadata: Option<SpiderConversationMetadata>,
}

/// The relay's answer to a chat request.
#[derive(Debug)]
pub struct SpiderChatResult {
    pub conversation_id: String,
    pub response: SpiderMessage,
    pub all_messages: Option<Vec<SpiderMessage>>,
    pub refreshed_api_key: Option<String>,
}

/// One message of a conversation.
#[derive(Debug)]
pub struct SpiderMessage {
    pub role: String,
    pub content: SpiderMessageContent,
    pub tool_calls_json: Option<String>,
    pub tool_results_json: Option<String>,
    pub timestamp: u64,
}

/// What a message holds: text, raw audio, or audio as base64 text.
#[derive(Debug)]
pub struct SpiderMessageContent {
    pub text: Option<String>,
    pub audio: Option<Vec<u8>>,
    pub base_six_four_audio: Option<String>,
}

/// Where and how a conversation began.
#[derive(Debug)]
pub struct SpiderConversationMetadata {
    pub start_time: String,
    pub client: String,
    pub from_stt: bool,
}

/// One tool server of the relay.
#[derive(Debug)]
pub struct SpiderMcpServerSummary {
    pub id: String,
    pub name: Option<String>,
    pub connected: bool,
}

/// What a [`SpiderMessageContent`] is, as a mathematical value.
pub struct SpiderMessageContentView {
    pub text: Option<Seq<char>>,
    pub audio: Option<Seq<u8>>,
    pub base_six_four_audio: Option<Seq<char>>,
}

/// What a [`SpiderMessage`] is, as a mathematical value.
pub struct SpiderMessageView {
    pub role: Seq<char>,
    pub content: SpiderMessageContentView,
    pub tool_calls_json: Option<Seq<char>>,
    pub tool_results_json: Option<Seq<char>>,
    pub timestamp: u64,
}

/// What a [`SpiderConversationMetadata`] is, as a mathematical value.
pub struct SpiderConversationMetadataView {
    pub start_time: Seq<char>,
    pub client: Seq<char>,
    pub from_stt: bool,
}

/// What a [`SpiderChatPayload`] is, as a mathematical value.
pub struct SpiderChatPayloadView {
    pub api_key: Seq<char>,
    pub messages: Seq<SpiderMessageView>,
    pub llm_provider: Option<Seq<char>>,
    pub model: Option<Seq<char>>,
    pub mcp_servers: Option<Seq<Seq<char>>>,
    pub metadata: Option<SpiderConversationMetadataView>,
}

/// What a [`SpiderChatResult`] is, as a mathematical value.
pub struct SpiderChatResultView {
    pub conversation_id: Seq<char>,
    pub response: SpiderMessageView,
    pub all_messages: Option<Seq<SpiderMessageView>>,
    pub refreshed_api_key: Option<Seq<char>>,
}

impl View for SpiderMessageContent {
    type V = SpiderMessageContentView;

    open spec fn view(&self) -> SpiderMessageContentView {
        SpiderMessageContentView {
            text: self.text.deep_view(),
            audio: match self.audio {
                Some(bytes) => Some(bytes@),
                None => None,
            },
            base_six_four_audio: self.base_six_four_audio.deep_view(),
        }
    }
}

impl View for SpiderMessage {
    type V = SpiderMessageView;

    open spec fn view(&self) -> SpiderMessageView {
        SpiderMessageView {
            role: self.role@,
            content: self.content@,
            tool_calls_json: self.tool_calls_json.deep_view(),
            tool_results_json: self.tool_results_json.deep_view(),
            timestamp: self.timestamp,
        }
    }
}

impl DeepView for SpiderMessage {
    type V = SpiderMessageView;

    open spec fn deep_view(&self) -> SpiderMessageView {
        self@
    }
}

impl View for SpiderConversationMetadata {
    type V = SpiderConversationMetadataView;

    open spec fn view(&self) -> SpiderConversationMetadataView {
        SpiderConversationMetadataView {
            start_time: self.start_time@,
            client: self.client@,
            from_stt: self.from_stt,
        }
    }
}

impl DeepView for SpiderConversationMetadata {
    type V = SpiderConversationMetadataView;

    open spec fn deep_view(&self) -> SpiderConversationMetadataView {
        self@
    }
}

impl View for SpiderChatPayload {
    type V = SpiderChatPayloadView;

    open spec fn view(&self) -> SpiderChatPayloadView {
        SpiderChatPayloadView {
            api_key: self.api_key@,
            messages: self.messages.deep_view(),
            llm_provider: self.llm_provider.deep_view(),
            model: self.model.deep_view(),
            mcp_servers: self.mcp_servers.deep_view(),
            metadata: self.metadata.deep_view(),
        }
    }
}

impl View for SpiderChatResult {
    type V = SpiderChatResultView;

    open spec fn view(&self) -> SpiderChatResultView {
        SpiderChatResultView {
            conversation_id: self.conversation_id@,
            response: self.response@,
            all_messages: self.all_messages.deep_view(),
            refreshed_api_key: self.refreshed_api_key.deep_view(),
        }
    }
}

/// The JSON string of a text, or null where there is none.
pub open spec fn optional_text_json(text: Option<Seq<char>>) -> JsonView {
    match text {
        Some(text) => JsonView::Text(text),
        None => JsonView::Null,
    }
}

/// The JSON array of the numbers of `bytes`.
pub open spec fn bytes_json(bytes: Seq<u8>) -> JsonView {
    JsonView::Array(Seq::new(bytes.len(), |i: int| JsonView::Number(Some(bytes[i] as u64))))
}

/// The JSON array of the strings of `texts`.
pub open spec fn texts_json(texts: Seq<Seq<char>>) -> JsonView {
    JsonView::Array(Seq::new(texts.len(), |i: int| JsonView::Text(texts[i])))
}

/// How the content of a message is written: as the one member `Text`,
/// `Audio` or `BaseSixFourAudio`, whichever the content holds first in that
/// order, or as null where it holds nothing.
pub open spec fn encoded_content(content: SpiderMessageContentView) -> JsonView {
    match content.text {
        Some(text) => JsonView::Object(seq![("Text"@, JsonView::Text(text))]),
        None => match content.audio {
            Some(bytes) => JsonView::Object(seq![("Audio"@, bytes_json(bytes))]),
            None => match content.base_six_four_audio {
                Some(text) => JsonView::Object(seq![("BaseSixFourAudio"@, JsonView::Text(text))]),
                None => JsonView::Null,
            },
        },
    }
}

/// How a message is written.
pub open spec fn encoded_message(message: SpiderMessageView) -> JsonView {
    JsonView::Object(
        seq![
            ("role"@, JsonView::Text(message.role)),
            ("content"@, encoded_content(message.content)),
            ("toolCallsJson"@, optional_text_json(message.tool_calls_json)),
            ("toolResultsJson"@, optional_text_json(message.tool_results_json)),
            ("timestamp"@, JsonView::Number(Some(message.timestamp))),
        ],
    )
}

/// How the metadata of a conversation is written.
pub open spec fn encoded_metadata(metadata: Option<SpiderConversationMetadataView>) -> JsonView {
    match metadata {
        Some(metadata) => JsonView::Object(
            seq![
                ("startTime"@, JsonView::Text(metadata.start_time)),
                ("client"@, JsonView::Text(metadata.client)),
                ("fromStt"@, JsonView::Bool(metadata.from_stt)),
            ],
        ),
        None => JsonView::Null,
    }
}

/// How a chat request is written.
pub open spec fn encoded_chat(request: SpiderChatPayloadView) -> JsonView {
    JsonView::Object(
        seq![
            ("apiKey"@, JsonView::Text(request.api_key)),
            (
                "messages"@,
                JsonView::Array(
                    Seq::new(request.messages.len(), |i: int| encoded_message(request.messages[i])),
                ),
            ),
            ("llmProvider"@, optional_text_json(request.llm_provider)),
            ("model"@, optional_text_json(request.model)),
            (
                "mcpServers"@,
                match request.mcp_servers {
                    Some(servers) => texts_json(servers),
                    None => JsonView::Null,
                },
            ),
            ("metadata"@, encoded_metadata(request.metadata)),
        ],
    )
}

/// The byte that a JSON value stands for: a whole number from 0 to 255.
pub open spec fn byte_of() -> spec_fn(JsonView) -> Option<u8> {
    |value: JsonView|
        match value.unsigned() {
            Some(number) => if number <= 255 {
                Some(number as u8)
            } else {
                None
            },
            None => None,
        }
}

/// A content that holds text only.
pub open spec fn text_content(text: Seq<char>) -> SpiderMessageContentView {
    SpiderMessageContentView { text: Some(text), audio: None, base_six_four_audio: None }
}

/// The items of the member `Audio`, where there is such a member and it is
/// an array.
pub open spec fn audio_items(content: JsonView) -> Option<Seq<JsonView>> {
    match content.member("Audio"@) {
        Some(audio) => audio.items(),
        None => None,
    }
}

/// How the content of a message is read: from the member `Text`, else from
/// `BaseSixFourAudio`, else from `Audio`, of which the numbers that are
/// bytes are kept; a bare string is text; anything else holds nothing.
pub open spec fn decoded_content(content: JsonView) -> SpiderMessageContentView {
    match content.member_text("Text"@) {
        Some(text) => text_content(text),
        None => match content.member_text("BaseSixFourAudio"@) {
            Some(text) => SpiderMessageContentView {
                text: None,
                audio: None,
                base_six_four_audio: Some(text),
            },
            None => match audio_items(content) {
                Some(items) => SpiderMessageContentView {
                    text: None,
                    audio: Some(items.filter_map(byte_of())),
                    base_six_four_audio: None,
                },
                None => match content.text() {
                    Some(text) => text_content(text),
                    None => SpiderMessageContentView {
                        text: None,
                        audio: None,
                        base_six_four_audio: None,
                    },
                },
            },
        },
    }
}

/// The number of the member `timestamp`, or 0 where there is none.
pub open spec fn decoded_timestamp(value: JsonView) -> u64 {
    match value.member("timestamp"@) {
        Some(stamp) => match stamp.unsigned() {
            Some(number) => number,
            None => 0,
        },
        None => 0,
    }
}

/// How a message is read. It must name a role, as a string, and hold a
/// content; the rest is optional.
pub open spec fn decoded_message(value: JsonView) -> Result<SpiderMessageView, Seq<char>> {
    match value.member_text("role"@) {
        None => Err("missing role"@),
        Some(role) => match value.member("content"@) {
            None => Err("missing content"@),
            Some(content) => Ok(
                SpiderMessageView {
                    role,
                    content: decoded_content(content),
                    tool_calls_json: value.member_text("toolCallsJson"@),
                    tool_results_json: value.member_text("toolResultsJson"@),
                    timestamp: decoded_timestamp(value),
                },
            ),
        },
    }
}

/// The message that a JSON value can be read as, if it can.
pub open spec fn readable_message() -> spec_fn(JsonView) -> Option<SpiderMessageView> {
    |value: JsonView|
        match decoded_message(value) {
            Ok(message) => Some(message),
            Err(_) => None,
        }
}

/// How the answer to a chat request is read. It must hold a response that
/// can be read as a message; of the other messages those are kept that can
/// be read.
pub open spec fn decoded_chat(value: JsonView) -> Result<SpiderChatResultView, Seq<char>> {
    match value.member("response"@) {
        None => Err("missing response"@),
        Some(response) => match decoded_message(response) {
            Err(error) => Err(error),
            Ok(response) => Ok(
                SpiderChatResultView {
                    conversation_id: match value.member_text("conversationId"@) {
                        Some(id) => id,
                        None => Seq::empty(),
                    },
                    response,
                    all_messages: match value.member("allMessages"@) {
                        Some(all) => match all.items() {
                            Some(items) => Some(items.filter_map(readable_message())),
                            None => None,
                        },
                        None => None,
                    },
                    refreshed_api_key: None,
                },
            ),
        },
    }
}

/// The view of a message that was read, or of the reason why it was not.
pub open spec fn message_result_view(result: Result<SpiderMessage, String>) -> Result<
    SpiderMessageView,
    Seq<char>,
> {
    match result {
        Ok(message) => Ok(message@),
        Err(error) => Err(error@),
    }
}

/// The view of a chat answer that was read, or of the reason why it was
/// not.
pub open spec fn chat_result_view(result: Result<SpiderChatResult, String>) -> Result<
    SpiderChatResultView,
    Seq<char>,
> {
    match result {
        Ok(chat) => Ok(chat@),
        Err(error) => Err(error@),
    }
}

/// Mapping one element more either adds its image or changes nothing.
proof fn lemma_filter_map_step<A, B>(s: Seq<A>, f: spec_fn(A) -> Option<B>, i: int)
    requires
        0 <= i < s.len(),
    ensures
        s.take(i + 1).filter_map(f) == match f(s[i]) {
            Some(image) => s.take(i).filter_map(f).push(image),
            None => s.take(i).filter_map(f),
        },
{
    assert(s.take(i + 1).drop_last() =~= s.take(i));
}

/// Writes the content of a message.
pub fn encode_spider_content(content: &SpiderMessageContent) -> (value: JsonValue)
    ensures
        value@ == encoded_content(content@),
{
    if let Some(text) = &content.text {
        return JsonValue::object_of("Text", JsonValue::from_text(text.as_str()));
    }
    if let Some(audio) = &content.audio {
        let mut numbers: Vec<JsonValue> = Vec::new();
        let mut i: usize = 0;
        while i < audio.len()
            invariant
                0 <= i <= audio.len(),
                numbers.len() == i,
                forall|k: int|
                    0 <= k < i ==> (#[trigger] numbers@[k])@ == JsonView::Number(
                        Some(audio@[k] as u64),
                    ),
            decreases audio.len() - i,
        {
            numbers.push(JsonValue::Number(Some(audio[i] as u64)));
            i = i + 1;
        }
        proof {
            lemma_array_view(numbers);
            assert(numbers.deep_view() =~= bytes_json(audio@)->Array_0);
        }
        return JsonValue::object_of("Audio", JsonValue::Array(numbers));
    }
    if let Some(text) = &content.base_six_four_audio {
        return JsonValue::object_of("BaseSixFourAudio", JsonValue::from_text(text.as_str()));
    }
    JsonValue::Null
}

/// Writes a message.
pub fn encode_spider_message(message: &SpiderMessage) -> (value: JsonValue)
    ensures
        value@ == encoded_message(message@),
{
    let mut members: Vec<(String, JsonValue)> = Vec::new();
    members.push(("role".to_owned(), JsonValue::from_text(message.role.as_str())));
    members.push(("content".to_owned(), encode_spider_content(&message.content)));
    members.push(
        ("toolCallsJson".to_owned(), JsonValue::from_optional_text(&message.tool_calls_json)),
    );
    members.push(
        ("toolResultsJson".to_owned(), JsonValue::from_optional_text(&message.tool_results_json)),
    );
    members.push(("timestamp".to_owned(), JsonValue::Number(Some(message.timestamp))));
    proof {
        lemma_object_view(members);
    }
    let value = JsonValue::Object(members);
    assert(value@->Object_0 =~= encoded_message(message@)->Object_0);
    value
}

/// Writes a chat request.
pub fn encode_spider_chat(request: &SpiderChatPayload) -> (value: JsonValue)
    ensures
        value@ == encoded_chat(request@),
{
    let mut messages: Vec<JsonValue> = Vec::new();
    let mut i: usize = 0;
    while i < request.messages.len()
        invariant
            0 <= i <= request.messages.len(),
            messages.len() == i,
            forall|k: int|
                0 <= k < i ==> (#[trigger] messages@[k])@ == encoded_message(
                    request.messages@[k]@,
                ),
        decreases request.messages.len() - i,
    {
        messages.push(encode_spider_message(&request.messages[i]));
        i = i + 1;
    }
    let servers = match &request.mcp_servers {
        Some(names) => {
            let mut texts: Vec<JsonValue> = Vec::new();
            let mut j: usize = 0;
            while j < names.len()
                invariant
                    0 <= j <= names.len(),
                    texts.len() == j,
                    forall|k: int|
                        0 <= k < j ==> (#[trigger] texts@[k])@ == JsonView::Text(names@[k]@),
                decreases names.len() - j,
            {
                texts.push(JsonValue::from_text(names[j].as_str()));
                j = j + 1;
            }
            proof {
                lemma_array_view(texts);
                assert(texts.deep_view() =~= texts_json(names.deep_view())->Array_0);
            }
            JsonValue::Array(texts)
        },
        None => JsonValue::Null,
    };
    let metadata = match &request.metadata {
        Some(metadata) => {
            let mut fields: Vec<(String, JsonValue)> = Vec::new();
            fields.push(
                ("startTime".to_owned(), JsonValue::from_text(metadata.start_time.as_str())),
            );
            fields.push(("client".to_owned(), JsonValue::from_text(metadata.client.as_str())));
            fields.push(("fromStt".to_owned(), JsonValue::Bool(metadata.from_stt)));
            proof {
                lemma_object_view(fields);
            }
            let object = JsonValue::Object(fields);
            assert(object@->Object_0 =~= encoded_metadata(Some(metadata@))->Object_0);
            object
        },
        None => JsonValue::Null,
    };
    proof {
        lemma_array_view(messages);
        assert(messages.deep_view() =~= Seq::new(
            request@.messages.len(),
            |k: int| encoded_message(request@.messages[k]),
        ));
    }
    let mut members: Vec<(String, JsonValue)> = Vec::new();
    members.push(("apiKey".to_owned(), JsonValue::from_text(request.api_key.as_str())));
    members.push(("messages".to_owned(), JsonValue::Array(messages)));
    members.push(("llmProvider".to_owned(), JsonValue::from_optional_text(&request.llm_provider)));
    members.push(("model".to_owned(), JsonValue::from_optional_text(&request.model)));
    members.push(("mcpServers".to_owned(), servers));
    members.push(("metadata".to_owned(), metadata));
    proof {
        lemma_object_view(members);
    }
    let value = JsonValue::Object(members);
    assert(value@->Object_0 =~= encoded_chat(request@)->Object_0);
    value
}

/// Reads the content of a message.
pub fn decode_spider_message(content: &JsonValue) -> (decoded: SpiderMessageContent)
    ensures
        decoded@ == decoded_content(content@),
{
    if let Some(text) = content.get_str("Text") {
        return SpiderMessageContent {
            text: Some(text.to_owned()),
            audio: None,
            base_six_four_audio: None,
        };
    }
    if let Some(text) = content.get_str("BaseSixFourAudio") {
        return SpiderMessageContent {
            text: None,
            audio: None,
            base_six_four_audio: Some(text.to_owned()),
        };
    }
    if let Some(audio) = content.get("Audio") {
        if let Some(items) = audio.as_array() {
            let ghost all = items.deep_view();
            let mut bytes: Vec<u8> = Vec::new();
            let mut i: usize = 0;
            while i < items.len()
                invariant
                    0 <= i <= items.len(),
                    all == items.deep_view(),
                    bytes@ == all.take(i as int).filter_map(byte_of()),
                decreases items.len() - i,
            {
                proof {
                    lemma_filter_map_step(all, byte_of(), i as int);
                }
                if let Some(number) = items[i].as_u64() {
                    if number <= 255 {
                        bytes.push(number as u8);
                    }
                }
                i = i + 1;
            }
            assert(all.take(i as int) =~= all);
            return SpiderMessageContent {
                text: None,
                audio: Some(bytes),
                base_six_four_audio: None,
            };
        }
    }
    if let Some(text) = content.as_str() {
        return SpiderMessageContent {
            text: Some(text.to_owned()),
            audio: None,
            base_six_four_audio: None,
        };
    }
    SpiderMessageContent { text: None, audio: None, base_six_four_audio: None }
}

/// Reads a message.
pub fn decode_spider_message_obj(value: &JsonValue) -> (decoded: Result<SpiderMessage, String>)
    ensures
        message_result_view(decoded) == decoded_message(value@),
{
    let role = match value.get_str("role") {
        Some(role) => role.to_owned(),
        None => {
            return Err("missing role".to_owned());
        },
    };
    let content = match value.get("content") {
        Some(content) => decode_spider_message(content),
        None => {
            return Err("missing content".to_owned());
        },
    };
    let tool_calls_json = match value.get_str("toolCallsJson") {
        Some(text) => Some(text.to_owned()),
        None => None,
    };
    let tool_results_json = match value.get_str("toolResultsJson") {
        Some(text) => Some(text.to_owned()),
        None => None,
    };
    let timestamp = match value.get("timestamp") {
        Some(stamp) => match stamp.as_u64() {
            Some(number) => number,
            None => 0,
        },
        None => 0,
    };
    Ok(SpiderMessage { role, content, tool_calls_json, tool_results_json, timestamp })
}

/// Reads the answer to a chat request.
pub fn decode_spider_chat(value: &JsonValue) -> (decoded: Result<SpiderChatResult, String>)
    ensures
        chat_result_view(decoded) == decoded_chat(value@),
{
    let conversation_id = match value.get_str("conversationId") {
        Some(id) => id.to_owned(),
        None => String::new(),
    };
    let response = match value.get("response") {
        Some(response) => match decode_spider_message_obj(response) {
            Ok(message) => message,
            Err(error) => {
                return Err(error);
            },
        },
        None => {
            return Err("missing response".to_owned());
        },
    };
    let all_messages = match value.get("allMessages") {
        Some(all) => match all.as_array() {
            Some(items) => {
                let ghost every = items.deep_view();
                let mut messages: Vec<SpiderMessage> = Vec::new();
                let mut i: usize = 0;
                while i < items.len()
                    invariant
                        0 <= i <= items.len(),
                        every == items.deep_view(),
                        messages.deep_view() == every.take(i as int).filter_map(
                            readable_message(),
                        ),
                    decreases items.len() - i,
                {
                    proof {
                        lemma_filter_map_step(every, readable_message(), i as int);
                    }
                    if let Ok(message) = decode_spider_message_obj(&items[i]) {
                        messages.push(message);
                    }
                    i = i + 1;
                }
                assert(every.take(i as int) =~= every);
                Some(messages)
            },
            None => None,
        },
        None => None,
    };
    Ok(SpiderChatResult { conversation_id, response, all_messages, refreshed_api_key: None })
}

/// What the store does next with a chat request.
#[derive(Debug)]
pub enum ChatStep {
    /// The relay did not know the key: a new key is to be created and the
    /// request sent once more. Where no key can be created, `error` is the
    /// answer.
    RefreshKey { error: String },
    /// The request is answered.
    Done(Result<SpiderChatResult, String>),
}

/// What a [`ChatStep`] is, as a mathematical value.
pub enum ChatStepView {
    RefreshKey { error: Seq<char> },
    Done(Result<SpiderChatResultView, Seq<char>>),
}

impl View for ChatStep {
    type V = ChatStepView;

    open spec fn view(&self) -> ChatStepView {
        match self {
            ChatStep::RefreshKey { error } => ChatStepView::RefreshKey { error: error@ },
            ChatStep::Done(result) => ChatStepView::Done(chat_result_view(*result)),
        }
    }
}

/// The key of a connection, where there is one.
pub open spec fn connect_view(result: Option<SpiderConnectResult>) -> Option<Seq<char>> {
    match result {
        Some(connection) => Some(connection.api_key@),
        None => None,
    }
}

/// What a reply of the relay to a chat request means. `refused` is the
/// relay's error, `answer` its answer; an error counts before an answer.
/// An error that speaks of an invalid key asks for a new key, but only at
/// the first attempt. An answer that can be read carries the key that was
/// refreshed on the way, if one was.
pub open spec fn chat_step_of(
    first_attempt: bool,
    refreshed_key: Option<Seq<char>>,
    refused: Option<Seq<char>>,
    answer: Option<JsonView>,
) -> ChatStepView {
    match refused {
        Some(error) => if first_attempt && is_substring("Invalid API key"@, error) {
            ChatStepView::RefreshKey { error }
        } else {
            ChatStepView::Done(Err(error))
        },
        None => match answer {
            Some(value) => match decoded_chat(value) {
                Ok(chat) => ChatStepView::Done(
                    Ok(SpiderChatResultView { refreshed_api_key: refreshed_key, ..chat }),
                ),
                Err(error) => ChatStepView::Done(
                    Err("failed to decode spider chat payload: "@ + error),
                ),
            },
            None => ChatStepView::Done(Err("Spider returned an unexpected response"@)),
        },
    }
}

impl StoreView {
    /// The stored key, unless a new one is asked for.
    pub open spec fn cached_spider_key(self, force_new: Option<bool>) -> Option<Seq<char>> {
        if force_new == Some(true) {
            None
        } else {
            self.spider_api_key
        }
    }

    /// The key for a request to the relay: the caller's, else the stored
    /// one.
    pub open spec fn spider_key_for(self, api_key: Option<Seq<char>>) -> Option<Seq<char>> {
        match api_key {
            Some(key) => Some(key),
            None => self.spider_api_key,
        }
    }

    /// The key that the store keeps after a chat request was answered with
    /// `step`: a good answer stores the refreshed key, or the key of the
    /// request where the store had none; anything else changes nothing.
    pub open spec fn spider_key_after_chat(
        self,
        api_key: Seq<char>,
        refreshed_key: Option<Seq<char>>,
        step: ChatStepView,
    ) -> Option<Seq<char>> {
        if step matches ChatStepView::Done(Ok(_)) {
            match refreshed_key {
                Some(key) => Some(key),
                None => match self.spider_api_key {
                    Some(key) => Some(key),
                    None => Some(api_key),
                },
            }
        } else {
            self.spider_api_key
        }
    }
}

/// The answer to a request for the tool servers: the list as it came, or
/// the relay's error with a word on where it comes from.
pub fn spider_servers_listed(reply: Result<Vec<SpiderMcpServerSummary>, String>) -> (result: Result<
    SpiderMcpServersResult,
    String,
>)
    ensures
        match reply {
            Ok(servers) => result matches Ok(listed) && listed.servers == servers,
            Err(error) => result matches Err(message) && message@
                == "spider MCP servers error: "@ + error@,
        },
{
    match reply {
        Ok(servers) => Ok(SpiderMcpServersResult { servers }),
        Err(error) => Err("spider MCP servers error: ".to_owned().concat(error.as_str())),
    }
}

impl TodoState {
    /// The connection that is already there: the stored key, unless a new
    /// one is asked for.
    pub fn spider_cached_key(&self, force_new: Option<bool>) -> (cached: Option<
        SpiderConnectResult,
    >)
        ensures
            connect_view(cached) == self@.cached_spider_key(force_new),
    {
        let should_force = match force_new {
            Some(force) => force,
            None => false,
        };
        if should_force {
            return None;
        }
        match self.spider_api_key() {
            Some(api_key) => Some(SpiderConnectResult { api_key }),
            None => None,
        }
    }

    /// Takes the relay's reply to the request for a new key: a key is
    /// stored and handed on; a refusal changes nothing.
    pub fn spider_key_created(&mut self, reply: Result<SpiderApiKey, String>) -> (result: Result<
        SpiderConnectResult,
        String,
    >)
        ensures
            match reply {
                Ok(created) => {
                    &&& result matches Ok(connection) && connection.api_key@ == created.key@
                    &&& final(self)@ == (StoreView {
                        spider_api_key: Some(created.key@),
                        ..old(self)@
                    })
                },
                Err(error) => {
                    &&& result matches Err(message) && message@
                        == "spider refused to create key: "@ + error@
                    &&& final(self)@ == old(self)@
                },
            },
            old(self)@.wf() ==> final(self)@.wf(),
    {
        match reply {
            Ok(created) => {
                self.set_spider_api_key(Some(created.key.clone()));
                Ok(SpiderConnectResult { api_key: created.key })
            },
            Err(error) => Err("spider refused to create key: ".to_owned().concat(error.as_str())),
        }
    }

    /// Whether the relay can be used: it must answer, and a key must be
    /// stored.
    pub fn spider_status(&self, spider_available: bool) -> (status: SpiderStatusInfo)
        ensures
            status == (SpiderStatusInfo {
                connected: self@.spider_api_key is Some && spider_available,
                has_api_key: self@.spider_api_key is Some,
                spider_available,
            }),
    {
        let has_api_key = self.spider_api_key().is_some();
        SpiderStatusInfo {
            connected: has_api_key && spider_available,
            has_api_key,
            spider_available,
        }
    }

    /// The key for a request to the relay: the caller's, else the stored
    /// one. Without either the request cannot be made.
    pub fn spider_auth_key(&self, api_key: Option<String>) -> (key: Result<String, String>)
        ensures
            match self@.spider_key_for(api_key.deep_view()) {
                Some(found) => key matches Ok(used) && used@ == found,
                None => key matches Err(message) && message@ == "Spider API key missing"@,
            },
    {
        match api_key {
            Some(key) => Ok(key),
            None => match self.spider_api_key() {
                Some(key) => Ok(key),
                None => Err("Spider API key missing".to_owned()),
            },
        }
    }

    /// The key for a chat request that names the key `api_key`: that key,
    /// or the stored one where the request names none. Without either a key
    /// has to be created first.
    pub fn spider_chat_key(&self, api_key: &str) -> (key: Option<String>)
        ensures
            key.deep_view() == if api_key@.len() == 0 {
                self@.spider_api_key
            } else {
                Some(api_key@)
            },
    {
        if api_key.is_empty() {
            self.spider_api_key()
        } else {
            Some(api_key.to_owned())
        }
    }

    /// Takes the relay's reply to a chat request that was sent with the key
    /// `api_key`. `refused` is the text of the reply's error, `answer` the
    /// reply's answer; `refreshed_key` is the key that was created after a
    /// first attempt, if there was one.
    pub fn spider_chat_reply(
        &mut self,
        api_key: &str,
        first_attempt: bool,
        refreshed_key: Option<String>,
        refused: Option<String>,
        answer: Option<&JsonValue>,
    ) -> (step: ChatStep)
        ensures
            step@ == chat_step_of(
                first_attempt,
                refreshed_key.deep_view(),
                refused.deep_view(),
                crate::json::found_view(answer),
            ),
            final(self)@ == (StoreView {
                spider_api_key: old(self)@.spider_key_after_chat(
                    api_key@,
                    refreshed_key.deep_view(),
                    step@,
                ),
                ..old(self)@
            }),
            old(self)@.wf() ==> final(self)@.wf(),
    {
        if let Some(error) = refused {
            if first_attempt && contains_text(error.as_str(), "Invalid API key") {
                return ChatStep::RefreshKey { error };
            }
            return ChatStep::Done(Err(error));
        }
        let value = match answer {
            Some(value) => value,
            None => {
                return ChatStep::Done(Err("Spider returned an unexpected response".to_owned()));
            },
        };
        let mut chat = match decode_spider_chat(value) {
            Ok(chat) => chat,
            Err(error) => {
                return ChatStep::Done(
                    Err("failed to decode spider chat payload: ".to_owned().concat(error.as_str())),
                );
            },
        };
        match refreshed_key {
            Some(key) => {
                self.set_spider_api_key(Some(key.clone()));
                chat.refreshed_api_key = Some(key);
            },
            None => {
                if self.spider_api_key().is_none() {
                    self.set_spider_api_key(Some(api_key.to_owned()));
                }
            },
        }
        ChatStep::Done(Ok(chat))
    }
}

} // verus!
