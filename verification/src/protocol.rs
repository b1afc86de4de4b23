//! What the model streams back during a turn, as far as timing is concerned.
//!
//! Kinds whose contents play no part in timing carry none.
use vstd::prelude::*;

verus! {

/// A part of a message.
#[derive(Debug)]
pub enum ContentItem {
    InputText { text: String },
    InputImage { image_url: String },
    OutputText { text: String },
}

/// A part of the summary of a reasoning item.
#[derive(Debug)]
pub enum ReasoningItemReasoningSummary {
    SummaryText { text: String },
}

/// A part of the body of a reasoning item.
#[derive(Debug)]
pub enum ReasoningItemContent {
    ReasoningText { text: String },
    Text { text: String },
}

/// An item of a model response.
#[derive(Debug)]
pub enum ResponseItem {
    Message {
        id: Option<String>,
        role: String,
        content: Vec<ContentItem>,
        phase: Option<String>,
    },
    AgentMessage,
    Reasoning {
        summary: Vec<ReasoningItemReasoningSummary>,
        content: Option<Vec<ReasoningItemContent>>,
    },
    LocalShellCall,
    FunctionCall {
        id: Option<String>,
        name: String,
        namespace: Option<String>,
        arguments: String,
        call_id: String,
    },
    ToolSearchCall,
    FunctionCallOutput { call_id: String, output: String },
    CustomToolCall {
        id: Option<String>,
        status: Option<String>,
        call_id: String,
        name: String,
        input: String,
    },
    CustomToolCallOutput,
    ToolSearchOutput,
    WebSearchCall,
    ImageGenerationCall,
    Compaction,
    CompactionTrigger,
    ContextCompaction,
    Other,
}

/// An event of the response stream.
#[derive(Debug)]
pub enum ResponseEvent {
    Created,
    OutputItemDone(ResponseItem),
    OutputItemAdded(ResponseItem),
    ServerModel,
    ModelVerifications,
    TurnModerationMetadata,
    ServerReasoningIncluded,
    Completed,
    OutputTextDelta(String),
    ToolCallInputDelta,
    ReasoningSummaryDelta,
    ReasoningContentDelta,
    ReasoningSummaryPartAdded,
    RateLimits,
    ModelsEtag,
}

/// A message from the agent to the user.
#[derive(Debug)]
pub struct AgentMessageItem {
    pub id: String,
    pub content: Vec<String>,
    pub phase: Option<String>,
    pub memory_citation: Option<String>,
}

/// An item of the turn as the user sees it.
#[derive(Debug)]
pub enum TurnItem {
    AgentMessage(AgentMessageItem),
    /// Any other kind of item.
    Other,
}

} // verus!
