//! Which parts of the response stream count as the first output of a turn.
use crate::protocol::ContentItem;
use crate::protocol::ReasoningItemContent;
use crate::protocol::ReasoningItemReasoningSummary;
use crate::protocol::ResponseEvent;
use crate::protocol::ResponseItem;
use vstd::prelude::*;

verus! {

/// The output text of one part of a message: empty unless the part is output.
pub open spec fn part_output_text(part: ContentItem) -> Seq<char> {
    match part {
        ContentItem::OutputText { text } => text@,
        _ => Seq::empty(),
    }
}

/// The output text of a message: that of its parts, joined in order.
pub open spec fn joined_output_text(content: Seq<ContentItem>) -> Seq<char>
    decreases content.len(),
{
    if content.len() == 0 {
        Seq::empty()
    } else {
        joined_output_text(content.drop_last()) + part_output_text(content.last())
    }
}

/// The output text of an item: only messages in the assistant role have one.
pub open spec fn assistant_output_text(item: ResponseItem) -> Option<Seq<char>> {
    match item {
        ResponseItem::Message { role, content, .. } => if role@ == "assistant"@ {
            Some(joined_output_text(content@))
        } else {
            None
        },
        _ => None,
    }
}

/// The text of one part of a reasoning summary.
pub open spec fn summary_text(part: ReasoningItemReasoningSummary) -> Seq<char> {
    match part {
        ReasoningItemReasoningSummary::SummaryText { text } => text@,
    }
}

/// The text of one part of a reasoning body.
pub open spec fn reasoning_text(part: ReasoningItemContent) -> Seq<char> {
    match part {
        ReasoningItemContent::ReasoningText { text } => text@,
        ReasoningItemContent::Text { text } => text@,
    }
}

/// Some part of a reasoning summary has text.
pub open spec fn summary_has_text(summary: Seq<ReasoningItemReasoningSummary>) -> bool {
    exists|i: int| 0 <= i < summary.len() && summary_text(#[trigger] summary[i]).len() > 0
}

/// Some part of a reasoning body has text.
pub open spec fn reasoning_has_text(content: Seq<ReasoningItemContent>) -> bool {
    exists|i: int| 0 <= i < content.len() && reasoning_text(#[trigger] content[i]).len() > 0
}

/// An item counts as output when it is assistant text, reasoning with text, a tool call or a
/// compaction. Tool results, agent messages, compaction triggers and unknown items do not count.
pub open spec fn item_is_output(item: ResponseItem) -> bool {
    match item {
        ResponseItem::Message { .. } => assistant_output_text(item) matches Some(text)
            && text.len() > 0,
        ResponseItem::Reasoning { summary, content } => summary_has_text(summary@) || (
        content matches Some(content) && reasoning_has_text(content@)),
        ResponseItem::LocalShellCall
        | ResponseItem::FunctionCall { .. }
        | ResponseItem::CustomToolCall { .. }
        | ResponseItem::ToolSearchCall
        | ResponseItem::WebSearchCall
        | ResponseItem::ImageGenerationCall
        | ResponseItem::Compaction
        | ResponseItem::ContextCompaction => true,
        ResponseItem::AgentMessage
        | ResponseItem::CompactionTrigger
        | ResponseItem::FunctionCallOutput { .. }
        | ResponseItem::CustomToolCallOutput
        | ResponseItem::ToolSearchOutput
        | ResponseItem::Other => false,
    }
}

/// An event counts as output when it carries an item that does, or text or reasoning as it is
/// being written.
pub open spec fn event_is_output(event: ResponseEvent) -> bool {
    match event {
        ResponseEvent::OutputItemDone(item) => item_is_output(item),
        ResponseEvent::OutputItemAdded(item) => item_is_output(item),
        ResponseEvent::OutputTextDelta(_) => true,
        ResponseEvent::ReasoningSummaryDelta => true,
        ResponseEvent::ReasoningContentDelta => true,
        _ => false,
    }
}

/// The output text of an assistant message, its parts joined in order. Items of another kind and
/// messages in another role have none.
pub fn raw_assistant_output_text_from_item(item: &ResponseItem) -> (text: Option<String>)
    ensures
        text is Some <==> assistant_output_text(*item) is Some,
        text matches Some(text) ==> Some(text@) == assistant_output_text(*item),
{
    match item {
        ResponseItem::Message { role, content, .. } => {
            let assistant = "assistant".to_owned();
            if *role != assistant {
                return None;
            }
            let mut combined = String::new();
            let mut i: usize = 0;
            while i < content.len()
                invariant
                    i <= content.len(),
                    combined@ == joined_output_text(content@.take(i as int)),
                decreases content.len() - i,
            {
                assert(content@.take(i + 1).drop_last() =~= content@.take(i as int));
                match &content[i] {
                    ContentItem::OutputText { text } => combined.append(text.as_str()),
                    _ => {},
                }
                i += 1;
            }
            assert(content@.take(i as int) =~= content@);
            Some(combined)
        },
        _ => None,
    }
}

/// Whether some part of a reasoning summary has text.
fn any_summary_text(summary: &Vec<ReasoningItemReasoningSummary>) -> (found: bool)
    ensures
        found == summary_has_text(summary@),
{
    let mut i: usize = 0;
    while i < summary.len()
        invariant
            i <= summary.len(),
            forall|j: int| 0 <= j < i ==> summary_text(#[trigger] summary@[j]).len() == 0,
        decreases summary.len() - i,
    {
        match &summary[i] {
            ReasoningItemReasoningSummary::SummaryText { text } => if !text.as_str().is_empty() {
                return true;
            },
        }
        i += 1;
    }
    false
}

/// Whether some part of a reasoning body has text.
fn any_reasoning_text(content: &Vec<ReasoningItemContent>) -> (found: bool)
    ensures
        found == reasoning_has_text(content@),
{
    let mut i: usize = 0;
    while i < content.len()
        invariant
            i <= content.len(),
            forall|j: int| 0 <= j < i ==> reasoning_text(#[trigger] content@[j]).len() == 0,
        decreases content.len() - i,
    {
        let text = match &content[i] {
            ReasoningItemContent::ReasoningText { text } => text,
            ReasoningItemContent::Text { text } => text,
        };
        if !text.as_str().is_empty() {
            return true;
        }
        i += 1;
    }
    false
}

/// Whether an item of the response counts as the first output of a turn.
pub fn response_item_records_turn_ttft(item: &ResponseItem) -> (records: bool)
    ensures
        records == item_is_output(*item),
{
    match item {
        ResponseItem::Message { .. } => match raw_assistant_output_text_from_item(item) {
            Some(text) => !text.as_str().is_empty(),
            None => false,
        },
        ResponseItem::Reasoning { summary, content } => any_summary_text(summary) || match content {
            Some(content) => any_reasoning_text(content),
            None => false,
        },
        ResponseItem::AgentMessage => false,
        ResponseItem::LocalShellCall
        | ResponseItem::FunctionCall { .. }
        | ResponseItem::CustomToolCall { .. }
        | ResponseItem::ToolSearchCall
        | ResponseItem::WebSearchCall
        | ResponseItem::ImageGenerationCall
        | ResponseItem::Compaction
        | ResponseItem::ContextCompaction => true,
        ResponseItem::CompactionTrigger => false,
        ResponseItem::FunctionCallOutput { .. }
        | ResponseItem::CustomToolCallOutput
        | ResponseItem::ToolSearchOutput
        | ResponseItem::Other => false,
    }
}

/// Whether an event of the response stream counts as the first output of a turn.
pub fn response_event_records_turn_ttft(event: &ResponseEvent) -> (records: bool)
    ensures
        records == event_is_output(*event),
{
    match event {
        ResponseEvent::OutputItemDone(item) | ResponseEvent::OutputItemAdded(item) => {
            response_item_records_turn_ttft(item)
        },
        ResponseEvent::OutputTextDelta(_)
        | ResponseEvent::ReasoningSummaryDelta
        | ResponseEvent::ReasoningContentDelta => true,
        ResponseEvent::Created
        | ResponseEvent::ServerModel
        | ResponseEvent::ModelVerifications
        | ResponseEvent::TurnModerationMetadata
        | ResponseEvent::ServerReasoningIncluded
        | ResponseEvent::ToolCallInputDelta
        | ResponseEvent::Completed
        | ResponseEvent::ReasoningSummaryPartAdded
        | ResponseEvent::RateLimits
        | ResponseEvent::ModelsEtag => false,
    }
}

} // verus!
