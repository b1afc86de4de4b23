use turn_timing::first_output::raw_assistant_output_text_from_item;
use turn_timing::first_output::response_event_records_turn_ttft;
use turn_timing::first_output::response_item_records_turn_ttft;
use turn_timing::protocol::ContentItem;
use turn_timing::protocol::ReasoningItemContent;
use turn_timing::protocol::ReasoningItemReasoningSummary;
use turn_timing::protocol::ResponseEvent;
use turn_timing::protocol::ResponseItem;

fn message(role: &str, content: Vec<ContentItem>) -> ResponseItem {
    ResponseItem::Message {
        id: None,
        role: role.to_string(),
        content,
        phase: None,
    }
}

fn output(text: &str) -> ContentItem {
    ContentItem::OutputText {
        text: text.to_string(),
    }
}

fn input(text: &str) -> ContentItem {
    ContentItem::InputText {
        text: text.to_string(),
    }
}

fn summary(text: &str) -> ReasoningItemReasoningSummary {
    ReasoningItemReasoningSummary::SummaryText {
        text: text.to_string(),
    }
}

#[test]
fn output_text_joins_the_output_parts() {
    let item = message(
        "assistant",
        vec![output("one "), input("skipped"), output(""), output("two")],
    );
    assert_eq!(
        raw_assistant_output_text_from_item(&item),
        Some("one two".to_string())
    );
    assert!(response_item_records_turn_ttft(&item));
}

#[test]
fn other_roles_have_no_output_text() {
    let item = message("user", vec![output("hello")]);
    assert_eq!(raw_assistant_output_text_from_item(&item), None);
    assert!(!response_item_records_turn_ttft(&item));
    assert_eq!(raw_assistant_output_text_from_item(&ResponseItem::Other), None);
}

#[test]
fn messages_without_output_parts_do_not_count() {
    let item = message("assistant", vec![input("hello"), ContentItem::InputImage {
        image_url: "data:".to_string(),
    }]);
    assert_eq!(
        raw_assistant_output_text_from_item(&item),
        Some(String::new())
    );
    assert!(!response_item_records_turn_ttft(&item));
    assert!(!response_item_records_turn_ttft(&message(
        "assistant",
        Vec::new()
    )));
}

#[test]
fn reasoning_counts_once_it_has_text() {
    let empty = ResponseItem::Reasoning {
        summary: vec![summary("")],
        content: Some(vec![
            ReasoningItemContent::Text {
                text: String::new(),
            },
            ReasoningItemContent::ReasoningText {
                text: String::new(),
            },
        ]),
    };
    assert!(!response_item_records_turn_ttft(&empty));
    let in_summary = ResponseItem::Reasoning {
        summary: vec![summary(""), summary("thinking")],
        content: None,
    };
    assert!(response_item_records_turn_ttft(&in_summary));
    let in_body = ResponseItem::Reasoning {
        summary: Vec::new(),
        content: Some(vec![
            ReasoningItemContent::ReasoningText {
                text: String::new(),
            },
            ReasoningItemContent::Text {
                text: "thinking".to_string(),
            },
        ]),
    };
    assert!(response_item_records_turn_ttft(&in_body));
    let nothing = ResponseItem::Reasoning {
        summary: Vec::new(),
        content: None,
    };
    assert!(!response_item_records_turn_ttft(&nothing));
}

#[test]
fn calls_and_compactions_count_and_results_do_not() {
    for item in [
        ResponseItem::LocalShellCall,
        ResponseItem::ToolSearchCall,
        ResponseItem::WebSearchCall,
        ResponseItem::ImageGenerationCall,
        ResponseItem::Compaction,
        ResponseItem::ContextCompaction,
    ] {
        assert!(response_item_records_turn_ttft(&item));
    }
    for item in [
        ResponseItem::AgentMessage,
        ResponseItem::CompactionTrigger,
        ResponseItem::CustomToolCallOutput,
        ResponseItem::ToolSearchOutput,
        ResponseItem::Other,
    ] {
        assert!(!response_item_records_turn_ttft(&item));
    }
}

#[test]
fn added_and_done_items_count_alike() {
    assert!(response_event_records_turn_ttft(
        &ResponseEvent::OutputItemAdded(ResponseItem::WebSearchCall)
    ));
    assert!(response_event_records_turn_ttft(
        &ResponseEvent::OutputItemDone(ResponseItem::WebSearchCall)
    ));
    assert!(!response_event_records_turn_ttft(
        &ResponseEvent::OutputItemAdded(ResponseItem::Other)
    ));
    assert!(!response_event_records_turn_ttft(
        &ResponseEvent::OutputItemDone(ResponseItem::Other)
    ));
}

#[test]
fn only_deltas_of_text_and_reasoning_count() {
    for event in [
        ResponseEvent::OutputTextDelta(String::new()),
        ResponseEvent::ReasoningSummaryDelta,
        ResponseEvent::ReasoningContentDelta,
    ] {
        assert!(response_event_records_turn_ttft(&event));
    }
    for event in [
        ResponseEvent::Created,
        ResponseEvent::ServerModel,
        ResponseEvent::ModelVerifications,
        ResponseEvent::TurnModerationMetadata,
        ResponseEvent::ServerReasoningIncluded,
        ResponseEvent::ToolCallInputDelta,
        ResponseEvent::Completed,
        ResponseEvent::ReasoningSummaryPartAdded,
        ResponseEvent::RateLimits,
        ResponseEvent::ModelsEtag,
    ] {
        assert!(!response_event_records_turn_ttft(&event));
    }
}
