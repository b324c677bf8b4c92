use shellchat::aggregator::{aggregate, StreamAggregator, StreamStep, FLUSH_THRESHOLD};
use shellchat::error::SchatError;
use shellchat::display::DisplayMode;

fn fragments(parts: Vec<&str>) -> Vec<String> {
    parts.into_iter().map(|p| p.to_string()).collect()
}

#[test]
fn verbose_mode_shows_every_fragment_as_it_arrives() {
    let mut aggregator = StreamAggregator::new(DisplayMode::Verbose);
    assert_eq!(aggregator.push("Hel"), "Hel");
    assert_eq!(aggregator.push(""), "");
    assert_eq!(aggregator.push("lo"), "lo");
    let (full, shown) = aggregator.finish();
    assert_eq!(full, "Hello");
    assert_eq!(shown, "\n");
}

#[test]
fn minimal_mode_shows_every_fragment_too() {
    let (full, shown) = aggregate(DisplayMode::Minimal, &fragments(vec!["a", "b", "c\n"]));
    assert_eq!(full, "abc\n");
    assert_eq!(shown, "abc\n");
}

#[test]
fn a_line_feed_is_added_unless_the_response_ends_in_one() {
    let (_, shown) = aggregate(DisplayMode::Verbose, &fragments(vec!["done"]));
    assert_eq!(shown, "done\n");
    let (_, shown) = aggregate(DisplayMode::Verbose, &fragments(vec!["done\n"]));
    assert_eq!(shown, "done\n");
    let (full, shown) = aggregate(DisplayMode::Verbose, &fragments(vec![]));
    assert_eq!(full, "");
    assert_eq!(shown, "\n");
}

#[test]
fn verbose_mode_shows_a_tool_call_as_well() {
    let parts = fragments(vec!["{\"tool\": \"x\", ", "\"arguments\": {}}"]);
    let (full, shown) = aggregate(DisplayMode::Verbose, &parts);
    assert_eq!(full, "{\"tool\": \"x\", \"arguments\": {}}");
    assert_eq!(shown, "{\"tool\": \"x\", \"arguments\": {}}\n");
}

#[test]
fn hidden_mode_shows_nothing_of_a_tool_call() {
    let parts = fragments(vec!["{\"to", "ol\": \"x\", ", "\"arguments\": {}}"]);
    let (full, shown) = aggregate(DisplayMode::Hidden, &parts);
    assert_eq!(full, "{\"tool\": \"x\", \"arguments\": {}}");
    assert_eq!(shown, "");
}

#[test]
fn hidden_mode_shows_nothing_of_a_fenced_tool_call() {
    let parts = fragments(vec!["```json\n{\"tool\"", ": \"x\"}\n", "```"]);
    let (_, shown) = aggregate(DisplayMode::Hidden, &parts);
    assert_eq!(shown, "");
}

#[test]
fn hidden_mode_shows_short_prose_at_the_end_without_a_line_feed() {
    let (full, shown) = aggregate(DisplayMode::Hidden, &fragments(vec!["Hello ", "there"]));
    assert_eq!(full, "Hello there");
    assert_eq!(shown, "Hello there");
}

#[test]
fn hidden_mode_lets_prose_go_once_it_is_longer_than_the_threshold() {
    assert_eq!(FLUSH_THRESHOLD, 500);
    let mut aggregator = StreamAggregator::new(DisplayMode::Hidden);
    let first = "a".repeat(500);
    assert_eq!(aggregator.push(first.as_str()), "");
    assert_eq!(aggregator.push("b"), format!("{}b", first));
    assert_eq!(aggregator.held, "");
    assert_eq!(aggregator.push("c"), "");
    let (full, shown) = aggregator.finish();
    assert_eq!(full, format!("{}bc", first));
    assert_eq!(shown, "c");
}

#[test]
fn hidden_mode_counts_characters_not_bytes() {
    let mut aggregator = StreamAggregator::new(DisplayMode::Hidden);
    let wide = "\u{4e2d}".repeat(500);
    assert_eq!(aggregator.push(wide.as_str()), "");
    assert_eq!(aggregator.push("\u{6587}"), format!("{}\u{6587}", wide));
}

#[test]
fn hidden_mode_shows_long_prose_that_came_before_a_tool_call() {
    let prose = "x".repeat(501);
    let parts = vec![prose.clone(), "{\"tool\": \"late\"}".to_string()];
    let (full, shown) = aggregate(DisplayMode::Hidden, &parts);
    assert_eq!(full, format!("{}{{\"tool\": \"late\"}}", prose));
    assert_eq!(shown, prose);
}

#[test]
fn hidden_mode_holds_a_tool_call_back_however_long_it_grows() {
    let mut aggregator = StreamAggregator::new(DisplayMode::Hidden);
    assert_eq!(aggregator.push("{\"tool\": \"x\", \"arguments\": {\"text\": \""), "");
    assert_eq!(aggregator.push("y".repeat(600).as_str()), "");
    assert_eq!(aggregator.push("\"}}"), "");
    let (_, shown) = aggregator.finish();
    assert_eq!(shown, "");
}

#[test]
fn the_response_is_the_fragments_put_together_in_every_mode() {
    let parts = fragments(vec!["one ", "", "two ", "three"]);
    for mode in vec![DisplayMode::Verbose, DisplayMode::Minimal, DisplayMode::Hidden] {
        let (full, _) = aggregate(mode, &parts);
        assert_eq!(full, "one two three");
    }
}

#[test]
fn a_read_error_ends_the_stream_and_keeps_what_has_arrived() {
    let mut aggregator = StreamAggregator::new(DisplayMode::Verbose);
    match aggregator.accept(&Ok("partial".to_string())) {
        StreamStep::Show(shown) => assert_eq!(shown, "partial"),
        other => panic!("unexpected step {:?}", other),
    }
    match aggregator.accept(&Err(SchatError::Network("Stream error: reset".to_string()))) {
        StreamStep::Stop(logged) => {
            assert_eq!(logged, "Stream error: Network error: Stream error: reset")
        }
        other => panic!("unexpected step {:?}", other),
    }
    let (full, shown) = aggregator.finish();
    assert_eq!(full, "partial");
    assert_eq!(shown, "\n");

    let mut hidden = StreamAggregator::new(DisplayMode::Hidden);
    assert!(matches!(hidden.accept(&Ok("held".to_string())), StreamStep::Show(ref t) if t.is_empty()));
    assert!(matches!(hidden.accept(&Err(SchatError::Api("x".to_string()))), StreamStep::Stop(_)));
    assert_eq!(hidden.held, "held");
    let (full, shown) = hidden.finish();
    assert_eq!(full, "held");
    assert_eq!(shown, "held");
}
