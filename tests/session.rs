use gemini_cli::chatroutine::{finish_turn, start_turn, TransportFailure, TurnEnd, TurnStart};
use gemini_cli::cliutils::{
    apply_command, classify, parse_command, special_commands, Command, EXIT, HANDLED, PROCEED,
};
use gemini_cli::gemini::{
    build_request, copy_transcript, endpoint_uri, GeminiContentCandidate, GeminiContentMessage,
    GeminiContentPart, GeminiContentResponse, GenerationConfig,
};

fn message(role: &str, text: &str) -> GeminiContentMessage {
    GeminiContentMessage {
        role: role.to_string(),
        parts: vec![GeminiContentPart { text: text.to_string() }],
    }
}

fn pairs(history: &[GeminiContentMessage]) -> Vec<(String, String)> {
    history
        .iter()
        .map(|m| (m.role.clone(), m.parts[0].text.clone()))
        .collect()
}

fn config() -> GenerationConfig {
    GenerationConfig {
        temperature_bits: 0.7f64.to_bits(),
        max_output_tokens: 800,
        top_p_bits: 0.8f64.to_bits(),
        top_k: 10,
    }
}

fn reply(texts: &[&str]) -> GeminiContentResponse {
    GeminiContentResponse {
        candidates: texts
            .iter()
            .map(|t| GeminiContentCandidate { content: message("model", t) })
            .collect(),
    }
}

fn four_turns() -> Vec<GeminiContentMessage> {
    vec![
        message("user", "q1"),
        message("model", "a1"),
        message("user", "q2"),
        message("model", "a2"),
    ]
}

#[test]
fn keywords_ignore_case_and_surrounding_space() {
    let mut h = four_turns();
    assert_eq!(special_commands(" Exit \n", &mut h), EXIT);
    assert_eq!(h.len(), 4);
    assert_eq!(parse_command("  CLEAR\t"), Command::Clear);
    assert_eq!(parse_command("\nUnDo "), Command::Undo);
    assert_eq!(parse_command("exit please"), Command::Chat);
}

#[test]
fn classify_compares_exactly() {
    assert_eq!(classify("exit"), Command::Exit);
    assert_eq!(classify("clear"), Command::Clear);
    assert_eq!(classify("undo"), Command::Undo);
    assert_eq!(classify("Exit"), Command::Chat);
    assert_eq!(classify(" undo"), Command::Chat);
    assert_eq!(classify(""), Command::Chat);
}

#[test]
fn clear_empties_transcript_of_any_size() {
    for n in [0usize, 1, 2, 5] {
        let mut h: Vec<GeminiContentMessage> = (0..n).map(|i| message("user", &i.to_string())).collect();
        assert_eq!(special_commands("clear", &mut h), HANDLED);
        assert!(h.is_empty());
    }
}

#[test]
fn undo_drops_last_exchange() {
    let mut h = four_turns();
    assert_eq!(special_commands("undo", &mut h), HANDLED);
    assert_eq!(
        pairs(&h),
        vec![("user".to_string(), "q1".to_string()), ("model".to_string(), "a1".to_string())]
    );
}

#[test]
fn undo_with_fewer_than_two_turns_changes_nothing() {
    let mut h = vec![message("user", "only")];
    assert_eq!(apply_command(Command::Undo, &mut h), HANDLED);
    assert_eq!(pairs(&h), vec![("user".to_string(), "only".to_string())]);
    let mut empty: Vec<GeminiContentMessage> = Vec::new();
    assert_eq!(special_commands("undo", &mut empty), HANDLED);
    assert!(empty.is_empty());
}

#[test]
fn other_input_proceeds_unchanged() {
    let mut h = four_turns();
    assert_eq!(special_commands("hello", &mut h), PROCEED);
    assert_eq!(pairs(&h), pairs(&four_turns()));
}

#[test]
fn hello_round_trip() {
    let mut h: Vec<GeminiContentMessage> = Vec::new();
    let request = match start_turn(&mut h, "hello", &config()) {
        TurnStart::Send(r) => r,
        _ => panic!("expected a request"),
    };
    assert_eq!(pairs(&request.contents), vec![("user".to_string(), "hello".to_string())]);
    match finish_turn(&mut h, Ok(reply(&["hi there"]))) {
        TurnEnd::Reply(text) => assert_eq!(text, "hi there"),
        _ => panic!("expected a reply"),
    }
    assert_eq!(
        pairs(&h),
        vec![("user".to_string(), "hello".to_string()), ("model".to_string(), "hi there".to_string())]
    );
}

#[test]
fn user_turn_is_trimmed() {
    let mut h: Vec<GeminiContentMessage> = Vec::new();
    assert!(matches!(start_turn(&mut h, "  hello there \n", &config()), TurnStart::Send(_)));
    assert_eq!(pairs(&h), vec![("user".to_string(), "hello there".to_string())]);
}

#[test]
fn undo_scenario_makes_no_call() {
    let mut h = four_turns();
    assert!(matches!(start_turn(&mut h, "undo", &config()), TurnStart::Handled));
    assert_eq!(h.len(), 2);
    assert_eq!(
        pairs(&h),
        vec![("user".to_string(), "q1".to_string()), ("model".to_string(), "a1".to_string())]
    );
}

#[test]
fn exit_and_clear_through_start_turn() {
    let mut h = four_turns();
    assert!(matches!(start_turn(&mut h, " EXIT", &config()), TurnStart::Exit));
    assert_eq!(h.len(), 4);
    assert!(matches!(start_turn(&mut h, "Clear", &config()), TurnStart::Handled));
    assert!(h.is_empty());
}

#[test]
fn failed_call_keeps_only_the_user_turn() {
    let mut h = four_turns();
    assert!(matches!(start_turn(&mut h, "next", &config()), TurnStart::Send(_)));
    assert!(matches!(finish_turn(&mut h, Err(TransportFailure)), TurnEnd::Failed));
    assert_eq!(h.len(), 5);
    assert_eq!(pairs(&h[4..]), vec![("user".to_string(), "next".to_string())]);
    assert!(matches!(start_turn(&mut h, "again", &config()), TurnStart::Send(_)));
    assert_eq!(h.len(), 6);
}

#[test]
fn no_candidate_is_silent() {
    let mut h = vec![message("user", "q")];
    assert!(matches!(finish_turn(&mut h, Ok(reply(&[]))), TurnEnd::Silent));
    assert_eq!(h.len(), 1);
}

#[test]
fn only_first_candidate_is_kept() {
    let mut h = vec![message("user", "q")];
    match finish_turn(&mut h, Ok(reply(&["first", "second"]))) {
        TurnEnd::Reply(text) => assert_eq!(text, "first"),
        _ => panic!("expected a reply"),
    }
    assert_eq!(
        pairs(&h),
        vec![("user".to_string(), "q".to_string()), ("model".to_string(), "first".to_string())]
    );
}

#[test]
fn reply_without_parts_shows_nothing() {
    let mut h: Vec<GeminiContentMessage> = Vec::new();
    let response = GeminiContentResponse {
        candidates: vec![GeminiContentCandidate {
            content: GeminiContentMessage { role: "model".to_string(), parts: Vec::new() },
        }],
    };
    match finish_turn(&mut h, Ok(response)) {
        TurnEnd::Reply(text) => assert_eq!(text, ""),
        _ => panic!("expected a reply"),
    }
    assert_eq!(h.len(), 1);
    assert!(h[0].parts.is_empty());
}

#[test]
fn request_holds_every_turn_and_the_config() {
    let h = four_turns();
    let request = build_request(&h, &config());
    assert_eq!(request.contents.len(), 4);
    assert_eq!(pairs(&request.contents), pairs(&h));
    assert!(request.generation_config == config());
    assert_eq!(f64::from_bits(request.generation_config.temperature_bits), 0.7);
    assert_eq!(request.generation_config.max_output_tokens, 800);
    assert_eq!(f64::from_bits(request.generation_config.top_p_bits), 0.8);
    assert_eq!(request.generation_config.top_k, 10);
}

#[test]
fn copy_keeps_empty_text_and_multiple_parts() {
    let h = vec![
        message("user", ""),
        GeminiContentMessage {
            role: "model".to_string(),
            parts: vec![
                GeminiContentPart { text: "a".to_string() },
                GeminiContentPart { text: "b".to_string() },
            ],
        },
    ];
    let c = copy_transcript(&h);
    assert_eq!(c[0].parts[0].text, "");
    assert_eq!(c[1].role, "model");
    assert_eq!(c[1].parts.len(), 2);
    assert_eq!(c[1].parts[1].text, "b");
}

#[test]
fn endpoint_carries_the_key() {
    assert_eq!(
        endpoint_uri("abc"),
        "https://generativelanguage.googleapis.com/v1beta/models/gemini-pro:generateContent?key=abc"
    );
}
