use rustptty::ai_functions::AiFunction;
use rustptty::extract::{decode_string_list, extract_json_from_code_block, white_space};
use rustptty::general::{
    decide_after_attempt, extend_ai_function, CallDecision, GenerationFailed, PipelineError,
};

#[test]
fn tests_extending_ai_function() {
    let extended_msg = extend_ai_function(AiFunction::ConvertUserInputToGoal, "dummy input");
    assert_eq!(extended_msg.role, "system".to_string());
}

#[test]
fn extended_message_embeds_instruction_and_input() {
    let msg = extend_ai_function(AiFunction::PrintSiteUrls, "a weather site");
    let expected = format!(
        "FUNCTION {}\n    INSTRUCTION: You are a function printer. You ONLY print results of functions. Nothing else, no commentary. Here is the input of the function a weather site.",
        AiFunction::PrintSiteUrls.instruction()
    );
    assert_eq!(msg.content, expected);
    assert_eq!(AiFunction::PrintSiteUrls.label(), "print_site_urls");
}

#[test]
fn retry_accepts_second_answer_after_one_failure() {
    let first = decide_after_attempt(1, Err(GenerationFailed));
    assert!(matches!(first, CallDecision::Retry));
    let second = decide_after_attempt(2, Ok("done".to_string()));
    match second {
        CallDecision::Accept(text) => assert_eq!(text, "done"),
        _ => panic!("expected the answer"),
    }
}

#[test]
fn retry_fails_after_two_failed_attempts() {
    let mut attempts = 0;
    let mut decision = CallDecision::Retry;
    while matches!(decision, CallDecision::Retry) {
        attempts += 1;
        decision = decide_after_attempt(attempts, Err(GenerationFailed));
    }
    assert!(matches!(decision, CallDecision::Fail));
    assert_eq!(attempts, 2);
}

#[test]
fn first_answer_is_accepted_at_once() {
    match decide_after_attempt(1, Ok("x".to_string())) {
        CallDecision::Accept(text) => assert_eq!(text, "x"),
        _ => panic!("expected the answer"),
    }
}

#[test]
fn json_extraction_of_fenced_object() {
    let text = "```json\n{\"x\":1}\n```";
    let payload = extract_json_from_code_block(text);
    assert_eq!(payload, "{\"x\":1}");
    let value: serde_json::Value = serde_json::from_str(&payload).unwrap();
    assert_eq!(value["x"], 1);
}

#[test]
fn json_extraction_with_leading_prose() {
    let text = "Here is the result:\n```json\n{\"x\":1}\n```";
    let payload = extract_json_from_code_block(text);
    assert_eq!(payload, "{\"x\":1}");
    let value: serde_json::Value = serde_json::from_str(&payload).unwrap();
    assert_eq!(value["x"], 1);
}

#[test]
fn json_extraction_ignores_brackets_before_the_fence() {
    let text = "Result [final] {draft}:\n```\n[\"https://a.example\"]\n```";
    assert_eq!(extract_json_from_code_block(text), "[\"https://a.example\"]");
}

#[test]
fn json_extraction_of_bare_text_trims() {
    assert_eq!(extract_json_from_code_block("  \n{\"a\": true}\t "), "{\"a\": true}");
    assert_eq!(extract_json_from_code_block(""), "");
    assert_eq!(extract_json_from_code_block(" \u{3000}x\u{a0}"), "x");
}

#[test]
fn json_extraction_of_fenced_array_of_objects() {
    let text = "```json\n[{\"a\":1},{\"b\":2}]\n```\nThat is all.";
    assert_eq!(extract_json_from_code_block(text), "[{\"a\":1},{\"b\":2}]");
}

#[test]
fn json_extraction_without_closer_keeps_text() {
    assert_eq!(extract_json_from_code_block("```{ no end"), "```{ no end");
    assert_eq!(extract_json_from_code_block("```} {"), "```} {");
    assert_eq!(extract_json_from_code_block("```plain"), "```plain");
}

#[test]
fn scope_round_trip_through_fence() {
    for (crud, login, ext) in [(true, false, true), (false, true, false), (true, true, true)] {
        let json = format!(
            "{{\"is_crud_required\":{},\"is_user_login_and_logout\":{},\"is_external_urls_required\":{}}}",
            crud, login, ext
        );
        let fenced = format!("```json Here you go\n{}\n```\nHope this helps.", json);
        let prose_first = format!("Sure, here is the scope.\n```json\n{}\n```\nDone.", json);
        for text in [fenced.as_str(), prose_first.as_str(), json.as_str()] {
            let payload = extract_json_from_code_block(text);
            assert_eq!(payload, json);
            let value: serde_json::Value = serde_json::from_str(&payload).unwrap();
            assert_eq!(value["is_crud_required"], crud);
            assert_eq!(value["is_user_login_and_logout"], login);
            assert_eq!(value["is_external_urls_required"], ext);
        }
    }
}

#[test]
fn decode_url_list_from_fenced_answer() {
    let urls = decode_string_list("```json\n[\"https://a.example\", \"https://b.example\"]\n```")
        .unwrap();
    assert_eq!(urls, vec!["https://a.example".to_string(), "https://b.example".to_string()]);
}

#[test]
fn decode_url_list_rejects_malformed_answer() {
    assert_eq!(decode_string_list("not json"), Err(PipelineError::DecodeFailed));
    assert_eq!(decode_string_list("{\"a\": 1}"), Err(PipelineError::DecodeFailed));
}

#[test]
fn white_space_matches_std() {
    for c in ['\t', '\n', ' ', '\u{85}', '\u{a0}', '\u{2003}', '\u{3000}', 'a', '{', '\u{200b}'] {
        assert_eq!(white_space(c), c.is_whitespace());
    }
}

#[test]
fn json_led_text_is_taken_whole() {
    let text = "{\"code\": \"```rust\\nfn main() { let v = [1]; }\\n```\"}";
    assert_eq!(extract_json_from_code_block(text), text);
    let value: serde_json::Value = serde_json::from_str(&extract_json_from_code_block(text)).unwrap();
    assert!(value["code"].as_str().unwrap().starts_with("```rust"));
}

#[test]
fn extraction_twice_equals_once() {
    for text in [
        "```\n{ ``` [1] }\n```",
        "Here is the result:\n```json\n{\"x\":1}\n```",
        "```json\n[{\"a\":1}]\n```",
        "  plain text ``` with a fence but no payload ",
        "[1, 2]",
        "",
    ] {
        let once = extract_json_from_code_block(text);
        assert_eq!(extract_json_from_code_block(&once), once);
    }
    assert_eq!(extract_json_from_code_block("```\n{ ``` [1] }\n```"), "{ ``` [1] }");
}
