use ai_req_queue::decimal::{parse_u64, render_u64};
use ai_req_queue::http_client::{completion_body, APIRequestClient, Candidate, GenParams, GenResponse, SafetyRating};

#[test]
fn render_decimal() {
    assert_eq!(render_u64(0), "0");
    assert_eq!(render_u64(7), "7");
    assert_eq!(render_u64(10), "10");
    assert_eq!(render_u64(u64::MAX), "18446744073709551615");
}

#[test]
fn parse_decimal() {
    assert_eq!(parse_u64("0"), Some(0));
    assert_eq!(parse_u64("042"), Some(42));
    assert_eq!(parse_u64("18446744073709551615"), Some(u64::MAX));
    assert_eq!(parse_u64("18446744073709551616"), None);
    assert_eq!(parse_u64(""), None);
    assert_eq!(parse_u64("12a"), None);
    assert_eq!(parse_u64("-1"), None);
    assert_eq!(parse_u64("99999999999999999999x"), None);
}

#[test]
fn completion_body_escapes_prompt() {
    let p = GenParams::default_params();
    assert_eq!(
        completion_body("Write a haiku about cheese.", p),
        "{\"n_predict\":250,\"prompt\":\"Write a haiku about cheese.\",\"temperature\":0}"
    );
    assert_eq!(
        completion_body("say \"hi\"\n", GenParams { temperature: 1, n_predict: 8 }),
        "{\"n_predict\":8,\"prompt\":\"say \\\"hi\\\"\\n\",\"temperature\":1}"
    );
}

#[test]
fn completion_addresses() {
    let c = APIRequestClient::new();
    assert_eq!(c.completion_url(), "http://localhost:8080/completion");
    let c2 = APIRequestClient::with_base_url("http://gen:9000");
    assert_eq!(c2.endpoint_url("health"), "http://gen:9000/health");
    let (url, body) = c2.completion_request("x", GenParams { temperature: 0, n_predict: 1 });
    assert_eq!(url, "http://gen:9000/completion");
    assert_eq!(body, "{\"n_predict\":1,\"prompt\":\"x\",\"temperature\":0}");
}

#[test]
fn response_types_hold_their_fields() {
    let r = GenResponse {
        candidates: vec![Candidate {
            output: "out".to_string(),
            safety_ratings: vec![SafetyRating { category: "c".to_string(), probability: "LOW".to_string() }],
        }],
    };
    assert_eq!(r.clone(), r);
    assert_eq!(r.candidates[0].safety_ratings[0].probability, "LOW");
    assert_eq!(GenResponse::default().candidates.len(), 0);
}

#[test]
fn completion_body_escapes_control_characters() {
    let p = GenParams { temperature: 0, n_predict: 2 };
    assert_eq!(
        completion_body("a\u{1}b\u{1f}\t\\\r\u{8}\u{c}\u{7f}é", p),
        "{\"n_predict\":2,\"prompt\":\"a\\u0001b\\u001f\\t\\\\\\r\\b\\f\u{7f}é\",\"temperature\":0}"
    );
}
