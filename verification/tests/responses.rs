use twilight_cloudflare_workers::response;
use twilight_model::http::interaction::InteractionResponse;
use twilight_model::http::interaction::InteractionResponseType;

#[test]
fn pong_response_is_json_with_status_200() {
    let payload = InteractionResponse {
        kind: InteractionResponseType::Pong,
        data: None,
    };
    let parts = response(&payload);
    assert_eq!(parts.status, 200);
    assert_eq!(parts.content_type.as_deref(), Some("application/json"));
    assert_eq!(parts.body, "{\"type\":1}");
}

#[test]
fn response_body_round_trips() {
    let payload = InteractionResponse {
        kind: InteractionResponseType::DeferredChannelMessageWithSource,
        data: None,
    };
    let parts = response(&payload);
    assert_eq!(parts.status, 200);
    let back: InteractionResponse = serde_json::from_str(&parts.body).unwrap();
    assert_eq!(back, payload);
}
