use pan::auth::{complete_authorization, Token};
use pan::clock::Timestamp;
use pan::commit::{build_commit_request, interpret_store_response, StoreError};
use pan::content::{
    build_media_path, build_post_document, build_post_path, decode_payload, prepare_media_upload,
    prepare_text_post, Content,
};

fn verified_token() -> Token {
    complete_authorization(
        "example-credential".to_string(),
        Some("me=https://example.test"),
        "https://example.test",
    )
    .expect("a matching introspection reply must verify")
}

fn fixed_stamp() -> Timestamp {
    Timestamp::new(2024, 1, 2, 3, 4).expect("the fixed reading is well-formed")
}

#[test]
fn timestamp_rejects_out_of_range_parts() {
    assert!(Timestamp::new(2024, 0, 2, 3, 4).is_none());
    assert!(Timestamp::new(2024, 13, 2, 3, 4).is_none());
    assert!(Timestamp::new(2024, 1, 0, 3, 4).is_none());
    assert!(Timestamp::new(2024, 1, 32, 3, 4).is_none());
    assert!(Timestamp::new(2024, 1, 2, 24, 4).is_none());
    assert!(Timestamp::new(2024, 1, 2, 3, 60).is_none());
    assert!(Timestamp::new(999, 1, 2, 3, 4).is_none());
    assert!(Timestamp::new(9999, 12, 31, 23, 59).is_some());
}

#[test]
fn current_timestamp_is_well_formed() {
    let stamp = pan::clock::current_timestamp().expect("the wall clock has a four-digit year");
    assert!((1000..=9999).contains(&stamp.year));
    assert!((1..=12).contains(&stamp.month));
    assert!((1..=31).contains(&stamp.day));
    assert!(stamp.hour <= 23);
    assert!(stamp.minute <= 59);
}

#[test]
fn post_path_is_the_hyphenated_timestamp() {
    let path = build_post_path(&fixed_stamp());
    assert_eq!(path.as_str(), "contents/_posts/2024-01-02-03-04.md");
}

#[test]
fn post_document_carries_frontmatter_and_body() {
    let doc = build_post_document("Jane Doe", &fixed_stamp(), "hello world");
    assert_eq!(
        doc.as_str(),
        "---\nauthor: Jane Doe\nlayout: status\ndate: 2024-01-02 03:04\n---\nhello world"
    );
}

#[test]
fn text_post_normalizes_to_document_commit() {
    let token = verified_token();
    let content = prepare_text_post("Jane Doe", "hello world", &fixed_stamp(), &token);
    assert_eq!(content.message, "Add post");
    assert_eq!(content.path, "contents/_posts/2024-01-02-03-04.md");
    let payload = decode_payload(&content).expect("the payload is a base64 encoding");
    assert_eq!(
        payload,
        b"---\nauthor: Jane Doe\nlayout: status\ndate: 2024-01-02 03:04\n---\nhello world"
    );
}

#[test]
fn media_upload_normalizes_to_byte_commit() {
    let token = verified_token();
    let data = vec![0u8, 1, 2, 254, 255, 10, 13];
    let content = prepare_media_upload("images", "photo.jpg", data.clone(), &token);
    assert_eq!(content.message, "Add post");
    assert_eq!(content.path, "images/photo.jpg");
    assert_eq!(content.content, base64::encode(&data));
    let payload = decode_payload(&content).expect("the payload is a base64 encoding");
    assert_eq!(payload, data);
}

#[test]
fn media_path_joins_base_and_file_name() {
    assert_eq!(
        build_media_path("images", "a b.png").as_str(),
        "images/a b.png"
    );
}

#[test]
fn empty_text_post_round_trips() {
    let content = Content::new("Add post".to_string(), String::new(), "p.md".to_string());
    let payload = decode_payload(&content).expect("the payload is a base64 encoding");
    assert!(payload.is_empty());
}

#[test]
fn commit_request_carries_url_headers_and_body() {
    let content = Content::new(
        "Add post".to_string(),
        "hi".to_string(),
        "contents/_posts/2024-01-02-03-04.md".to_string(),
    );
    let request = build_commit_request("jane/site", "SECRET-REDACTED", &content);
    assert_eq!(
        request.url,
        "https://api.github.com/repos/jane/site/contents/contents/_posts/2024-01-02-03-04.md"
    );
    assert_eq!(request.authorization, "Bearer SECRET-REDACTED");
    assert_eq!(request.user_agent, "pan-rust");
    assert_eq!(request.content_type, "application/json;charset=UTF-8");
    let expected = format!(
        "{{\"message\":\"Add post\",\"content\":\"{}\",\"path\":\"contents/_posts/2024-01-02-03-04.md\"}}",
        base64::encode("hi")
    );
    assert_eq!(request.body, expected);
}

#[test]
fn commit_body_is_json_with_escaped_fields() {
    let content = Content::new(
        "say \"hi\"\n\\once\t".to_string(),
        "body".to_string(),
        "a\u{1}b.md".to_string(),
    );
    let request = build_commit_request("jane/site", "t", &content);
    let parsed: serde_json::Value =
        serde_json::from_str(&request.body).expect("the body is valid JSON");
    assert_eq!(parsed["message"], "say \"hi\"\n\\once\t");
    assert_eq!(parsed["content"], base64::encode("body").as_str());
    assert_eq!(parsed["path"], "a\u{1}b.md");
}

#[test]
fn store_reply_with_download_url_locates_the_commit() {
    let body = "{\"content\":{\"download_url\":\"https://x/y\"}}";
    let parsed: serde_json::Value = serde_json::from_str(body).expect("the reply is JSON");
    let location = parsed
        .get("content")
        .and_then(|c| c.get("download_url"))
        .and_then(|u| u.as_str())
        .map(|u| u.to_string());
    let result = interpret_store_response(Some((200, location)))
        .expect("a successful reply with a URL commits");
    assert_eq!(result.location_url, "https://x/y");
}

#[test]
fn store_reply_without_download_url_is_malformed() {
    let body = "{\"commit\":{\"sha\":\"abc\"}}";
    let parsed: serde_json::Value = serde_json::from_str(body).expect("the reply is JSON");
    let location = parsed
        .get("content")
        .and_then(|c| c.get("download_url"))
        .and_then(|u| u.as_str())
        .map(|u| u.to_string());
    let outcome = interpret_store_response(Some((200, location)));
    assert_eq!(outcome.unwrap_err(), StoreError::MalformedResponse);
}

#[test]
fn store_transport_failure_is_reported() {
    let outcome = interpret_store_response(None);
    assert_eq!(outcome.unwrap_err(), StoreError::Transport);
}

#[test]
fn store_error_status_is_reported() {
    let outcome = interpret_store_response(Some((404, Some("https://x/y".to_string()))));
    assert_eq!(outcome.unwrap_err(), StoreError::BadStatus(404));
    let outcome = interpret_store_response(Some((199, None)));
    assert_eq!(outcome.unwrap_err(), StoreError::BadStatus(199));
    let outcome = interpret_store_response(Some((300, None)));
    assert_eq!(outcome.unwrap_err(), StoreError::BadStatus(300));
}

#[test]
fn index_greets() {
    assert_eq!(pan::index(), "Hello, world!");
}
