use solana_twitter::{send_tweet, ErrorCode, Tweet, MAX_CONTENT_CHARS, MAX_TOPIC_CHARS};

fn key(b: u8) -> [u8; 32] {
    let mut k = [0u8; 32];
    for (i, x) in k.iter_mut().enumerate() {
        *x = b.wrapping_add(i as u8);
    }
    k
}

fn ok(r: Result<Tweet, ErrorCode>) -> Tweet {
    match r {
        Ok(t) => t,
        Err(e) => panic!("unexpected error {:?}", e),
    }
}

#[test]
fn hello_world_scenario() {
    let a = key(9);
    let t = ok(send_tweet(a, "hello".to_string(), "world".to_string(), 1000));
    assert_eq!(t.author, a);
    assert_eq!(t.timestamp, 1000);
    assert_eq!(t.topic, "hello");
    assert_eq!(t.content, "world");
}

#[test]
fn topic_of_51_chars_is_refused() {
    let r = send_tweet(key(1), "a".repeat(51), "x".to_string(), 1000);
    assert_eq!(r.unwrap_err(), ErrorCode::TopicTooLong);
}

#[test]
fn content_of_281_chars_is_refused() {
    let r = send_tweet(key(1), "x".to_string(), "b".repeat(281), 1000);
    assert_eq!(r.unwrap_err(), ErrorCode::ContentTooLong);
}

#[test]
fn topic_of_50_chars_passes() {
    let topic = "t".repeat(50);
    let t = ok(send_tweet(key(2), topic.clone(), "c".to_string(), 5));
    assert_eq!(t.topic, topic);
}

#[test]
fn content_of_280_chars_passes() {
    let content = "c".repeat(280);
    let t = ok(send_tweet(key(2), "t".to_string(), content.clone(), 5));
    assert_eq!(t.content, content);
}

#[test]
fn topic_is_checked_before_content() {
    let r = send_tweet(key(3), "a".repeat(60), "b".repeat(300), 0);
    assert_eq!(r.unwrap_err(), ErrorCode::TopicTooLong);
}

#[test]
fn empty_texts_pass() {
    let t = ok(send_tweet(key(4), String::new(), String::new(), 0));
    assert_eq!(t.topic, "");
    assert_eq!(t.content, "");
}

#[test]
fn four_byte_characters_count_once() {
    let topic = "\u{1F600}".repeat(50);
    assert_eq!(topic.len(), 200);
    let t = ok(send_tweet(key(5), topic.clone(), "\u{1F980}".repeat(280), 7));
    assert_eq!(t.topic, topic);
    assert_eq!(t.content.chars().count(), 280);
    let r = send_tweet(key(5), "\u{1F600}".repeat(51), "x".to_string(), 7);
    assert_eq!(r.unwrap_err(), ErrorCode::TopicTooLong);
}

#[test]
fn multi_byte_content_over_limit_is_refused() {
    let r = send_tweet(key(5), "é".to_string(), "é".repeat(281), 7);
    assert_eq!(r.unwrap_err(), ErrorCode::ContentTooLong);
    let t = ok(send_tweet(key(5), "é".to_string(), "é".repeat(280), 7));
    assert_eq!(t.content.len(), 560);
}

#[test]
fn timestamp_and_author_are_kept() {
    for now in [i64::MIN, -1, 0, 1, 1_700_000_000, i64::MAX] {
        let a = key(200);
        let t = ok(send_tweet(a, "topic".to_string(), "content".to_string(), now));
        assert_eq!(t.timestamp, now);
        assert_eq!(t.author, a);
    }
}

#[test]
fn texts_are_not_altered() {
    let topic = "  Mixed CASE\tTopic  ";
    let content = "line one\nline two \u{0301} ";
    let t = ok(send_tweet(key(6), topic.to_string(), content.to_string(), 1));
    assert_eq!(t.topic, topic);
    assert_eq!(t.content, content);
}

#[test]
fn limits_are_fifty_and_two_hundred_eighty() {
    assert_eq!(MAX_TOPIC_CHARS, 50);
    assert_eq!(MAX_CONTENT_CHARS, 280);
}

#[test]
fn error_messages() {
    assert_eq!(
        ErrorCode::TopicTooLong.message(),
        "The provided topic should be 50 characters long maximum"
    );
    assert_eq!(
        ErrorCode::ContentTooLong.message(),
        "The provided content should be 280 characters long maximum"
    );
}
