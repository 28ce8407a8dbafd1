use twitter::tweet::{MAX_CONTENT_LENGTH, MAX_TOPIC_LENGTH};
use twitter::{create_record, send_tweet, ErrorCode, SendTweet, Tweet};

fn repeat(c: char, n: usize) -> String {
    std::iter::repeat(c).take(n).collect()
}

fn empty_tweet() -> Tweet {
    Tweet { author: [0u8; 32], timestamp: 0, topic: String::new(), content: String::new() }
}

fn u32_at(b: &[u8], at: usize) -> u32 {
    u32::from_le_bytes([b[at], b[at + 1], b[at + 2], b[at + 3]])
}

#[test]
fn slot_size_is_fixed() {
    assert_eq!(Tweet::LEN, 1376);
    assert_eq!(MAX_TOPIC_LENGTH, 200);
    assert_eq!(MAX_CONTENT_LENGTH, 1120);
}

#[test]
fn valid_record_keeps_inputs() {
    let author = [9u8; 32];
    let t = create_record("solana".to_string(), "gm".to_string(), author, 1_700_000_000).unwrap();
    assert_eq!(t.author, author);
    assert_eq!(t.timestamp, 1_700_000_000);
    assert_eq!(t.topic, "solana");
    assert_eq!(t.content, "gm");
}

#[test]
fn empty_strings_are_accepted() {
    let t = create_record(String::new(), String::new(), [1u8; 32], -5).unwrap();
    assert_eq!(t.topic, "");
    assert_eq!(t.content, "");
    assert_eq!(t.timestamp, -5);
}

#[test]
fn topic_of_51_chars_is_refused() {
    let r = create_record(repeat('a', 51), "fine".to_string(), [0u8; 32], 0);
    assert_eq!(r.err(), Some(ErrorCode::TopicTooLong));
}

#[test]
fn topic_checked_before_content() {
    let r = create_record(repeat('a', 51), repeat('b', 281), [0u8; 32], 0);
    assert_eq!(r.err(), Some(ErrorCode::TopicTooLong));
}

#[test]
fn content_of_281_chars_is_refused() {
    let r = create_record("topic".to_string(), repeat('b', 281), [0u8; 32], 0);
    assert_eq!(r.err(), Some(ErrorCode::ContentTooLong));
}

#[test]
fn boundaries() {
    assert!(create_record(repeat('a', 50), String::new(), [0u8; 32], 0).is_ok());
    assert!(create_record(repeat('a', 51), String::new(), [0u8; 32], 0).is_err());
    assert!(create_record(String::new(), repeat('b', 280), [0u8; 32], 0).is_ok());
    assert_eq!(
        create_record(String::new(), repeat('b', 281), [0u8; 32], 0).err(),
        Some(ErrorCode::ContentTooLong)
    );
}

#[test]
fn characters_not_bytes_are_counted() {
    // 51 two-byte characters: refused by count although 102 bytes fit.
    assert_eq!(
        create_record(repeat('é', 51), String::new(), [0u8; 32], 0).err(),
        Some(ErrorCode::TopicTooLong)
    );
    // 280 three-byte characters: 840 bytes, accepted.
    assert!(create_record(String::new(), repeat('€', 280), [0u8; 32], 0).is_ok());
}

#[test]
fn four_byte_topic_fits_its_capacity() {
    let topic = repeat('😀', 50);
    assert_eq!(topic.len(), 200);
    let content = repeat('𝄞', 280);
    let t = create_record(topic.clone(), content.clone(), [3u8; 32], 7).unwrap();
    let b = t.to_slot_bytes([0u8; 8]);
    assert_eq!(b.len(), 1376);
    assert_eq!(u32_at(&b, 48), 200);
    assert_eq!(&b[52..252], topic.as_bytes());
    assert_eq!(u32_at(&b, 252), 1120);
    assert_eq!(&b[256..1376], content.as_bytes());
}

#[test]
fn slot_layout_is_exact() {
    let disc = [1u8, 2, 3, 4, 5, 6, 7, 8];
    let mut author = [0u8; 32];
    for i in 0..32 {
        author[i] = i as u8 + 100;
    }
    let t = create_record("hé".to_string(), "gm".to_string(), author, -2).unwrap();
    let b = t.to_slot_bytes(disc);
    assert_eq!(b.len(), 1376);
    assert_eq!(&b[0..8], &disc);
    assert_eq!(&b[8..40], &author);
    assert_eq!(&b[40..48], &[0xfe, 0xff, 0xff, 0xff, 0xff, 0xff, 0xff, 0xff]);
    assert_eq!(&b[48..52], &[3, 0, 0, 0]);
    assert_eq!(&b[52..55], &[b'h', 0xc3, 0xa9]);
    assert!(b[55..252].iter().all(|x| *x == 0));
    assert_eq!(&b[252..256], &[2, 0, 0, 0]);
    assert_eq!(&b[256..258], b"gm");
    assert!(b[258..].iter().all(|x| *x == 0));
}

#[test]
fn timestamp_is_little_endian() {
    let t = create_record(String::new(), String::new(), [0u8; 32], 0x0102_0304_0506_0708).unwrap();
    let b = t.to_slot_bytes([0u8; 8]);
    assert_eq!(&b[40..48], &[8, 7, 6, 5, 4, 3, 2, 1]);
}

#[test]
fn send_tweet_fills_the_record() {
    let mut ctx = SendTweet { tweet: empty_tweet(), author: [5u8; 32] };
    let r = send_tweet(&mut ctx, "rust".to_string(), "verified".to_string(), 42);
    assert_eq!(r, Ok(()));
    assert_eq!(ctx.tweet.author, [5u8; 32]);
    assert_eq!(ctx.tweet.timestamp, 42);
    assert_eq!(ctx.tweet.topic, "rust");
    assert_eq!(ctx.tweet.content, "verified");
}

#[test]
fn send_tweet_refusal_leaves_record_untouched() {
    let mut ctx = SendTweet { tweet: empty_tweet(), author: [5u8; 32] };
    let r = send_tweet(&mut ctx, "rust".to_string(), repeat('x', 281), 42);
    assert_eq!(r, Err(ErrorCode::ContentTooLong));
    assert_eq!(ctx.tweet.timestamp, 0);
    assert_eq!(ctx.tweet.topic, "");
    let r = send_tweet(&mut ctx, repeat('x', 51), String::new(), 42);
    assert_eq!(r, Err(ErrorCode::TopicTooLong));
    assert_eq!(ctx.tweet.content, "");
}
