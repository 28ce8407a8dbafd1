//! Immutable tweet records: validation of topic and content by character
//! count, and the fixed-capacity slot layout in which a record is stored.

pub mod bytes;
pub mod tweet;

pub use tweet::{create_record, send_tweet, ErrorCode, SendTweet, Tweet};
