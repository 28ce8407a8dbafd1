use vstd::prelude::*;
use vstd::string::StrSliceExecFns;
use vstd::utf8::encode_utf8;

use crate::bytes::{lemma_le_bytes_len, lemma_utf8_len_bound, le_bytes, padded_field, push_all, push_le, push_padded};

verus! {

/// Bytes of the type tag that the storage layer puts in front of a record.
pub const DISCRIMINATOR_LENGTH: usize = 8;

/// Bytes of an author's identity.
pub const PUBLIC_KEY_LENGTH: usize = 32;

/// Bytes of a timestamp.
pub const TIMESTAMP_LENGTH: usize = 8;

/// Bytes of the length prefix in front of each string field.
pub const STRING_LENGTH_PREFIX: usize = 4;

/// Most characters a topic may hold.
pub const MAX_TOPIC_CHARS: usize = 50;

/// Most characters a content may hold.
pub const MAX_CONTENT_CHARS: usize = 280;

/// Bytes reserved for a topic: four per character, the widest UTF-8 encoding.
pub const MAX_TOPIC_LENGTH: usize = MAX_TOPIC_CHARS * 4;

/// Bytes reserved for a content: four per character, the widest UTF-8 encoding.
pub const MAX_CONTENT_LENGTH: usize = MAX_CONTENT_CHARS * 4;

/// Why a tweet was refused.
#[derive(Clone, Copy, Debug, PartialEq, Eq, Structural)]
pub enum ErrorCode {
    /// The topic holds more than fifty characters.
    TopicTooLong,
    /// The content holds more than two hundred and eighty characters.
    ContentTooLong,
}

/// An immutable tweet record.
pub struct Tweet {
    /// Identity of the creator.
    pub author: [u8; 32],
    /// Seconds since the epoch at creation.
    pub timestamp: i64,
    pub topic: String,
    pub content: String,
}

/// What a call to `send_tweet` works on: the freshly allocated record and
/// the identity of the signer who pays for it.
pub struct SendTweet {
    pub tweet: Tweet,
    pub author: [u8; 32],
}

/// The result that `create_record` owes for the given inputs.
pub open spec fn record_outcome(
    topic: Seq<char>,
    content: Seq<char>,
    author: Seq<u8>,
    now: i64,
    r: Result<Tweet, ErrorCode>,
) -> bool {
    if topic.len() > MAX_TOPIC_CHARS {
        r == Err::<Tweet, ErrorCode>(ErrorCode::TopicTooLong)
    } else if content.len() > MAX_CONTENT_CHARS {
        r == Err::<Tweet, ErrorCode>(ErrorCode::ContentTooLong)
    } else {
        &&& r is Ok
        &&& r->Ok_0.author@ == author
        &&& r->Ok_0.timestamp == now
        &&& r->Ok_0.topic@ == topic
        &&& r->Ok_0.content@ == content
    }
}

impl Tweet {
    /// Size of the storage slot of a record, whatever its strings hold.
    pub const LEN: usize = DISCRIMINATOR_LENGTH + PUBLIC_KEY_LENGTH + TIMESTAMP_LENGTH
        + STRING_LENGTH_PREFIX + MAX_TOPIC_LENGTH + STRING_LENGTH_PREFIX + MAX_CONTENT_LENGTH;

    /// Both strings are within their character limits.
    pub open spec fn wf(&self) -> bool {
        &&& self.topic@.len() <= MAX_TOPIC_CHARS
        &&& self.content@.len() <= MAX_CONTENT_CHARS
    }

    /// The slot bytes of this record behind the given type tag.
    pub open spec fn layout(&self, discriminator: Seq<u8>) -> Seq<u8> {
        discriminator + self.author@ + le_bytes((self.timestamp as u64) as nat, 8)
            + padded_field(encode_utf8(self.topic@), MAX_TOPIC_LENGTH as nat)
            + padded_field(encode_utf8(self.content@), MAX_CONTENT_LENGTH as nat)
    }

    /// Writes the record into a slot of `Tweet::LEN` bytes: the type tag, the
    /// author, the timestamp in little-endian order, then topic and content,
    /// each as a four-byte little-endian byte count and its UTF-8 bytes,
    /// padded with zeros to its reserved capacity.
    pub fn to_slot_bytes(&self, discriminator: [u8; 8]) -> (r: Vec<u8>)
        requires
            self.wf(),
        ensures
            r@ == self.layout(discriminator@),
            r@.len() == Tweet::LEN,
    {
        let mut out: Vec<u8> = Vec::new();
        push_all(&mut out, discriminator.as_slice());
        push_all(&mut out, self.author.as_slice());
        push_le(&mut out, #[verifier::truncate] (self.timestamp as u64), 8);
        let topic = self.topic.as_str().as_bytes_vec();
        let content = self.content.as_str().as_bytes_vec();
        proof {
            lemma_accepted_strings_fit(self.topic@, self.content@);
            assert(self.layout(discriminator@).len() == Tweet::LEN);
        }
        push_padded(&mut out, topic.as_slice(), MAX_TOPIC_LENGTH);
        push_padded(&mut out, content.as_slice(), MAX_CONTENT_LENGTH);
        out
    }
}

/// Characters, not bytes, are limited, and the reserved capacity still holds
/// every string that passes: a topic within the character limit encodes to at
/// most `MAX_TOPIC_LENGTH` UTF-8 bytes, a content within its limit to at most
/// `MAX_CONTENT_LENGTH`, so every accepted record fills exactly `Tweet::LEN`
/// bytes of its slot.
pub proof fn lemma_accepted_strings_fit(topic: Seq<char>, content: Seq<char>)
    requires
        topic.len() <= MAX_TOPIC_CHARS,
        content.len() <= MAX_CONTENT_CHARS,
    ensures
        encode_utf8(topic).len() <= MAX_TOPIC_LENGTH,
        encode_utf8(content).len() <= MAX_CONTENT_LENGTH,
        forall|t: Tweet, d: Seq<u8>|
            t.topic@ == topic && t.content@ == content && d.len() == DISCRIMINATOR_LENGTH
                ==> #[trigger] t.layout(d).len() == Tweet::LEN,
{
    lemma_utf8_len_bound(topic);
    lemma_utf8_len_bound(content);
    lemma_le_bytes_len(encode_utf8(topic).len(), 4);
    lemma_le_bytes_len(encode_utf8(content).len(), 4);
    assert forall|t: Tweet, d: Seq<u8>|
        t.topic@ == topic && t.content@ == content && d.len() == DISCRIMINATOR_LENGTH
            implies #[trigger] t.layout(d).len() == Tweet::LEN by {
        lemma_le_bytes_len((t.timestamp as u64) as nat, 8);
    }
}

/// Validates a tweet and builds its record.
///
/// The topic is checked first: over fifty characters it is refused with
/// `TopicTooLong`. Then the content: over two hundred and eighty characters it
/// is refused with `ContentTooLong`. Characters are Unicode scalar values, not
/// bytes. Otherwise the record holds the author, the given time and both
/// strings as they came.
pub fn create_record(topic: String, content: String, author: [u8; 32], now: i64) -> (r: Result<
    Tweet,
    ErrorCode,
>)
    ensures
        record_outcome(topic@, content@, author@, now, r),
        r is Ok ==> r->Ok_0.wf(),
{
    if topic.as_str().unicode_len() > MAX_TOPIC_CHARS {
        return Err(ErrorCode::TopicTooLong);
    }
    if content.as_str().unicode_len() > MAX_CONTENT_CHARS {
        return Err(ErrorCode::ContentTooLong);
    }
    Ok(Tweet { author, timestamp: now, topic, content })
}

/// Fills the freshly allocated record of `ctx` with a tweet of its signer,
/// stamped with the time `now`.
///
/// On a refusal (see `create_record`) the record is left untouched.
pub fn send_tweet(ctx: &mut SendTweet, topic: String, content: String, now: i64) -> (r: Result<
    (),
    ErrorCode,
>)
    ensures
        final(ctx).author == old(ctx).author,
        topic@.len() > MAX_TOPIC_CHARS ==> r == Err::<(), ErrorCode>(ErrorCode::TopicTooLong),
        topic@.len() <= MAX_TOPIC_CHARS && content@.len() > MAX_CONTENT_CHARS ==> r == Err::<
            (),
            ErrorCode,
        >(ErrorCode::ContentTooLong),
        r is Err ==> final(ctx).tweet == old(ctx).tweet,
        r is Ok <==> (topic@.len() <= MAX_TOPIC_CHARS && content@.len() <= MAX_CONTENT_CHARS),
        r is Ok ==> {
            &&& final(ctx).tweet.author == old(ctx).author
            &&& final(ctx).tweet.timestamp == now
            &&& final(ctx).tweet.topic@ == topic@
            &&& final(ctx).tweet.content@ == content@
            &&& final(ctx).tweet.wf()
        },
{
    match create_record(topic, content, ctx.author, now) {
        Ok(tweet) => {
            ctx.tweet = tweet;
            Ok(())
        },
        Err(e) => Err(e),
    }
}

} // verus!
