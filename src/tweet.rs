//! The tweet record and the rules by which one is created.
use vstd::prelude::*;
use vstd::string::StrSliceExecFns;

verus! {

/// Most characters (Unicode scalar values) a topic may hold.
pub const MAX_TOPIC_CHARS: usize = 50;

/// Most characters (Unicode scalar values) a content may hold.
pub const MAX_CONTENT_CHARS: usize = 280;

/// Why a tweet was refused.
#[derive(Clone, Copy, Debug, PartialEq, Eq, Structural)]
pub enum ErrorCode {
    /// The topic holds more than 50 characters.
    TopicTooLong,
    /// The content holds more than 280 characters.
    ContentTooLong,
}

impl ErrorCode {
    /// The message shown to the sender for this error.
    pub fn message(&self) -> (r: &'static str)
        ensures
            *self == ErrorCode::TopicTooLong ==> r@
                == "The provided topic should be 50 characters long maximum"@,
            *self == ErrorCode::ContentTooLong ==> r@
                == "The provided content should be 280 characters long maximum"@,
    {
        match self {
            ErrorCode::TopicTooLong => "The provided topic should be 50 characters long maximum",
            ErrorCode::ContentTooLong => "The provided content should be 280 characters long maximum",
        }
    }
}

/// A stored tweet: who wrote it, when, under which topic, and what it says.
#[derive(Clone, Debug)]
pub struct Tweet {
    pub author: [u8; 32],
    pub timestamp: i64,
    pub topic: String,
    pub content: String,
}

/// The outcome of the length checks on a topic and a content, counted in
/// characters: the topic is checked first.
pub open spec fn validate(topic: Seq<char>, content: Seq<char>) -> Result<(), ErrorCode> {
    if topic.len() > MAX_TOPIC_CHARS {
        Err(ErrorCode::TopicTooLong)
    } else if content.len() > MAX_CONTENT_CHARS {
        Err(ErrorCode::ContentTooLong)
    } else {
        Ok(())
    }
}

impl Tweet {
    /// A tweet whose topic and content are within their character limits.
    pub open spec fn wf(&self) -> bool {
        validate(self.topic@, self.content@) is Ok
    }
}

/// A topic of exactly 50 characters passes and one of 51 is refused; a
/// content of exactly 280 characters passes and one of 281 is refused.
pub proof fn lemma_length_boundaries(topic: Seq<char>, content: Seq<char>)
    ensures
        topic.len() == MAX_TOPIC_CHARS && content.len() <= MAX_CONTENT_CHARS ==> validate(
            topic,
            content,
        ) is Ok,
        topic.len() == MAX_TOPIC_CHARS + 1 ==> validate(topic, content) == Err::<(), ErrorCode>(
            ErrorCode::TopicTooLong,
        ),
        topic.len() <= MAX_TOPIC_CHARS && content.len() == MAX_CONTENT_CHARS ==> validate(
            topic,
            content,
        ) is Ok,
        topic.len() <= MAX_TOPIC_CHARS && content.len() == MAX_CONTENT_CHARS + 1 ==> validate(
            topic,
            content,
        ) == Err::<(), ErrorCode>(ErrorCode::ContentTooLong),
{
}

/// Only the number of characters decides whether a topic and a content
/// pass, not which characters they are nor how many bytes they take.
pub proof fn lemma_counts_characters(
    topic1: Seq<char>,
    content1: Seq<char>,
    topic2: Seq<char>,
    content2: Seq<char>,
)
    requires
        topic1.len() == topic2.len(),
        content1.len() == content2.len(),
    ensures
        validate(topic1, content1) == validate(topic2, content2),
{
}

/// Creates a tweet by `author` at time `now` under `topic`, saying `content`.
/// Fails, and creates nothing, when the topic holds more than 50 characters
/// or, that being fine, the content holds more than 280; otherwise the record
/// holds every input as it was given.
pub fn send_tweet(author: [u8; 32], topic: String, content: String, now: i64) -> (r: Result<
    Tweet,
    ErrorCode,
>)
    ensures
        match validate(topic@, content@) {
            Err(e) => r == Err::<Tweet, ErrorCode>(e),
            Ok(_) => r matches Ok(t) && t.author == author && t.timestamp == now && t.topic@
                == topic@ && t.content@ == content@,
        },
        r matches Ok(t) ==> t.wf(),
{
    if topic.as_str().unicode_len() > MAX_TOPIC_CHARS {
        return Err(ErrorCode::TopicTooLong);
    }
    if content.as_str().unicode_len() > MAX_CONTENT_CHARS {
        return Err(ErrorCode::ContentTooLong);
    }
    Ok(Tweet { author, timestamp: now, topic, content })
}

} // verus!
