//! A micro-blogging record store: validation and construction of fixed-layout
//! tweet records, and their byte layout.
use vstd::prelude::*;

pub mod layout;
pub mod tweet;

pub use layout::{
    DISCRIMINATOR_LENGTH, MAX_CONTENT_LENGTH, MAX_TOPIC_LENGTH, PUBLIC_KEY_LENGTH,
    STRING_LENGTH_PREFIX, TIME_STAMP,
};
pub use tweet::{send_tweet, ErrorCode, Tweet, MAX_CONTENT_CHARS, MAX_TOPIC_CHARS};

verus! {

} // verus!
