//! The fixed-size byte layout in which a tweet is stored.
use vstd::prelude::*;
use vstd::string::StringSliceAdditionalSpecFns;
use vstd::utf8::{encode_scalar, encode_utf8};

use crate::tweet::{Tweet, MAX_CONTENT_CHARS, MAX_TOPIC_CHARS};

verus! {

/// Bytes of the tag that tells the record's format.
pub const DISCRIMINATOR_LENGTH: usize = 8;

/// Bytes of the author's key.
pub const PUBLIC_KEY_LENGTH: usize = 32;

/// Bytes of the timestamp.
pub const TIME_STAMP: usize = 8;

/// Bytes of the length that stands before each text.
pub const STRING_LENGTH_PREFIX: usize = 4;

/// Bytes reserved for a topic: four for each of its 50 characters.
pub const MAX_TOPIC_LENGTH: usize = 50 * 4;

/// Bytes reserved for a content: four for each of its 280 characters.
pub const MAX_CONTENT_LENGTH: usize = 280 * 4;

impl Tweet {
    /// Bytes allocated for a stored tweet: room for the longest topic and
    /// content at four bytes per character, with their length prefixes.
    pub const LEN: usize = DISCRIMINATOR_LENGTH + PUBLIC_KEY_LENGTH + TIME_STAMP
        + STRING_LENGTH_PREFIX + MAX_TOPIC_LENGTH + STRING_LENGTH_PREFIX + MAX_CONTENT_LENGTH;
}

/// The `n` lowest bytes of `x`, least significant first.
pub open spec fn le_bytes(x: nat, n: nat) -> Seq<u8>
    decreases n,
{
    if n == 0 {
        seq![]
    } else {
        seq![(x % 256) as u8] + le_bytes(x / 256, (n - 1) as nat)
    }
}

/// The two's complement bit pattern of `t`, read as an unsigned number.
pub open spec fn i64_bits(t: i64) -> nat {
    if t >= 0 {
        t as nat
    } else {
        (t + 0x1_0000_0000_0000_0000) as nat
    }
}

/// A text as stored: its UTF-8 byte count in four bytes, then its UTF-8 bytes.
pub open spec fn text_bytes(s: Seq<char>) -> Seq<u8> {
    le_bytes(encode_utf8(s).len(), 4) + encode_utf8(s)
}

/// A tweet as stored, after the format tag `tag`: author, timestamp, topic
/// and content, numbers little-endian.
pub open spec fn record_bytes(tag: Seq<u8>, t: Tweet) -> Seq<u8> {
    tag + t.author@ + le_bytes(i64_bits(t.timestamp), 8) + text_bytes(t.topic@) + text_bytes(
        t.content@,
    )
}

/// A text of at most `n` characters takes at most `4 * n` bytes in UTF-8.
pub proof fn lemma_utf8_len_bound(s: Seq<char>, n: nat)
    requires
        s.len() <= n,
    ensures
        encode_utf8(s).len() <= 4 * n,
    decreases s.len(),
{
    if s.len() > 0 {
        lemma_utf8_len_bound(s.drop_first(), (n - 1) as nat);
        let c = encode_scalar(s[0] as u32);
        assert(c.len() <= 4);
    }
}

/// A topic and a content within their character limits fit the bytes
/// reserved for them, whatever the width of their characters.
pub proof fn lemma_texts_within_budget(topic: Seq<char>, content: Seq<char>)
    requires
        topic.len() <= MAX_TOPIC_CHARS,
        content.len() <= MAX_CONTENT_CHARS,
    ensures
        encode_utf8(topic).len() <= MAX_TOPIC_LENGTH,
        encode_utf8(content).len() <= MAX_CONTENT_LENGTH,
{
    lemma_utf8_len_bound(topic, MAX_TOPIC_CHARS as nat);
    lemma_utf8_len_bound(content, MAX_CONTENT_CHARS as nat);
}

proof fn lemma_le_bytes_len(x: nat, n: nat)
    ensures
        le_bytes(x, n).len() == n,
    decreases n,
{
    if n > 0 {
        lemma_le_bytes_len(x / 256, (n - 1) as nat);
    }
}

/// Every well-formed tweet, stored after a format tag, fits the space
/// allocated for it.
pub proof fn lemma_record_fits(tag: Seq<u8>, t: Tweet)
    requires
        tag.len() == DISCRIMINATOR_LENGTH,
        t.wf(),
    ensures
        record_bytes(tag, t).len() <= Tweet::LEN,
{
    lemma_texts_within_budget(t.topic@, t.content@);
    lemma_le_bytes_len(i64_bits(t.timestamp), 8);
    lemma_le_bytes_len(encode_utf8(t.topic@).len(), 4);
    lemma_le_bytes_len(encode_utf8(t.content@).len(), 4);
}

fn push_le(out: &mut Vec<u8>, x: u64, n: usize)
    ensures
        final(out)@ == old(out)@ + le_bytes(x as nat, n as nat),
{
    let mut v: u64 = x;
    let mut i: usize = 0;
    while i < n
        invariant
            i <= n,
            out@ + le_bytes(v as nat, (n - i) as nat) == old(out)@ + le_bytes(x as nat, n as nat),
        decreases n - i,
    {
        let ghost before = out@;
        out.push((v % 256) as u8);
        assert(le_bytes(v as nat, (n - i) as nat) == seq![(v % 256) as u8] + le_bytes(
            (v / 256) as nat,
            (n - i - 1) as nat,
        ));
        assert(before + le_bytes(v as nat, (n - i) as nat) =~= out@ + le_bytes(
            (v / 256) as nat,
            (n - i - 1) as nat,
        ));
        v = v / 256;
        i = i + 1;
    }
    assert(le_bytes(v as nat, 0) =~= Seq::<u8>::empty());
    assert(out@ =~= out@ + le_bytes(v as nat, 0));
}

fn push_all(out: &mut Vec<u8>, bytes: &[u8])
    ensures
        final(out)@ == old(out)@ + bytes@,
{
    let mut i: usize = 0;
    while i < bytes.len()
        invariant
            i <= bytes@.len(),
            out@ == old(out)@ + bytes@.subrange(0, i as int),
        decreases bytes.len() - i,
    {
        out.push(bytes[i]);
        i = i + 1;
        assert(out@ =~= old(out)@ + bytes@.subrange(0, i as int));
    }
    assert(bytes@.subrange(0, i as int) =~= bytes@);
}

fn push_text(out: &mut Vec<u8>, s: &String, max_chars: usize)
    requires
        s@.len() <= max_chars,
        max_chars <= MAX_CONTENT_CHARS,
    ensures
        final(out)@ == old(out)@ + text_bytes(s@),
{
    let bytes = s.as_str().as_bytes();
    proof {
        lemma_utf8_len_bound(s@, max_chars as nat);
    }
    push_le(out, bytes.len() as u64, STRING_LENGTH_PREFIX);
    push_all(out, bytes);
    assert(out@ =~= old(out)@ + text_bytes(s@));
}

impl Tweet {
    /// The bytes under which this tweet is stored after the format tag `tag`;
    /// they never exceed `Tweet::LEN`.
    pub fn to_bytes(&self, tag: [u8; 8]) -> (r: Vec<u8>)
        requires
            self.wf(),
        ensures
            r@ == record_bytes(tag@, *self),
            r@.len() <= Tweet::LEN,
    {
        let mut out: Vec<u8> = Vec::new();
        push_all(&mut out, &tag);
        push_all(&mut out, &self.author);
        let t = self.timestamp;
        let bits: u64 = if t >= 0 {
            t as u64
        } else {
            u64::MAX - ((-(t + 1)) as u64)
        };
        assert(bits as nat == i64_bits(t));
        push_le(&mut out, bits, TIME_STAMP);
        push_text(&mut out, &self.topic, MAX_TOPIC_CHARS);
        push_text(&mut out, &self.content, MAX_CONTENT_CHARS);
        assert(out@ =~= record_bytes(tag@, *self));
        proof {
            lemma_record_fits(tag@, *self);
        }
        out
    }
}

} // verus!
