//! A cache of fixed content, for measuring the transport without a producer:
//! every generated segment path serves the same bytes, in one frame.

use vstd::prelude::*;
use crate::payload::{bytes_content, bytes_share};
use crate::text::{append_decimal, decimal};

verus! {

pub open spec fn key_spec(stream: u64, track: u64, segment: u64) -> Seq<char> {
    "/stream-"@ + decimal(stream as nat) + "/"@ + decimal(track as nat) + "/"@ + decimal(
        segment as nat,
    ) + ".m4s"@
}

/// The path under which segment `segment` of track `track` of stream `stream` is served.
pub fn gen_key(stream: u64, track: u64, segment: u64) -> (r: String)
    ensures
        r@ == key_spec(stream, track, segment),
{
    let mut key = "/stream-".to_owned();
    append_decimal(&mut key, stream);
    key.append("/");
    append_decimal(&mut key, track);
    key.append("/");
    append_decimal(&mut key, segment);
    key.append(".m4s");
    key
}

/// The shard that a key with hash `hash` belongs to.
pub fn shard_of(hash: u64, shards: u64) -> (r: u64)
    requires
        shards > 0,
    ensures
        r == hash % shards,
        r < shards,
{
    hash % shards
}

/// A reader of fixed content: the whole content in one frame, then the end.
pub struct StaticDownstream {
    sent: bool,
    data: bytes::Bytes,
}

impl StaticDownstream {
    pub closed spec fn sent_spec(&self) -> bool {
        self.sent
    }

    pub closed spec fn content(&self) -> Seq<u8> {
        bytes_content(self.data)
    }

    pub fn from(data: bytes::Bytes) -> (r: StaticDownstream)
        ensures
            !r.sent_spec(),
            r.content() == bytes_content(data),
    {
        StaticDownstream { data, sent: false }
    }

    /// The content on the first poll, `None` after.
    pub fn poll_next(&mut self) -> (r: Option<bytes::Bytes>)
        ensures
            final(self).sent_spec(),
            final(self).content() == old(self).content(),
            match r {
                Some(b) => !old(self).sent_spec() && bytes_content(b) == old(self).content(),
                None => old(self).sent_spec(),
            },
    {
        if self.sent {
            return None;
        }
        self.sent = true;
        Some(bytes_share(&self.data))
    }
}

} // verus!
