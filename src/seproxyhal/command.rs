use vstd::prelude::*;
use crate::seproxyhal::packet::{Packet, frame, joined, frame_size, frame_to_bytes, lemma_joined_one};

verus! {

/// A request to the host that does not answer the pending event: its tag
/// and its payload, framed like every other packet.
pub struct Command<'a> {
    pub tag: u8,
    pub payload: &'a [u8],
}

impl<'a> Packet for Command<'a> {
    open spec fn wire(&self) -> Seq<u8> {
        frame(self.tag, self.payload@)
    }

    fn bytes_size(&self) -> (r: u16) {
        let parts: [&[u8]; 1] = [self.payload];
        proof {
            lemma_joined_one(parts@[0]);
            assert(parts@ =~= seq![parts@[0]]);
        }
        frame_size(parts.as_slice())
    }

    fn to_bytes(&self, buf: &mut [u8], offset: usize) -> (n: usize) {
        let parts: [&[u8]; 1] = [self.payload];
        proof {
            lemma_joined_one(parts@[0]);
            assert(parts@ =~= seq![parts@[0]]);
        }
        frame_to_bytes(buf, offset, self.tag, parts.as_slice())
    }
}

} // verus!
