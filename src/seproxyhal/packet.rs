use vstd::prelude::*;
use vstd::seq_lib::lemma_flatten_concat;
use byteorder::{BigEndian, ByteOrder, LittleEndian};

verus! {

/// The largest frame that the protocol can describe: its size is a `u16`.
pub const MAX_FRAME_SIZE: usize = 65535;

/// Bytes of the envelope in front of every payload: a tag and a length.
pub const ENVELOPE_SIZE: usize = 3;

/// The largest payload that fits a frame.
pub const MAX_PAYLOAD_SIZE: usize = 65532;

/// Capacity of the buffer through which frames go out, one chunk at a time.
pub const CHUNK_SIZE: usize = 64;

/// `n` in little-endian byte order.
pub open spec fn le16(n: u16) -> Seq<u8> {
    seq![(n % 256) as u8, (n / 256) as u8]
}

/// `n` in little-endian byte order.
pub open spec fn le32(n: u32) -> Seq<u8> {
    seq![
        (n % 256) as u8,
        ((n / 256) % 256) as u8,
        ((n / 65536) % 256) as u8,
        (n / 16777216) as u8,
    ]
}

/// `n` in big-endian byte order.
pub open spec fn be16(n: u16) -> Seq<u8> {
    seq![(n / 256) as u8, (n % 256) as u8]
}

/// Relies on byteorder's `LittleEndian::write_u16`: low byte first.
#[verifier::external_body]
pub(crate) fn le_u16_bytes(n: u16) -> (r: [u8; 2])
    ensures
        r@ == le16(n),
{
    let mut b = [0u8; 2];
    LittleEndian::write_u16(&mut b, n);
    b
}

/// Relies on byteorder's `LittleEndian::write_u32`: least significant byte first.
#[verifier::external_body]
pub(crate) fn le_u32_bytes(n: u32) -> (r: [u8; 4])
    ensures
        r@ == le32(n),
{
    let mut b = [0u8; 4];
    LittleEndian::write_u32(&mut b, n);
    b
}

/// Relies on byteorder's `BigEndian::write_u16`: high byte first.
#[verifier::external_body]
pub(crate) fn be_u16_bytes(n: u16) -> (r: [u8; 2])
    ensures
        r@ == be16(n),
{
    let mut b = [0u8; 2];
    BigEndian::write_u16(&mut b, n);
    b
}

/// Relies on byteorder's `BigEndian::read_u16`: the first two bytes, high byte first.
#[verifier::external_body]
pub(crate) fn read_be_u16(b: &[u8]) -> (r: u16)
    requires
        b@.len() >= 2,
    ensures
        r == b@[0] as int * 256 + b@[1] as int,
{
    BigEndian::read_u16(b)
}

/// The payload as it goes on the wire: cut after `MAX_PAYLOAD_SIZE` bytes.
pub open spec fn clip(payload: Seq<u8>) -> Seq<u8> {
    if payload.len() <= MAX_PAYLOAD_SIZE {
        payload
    } else {
        payload.take(MAX_PAYLOAD_SIZE as int)
    }
}

/// A whole frame: the tag, the big-endian payload length, the payload.
pub open spec fn frame(tag: u8, payload: Seq<u8>) -> Seq<u8> {
    seq![tag] + be16(clip(payload).len() as u16) + clip(payload)
}

/// How many bytes of a buffer of `cap` bytes, filled from position `offset` of
/// a frame, hold frame bytes that come before position `pos`.
pub open spec fn written_upto(offset: int, cap: int, pos: int) -> int {
    if pos <= offset {
        0
    } else if pos - offset >= cap {
        cap
    } else {
        pos - offset
    }
}

/// What one call of `to_bytes` writes: the frame's bytes from `offset` on, as
/// many as `cap` holds.
pub open spec fn chunk_at(wire: Seq<u8>, offset: int, cap: int) -> Seq<u8> {
    wire.subrange(offset, offset + written_upto(offset, cap, wire.len() as int))
}

/// Something that goes to the host as one frame.
pub trait Packet {
    /// The frame's bytes.
    spec fn wire(&self) -> Seq<u8>;

    /// Size of the frame, envelope included.
    fn bytes_size(&self) -> (r: u16)
        ensures
            r as int == self.wire().len(),
            r as int >= ENVELOPE_SIZE,
    ;

    /// Writes the frame's bytes from position `offset` on into `buf`, as many
    /// as fit, and returns how many it wrote. The rest of `buf` is untouched.
    fn to_bytes(&self, buf: &mut [u8], offset: usize) -> (n: usize)
        ensures
            n == written_upto(offset as int, old(buf)@.len() as int, self.wire().len() as int),
            final(buf)@.len() == old(buf)@.len(),
            offset <= self.wire().len() ==> final(buf)@.subrange(0, n as int) == chunk_at(
                self.wire(),
                offset as int,
                old(buf)@.len() as int,
            ),
            final(buf)@.subrange(n as int, old(buf)@.len() as int) == old(buf)@.subrange(
                n as int,
                old(buf)@.len() as int,
            ),
    ;
}

/// Copies the part of one field that falls in the window of `buf`.
///
/// The field holds `data` and starts at position `start` of the frame `wire`;
/// the window starts at position `offset`, and `written` bytes of it are
/// filled already. Returns how many are filled afterwards.
pub(crate) fn write_field(
    buf: &mut [u8],
    offset: usize,
    written: usize,
    start: usize,
    data: &[u8],
    Ghost(wire): Ghost<Seq<u8>>,
) -> (w: usize)
    requires
        offset <= wire.len(),
        start + data@.len() <= wire.len(),
        wire.len() <= usize::MAX,
        wire.subrange(start as int, start + data@.len()) == data@,
        written == written_upto(offset as int, old(buf)@.len() as int, start as int),
        old(buf)@.subrange(0, written as int) == wire.subrange(
            offset as int,
            offset + written,
        ),
    ensures
        w == written_upto(offset as int, old(buf)@.len() as int, start + data@.len()),
        final(buf)@.len() == old(buf)@.len(),
        final(buf)@.subrange(0, w as int) == wire.subrange(offset as int, offset + w),
        final(buf)@.subrange(w as int, old(buf)@.len() as int) == old(buf)@.subrange(
            w as int,
            old(buf)@.len() as int,
        ),
{
    let ghost old_buf = buf@;
    let cap = buf.len();
    let i = offset + written;
    if i >= start && i < start + data.len() {
        let k = i - start;
        let room = cap - written;
        let left = data.len() - k;
        let cnt = if room < left {
            room
        } else {
            left
        };
        let mut t: usize = 0;
        while t < cnt
            invariant
                0 <= t <= cnt,
                written + cnt <= cap,
                k + cnt <= data@.len(),
                data@.len() <= wire.len(),
                wire.len() <= usize::MAX,
                buf@.len() == cap,
                cap == old_buf.len(),
                forall|j: int| 0 <= j < written ==> buf@[j] == old_buf[j],
                forall|j: int| written <= j < written + t ==> buf@[j] == data@[k + j - written],
                forall|j: int| written + t <= j < cap ==> buf@[j] == old_buf[j],
            decreases cnt - t,
        {
            buf[written + t] = data[k + t];
            t = t + 1;
        }
        proof {
            let w = written + cnt;
            assert forall|j: int| 0 <= j < w implies buf@[j] == wire[offset + j] by {
                if j < written {
                    assert(old_buf.subrange(0, written as int)[j] == wire.subrange(
                        offset as int,
                        offset + written,
                    )[j]);
                } else {
                    assert(wire.subrange(start as int, start + data@.len())[k + j - written]
                        == data@[k + j - written]);
                }
            }
            assert(buf@.subrange(0, w as int) =~= wire.subrange(offset as int, offset + w));
            assert(buf@.subrange(w as int, cap as int) =~= old_buf.subrange(w as int, cap as int));
        }
        written + cnt
    } else {
        written
    }
}

/// Of a frame cut after `limit` bytes, the part that comes from a field
/// preceded by `pre`.
pub proof fn lemma_clipped_part(pre: Seq<u8>, part: Seq<u8>, post: Seq<u8>, limit: int)
    requires
        0 <= limit <= (pre + part + post).len(),
    ensures
        ({
            let cs = if pre.len() < limit { pre.len() as int } else { limit };
            let eff = if part.len() < limit - cs { part.len() as int } else { limit - cs };
            &&& (pre + part + post).take(limit).subrange(cs, cs + eff) == part.take(eff)
            &&& cs + eff == if pre.len() + part.len() < limit { pre.len() + part.len() as int } else { limit }
        }),
{
    let whole = pre + part + post;
    let cs = if pre.len() < limit { pre.len() as int } else { limit };
    let eff = if part.len() < limit - cs { part.len() as int } else { limit - cs };
    assert(whole.take(limit).subrange(cs, cs + eff) =~= part.take(eff)) by {
        assert forall|j: int| 0 <= j < eff implies whole.take(limit).subrange(cs, cs + eff)[j]
            == part.take(eff)[j] by {
            assert(whole[cs + j] == (pre + part)[cs + j]);
        }
    }
}

/// A frame is its envelope and its payload, cut after `MAX_FRAME_SIZE` bytes.
pub proof fn lemma_frame_is_cut(tag: u8, payload: Seq<u8>)
    ensures
        ({
            let env = seq![tag] + be16(clip(payload).len() as u16);
            let limit = if payload.len() + 3 < MAX_FRAME_SIZE { payload.len() + 3int } else { MAX_FRAME_SIZE as int };
            &&& frame(tag, payload) == (env + payload).take(limit)
            &&& frame(tag, payload).len() == limit
        }),
{
    let env = seq![tag] + be16(clip(payload).len() as u16);
    let limit = if payload.len() + 3 < MAX_FRAME_SIZE { payload.len() + 3int } else { MAX_FRAME_SIZE as int };
    assert(frame(tag, payload) =~= (env + payload).take(limit));
}

/// The envelope of a frame of `size` bytes: its tag and its payload's size.
pub(crate) fn envelope(tag: u8, size: u16) -> (r: [u8; 3])
    requires
        size >= ENVELOPE_SIZE,
    ensures
        r@ == seq![tag] + be16((size - 3) as u16),
{
    let len = be_u16_bytes(size - 3);
    let r = [tag, len[0], len[1]];
    assert(r@ =~= seq![tag] + be16((size - 3) as u16));
    r
}

/// Writes the part of a field that a frame cut after `wire.len()` bytes keeps.
///
/// The field holds `data` and starts at position `start`, or is cut off
/// before it when `start == wire.len()`. Returns how many bytes of `buf` are
/// filled afterwards and where the next field starts.
pub(crate) fn write_part(
    buf: &mut [u8],
    offset: usize,
    written: usize,
    start: usize,
    data: &[u8],
    size: usize,
    Ghost(wire): Ghost<Seq<u8>>,
) -> (r: (usize, usize))
    requires
        size == wire.len(),
        offset <= wire.len(),
        start <= wire.len(),
        wire.len() <= MAX_FRAME_SIZE,
        ({
            let eff = if data@.len() < wire.len() - start { data@.len() as int } else { wire.len() - start };
            wire.subrange(start as int, start + eff) == data@.take(eff)
        }),
        written == written_upto(offset as int, old(buf)@.len() as int, start as int),
        old(buf)@.subrange(0, written as int) == wire.subrange(
            offset as int,
            offset + written,
        ),
    ensures
        r.1 == if data@.len() < wire.len() - start { start + data@.len() } else { wire.len() as int },
        r.0 == written_upto(offset as int, old(buf)@.len() as int, r.1 as int),
        final(buf)@.len() == old(buf)@.len(),
        final(buf)@.subrange(0, r.0 as int) == wire.subrange(offset as int, offset + r.0),
        final(buf)@.subrange(r.0 as int, old(buf)@.len() as int) == old(buf)@.subrange(
            r.0 as int,
            old(buf)@.len() as int,
        ),
{
    let room = size - start;
    let eff = if data.len() < room {
        data.len()
    } else {
        room
    };
    let w = write_field(buf, offset, written, start, &data[0..eff], Ghost(wire));
    (w, start + eff)
}

/// The views of the parts that make up a payload.
pub open spec fn part_views(parts: Seq<&[u8]>) -> Seq<Seq<u8>> {
    parts.map_values(|p: &[u8]| p@)
}

/// The payload made of `parts`, one after the other.
pub open spec fn joined(parts: Seq<&[u8]>) -> Seq<u8> {
    part_views(parts).flatten()
}

/// Size of the frame whose payload is made of `parts`.
pub(crate) fn frame_size(parts: &[&[u8]]) -> (r: u16)
    ensures
        r as int == ENVELOPE_SIZE + clip(joined(parts@)).len(),
        r >= ENVELOPE_SIZE,
{
    let mut total: usize = 0;
    let mut j: usize = 0;
    while j < parts.len()
        invariant
            0 <= j <= parts@.len(),
            total as int == if joined(parts@.take(j as int)).len() < MAX_PAYLOAD_SIZE {
                joined(parts@.take(j as int)).len() as int
            } else {
                MAX_PAYLOAD_SIZE as int
            },
        decreases parts@.len() - j,
    {
        let len = parts[j].len();
        proof {
            assert(parts@.take(j + 1) =~= parts@.take(j as int).push(parts@[j as int]));
            assert(part_views(parts@.take(j + 1)) =~= part_views(parts@.take(j as int)).push(
                parts@[j as int]@,
            ));
            part_views(parts@.take(j as int)).lemma_flatten_push(parts@[j as int]@);
        }
        if len >= MAX_PAYLOAD_SIZE - total {
            total = MAX_PAYLOAD_SIZE;
        } else {
            total = total + len;
        }
        j = j + 1;
    }
    proof {
        assert(parts@.take(parts@.len() as int) =~= parts@);
    }
    (total + ENVELOPE_SIZE) as u16
}

/// Writes the bytes of the frame with `tag` and the payload made of `parts`
/// from position `offset` on into `buf`, as many as fit.
pub(crate) fn frame_to_bytes(buf: &mut [u8], offset: usize, tag: u8, parts: &[&[u8]]) -> (n: usize)
    ensures
        n == written_upto(
            offset as int,
            old(buf)@.len() as int,
            frame(tag, joined(parts@)).len() as int,
        ),
        final(buf)@.len() == old(buf)@.len(),
        offset <= frame(tag, joined(parts@)).len() ==> final(buf)@.subrange(0, n as int)
            == chunk_at(frame(tag, joined(parts@)), offset as int, old(buf)@.len() as int),
        final(buf)@.subrange(n as int, old(buf)@.len() as int) == old(buf)@.subrange(
            n as int,
            old(buf)@.len() as int,
        ),
{
    let ghost payload = joined(parts@);
    let ghost wire = frame(tag, payload);
    let ghost old_buf = buf@;
    let ghost cap = buf@.len();
    let size16 = frame_size(parts);
    let size = size16 as usize;
    proof {
        lemma_frame_is_cut(tag, payload);
    }
    if offset >= size {
        proof {
            if offset == size {
                assert(buf@.subrange(0, 0) =~= chunk_at(wire, offset as int, cap as int));
            }
        }
        return 0;
    }
    let env = envelope(tag, size16);
    let ghost env_v = env@;
    proof {
        assert(env_v =~= seq![tag] + be16(clip(payload).len() as u16));
        lemma_clipped_part(Seq::empty(), env_v, payload, size as int);
        assert(Seq::<u8>::empty() + env_v + payload =~= env_v + payload);
        assert(buf@.subrange(0, 0) =~= wire.subrange(offset as int, offset as int));
    }
    let (filled, next_start) = write_part(buf, offset, 0, 0, env.as_slice(), size, Ghost(wire));
    let mut w = filled;
    let mut pos = next_start;
    let mut j: usize = 0;
    while j < parts.len()
        invariant
            0 <= j <= parts@.len(),
            size == wire.len(),
            wire == (env_v + payload).take(size as int),
            env_v.len() == ENVELOPE_SIZE,
            payload == joined(parts@),
            size <= MAX_FRAME_SIZE,
            size <= ENVELOPE_SIZE + payload.len(),
            offset < size,
            buf@.len() == cap,
            cap == old_buf.len(),
            w <= cap,
            pos <= size,
            pos as int == if ENVELOPE_SIZE + joined(parts@.take(j as int)).len() < size {
                ENVELOPE_SIZE + joined(parts@.take(j as int)).len()
            } else {
                size as int
            },
            w == written_upto(offset as int, cap as int, pos as int),
            buf@.subrange(0, w as int) == wire.subrange(offset as int, offset + w),
            buf@.subrange(w as int, cap as int) == old_buf.subrange(w as int, cap as int),
        decreases parts@.len() - j,
    {
        let ghost pre = env_v + joined(parts@.take(j as int));
        let ghost part = parts@[j as int]@;
        let ghost post = joined(parts@.skip(j + 1));
        proof {
            assert(parts@ =~= parts@.take(j as int) + seq![parts@[j as int]] + parts@.skip(j + 1));
            assert(part_views(parts@) =~= part_views(parts@.take(j as int)) + seq![part]
                + part_views(parts@.skip(j + 1)));
            lemma_flatten_concat(
                part_views(parts@.take(j as int)) + seq![part],
                part_views(parts@.skip(j + 1)),
            );
            lemma_flatten_concat(part_views(parts@.take(j as int)), seq![part]);
            seq![part].lemma_flatten_singleton();
            assert(env_v + payload =~= pre + part + post);
            lemma_clipped_part(pre, part, post, size as int);
            assert(parts@.take(j + 1) =~= parts@.take(j as int).push(parts@[j as int]));
            assert(part_views(parts@.take(j + 1)) =~= part_views(parts@.take(j as int)).push(
                part,
            ));
            part_views(parts@.take(j as int)).lemma_flatten_push(part);
        }
        let ghost before = buf@;
        let (filled_now, part_end) = write_part(buf, offset, w, pos, parts[j], size, Ghost(wire));
        proof {
            assert(w <= filled_now);
            assert(buf@.subrange(filled_now as int, cap as int) =~= old_buf.subrange(filled_now as int, cap as int)) by {
                assert forall|k: int| 0 <= k < cap - filled_now implies buf@.subrange(filled_now as int, cap as int)[k]
                    == old_buf.subrange(filled_now as int, cap as int)[k] by {
                    assert(buf@.subrange(filled_now as int, cap as int)[k] == before.subrange(filled_now as int, cap as int)[k]);
                    assert(before.subrange(w as int, cap as int)[k + filled_now - w] == old_buf.subrange(w as int, cap as int)[k + filled_now - w]);
                }
            }
        }
        w = filled_now;
        pos = part_end;
        j = j + 1;
    }
    proof {
        assert(parts@.take(parts@.len() as int) =~= parts@);
    }
    w
}

/// A payload of one part is that part.
pub proof fn lemma_joined_one(a: &[u8])
    ensures
        joined(seq![a]) == a@,
{
    assert(part_views(seq![a]) =~= seq![a@]);
    seq![a@].lemma_flatten_singleton();
}

/// A payload of two parts is the one, then the other.
pub proof fn lemma_joined_two(a: &[u8], b: &[u8])
    ensures
        joined(seq![a, b]) == a@ + b@,
{
    assert(part_views(seq![a, b]) =~= seq![a@].push(b@));
    seq![a@].lemma_flatten_push(b@);
    seq![a@].lemma_flatten_singleton();
}

/// A payload of four parts is each of them in turn.
pub proof fn lemma_joined_four(a: &[u8], b: &[u8], c: &[u8], d: &[u8])
    ensures
        joined(seq![a, b, c, d]) == a@ + b@ + c@ + d@,
{
    assert(part_views(seq![a, b, c, d]) =~= seq![a@].push(b@).push(c@).push(d@));
    seq![a@].push(b@).push(c@).lemma_flatten_push(d@);
    seq![a@].push(b@).lemma_flatten_push(c@);
    seq![a@].lemma_flatten_push(b@);
    seq![a@].lemma_flatten_singleton();
}

/// Hands out the four bytes of a word one at a time.
pub struct FourByteIterator {
    data: [u8; 4],
    n: usize,
}

impl View for FourByteIterator {
    type V = Seq<u8>;

    /// The bytes not handed out yet.
    closed spec fn view(&self) -> Seq<u8> {
        self.data@.skip(self.n as int)
    }
}

impl FourByteIterator {
    pub closed spec fn wf(&self) -> bool {
        self.n <= 4
    }

    pub fn new(data: [u8; 4]) -> (r: FourByteIterator)
        ensures
            r.wf(),
            r@ == data@,
    {
        let r = FourByteIterator { data: data, n: 0 };
        assert(r@ =~= data@);
        r
    }

    /// The next byte, or `None` once all four are out.
    pub fn next(&mut self) -> (r: Option<u8>)
        requires
            old(self).wf(),
        ensures
            final(self).wf(),
            old(self)@.len() == 0 ==> r is None && final(self)@ == old(self)@,
            old(self)@.len() > 0 ==> r == Some(old(self)@[0]) && final(self)@ == old(self)@.drop_first(),
    {
        let n = self.n;
        if n < 4 {
            self.n = n + 1;
            assert(self@ =~= old(self)@.drop_first());
            Some(self.data[n])
        } else {
            None
        }
    }
}

/// The colours of a palette, each as four little-endian bytes.
pub open spec fn palette(colors: Seq<u32>) -> Seq<u8> {
    colors.map_values(|c: u32| le32(c)).flatten()
}

/// The bytes of a palette.
pub(crate) fn palette_bytes(colors: &[u32]) -> (r: Vec<u8>)
    ensures
        r@ == palette(colors@),
{
    let mut out: Vec<u8> = Vec::new();
    let mut i: usize = 0;
    while i < colors.len()
        invariant
            0 <= i <= colors@.len(),
            out@ == palette(colors@.take(i as int)),
        decreases colors@.len() - i,
    {
        let word = le_u32_bytes(colors[i]);
        let mut it = FourByteIterator::new(word);
        let ghost base = out@;
        loop
            invariant
                i < colors@.len(),
                it.wf(),
                out@ + it@ == base + le32(colors@[i as int]),
            ensures
                out@ == base + le32(colors@[i as int]),
            decreases it@.len(),
        {
            match it.next() {
                Some(b) => {
                    out.push(b);
                },
                None => {
                    assert(it@.len() == 0);
                    assert(out@ + it@ =~= out@);
                    break ;
                },
            }
        }
        proof {
            assert(out@ =~= base + le32(colors@[i as int]));
            assert(colors@.take(i + 1) =~= colors@.take(i as int).push(colors@[i as int]));
            assert(colors@.take(i + 1).map_values(|c: u32| le32(c)) =~= colors@.take(
                i as int,
            ).map_values(|c: u32| le32(c)).push(le32(colors@[i as int])));
            colors@.take(i as int).map_values(|c: u32| le32(c)).lemma_flatten_push(
                le32(colors@[i as int]),
            );
        }
        i = i + 1;
    }
    proof {
        assert(colors@.take(colors@.len() as int) =~= colors@);
    }
    out
}

/// Sum of buffer sizes.
pub open spec fn total(sizes: Seq<nat>) -> nat
    decreases sizes.len(),
{
    if sizes.len() == 0 {
        0
    } else {
        sizes[0] + total(sizes.drop_first())
    }
}

/// What successive calls of `to_bytes` write into buffers of the given
/// sizes, the first at `offset` and each next one where the last stopped.
pub open spec fn chunks_written(wire: Seq<u8>, sizes: Seq<nat>, offset: int) -> Seq<Seq<u8>>
    decreases sizes.len(),
{
    if sizes.len() == 0 {
        Seq::empty()
    } else {
        let c = chunk_at(wire, offset, sizes[0] as int);
        seq![c] + chunks_written(wire, sizes.drop_first(), offset + c.len())
    }
}

/// Writing a frame through buffers whose sizes add up to at least what is
/// left of it from `offset`, each write starting where the last stopped, and
/// joining what was written gives back the frame from `offset` on.
pub proof fn lemma_chunk_reassembly(wire: Seq<u8>, sizes: Seq<nat>, offset: int)
    requires
        0 <= offset <= wire.len(),
        total(sizes) >= wire.len() - offset,
    ensures
        chunks_written(wire, sizes, offset).flatten() == wire.skip(offset),
    decreases sizes.len(),
{
    if sizes.len() == 0 {
        assert(wire.skip(offset) =~= Seq::<u8>::empty());
    } else {
        let c = chunk_at(wire, offset, sizes[0] as int);
        let rest = chunks_written(wire, sizes.drop_first(), offset + c.len());
        lemma_chunk_reassembly(wire, sizes.drop_first(), offset + c.len());
        lemma_flatten_concat(seq![c], rest);
        seq![c].lemma_flatten_singleton();
        assert(wire.skip(offset) =~= c + wire.skip(offset + c.len()));
    }
}

/// The views of a list of chunks.
pub open spec fn chunk_views(chunks: Seq<Vec<u8>>) -> Seq<Seq<u8>> {
    chunks.map_values(|c: Vec<u8>| c@)
}

/// Splits a packet into the chunks in which it goes to the host: each
/// `CHUNK_SIZE` bytes long but the last, which holds the rest.
pub fn send<T: Packet>(packet: &T) -> (chunks: Vec<Vec<u8>>)
    ensures
        chunk_views(chunks@).flatten() == packet.wire(),
        forall|i: int|
            0 <= i < chunks@.len() ==> 0 < #[trigger] chunks@[i]@.len() <= CHUNK_SIZE,
        forall|i: int|
            0 <= i < chunks@.len() - 1 ==> #[trigger] chunks@[i]@.len() == CHUNK_SIZE,
{
    let total = packet.bytes_size() as usize;
    let mut offset: usize = 0;
    let mut buf = [0u8; 64];
    let mut chunks: Vec<Vec<u8>> = Vec::new();
    while offset < total
        invariant
            offset <= total,
            total == packet.wire().len(),
            chunk_views(chunks@).flatten() == packet.wire().take(offset as int),
            buf@.len() == CHUNK_SIZE,
            forall|i: int|
                0 <= i < chunks@.len() ==> 0 < #[trigger] chunks@[i]@.len() <= CHUNK_SIZE,
            forall|i: int|
                0 <= i < chunks@.len() ==> (#[trigger] chunks@[i]@.len() == CHUNK_SIZE || (i
                    == chunks@.len() - 1 && offset == total)),
        decreases total - offset,
    {
        let n = packet.to_bytes(&mut buf, offset);
        let mut chunk: Vec<u8> = Vec::new();
        let mut j: usize = 0;
        while j < n
            invariant
                0 <= j <= n,
                n <= buf@.len(),
                chunk@ == buf@.subrange(0, j as int),
            decreases n - j,
        {
            chunk.push(buf[j]);
            j = j + 1;
            proof {
                assert(chunk@ =~= buf@.subrange(0, j as int));
            }
        }
        let ghost before = chunks@;
        chunks.push(chunk);
        proof {
            assert(chunk_views(chunks@) =~= chunk_views(before).push(chunk@));
            chunk_views(before).lemma_flatten_push(chunk@);
            assert(packet.wire().take(offset + n) =~= packet.wire().take(offset as int)
                + packet.wire().subrange(offset as int, offset + n));
        }
        offset = offset + n;
    }
    chunks
}

} // verus!
