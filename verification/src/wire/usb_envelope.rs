use vstd::prelude::*;

use crate::bytes::copy_range;
use super::canfd::{
    is_canonical_data_len, spec_is_canonical_len, CanFdError, CanFdFrame, FrameView, MAX_STANDARD_ID,
};

verus! {

/// The four bytes `AXDR` that open every envelope.
pub const AXDR_MAGIC: [u8; 4] = [0x41, 0x58, 0x44, 0x52];

/// Magic, little-endian identifier and one length byte.
pub const HEADER_LEN: usize = 7;

#[derive(Debug, Clone, PartialEq, Eq)]
pub enum UsbEnvelopeError {
    CanFd(CanFdError),
}

pub open spec fn spec_magic() -> Seq<u8> {
    seq![0x41u8, 0x58u8, 0x44u8, 0x52u8]
}

/// `buf` holds the magic at offset `i`.
pub open spec fn magic_at(buf: Seq<u8>, i: int) -> bool {
    &&& 0 <= i
    &&& i + 4 <= buf.len()
    &&& buf[i] == 0x41u8
    &&& buf[i + 1] == 0x58u8
    &&& buf[i + 2] == 0x44u8
    &&& buf[i + 3] == 0x52u8
}

/// The identifier carried little-endian in an envelope header.
pub open spec fn header_id(buf: Seq<u8>) -> int {
    buf[4] as int + buf[5] as int * 256
}

/// A header whose identifier and length could belong to a CAN FD frame.
pub open spec fn header_valid(buf: Seq<u8>) -> bool {
    header_id(buf) <= MAX_STANDARD_ID && spec_is_canonical_len(buf[6] as int)
}

/// The byte image of one envelope around a frame.
pub open spec fn spec_encode(frame: FrameView) -> Seq<u8> {
    spec_magic() + seq![
        (frame.id % 256) as u8,
        (frame.id / 256) as u8,
        (frame.data.len() % 256) as u8,
    ] + frame.data
}

/// What a byte stream decodes to: the frames found, in order, and the bytes
/// that must be kept because they may start a frame that is not complete yet.
///
/// The decoder skips bytes until the magic, drops a magic whose header cannot
/// describe a CAN FD frame, and stops at a frame whose data has not arrived.
pub open spec fn scan(buf: Seq<u8>) -> (Seq<FrameView>, Seq<u8>)
    decreases buf.len(),
{
    if buf.len() < 4 {
        (Seq::empty(), buf)
    } else if !magic_at(buf, 0) {
        scan(buf.drop_first())
    } else if buf.len() < HEADER_LEN {
        (Seq::empty(), buf)
    } else if !header_valid(buf) {
        scan(buf.drop_first())
    } else if buf.len() < HEADER_LEN + buf[6] {
        (Seq::empty(), buf)
    } else {
        let frame = FrameView {
            id: header_id(buf) as u16,
            data: buf.subrange(HEADER_LEN as int, HEADER_LEN + buf[6]),
        };
        let rest = scan(buf.skip(HEADER_LEN + buf[6]));
        (seq![frame] + rest.0, rest.1)
    }
}

/// Every decoded result is a frame, and the frames are `frames`.
pub open spec fn all_decoded(res: Seq<Result<CanFdFrame, UsbEnvelopeError>>, frames: Seq<FrameView>) -> bool {
    &&& res.len() == frames.len()
    &&& forall|i: int| 0 <= i < res.len() ==> (#[trigger] res[i] matches Ok(f) && f@ == frames[i])
}

/// Wraps one frame into its USB CDC envelope.
pub fn encode_usb_envelope(frame: &CanFdFrame) -> (res: Vec<u8>)
    ensures
        res@ == spec_encode(frame@),
{
    let data = frame.data();
    let id = frame.id_of();
    let mut out: Vec<u8> = Vec::new();
    out.push(AXDR_MAGIC[0]);
    out.push(AXDR_MAGIC[1]);
    out.push(AXDR_MAGIC[2]);
    out.push(AXDR_MAGIC[3]);
    out.push((id % 256) as u8);
    out.push((id / 256) as u8);
    out.push((data.len() % 256) as u8);
    let ghost head = out@;
    let mut i: usize = 0;
    while i < data.len()
        invariant
            i <= data@.len(),
            out@ == head + data@.subrange(0, i as int),
        decreases data@.len() - i,
    {
        out.push(data[i]);
        i = i + 1;
        assert(out@ =~= head + data@.subrange(0, i as int));
    }
    assert(data@.subrange(0, data@.len() as int) =~= data@);
    assert(head =~= spec_magic() + seq![
        (frame@.id % 256) as u8,
        (frame@.id / 256) as u8,
        (frame@.data.len() % 256) as u8,
    ]);
    out
}

/// Incremental decoder for the envelope byte stream.
#[derive(Debug)]
pub struct UsbEnvelopeDecoder {
    buffer: Vec<u8>,
}

impl View for UsbEnvelopeDecoder {
    type V = Seq<u8>;

    /// The bytes held back for the next push.
    closed spec fn view(&self) -> Seq<u8> {
        self.buffer@
    }
}

impl Default for UsbEnvelopeDecoder {
    fn default() -> (res: Self)
        ensures
            res@ == Seq::<u8>::empty(),
    {
        UsbEnvelopeDecoder { buffer: Vec::new() }
    }
}

/// Skipping bytes that hold no magic does not change what the stream decodes to.
proof fn lemma_scan_skip_to(buf: Seq<u8>, p: int)
    requires
        0 <= p <= buf.len(),
        forall|j: int| 0 <= j < p ==> !magic_at(buf, j),
        p + 4 <= buf.len(),
    ensures
        scan(buf) == scan(buf.skip(p)),
    decreases p,
{
    if p > 0 {
        assert(!magic_at(buf, 0));
        let d = buf.drop_first();
        assert forall|j: int| 0 <= j < p - 1 implies !magic_at(d, j) by {
            assert(!magic_at(buf, j + 1));
        }
        lemma_scan_skip_to(d, p - 1);
        assert(d.skip(p - 1) =~= buf.skip(p));
    } else {
        assert(buf.skip(0) =~= buf);
    }
}

/// A stream without magic keeps only its last three bytes.
proof fn lemma_scan_no_magic(buf: Seq<u8>)
    requires
        forall|j: int| 0 <= j ==> !magic_at(buf, j),
    ensures
        scan(buf).0 == Seq::<FrameView>::empty(),
        scan(buf).1 == (if buf.len() > 3 { buf.skip(buf.len() - 3) } else { buf }),
    decreases buf.len(),
{
    if buf.len() >= 4 {
        assert(!magic_at(buf, 0));
        let d = buf.drop_first();
        assert forall|j: int| 0 <= j implies !magic_at(d, j) by {
            assert(!magic_at(buf, j + 1));
        }
        lemma_scan_no_magic(d);
        if d.len() > 3 {
            assert(d.skip(d.len() - 3) =~= buf.skip(buf.len() - 3));
        } else {
            assert(d =~= buf.skip(buf.len() - 3));
        }
    }
}

/// First offset at or after `start` that holds the magic.
fn find_magic(buf: &Vec<u8>, start: usize) -> (res: Option<usize>)
    requires
        start <= buf@.len(),
    ensures
        res matches Some(p) ==> start <= p && magic_at(buf@, p as int) && forall|j: int|
            start <= j < p ==> !magic_at(buf@, j),
        res is None ==> forall|j: int| start <= j ==> !magic_at(buf@, j),
{
    let len = buf.len();
    let mut i = start;
    while i < len && len - i >= 4
        invariant
            start <= i,
            len == buf@.len(),
            forall|j: int| start <= j < i ==> !magic_at(buf@, j),
        decreases len - i,
    {
        if buf[i] == AXDR_MAGIC[0] && buf[i + 1] == AXDR_MAGIC[1] && buf[i + 2] == AXDR_MAGIC[2]
            && buf[i + 3] == AXDR_MAGIC[3] {
            return Some(i);
        }
        i = i + 1;
    }
    None
}

impl UsbEnvelopeDecoder {
    /// Feeds received bytes and returns every frame they complete, in order.
    pub fn push(&mut self, input: &[u8]) -> (res: Vec<Result<CanFdFrame, UsbEnvelopeError>>)
        ensures
            all_decoded(res@, scan(old(self)@ + input@).0),
            final(self)@ == scan(old(self)@ + input@).1,
    {
        let ghost whole = self.buffer@ + input@;
        let mut k: usize = 0;
        while k < input.len()
            invariant
                k <= input@.len(),
                self.buffer@ == old(self).buffer@ + input@.subrange(0, k as int),
            decreases input@.len() - k,
        {
            self.buffer.push(input[k]);
            k = k + 1;
            assert(self.buffer@ =~= old(self).buffer@ + input@.subrange(0, k as int));
        }
        assert(input@.subrange(0, input@.len() as int) =~= input@);
        let buffer = &self.buffer;
        let len = buffer.len();
        let mut frames: Vec<Result<CanFdFrame, UsbEnvelopeError>> = Vec::new();
        let ghost mut decoded: Seq<FrameView> = Seq::empty();
        let mut start: usize = 0;
        assert(buffer@.skip(0) =~= buffer@);
        loop
            invariant
                len == buffer@.len(),
                buffer@ == whole,
                start <= len,
                all_decoded(frames@, decoded),
                decoded + scan(buffer@.skip(start as int)).0 == scan(whole).0,
                scan(buffer@.skip(start as int)).1 == scan(whole).1,
            ensures
                start <= len,
                all_decoded(frames@, scan(whole).0),
                buffer@.skip(start as int) == scan(whole).1,
            decreases len - start,
        {
            let ghost tail = buffer@.skip(start as int);
            match find_magic(buffer, start) {
                None => {
                    proof {
                        assert forall|j: int| 0 <= j implies !magic_at(tail, j) by {
                            assert(!magic_at(buffer@, start + j));
                        }
                        lemma_scan_no_magic(tail);
                        assert(decoded + Seq::<FrameView>::empty() =~= decoded);
                    }
                    if len - start > 3 {
                        start = len - 3;
                        assert(buffer@.skip(start as int) =~= tail.skip(tail.len() - 3));
                    }
                    break;
                },
                Some(pos) => {
                    proof {
                        assert forall|j: int| 0 <= j < pos - start implies !magic_at(tail, j) by {
                            assert(!magic_at(buffer@, start + j));
                        }
                        lemma_scan_skip_to(tail, pos - start);
                        assert(tail.skip(pos - start) =~= buffer@.skip(pos as int));
                    }
                    start = pos;
                    let ghost here = buffer@.skip(start as int);
                    assert(magic_at(here, 0));
                    if len - start < HEADER_LEN {
                        assert(decoded + Seq::<FrameView>::empty() =~= decoded);
                        break;
                    }
                    let id: u16 = buffer[start + 4] as u16 + (buffer[start + 5] as u16) * 256;
                    let data_len = buffer[start + 6] as usize;
                    assert(id as int == header_id(here));
                    if id > MAX_STANDARD_ID || !is_canonical_data_len(data_len) {
                        assert(here.drop_first() =~= buffer@.skip(start + 1));
                        start = start + 1;
                        continue;
                    }
                    if len - start < HEADER_LEN + data_len {
                        assert(decoded + Seq::<FrameView>::empty() =~= decoded);
                        break;
                    }
                    let data = copy_range(buffer.as_slice(), start + HEADER_LEN, start + HEADER_LEN + data_len);
                    let ghost view = FrameView { id, data: data@ };
                    assert(data@ =~= here.subrange(HEADER_LEN as int, HEADER_LEN + here[6]));
                    assert(here.skip(HEADER_LEN + here[6]) =~= buffer@.skip(start + HEADER_LEN + data_len));
                    start = start + HEADER_LEN + data_len;
                    let frame = match CanFdFrame::from_canonical_data(id, data) {
                        Ok(frame) => Ok(frame),
                        Err(error) => Err(UsbEnvelopeError::CanFd(error)),
                    };
                    frames.push(frame);
                    proof {
                        decoded = decoded.push(view);
                        assert(decoded.drop_last() + seq![view] =~= decoded);
                    }
                    assert(decoded + scan(buffer@.skip(start as int)).0 =~= scan(whole).0) by {
                        assert(decoded =~= decoded.drop_last() + seq![view]);
                    }
                },
            }
        }
        let rest = copy_range(self.buffer.as_slice(), start, len);
        assert(rest@ =~= self.buffer@.skip(start as int));
        self.buffer = rest;
        frames
    }
}

/// Decoding a valid envelope followed by any bytes yields the frame first,
/// then whatever the following bytes decode to.
pub proof fn lemma_encode_then_scan(frame: FrameView, rest: Seq<u8>)
    requires
        frame.wf(),
    ensures
        scan(spec_encode(frame) + rest) == (seq![frame] + scan(rest).0, scan(rest).1),
{
    let bytes = spec_encode(frame) + rest;
    assert(bytes[0] == 0x41u8 && bytes[1] == 0x58u8 && bytes[2] == 0x44u8 && bytes[3] == 0x52u8);
    assert(bytes[6] == frame.data.len());
    assert(header_id(bytes) == frame.id);
    assert(bytes.subrange(HEADER_LEN as int, HEADER_LEN + bytes[6]) =~= frame.data);
    assert(bytes.skip(HEADER_LEN + bytes[6]) =~= rest);
}

/// Decoding does not depend on how the byte stream was split into pushes:
/// decoding `a`, then the held-back bytes followed by `b`, yields the same
/// frames and the same held-back bytes as decoding `a + b` at once.
pub proof fn lemma_scan_split(a: Seq<u8>, b: Seq<u8>)
    ensures
        scan(a).0 + scan(scan(a).1 + b).0 == scan(a + b).0,
        scan(scan(a).1 + b).1 == scan(a + b).1,
    decreases a.len(),
{
    let ab = a + b;
    if a.len() < 4 {
        assert(Seq::<FrameView>::empty() + scan(a + b).0 =~= scan(a + b).0);
    } else if !magic_at(a, 0) {
        assert(!magic_at(ab, 0));
        lemma_scan_split(a.drop_first(), b);
        assert(ab.drop_first() =~= a.drop_first() + b);
    } else if a.len() < HEADER_LEN {
        assert(Seq::<FrameView>::empty() + scan(a + b).0 =~= scan(a + b).0);
    } else if !header_valid(a) {
        assert(magic_at(ab, 0));
        assert(ab[4] == a[4] && ab[5] == a[5] && ab[6] == a[6]);
        lemma_scan_split(a.drop_first(), b);
        assert(ab.drop_first() =~= a.drop_first() + b);
    } else if a.len() < HEADER_LEN + a[6] {
        assert(Seq::<FrameView>::empty() + scan(a + b).0 =~= scan(a + b).0);
    } else {
        assert(magic_at(ab, 0));
        assert(ab[4] == a[4] && ab[5] == a[5] && ab[6] == a[6]);
        let n = HEADER_LEN + a[6];
        assert(ab.subrange(HEADER_LEN as int, n) =~= a.subrange(HEADER_LEN as int, n));
        lemma_scan_split(a.skip(n), b);
        assert(ab.skip(n) =~= a.skip(n) + b);
        let f = FrameView { id: header_id(a) as u16, data: a.subrange(HEADER_LEN as int, n) };
        assert(scan(a).0 == seq![f] + scan(a.skip(n)).0);
        assert(scan(ab).0 == seq![f] + scan(a.skip(n) + b).0);
        assert(scan(a).0 + scan(scan(a).1 + b).0 =~= seq![f] + (scan(a.skip(n)).0 + scan(
            scan(a.skip(n)).1 + b,
        ).0));
    }
}

/// The chunks joined into one byte stream.
pub open spec fn joined_chunks(chunks: Seq<Seq<u8>>) -> Seq<u8>
    decreases chunks.len(),
{
    if chunks.len() == 0 {
        Seq::empty()
    } else {
        chunks[0] + joined_chunks(chunks.drop_first())
    }
}

/// Pushing `chunks` in turn into a decoder holding back `held`: the frames of
/// all pushes, in order, and the bytes held back at the end.
pub open spec fn scan_chunks(held: Seq<u8>, chunks: Seq<Seq<u8>>) -> (Seq<FrameView>, Seq<u8>)
    decreases chunks.len(),
{
    if chunks.len() == 0 {
        (Seq::empty(), held)
    } else {
        let first = scan(held + chunks[0]);
        let rest = scan_chunks(first.1, chunks.drop_first());
        (first.0 + rest.0, rest.1)
    }
}

/// The bytes a decoder holds back after any push decode to nothing yet.
pub proof fn lemma_held_decodes_nothing(buf: Seq<u8>)
    ensures
        scan(scan(buf).1).0 == Seq::<FrameView>::empty(),
        scan(scan(buf).1).1 == scan(buf).1,
{
    lemma_scan_split(buf, Seq::empty());
    assert(buf + Seq::<u8>::empty() =~= buf);
    assert(scan(buf).1 + Seq::<u8>::empty() =~= scan(buf).1);
    assert(scan(buf).0 + scan(scan(buf).1).0 == scan(buf).0);
    assert(scan(scan(buf).1).0.len() == 0);
}

/// Decoding does not depend on how the byte stream is split, into any number
/// of chunks: a decoder holding back `held` (a fresh one holds nothing) that
/// is pushed the chunks one after the other yields the same frames, in the
/// same order, and holds back the same bytes as when pushed them joined.
pub proof fn lemma_scan_chunks(held: Seq<u8>, chunks: Seq<Seq<u8>>)
    requires
        scan(held).0 == Seq::<FrameView>::empty(),
        scan(held).1 == held,
    ensures
        scan_chunks(held, chunks) == scan(held + joined_chunks(chunks)),
    decreases chunks.len(),
{
    if chunks.len() == 0 {
        assert(held + joined_chunks(chunks) =~= held);
    } else {
        let a = held + chunks[0];
        let b = joined_chunks(chunks.drop_first());
        lemma_held_decodes_nothing(a);
        lemma_scan_chunks(scan(a).1, chunks.drop_first());
        lemma_scan_split(a, b);
        assert(held + joined_chunks(chunks) =~= a + b);
    }
}

/// The byte contents of each chunk.
pub open spec fn chunk_views(chunks: Seq<Vec<u8>>) -> Seq<Seq<u8>> {
    chunks.map_values(|c: Vec<u8>| c@)
}

impl UsbEnvelopeDecoder {
    /// Pushes `chunks` one after the other and gathers what each push
    /// returns, in order. For a decoder holding back only what a push left
    /// (a fresh one included) this is what one push of the chunks joined
    /// returns, and the decoder ends holding back the same bytes.
    pub fn push_chunks(&mut self, chunks: &[Vec<u8>]) -> (res: Vec<Result<CanFdFrame, UsbEnvelopeError>>)
        ensures
            all_decoded(res@, scan_chunks(old(self)@, chunk_views(chunks@)).0),
            final(self)@ == scan_chunks(old(self)@, chunk_views(chunks@)).1,
            scan(old(self)@).0 == Seq::<FrameView>::empty() && scan(old(self)@).1 == old(self)@ ==> all_decoded(
                res@,
                scan(old(self)@ + joined_chunks(chunk_views(chunks@))).0,
            ) && final(self)@ == scan(old(self)@ + joined_chunks(chunk_views(chunks@))).1,
    {
        let ghost start = self@;
        let ghost views = chunk_views(chunks@);
        let ghost mut frames: Seq<FrameView> = Seq::empty();
        let mut out: Vec<Result<CanFdFrame, UsbEnvelopeError>> = Vec::new();
        let mut i: usize = 0;
        assert(views.skip(0) == views);
        while i < chunks.len()
            invariant
                i <= chunks@.len(),
                views == chunk_views(chunks@),
                all_decoded(out@, frames),
                frames + scan_chunks(self@, views.skip(i as int)).0 == scan_chunks(start, views).0,
                scan_chunks(self@, views.skip(i as int)).1 == scan_chunks(start, views).1,
            decreases chunks@.len() - i,
        {
            let ghost before = self@;
            let mut got = self.push(chunks[i].as_slice());
            proof {
                let tail = views.skip(i as int);
                assert(tail[0] == chunks@[i as int]@);
                assert(tail.drop_first() == views.skip(i + 1));
                let first = scan(before + tail[0]);
                let rest = scan_chunks(first.1, tail.drop_first());
                assert(scan_chunks(before, tail) == (first.0 + rest.0, rest.1));
                assert(frames + (first.0 + rest.0) == (frames + first.0) + rest.0);
            }
            let ghost old_out = out@;
            let ghost pushed = got@;
            out.append(&mut got);
            proof {
                let added = scan(before + views[i as int]).0;
                assert forall|k: int| 0 <= k < out@.len() implies (#[trigger] out@[k] matches Ok(f) && f@ == (
                frames + added)[k]) by {
                    if k < old_out.len() {
                        assert(out@[k] == old_out[k]);
                    } else {
                        assert(out@[k] == pushed[k - old_out.len()]);
                    }
                }
                frames = frames + added;
            }
            i = i + 1;
        }
        proof {
            assert(views.skip(chunks@.len() as int).len() == 0);
            assert(frames + Seq::<FrameView>::empty() == frames);
            if scan(start).0 == Seq::<FrameView>::empty() && scan(start).1 == start {
                lemma_scan_chunks(start, views);
            }
        }
        out
    }
}

} // verus!
