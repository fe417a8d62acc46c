//! gRPC message framing: each message travels as a five byte header (a
//! compression flag and a big-endian 32-bit length) followed by its bytes.
use vstd::prelude::*;

use vstd::slice::{slice_subrange, slice_to_vec};

use crate::header_map_specs::{header_entries, values_of};
use crate::http_specs::{header_value_bytes, status_code_number};
use crate::status::{
    code_bytes, grpc_status_field, grpc_status_name, infer_grpc_status, inferred_code, Code, Status,
};
use http::{HeaderMap, StatusCode};

verus! {

/// The length of a frame header.
pub const HEADER_LEN: usize = 5;

/// The concatenation of a list of byte chunks.
pub open spec fn flatten(chunks: Seq<Vec<u8>>) -> Seq<u8>
    decreases chunks.len(),
{
    if chunks.len() == 0 {
        Seq::empty()
    } else {
        chunks[0]@ + flatten(chunks.drop_first())
    }
}

/// The number that four bytes spell in big-endian order.
pub open spec fn be_u32(b: Seq<u8>) -> int
    recommends
        b.len() == 4,
{
    b[0] * 16777216 + b[1] * 65536 + b[2] * 256 + b[3]
}

/// The four big-endian bytes of a 32-bit number.
pub open spec fn be_bytes(n: u32) -> Seq<u8> {
    seq![
        (n / 16777216) as u8,
        (n / 65536 % 256) as u8,
        (n / 256 % 256) as u8,
        (n % 256) as u8,
    ]
}

/// The header of an uncompressed frame whose message is `len` bytes long.
pub open spec fn frame_header(len: u32) -> Seq<u8> {
    seq![0u8] + be_bytes(len)
}

/// The frame that carries the message `payload`, uncompressed.
pub open spec fn frame(payload: Seq<u8>) -> Seq<u8> {
    frame_header(payload.len() as u32) + payload
}

/// Adding a chunk at the end adds its bytes at the end.
pub proof fn lemma_flatten_push(chunks: Seq<Vec<u8>>, c: Vec<u8>)
    ensures
        flatten(chunks.push(c)) == flatten(chunks) + c@,
    decreases chunks.len(),
{
    if chunks.len() == 0 {
        assert(chunks.push(c).drop_first() =~= Seq::<Vec<u8>>::empty());
        assert(flatten(chunks.push(c).drop_first()) == Seq::<u8>::empty());
        assert(flatten(chunks.push(c)) =~= c@);
    } else {
        assert(chunks.push(c).drop_first() =~= chunks.drop_first().push(c));
        lemma_flatten_push(chunks.drop_first(), c);
        assert(flatten(chunks.push(c)) =~= flatten(chunks) + c@);
    }
}

/// The big-endian bytes of a number spell that number again.
pub proof fn lemma_be_roundtrip(n: u32)
    ensures
        be_u32(be_bytes(n)) == n,
{
    let b = be_bytes(n);
    assert(b[0] * 16777216 + b[1] * 65536 + b[2] * 256 + b[3] == n) by (nonlinear_arith)
        requires
            b[0] == n / 16777216,
            b[1] == n / 65536 % 256,
            b[2] == n / 256 % 256,
            b[3] == n % 256,
            n < 4294967296,
    ;
}

/// A queue of received byte chunks, read as one sequence of bytes.
pub struct BufList {
    bufs: Vec<Vec<u8>>,
}

impl View for BufList {
    type V = Seq<u8>;

    closed spec fn view(&self) -> Seq<u8> {
        flatten(self.bufs@)
    }
}

impl BufList {
    /// The chunks as they were received, what is read of the first one cut off.
    pub closed spec fn chunks(&self) -> Seq<Seq<u8>> {
        self.bufs@.map_values(|b: Vec<u8>| b@)
    }

    /// An empty queue.
    pub fn new() -> (r: BufList)
        ensures
            r@ == Seq::<u8>::empty(),
            r.chunks() == Seq::<Seq<u8>>::empty(),
    {
        let r = BufList { bufs: Vec::new() };
        assert(r.chunks() =~= Seq::<Seq<u8>>::empty());
        r
    }

    /// Appends a received chunk.
    pub fn push(&mut self, chunk: Vec<u8>)
        requires
            old(self)@.len() + chunk@.len() <= usize::MAX,
        ensures
            final(self)@ == old(self)@ + chunk@,
            final(self).chunks() == old(self).chunks().push(chunk@),
    {
        proof {
            lemma_flatten_push(self.bufs@, chunk);
        }
        let ghost old_chunks = self.chunks();
        let ghost c = chunk@;
        self.bufs.push(chunk);
        assert(self.chunks() =~= old_chunks.push(c));
    }

    /// The number of bytes that can be read.
    pub fn remaining(&self) -> (r: usize)
        requires
            self@.len() <= usize::MAX,
        ensures
            r == self@.len(),
    {
        let mut total: usize = 0;
        let mut i: usize = 0;
        assert(self.bufs@.skip(0) =~= self.bufs@);
        while i < self.bufs.len()
            invariant
                i <= self.bufs@.len(),
                flatten(self.bufs@).len() <= usize::MAX,
                total + flatten(self.bufs@.skip(i as int)).len() == flatten(self.bufs@).len(),
            decreases self.bufs@.len() - i,
        {
            assert(self.bufs@.skip(i as int).drop_first() =~= self.bufs@.skip(i + 1));
            total = total + self.bufs[i].len();
            i = i + 1;
        }
        assert(self.bufs@.skip(i as int) =~= Seq::<Vec<u8>>::empty());
        total
    }

    /// Whether any byte can be read.
    pub fn has_remaining(&self) -> (r: bool)
        requires
            self@.len() <= usize::MAX,
        ensures
            r == (self@.len() > 0),
    {
        self.remaining() > 0
    }

    /// The first chunk (empty if there is none).
    pub fn bytes(&self) -> (r: &[u8])
        ensures
            r@ == if self.chunks().len() == 0 { Seq::<u8>::empty() } else { self.chunks()[0] },
    {
        if self.bufs.len() == 0 {
            let empty: &[u8] = &[];
            assert(empty@ =~= Seq::<u8>::empty());
            empty
        } else {
            self.bufs[0].as_slice()
        }
    }

    /// Replaces the first chunk by what follows its first `cnt` bytes.
    fn cut_front(&mut self, cnt: usize)
        requires
            old(self).bufs@.len() > 0,
            cnt <= old(self).bufs@[0]@.len(),
        ensures
            final(self)@ == old(self)@.skip(cnt as int),
            final(self).bufs@.len() == old(self).bufs@.len(),
    {
        let ghost old_bufs = self.bufs@;
        let front_len = self.bufs[0].len();
        let suffix = slice_to_vec(slice_subrange(self.bufs[0].as_slice(), cnt, front_len));
        self.bufs.set(0, suffix);
        assert(self.bufs@.drop_first() =~= old_bufs.drop_first());
        assert(old_bufs[0]@.skip(cnt as int) =~= suffix@);
        assert(flatten(self.bufs@) =~= flatten(old_bufs).skip(cnt as int));
    }

    /// Drops the first chunk.
    fn pop_front(&mut self) -> (front: Vec<u8>)
        requires
            old(self).bufs@.len() > 0,
        ensures
            old(self)@ == front@ + final(self)@,
            front@ == old(self).bufs@[0]@,
            final(self).bufs@.len() == old(self).bufs@.len() - 1,
    {
        let ghost old_bufs = self.bufs@;
        let front = self.bufs.remove(0);
        assert(self.bufs@ =~= old_bufs.drop_first());
        front
    }

    /// Consumes `cnt` bytes.
    pub fn advance(&mut self, cnt: usize)
        requires
            cnt <= old(self)@.len(),
        ensures
            final(self)@ == old(self)@.skip(cnt as int),
    {
        let ghost start = self@;
        let ghost orig = cnt;
        let mut cnt = cnt;
        let ghost mut done: int = 0;
        while cnt > 0
            invariant
                done + cnt == orig,
                orig <= start.len(),
                cnt <= self@.len(),
                0 <= done,
                done + cnt <= start.len(),
                self@ == start.skip(done),
            decreases cnt, self.bufs@.len(),
        {
            if self.bufs.len() == 0 {
                assert(flatten(self.bufs@) == Seq::<u8>::empty());
            }
            let front_len = self.bufs[0].len();
            if front_len > cnt {
                self.cut_front(cnt);
                assert(start.skip(done).skip(cnt as int) =~= start.skip(done + cnt));
                proof { done = done + cnt; }
                cnt = 0;
            } else {
                let front = self.pop_front();
                assert(start.skip(done).skip(front_len as int) =~= start.skip(done + front_len));
                assert(self@ =~= start.skip(done).skip(front_len as int));
                proof { done = done + front_len; }
                cnt = cnt - front_len;
            }
        }
    }

    /// Takes the next `n` bytes out of the queue.
    pub fn take_bytes(&mut self, n: usize) -> (r: Vec<u8>)
        requires
            n <= old(self)@.len(),
        ensures
            r@ == old(self)@.take(n as int),
            final(self)@ == old(self)@.skip(n as int),
    {
        let ghost start = self@;
        let mut out: Vec<u8> = Vec::new();
        while out.len() < n
            invariant
                out@.len() <= n,
                n <= start.len(),
                start == out@ + self@,
            decreases n - out@.len(), self.bufs@.len(),
        {
            if self.bufs.len() == 0 {
                assert(flatten(self.bufs@) == Seq::<u8>::empty());
            }
            let need = n - out.len();
            let front_len = self.bufs[0].len();
            if front_len <= need {
                let mut front = self.pop_front();
                out.append(&mut front);
                assert(start =~= out@ + self@);
            } else {
                let ghost before = self@;
                let mut piece = slice_to_vec(slice_subrange(self.bufs[0].as_slice(), 0, need));
                assert(piece@ =~= before.take(need as int));
                self.cut_front(need);
                out.append(&mut piece);
                assert(before =~= before.take(need as int) + before.skip(need as int));
                assert(start =~= out@ + self@);
            }
        }
        assert(start.take(n as int) =~= out@);
        assert(start.skip(n as int) =~= self@);
        out
    }

    /// Reads one byte.
    pub fn get_u8(&mut self) -> (r: u8)
        requires
            old(self)@.len() >= 1,
        ensures
            r == old(self)@[0],
            final(self)@ == old(self)@.skip(1),
    {
        let b = self.take_bytes(1);
        b[0]
    }

    /// Reads a big-endian 32-bit number.
    pub fn get_u32_be(&mut self) -> (r: u32)
        requires
            old(self)@.len() >= 4,
        ensures
            r == be_u32(old(self)@.take(4)),
            final(self)@ == old(self)@.skip(4),
    {
        let b = self.take_bytes(4);
        let r: u32 = (b[0] as u32) * 16777216 + (b[1] as u32) * 65536 + (b[2] as u32) * 256 + (b[3] as u32);
        r
    }
}

/// A buffer holding the bytes of one message, handed to a `Decoder`.
pub struct DecodeBuf {
    bytes: Vec<u8>,
    pos: usize,
}

impl View for DecodeBuf {
    type V = Seq<u8>;

    closed spec fn view(&self) -> Seq<u8> {
        if self.pos <= self.bytes@.len() {
            self.bytes@.skip(self.pos as int)
        } else {
            Seq::empty()
        }
    }
}

impl DecodeBuf {
    /// A buffer over the bytes of a message.
    pub fn new(bytes: Vec<u8>) -> (r: DecodeBuf)
        ensures
            r@ == bytes@,
    {
        let r = DecodeBuf { bytes, pos: 0 };
        assert(r@ =~= r.bytes@);
        r
    }

    /// The number of bytes left to read.
    pub fn remaining(&self) -> (r: usize)
        ensures
            r == self@.len(),
    {
        if self.pos <= self.bytes.len() {
            self.bytes.len() - self.pos
        } else {
            0
        }
    }

    /// The bytes left to read.
    pub fn bytes(&self) -> (r: &[u8])
        ensures
            r@ == self@,
    {
        if self.pos <= self.bytes.len() {
            slice_subrange(self.bytes.as_slice(), self.pos, self.bytes.len())
        } else {
            let empty: &[u8] = &[];
            assert(empty@ =~= self@);
            empty
        }
    }

    /// Consumes `cnt` bytes.
    pub fn advance(&mut self, cnt: usize)
        requires
            cnt <= old(self)@.len(),
        ensures
            final(self)@ == old(self)@.skip(cnt as int),
    {
        let ghost old_view = self@;
        if self.pos <= self.bytes.len() {
            self.pos = self.pos + cnt;
            assert(self@ =~= old_view.skip(cnt as int));
        }
    }
}

/// A buffer to encode a message into.
pub struct EncodeBuf {
    bytes: Vec<u8>,
}

impl View for EncodeBuf {
    type V = Seq<u8>;

    closed spec fn view(&self) -> Seq<u8> {
        self.bytes@
    }
}

impl EncodeBuf {
    /// An empty buffer.
    pub fn new() -> (r: EncodeBuf)
        ensures
            r@ == Seq::<u8>::empty(),
    {
        EncodeBuf { bytes: Vec::new() }
    }

    /// Makes room for at least `capacity` more bytes; the contents stay.
    pub fn reserve(&mut self, capacity: usize)
        ensures
            final(self)@ == old(self)@,
    {
        self.bytes.reserve(capacity);
    }

    /// Appends bytes.
    pub fn put_slice(&mut self, src: &[u8])
        ensures
            final(self)@ == old(self)@ + src@,
    {
        let mut piece = slice_to_vec(src);
        self.bytes.append(&mut piece);
    }

    /// The number of bytes written so far.
    pub fn len(&self) -> (r: usize)
        ensures
            r == self@.len(),
    {
        self.bytes.len()
    }

    /// The bytes written so far.
    pub fn into_bytes(self) -> (r: Vec<u8>)
        ensures
            r@ == self@,
    {
        self.bytes
    }
}

/// Decodes gRPC message types.
pub trait Decoder {
    /// Type that is decoded.
    type Item;

    /// The bytes of a message may decode to `item`. An implementation
    /// that does not state it promises nothing: the default always holds.
    closed spec fn decodes(bytes: Seq<u8>, item: Self::Item) -> bool {
        true
    }

    /// The bytes of a message may be refused with `status` (by default,
    /// always).
    closed spec fn rejects(bytes: Seq<u8>, status: Status) -> bool {
        true
    }

    /// Decodes a message from the buffer, which holds exactly the bytes of
    /// one message: an item those bytes decode to, or a status they are
    /// refused with.
    fn decode(&mut self, buf: &mut DecodeBuf) -> (r: Result<Self::Item, Status>)
        ensures
            r matches Ok(m) ==> Self::decodes(old(buf)@, m),
            r matches Err(e) ==> Self::rejects(old(buf)@, e),
    ;
}

/// Encodes gRPC message types.
pub trait Encoder {
    /// Type that is encoded.
    type Item;

    /// The content-type header for messages using this encoding.
    fn content_type(&self) -> &'static str;

    /// `item` may be encoded as `bytes`. An implementation that does not
    /// state it promises nothing: the default always holds.
    closed spec fn encodes(item: Self::Item, bytes: Seq<u8>) -> bool {
        true
    }

    /// `item` may be refused with `status` (by default, always).
    closed spec fn refuses(item: Self::Item, status: Status) -> bool {
        true
    }

    /// Encodes a message into the provided buffer: on success the bytes
    /// already there stay, followed by the bytes the item encodes as; or a
    /// status the item is refused with.
    fn encode(&mut self, item: Self::Item, buf: &mut EncodeBuf) -> (r: Result<(), Status>)
        ensures
            r is Ok ==> final(buf)@.len() >= old(buf)@.len()
                && final(buf)@.take(old(buf)@.len() as int) == old(buf)@
                && Self::encodes(item, final(buf)@.skip(old(buf)@.len() as int)),
            r matches Err(e) ==> Self::refuses(item, e),
    ;
}

/// Encodes and decodes gRPC message types.
pub trait Codec {
    /// The encode type.
    type Encode;
    /// Encoder type.
    type Encoder: Encoder<Item = Self::Encode>;
    /// The decode type.
    type Decode;
    /// Decoder type.
    type Decoder: Decoder<Item = Self::Decode>;

    /// Returns a new encoder.
    fn encoder(&mut self) -> Self::Encoder;

    /// Returns a new decoder.
    fn decoder(&mut self) -> Self::Decoder;
}

/// The four big-endian bytes of a 32-bit number.
pub fn u32_be_bytes(n: u32) -> (r: [u8; 4])
    ensures
        r@ == be_bytes(n),
{
    let r = [(n / 16777216) as u8, (n / 65536 % 256) as u8, (n / 256 % 256) as u8, (n % 256) as u8];
    assert(r@ =~= be_bytes(n));
    r
}

/// The frame that carries `payload` uncompressed: a zero flag byte, the
/// payload's length in four big-endian bytes, then the payload.
pub fn encode_frame(payload: &[u8]) -> (r: Vec<u8>)
    requires
        payload@.len() <= u32::MAX,
    ensures
        r@ == frame(payload@),
{
    let len = payload.len() as u32;
    let hdr = u32_be_bytes(len);
    let mut out: Vec<u8> = Vec::new();
    out.push(0);
    out.push(hdr[0]);
    out.push(hdr[1]);
    out.push(hdr[2]);
    out.push(hdr[3]);
    let mut body = slice_to_vec(payload);
    out.append(&mut body);
    assert(out@ =~= frame(payload@));
    out
}

/// The frame for an encoded message: a zero flag byte, the big-endian
/// length and the message's bytes; refused as internal where the message is
/// longer than a frame can announce.
pub fn frame_payload(payload: &[u8]) -> (r: Result<Vec<u8>, Status>)
    ensures
        payload@.len() <= u32::MAX ==> (r matches Ok(f) && f@ == frame(payload@)),
        payload@.len() > u32::MAX ==> (r matches Err(e) && e.spec_code() == Code::Internal),
{
    if payload.len() > 4294967295 {
        return Err(Status::new(Code::Internal));
    }
    Ok(encode_frame(payload))
}

/// Where a stream of inbound messages is in reading the next frame.
#[derive(Clone, Copy, Debug, PartialEq, Eq, Structural)]
pub enum State {
    /// Waiting for the five header bytes of the next frame.
    ReadHeader,
    /// Waiting for the `len` bytes of a message whose header was read.
    ReadBody { compression: bool, len: usize },
    /// The body ended.
    Done,
}

/// Whether this is reading a request or a response stream value.
#[derive(Clone, Copy, Debug)]
pub enum Direction {
    /// For requests, we expect only headers and the streaming body.
    Request,
    /// For responses, the received HTTP status code must be provided.
    /// We also expect to receive trailers after the streaming body.
    Response(StatusCode),
    /// For streaming responses with zero response payloads, the HTTP
    /// status is provided immediately. In this case no additional
    /// trailers are expected.
    EmptyResponse,
}

/// Reading a frame header from the buffered bytes: the state it leads to,
/// the bytes still buffered, and the code of the error it raises, if any.
/// A header whose flag byte is 1 (a compressed message) is refused as
/// unimplemented, one with any other flag but 0 as internal; in both cases
/// the flag byte has been consumed.
pub open spec fn header_step(state: State, buf: Seq<u8>) -> (State, Seq<u8>, Option<Code>) {
    match state {
        State::ReadHeader => if buf.len() < 5 {
            (state, buf, None)
        } else if buf[0] == 0 {
            (State::ReadBody { compression: false, len: be_u32(buf.subrange(1, 5)) as usize }, buf.skip(5), None)
        } else if buf[0] == 1 {
            (State::ReadHeader, buf.skip(1), Some(Code::Unimplemented))
        } else {
            (State::ReadHeader, buf.skip(1), Some(Code::Internal))
        },
        _ => (state, buf, None),
    }
}

/// The length of the message being read, in the body-reading state.
pub open spec fn body_len(state: State) -> int {
    match state {
        State::ReadBody { len, .. } => len as int,
        _ => 0,
    }
}

/// All bytes of the message being read are buffered.
pub open spec fn body_ready(state: State, buf: Seq<u8>) -> bool {
    state is ReadBody && buf.len() >= body_len(state)
}

/// A stream of inbound gRPC messages: the bytes received so far, the
/// decoder that turns each framed message into a value, and where the
/// stream is in reading the next frame.
pub struct Streaming<T> {
    decoder: T,
    bufs: BufList,
    state: State,
    direction: Direction,
}

impl<T: Decoder> Streaming<T> {
    /// The received bytes not yet read.
    pub closed spec fn buffered(&self) -> Seq<u8> {
        self.bufs@
    }

    /// Where the stream is in reading the next frame.
    pub closed spec fn spec_state(&self) -> State {
        self.state
    }

    /// Whether this stream reads a request or a response.
    pub closed spec fn spec_direction(&self) -> Direction {
        self.direction
    }

    /// A stream with nothing received yet, waiting for a frame header.
    pub fn new(decoder: T, direction: Direction) -> (r: Streaming<T>)
        ensures
            r.buffered() == Seq::<u8>::empty(),
            r.spec_state() == State::ReadHeader,
            r.spec_direction() == direction,
    {
        Streaming { decoder, bufs: BufList::new(), state: State::ReadHeader, direction }
    }

    /// Where the stream is in reading the next frame.
    pub fn state(&self) -> (r: State)
        ensures
            r == self.spec_state(),
    {
        self.state
    }

    /// Appends a chunk of the body as it arrives.
    pub fn push_data(&mut self, chunk: Vec<u8>)
        requires
            old(self).buffered().len() + chunk@.len() <= usize::MAX,
        ensures
            final(self).buffered() == old(self).buffered() + chunk@,
            final(self).spec_state() == old(self).spec_state(),
            final(self).spec_direction() == old(self).spec_direction(),
    {
        self.bufs.push(chunk);
    }

    /// Reads the next frame from the buffered bytes: the message's bytes
    /// once all of them are buffered, `None` while more bytes are needed,
    /// and an error for a frame header with a flag byte other than 0.
    pub fn next_frame(&mut self) -> (r: Result<Option<Vec<u8>>, Status>)
        requires
            old(self).buffered().len() <= usize::MAX,
        ensures
            final(self).spec_direction() == old(self).spec_direction(),
            ({
                let (s1, b1, err) = header_step(old(self).spec_state(), old(self).buffered());
                match err {
                    Some(c) => {
                        &&& r matches Err(e) && e.spec_code() == c
                        &&& final(self).spec_state() == s1
                        &&& final(self).buffered() == b1
                    },
                    None => if body_ready(s1, b1) {
                        &&& r matches Ok(Some(f)) && f@ == b1.take(body_len(s1))
                        &&& final(self).spec_state() == s1
                        &&& final(self).buffered() == b1.skip(body_len(s1))
                    } else {
                        &&& r matches Ok(None)
                        &&& final(self).spec_state() == s1
                        &&& final(self).buffered() == b1
                    },
                }
            }),
    {
        if let State::ReadHeader = self.state {
            if self.bufs.remaining() < 5 {
                return Ok(None);
            }
            let ghost before = self.bufs@;
            let flag = self.bufs.get_u8();
            if flag == 1 {
                return Err(Status::new(Code::Unimplemented));
            } else if flag != 0 {
                return Err(Status::new(Code::Internal));
            }
            let ghost mid = self.bufs@;
            let len = self.bufs.get_u32_be();
            assert(mid.take(4) =~= before.subrange(1, 5));
            assert(mid.skip(4) =~= before.skip(5));
            self.state = State::ReadBody { compression: false, len: len as usize };
        }
        if let State::ReadBody { len, .. } = self.state {
            if self.bufs.remaining() < len {
                return Ok(None);
            }
            let bytes = self.bufs.take_bytes(len);
            return Ok(Some(bytes));
        }
        Ok(None)
    }

    /// Decodes the next message once all of its bytes are buffered: the
    /// decoder gets exactly the frame's message bytes, and what it returns
    /// is passed on. On success the stream waits for the next frame header
    /// again; a failing decoder leaves it where it was, the message's bytes
    /// consumed.
    pub fn decode(&mut self) -> (r: Result<Option<T::Item>, Status>)
        requires
            old(self).buffered().len() <= usize::MAX,
        ensures
            final(self).spec_direction() == old(self).spec_direction(),
            ({
                let (s1, b1, err) = header_step(old(self).spec_state(), old(self).buffered());
                match err {
                    Some(c) => {
                        &&& r matches Err(e) && e.spec_code() == c
                        &&& final(self).spec_state() == s1
                        &&& final(self).buffered() == b1
                    },
                    None => if body_ready(s1, b1) {
                        &&& final(self).buffered() == b1.skip(body_len(s1))
                        &&& r is Ok ==> (final(self).spec_state() == State::ReadHeader && (r matches Ok(Some(_))))
                        &&& r matches Ok(Some(m)) ==> T::decodes(b1.take(body_len(s1)), m)
                        &&& r matches Err(e) ==> T::rejects(b1.take(body_len(s1)), e)
                        &&& r is Err ==> final(self).spec_state() == s1
                    } else {
                        &&& r matches Ok(None)
                        &&& final(self).spec_state() == s1
                        &&& final(self).buffered() == b1
                    },
                }
            }),
    {
        match self.next_frame() {
            Ok(Some(bytes)) => {
                let mut buf = DecodeBuf::new(bytes);
                match self.decoder.decode(&mut buf) {
                    Ok(msg) => {
                        self.state = State::ReadHeader;
                        Ok(Some(msg))
                    },
                    Err(e) => Err(e),
                }
            },
            Ok(None) => Ok(None),
            Err(e) => Err(e),
        }
    }

    /// Handles the end of the body: an error if a partial frame is still
    /// buffered, otherwise the stream is done.
    pub fn end_of_body(&mut self) -> (r: Result<(), Status>)
        requires
            old(self).buffered().len() <= usize::MAX,
        ensures
            final(self).buffered() == old(self).buffered(),
            final(self).spec_direction() == old(self).spec_direction(),
            old(self).buffered().len() > 0 ==> (r matches Err(e) && e.spec_code() == Code::Internal)
                && final(self).spec_state() == old(self).spec_state(),
            old(self).buffered().len() == 0 ==> r is Ok && final(self).spec_state() == State::Done,
    {
        if self.bufs.has_remaining() {
            Err(Status::new(Code::Internal))
        } else {
            self.state = State::Done;
            Ok(())
        }
    }

    /// The outcome of a finished stream. A response's status is taken from
    /// its trailers' `grpc-status` field, or mapped from its HTTP status
    /// when the trailers carry none; any status but `OK` is an error.
    /// Requests and trailer-less responses end without error.
    pub fn finish(&self, trailers: &HeaderMap) -> (r: Result<(), Status>)
        ensures
            match self.spec_direction() {
                Direction::Response(code) => {
                    let c = inferred_code(grpc_status_field(*trailers), Some(status_code_number(code)));
                    &&& c == Some(Code::OK) ==> r is Ok
                    &&& c != Some(Code::OK) ==> (r matches Err(e) && Some(e.spec_code()) == c)
                },
                _ => r is Ok,
            },
    {
        match &self.direction {
            Direction::Response(code) => {
                match infer_grpc_status(trailers, Some(*code)) {
                    Some(s) => {
                        if s.code() == Code::OK {
                            Ok(())
                        } else {
                            Err(s)
                        }
                    },
                    None => Ok(()),
                }
            },
            _ => Ok(()),
        }
    }
}

/// A frame read from the start of the buffered bytes gives back the
/// message that was framed, and leaves what followed it buffered.
pub proof fn lemma_frame_roundtrip(payload: Seq<u8>, rest: Seq<u8>)
    requires
        payload.len() <= u32::MAX,
    ensures
        ({
            let (s1, b1, err) = header_step(State::ReadHeader, frame(payload) + rest);
            &&& err is None
            &&& s1 == State::ReadBody { compression: false, len: payload.len() as usize }
            &&& body_ready(s1, b1)
            &&& b1.take(body_len(s1)) == payload
            &&& b1.skip(body_len(s1)) == rest
        }),
{
    let buf = frame(payload) + rest;
    lemma_be_roundtrip(payload.len() as u32);
    assert(buf.subrange(1, 5) =~= be_bytes(payload.len() as u32));
    assert(buf.skip(5) =~= payload + rest);
    assert((payload + rest).take(payload.len() as int) =~= payload);
    assert((payload + rest).skip(payload.len() as int) =~= rest);
}

enum EncodeInner<T> {
    Running { encoder: T },
    Failed(Status),
}

/// Encodes outbound gRPC messages into frames, and gives the status that
/// the trailers report at the end.
pub struct Encode<T> {
    inner: EncodeInner<T>,
    return_trailers: bool,
}

impl<T: Encoder> Encode<T> {
    /// The status that stopped this body before any message, if one did.
    pub closed spec fn failure(&self) -> Option<Status> {
        match self.inner {
            EncodeInner::Running { .. } => None,
            EncodeInner::Failed(s) => Some(s),
        }
    }

    /// The code that the trailers report, when they are sent: `OK` after a
    /// body that ran, the failure's code after one that failed.
    pub closed spec fn trailer_code(&self) -> Code {
        match self.inner {
            EncodeInner::Running { .. } => Code::OK,
            EncodeInner::Failed(s) => s.spec_code(),
        }
    }

    /// Whether trailers are sent at the end of this body.
    pub closed spec fn spec_return_trailers(&self) -> bool {
        self.return_trailers
    }

    /// A body that encodes messages with `encoder`.
    pub fn new(encoder: T, return_trailers: bool) -> (r: Encode<T>)
        ensures
            r.failure() is None,
            r.spec_return_trailers() == return_trailers,
    {
        Encode { inner: EncodeInner::Running { encoder }, return_trailers }
    }

    /// A body that carries no message and reports `status` in its trailers.
    pub fn error(status: Status) -> (r: Encode<T>)
        ensures
            r.failure() == Some(status),
            r.spec_return_trailers(),
    {
        Encode { inner: EncodeInner::Failed(status), return_trailers: true }
    }

    /// This body never knows in advance that it has ended.
    pub fn is_end_stream(&self) -> (r: bool)
        ensures
            !r,
    {
        false
    }

    /// Encodes one message into a frame: a zero flag byte, the big-endian
    /// length and the bytes the encoder wrote. A body that failed carries no
    /// message; an encoder error is passed on; a message longer than a frame
    /// can announce is refused as internal.
    pub fn encode_item(&mut self, item: T::Item) -> (r: Result<Option<Vec<u8>>, Status>)
        ensures
            final(self).failure() == old(self).failure(),
            final(self).spec_return_trailers() == old(self).spec_return_trailers(),
            old(self).failure() is Some ==> r matches Ok(None),
            old(self).failure() is None ==> !(r matches Ok(None)),
            old(self).failure() is None ==> (r matches Ok(Some(f)) ==> exists|p: Seq<u8>| #![trigger T::encodes(item, p)]
                T::encodes(item, p) && p.len() <= u32::MAX && f@ == frame(p)),
            old(self).failure() is None ==> (r matches Err(e) ==> T::refuses(item, e)
                || (e.spec_code() == Code::Internal && exists|p: Seq<u8>| #![trigger T::encodes(item, p)]
                    T::encodes(item, p) && p.len() > u32::MAX)),
    {
        match &mut self.inner {
            EncodeInner::Running { encoder } => {
                let mut buf = EncodeBuf::new();
                match encoder.encode(item, &mut buf) {
                    Ok(()) => {},
                    Err(e) => {
                        return Err(e);
                    },
                }
                let payload = buf.into_bytes();
                proof {
                    assert(payload@.skip(0) =~= payload@);
                }
                match frame_payload(payload.as_slice()) {
                    Ok(f) => Ok(Some(f)),
                    Err(e) => Err(e),
                }
            },
            EncodeInner::Failed(_) => Ok(None),
        }
    }

    /// The trailers at the end of the body: a `grpc-status` field with the
    /// status that `trailers_status` gives, or none when trailers are not
    /// sent.
    pub fn trailers(&self) -> (r: Option<HeaderMap>)
        ensures
            r is Some <==> self.spec_return_trailers(),
            r matches Some(h) ==> header_entries(h).len() == 1
                && values_of(header_entries(h), grpc_status_name()).len() == 1
                && header_value_bytes(values_of(header_entries(h), grpc_status_name())[0])
                    == code_bytes(self.trailer_code()),
    {
        match self.trailers_status() {
            Some(s) => Some(s.to_header_map()),
            None => None,
        }
    }

    /// The status that the trailers report: `OK` after a body that ran, the
    /// failure's status after one that failed, and none when trailers are
    /// not sent.
    pub fn trailers_status(&self) -> (r: Option<Status>)
        ensures
            !self.spec_return_trailers() ==> r is None,
            self.spec_return_trailers() ==> match self.failure() {
                Some(s) => r == Some(s),
                None => r matches Some(s) && s.spec_code() == Code::OK,
            },
            r matches Some(s) ==> s.spec_code() == self.trailer_code(),
    {
        if !self.return_trailers {
            return None;
        }
        match &self.inner {
            EncodeInner::Running { .. } => Some(Status::new(Code::OK)),
            EncodeInner::Failed(s) => Some(*s),
        }
    }
}

} // verus!
