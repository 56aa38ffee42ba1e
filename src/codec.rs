//! Wire framing: a fixed-size header (category tag and body length) followed
//! by the body bytes.
use vstd::prelude::*;

verus! {

/// Size of the frame header: one tag byte, then the body length as a
/// big-endian `u32`.
pub const HEADER_SIZE: usize = 5;

/// The protocol category that a frame's body belongs to.
#[derive(Clone, Copy, Debug, PartialEq, Eq, Structural)]
pub enum ProtocolCategory {
    Unknown,
    Auth,
    Net,
    Game,
}

/// The decoded form of a frame header.
#[derive(Clone, Copy, Debug, PartialEq, Eq, Structural)]
pub struct Header {
    pub category: ProtocolCategory,
    pub length: u32,
}

/// Why a byte buffer is not one well-formed frame.
#[derive(Clone, Copy, Debug, PartialEq, Eq, Structural)]
pub enum FrameError {
    /// Fewer bytes than the header, or than the header announces.
    Incomplete,
    /// The tag byte names no known category.
    UnknownCategory,
    /// The announced body length exceeds the configured maximum.
    TooLong,
    /// More bytes than the header announces.
    TrailingBytes,
}

/// One complete wire unit.
#[derive(Clone, Debug, PartialEq, Eq)]
pub struct Frame {
    pub category: ProtocolCategory,
    pub payload: Vec<u8>,
}

pub open spec fn category_of_tag(tag: u8) -> ProtocolCategory {
    if tag == 1 {
        ProtocolCategory::Auth
    } else if tag == 2 {
        ProtocolCategory::Net
    } else if tag == 3 {
        ProtocolCategory::Game
    } else {
        ProtocolCategory::Unknown
    }
}

pub open spec fn tag_of_category(c: ProtocolCategory) -> u8 {
    match c {
        ProtocolCategory::Unknown => 0,
        ProtocolCategory::Auth => 1,
        ProtocolCategory::Net => 2,
        ProtocolCategory::Game => 3,
    }
}

/// The big-endian value of four bytes.
pub open spec fn be_u32(b0: u8, b1: u8, b2: u8, b3: u8) -> u32 {
    ((b0 as u32) << 24u32) | ((b1 as u32) << 16u32) | ((b2 as u32) << 8u32) | (b3 as u32)
}

/// The header that the first `HEADER_SIZE` bytes of `b` describe.
pub open spec fn header_of(b: Seq<u8>) -> Header
    recommends
        b.len() >= HEADER_SIZE,
{
    Header { category: category_of_tag(b[0]), length: be_u32(b[1], b[2], b[3], b[4]) }
}

/// The bytes that encode header `h`.
pub open spec fn header_bytes(h: Header) -> Seq<u8> {
    seq![
        tag_of_category(h.category),
        (h.length >> 24u32) as u8,
        (h.length >> 16u32) as u8,
        (h.length >> 8u32) as u8,
        h.length as u8,
    ]
}

/// The bytes of a frame: its header, then its body.
pub open spec fn frame_bytes(category: ProtocolCategory, payload: Seq<u8>) -> Seq<u8>
    recommends
        payload.len() <= u32::MAX,
{
    header_bytes(Header { category, length: payload.len() as u32 }) + payload
}

/// What decoding `b` as exactly one frame gives, with bodies longer than
/// `max_length` refused.
pub open spec fn frame_decoding(b: Seq<u8>, max_length: u32) -> Result<
    (ProtocolCategory, Seq<u8>),
    FrameError,
> {
    if b.len() < HEADER_SIZE {
        Err(FrameError::Incomplete)
    } else {
        let h = header_of(b);
        let body_len = b.len() - HEADER_SIZE;
        if h.category == ProtocolCategory::Unknown {
            Err(FrameError::UnknownCategory)
        } else if h.length > max_length {
            Err(FrameError::TooLong)
        } else if body_len < h.length {
            Err(FrameError::Incomplete)
        } else if body_len > h.length {
            Err(FrameError::TrailingBytes)
        } else {
            Ok((h.category, b.subrange(HEADER_SIZE as int, b.len() as int)))
        }
    }
}

/// A frame that may be sent: a known category and a body within the bound.
pub open spec fn frame_valid(category: ProtocolCategory, payload: Seq<u8>, max_length: u32) -> bool {
    category != ProtocolCategory::Unknown && payload.len() <= max_length
}

/// Reads a header. An unknown tag byte gives category `Unknown`, which the
/// caller must treat as a fatal framing error.
pub fn decode_header(bytes: &[u8]) -> (h: Header)
    requires
        bytes@.len() == HEADER_SIZE,
    ensures
        h == header_of(bytes@),
{
    let tag = bytes[0];
    let category = if tag == 1 {
        ProtocolCategory::Auth
    } else if tag == 2 {
        ProtocolCategory::Net
    } else if tag == 3 {
        ProtocolCategory::Game
    } else {
        ProtocolCategory::Unknown
    };
    let length: u32 = ((bytes[1] as u32) << 24u32) | ((bytes[2] as u32) << 16u32) | ((
    bytes[3] as u32) << 8u32) | (bytes[4] as u32);
    Header { category, length }
}

/// Writes a header.
pub fn encode_header(h: Header) -> (r: Vec<u8>)
    ensures
        r@ == header_bytes(h),
{
    let tag: u8 = match h.category {
        ProtocolCategory::Unknown => 0,
        ProtocolCategory::Auth => 1,
        ProtocolCategory::Net => 2,
        ProtocolCategory::Game => 3,
    };
    let mut r: Vec<u8> = Vec::with_capacity(HEADER_SIZE);
    r.push(tag);
    r.push((h.length >> 24u32) as u8);
    r.push((h.length >> 16u32) as u8);
    r.push((h.length >> 8u32) as u8);
    r.push(h.length as u8);
    assert(r@ =~= header_bytes(h));
    r
}

/// Writes a frame: the header fields followed by the body, as one buffer.
pub fn encode_frame(frame: &Frame) -> (r: Vec<u8>)
    requires
        frame.payload@.len() <= u32::MAX,
    ensures
        r@ == frame_bytes(frame.category, frame.payload@),
{
    let mut r = encode_header(Header { category: frame.category, length: frame.payload.len() as u32 });
    let ghost head = r@;
    let mut i: usize = 0;
    while i < frame.payload.len()
        invariant
            i <= frame.payload@.len(),
            r@ == head + frame.payload@.subrange(0, i as int),
        decreases frame.payload@.len() - i,
    {
        r.push(frame.payload[i]);
        i += 1;
        assert(r@ =~= head + frame.payload@.subrange(0, i as int));
    }
    assert(frame.payload@.subrange(0, i as int) =~= frame.payload@);
    r
}

/// Reads a buffer that should hold exactly one frame whose body is at most
/// `max_length` bytes.
pub fn decode_frame(bytes: &[u8], max_length: u32) -> (r: Result<Frame, FrameError>)
    ensures
        match (r, frame_decoding(bytes@, max_length)) {
            (Ok(f), Ok((c, p))) => f.category == c && f.payload@ == p,
            (Err(e), Err(e2)) => e == e2,
            _ => false,
        },
{
    if bytes.len() < HEADER_SIZE {
        return Err(FrameError::Incomplete);
    }
    let mut head: Vec<u8> = Vec::with_capacity(HEADER_SIZE);
    let mut i: usize = 0;
    while i < HEADER_SIZE
        invariant
            i <= HEADER_SIZE <= bytes@.len(),
            head@ == bytes@.subrange(0, i as int),
        decreases HEADER_SIZE - i,
    {
        head.push(bytes[i]);
        i += 1;
        assert(head@ =~= bytes@.subrange(0, i as int));
    }
    let h = decode_header(head.as_slice());
    let body_len = bytes.len() - HEADER_SIZE;
    if h.category == ProtocolCategory::Unknown {
        return Err(FrameError::UnknownCategory);
    }
    if h.length > max_length {
        return Err(FrameError::TooLong);
    }
    if body_len < h.length as usize {
        return Err(FrameError::Incomplete);
    }
    if body_len > h.length as usize {
        return Err(FrameError::TrailingBytes);
    }
    let mut payload: Vec<u8> = Vec::with_capacity(body_len);
    let mut j: usize = HEADER_SIZE;
    while j < bytes.len()
        invariant
            HEADER_SIZE <= j <= bytes@.len(),
            payload@ == bytes@.subrange(HEADER_SIZE as int, j as int),
        decreases bytes@.len() - j,
    {
        payload.push(bytes[j]);
        j += 1;
        assert(payload@ =~= bytes@.subrange(HEADER_SIZE as int, j as int));
    }
    Ok(Frame { category: h.category, payload })
}

/// Encoding a header and reading it back gives the same header.
pub proof fn lemma_header_round_trip(h: Header)
    ensures
        header_bytes(h).len() == HEADER_SIZE,
        header_of(header_bytes(h)) == h,
{
    let n = h.length;
    assert(be_u32((n >> 24u32) as u8, (n >> 16u32) as u8, (n >> 8u32) as u8, n as u8) == n)
        by (bit_vector);
    assert(category_of_tag(tag_of_category(h.category)) == h.category);
}

/// Every valid frame decodes to itself after encoding.
pub proof fn lemma_frame_round_trip(category: ProtocolCategory, payload: Seq<u8>, max_length: u32)
    requires
        frame_valid(category, payload, max_length),
    ensures
        frame_decoding(frame_bytes(category, payload), max_length) == Ok::<
            (ProtocolCategory, Seq<u8>),
            FrameError,
        >((category, payload)),
{
    let h = Header { category, length: payload.len() as u32 };
    lemma_header_round_trip(h);
    let b = frame_bytes(category, payload);
    assert(b.subrange(0, HEADER_SIZE as int) =~= header_bytes(h));
    assert(header_of(b) == header_of(header_bytes(h)));
    assert(b.subrange(HEADER_SIZE as int, b.len() as int) =~= payload);
}

/// A header whose tag byte names no category decodes to category `Unknown`,
/// and no frame that starts with it is accepted.
pub proof fn lemma_unknown_tag_refused(b: Seq<u8>, max_length: u32)
    requires
        b.len() >= HEADER_SIZE,
        b[0] == 0 || b[0] > 3,
    ensures
        header_of(b).category == ProtocolCategory::Unknown,
        frame_decoding(b, max_length) == Err::<(ProtocolCategory, Seq<u8>), FrameError>(
            FrameError::UnknownCategory,
        ),
{
}

} // verus!
