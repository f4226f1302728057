//! The wire framing shared by uploader and receiver.
//!
//! A connection carries one transfer.  The uploader sends a header
//! right after connecting: one byte of name length, the name bytes,
//! then the total file size and the starting offset, each eight bytes.
//! All multi-byte integers are big-endian.  The payload that follows is
//! raw file bytes.  Acknowledgements travel the other way as bare
//! eight-byte big-endian integers, so the integer codec here covers
//! them too.
use vstd::prelude::*;
use vstd::slice::slice_subrange;

verus! {

/// The big-endian byte representation of a 64-bit integer:
/// most significant byte first.
pub open spec fn spec_u64_to_be_bytes(x: u64) -> Seq<u8> {
    seq![
        ((x >> 56) & 0xff) as u8,
        ((x >> 48) & 0xff) as u8,
        ((x >> 40) & 0xff) as u8,
        ((x >> 32) & 0xff) as u8,
        ((x >> 24) & 0xff) as u8,
        ((x >> 16) & 0xff) as u8,
        ((x >> 8) & 0xff) as u8,
        (x & 0xff) as u8,
    ]
}

/// The 64-bit integer that eight big-endian bytes stand for.
pub open spec fn spec_u64_from_be_bytes(s: Seq<u8>) -> u64
    recommends
        s.len() == 8,
{
    (((s[0] as u64) << 56) | ((s[1] as u64) << 48) | ((s[2] as u64) << 40) | ((s[3] as u64) << 32)
        | ((s[4] as u64) << 24) | ((s[5] as u64) << 16) | ((s[6] as u64) << 8) | (s[7] as u64)) as u64
}

/// Decoding the encoding of any 64-bit integer gives the integer back.
pub proof fn lemma_u64_be_bytes_round_trip(x: u64)
    ensures
        spec_u64_to_be_bytes(x).len() == 8,
        spec_u64_from_be_bytes(spec_u64_to_be_bytes(x)) == x,
{
    assert(((((x >> 56) & 0xff) as u8 as u64) << 56) | ((((x >> 48) & 0xff) as u8 as u64) << 48)
        | ((((x >> 40) & 0xff) as u8 as u64) << 40) | ((((x >> 32) & 0xff) as u8 as u64) << 32)
        | ((((x >> 24) & 0xff) as u8 as u64) << 24) | ((((x >> 16) & 0xff) as u8 as u64) << 16)
        | ((((x >> 8) & 0xff) as u8 as u64) << 8) | ((x & 0xff) as u8 as u64) == x) by (bit_vector);
}

/// Encoding the integer that eight bytes decode to gives the bytes
/// back: the codec loses nothing in either direction.
pub proof fn lemma_u64_be_bytes_inverse(s: Seq<u8>)
    requires
        s.len() == 8,
    ensures
        spec_u64_to_be_bytes(spec_u64_from_be_bytes(s)) == s,
{
    let b0 = s[0] as u64;
    let b1 = s[1] as u64;
    let b2 = s[2] as u64;
    let b3 = s[3] as u64;
    let b4 = s[4] as u64;
    let b5 = s[5] as u64;
    let b6 = s[6] as u64;
    let b7 = s[7] as u64;
    let x = spec_u64_from_be_bytes(s);
    assert(b0 < 256 && b1 < 256 && b2 < 256 && b3 < 256 && b4 < 256 && b5 < 256 && b6 < 256
        && b7 < 256);
    assert(b0 < 256 && b1 < 256 && b2 < 256 && b3 < 256 && b4 < 256 && b5 < 256 && b6 < 256 && b7
        < 256 ==> {
        let y = ((b0 << 56) | (b1 << 48) | (b2 << 40) | (b3 << 32) | (b4 << 24) | (b5 << 16) | (
        b6 << 8) | b7) as u64;
        ((y >> 56) & 0xff) == b0 && ((y >> 48) & 0xff) == b1 && ((y >> 40) & 0xff) == b2 && ((y
            >> 32) & 0xff) == b3 && ((y >> 24) & 0xff) == b4 && ((y >> 16) & 0xff) == b5 && ((y
            >> 8) & 0xff) == b6 && (y & 0xff) == b7
    }) by (bit_vector);
    assert(spec_u64_to_be_bytes(x) =~= s);
}

/// Encodes a 64-bit integer as eight big-endian bytes.  This is also
/// how an acknowledgement is framed on the wire.
pub fn u64_to_be_bytes(x: u64) -> (s: Vec<u8>)
    ensures
        s@ == spec_u64_to_be_bytes(x),
{
    let mut s: Vec<u8> = Vec::new();
    s.push(((x >> 56) & 0xff) as u8);
    s.push(((x >> 48) & 0xff) as u8);
    s.push(((x >> 40) & 0xff) as u8);
    s.push(((x >> 32) & 0xff) as u8);
    s.push(((x >> 24) & 0xff) as u8);
    s.push(((x >> 16) & 0xff) as u8);
    s.push(((x >> 8) & 0xff) as u8);
    s.push((x & 0xff) as u8);
    proof {
        assert(s@ =~= spec_u64_to_be_bytes(x));
    }
    s
}

/// Reads a 64-bit integer from eight big-endian bytes.  This is also
/// how an acknowledgement is read off the wire.
pub fn u64_from_be_bytes(s: &[u8]) -> (x: u64)
    requires
        s@.len() == 8,
    ensures
        x == spec_u64_from_be_bytes(s@),
{
    ((s[0] as u64) << 56) | ((s[1] as u64) << 48) | ((s[2] as u64) << 40) | ((s[3] as u64) << 32)
        | ((s[4] as u64) << 24) | ((s[5] as u64) << 16) | ((s[6] as u64) << 8) | (s[7] as u64)
}

/// The transfer header sent once per connection, uploader to receiver.
pub struct Header {
    /// The file name as UTF-8 bytes, 1 to 255 of them, not
    /// NUL-terminated.
    pub name: Vec<u8>,
    /// The total length of the source file, fixed at session start.
    pub file_size: u64,
    /// The starting position in the destination file: 0 for a fresh
    /// upload, the last acknowledged offset on resume.
    pub offset: u64,
}

/// The mathematical content of a header: the name bytes and the two
/// positions, free of any container type.
pub ghost struct HeaderView {
    pub name: Seq<u8>,
    pub file_size: u64,
    pub offset: u64,
}

impl HeaderView {
    /// A header the framing can carry: the name length must fit the
    /// single length byte and may not be zero.
    pub open spec fn wf(&self) -> bool {
        1 <= self.name.len() <= 255
    }
}

impl View for Header {
    type V = HeaderView;

    open spec fn view(&self) -> HeaderView {
        HeaderView { name: self.name@, file_size: self.file_size, offset: self.offset }
    }
}

impl Header {
    /// A header the framing can carry: the name length must fit the
    /// single length byte and may not be zero.
    pub open spec fn wf(&self) -> bool {
        self@.wf()
    }

    /// Builds a header, rejecting a name whose length the single
    /// length byte cannot carry.
    pub fn new(name: Vec<u8>, file_size: u64, offset: u64) -> (h: Option<Header>)
        ensures
            match h {
                Some(h) => h.wf() && h@ == (HeaderView { name: name@, file_size, offset }),
                None => !(1 <= name@.len() <= 255),
            },
    {
        if 1 <= name.len() && name.len() <= 255 {
            Some(Header { name, file_size, offset })
        } else {
            None
        }
    }
}

/// The byte layout of a header: one byte of name length, the name
/// bytes, eight bytes of file size, eight bytes of offset.
pub open spec fn spec_encode_header(h: HeaderView) -> Seq<u8>
    recommends
        h.wf(),
{
    seq![h.name.len() as u8] + h.name + spec_u64_to_be_bytes(h.file_size)
        + spec_u64_to_be_bytes(h.offset)
}

/// Encodes a header into its wire bytes.
pub fn encode_header(h: &Header) -> (s: Vec<u8>)
    requires
        h.wf(),
    ensures
        s@ == spec_encode_header(h@),
        s@.len() == 17 + h.name@.len(),
{
    let mut s: Vec<u8> = Vec::new();
    s.push(h.name.len() as u8);
    let mut i: usize = 0;
    while i < h.name.len()
        invariant
            i <= h.name@.len(),
            s@ =~= seq![h.name@.len() as u8] + h.name@.subrange(0, i as int),
        decreases h.name@.len() - i,
    {
        s.push(h.name[i]);
        i = i + 1;
    }
    let mut size_bytes = u64_to_be_bytes(h.file_size);
    let mut offset_bytes = u64_to_be_bytes(h.offset);
    s.append(&mut size_bytes);
    s.append(&mut offset_bytes);
    proof {
        assert(s@ =~= spec_encode_header(h@));
    }
    s
}

/// What parsing a byte string as a header yields: the header and the
/// count of bytes it occupied, or nothing when the bytes are too short
/// for the lengths they announce or the name length byte is zero.
pub open spec fn spec_parse_header(s: Seq<u8>) -> Option<(HeaderView, int)> {
    if s.len() < 1 {
        None
    } else {
        let name_len = s[0] as int;
        if name_len == 0 || s.len() < 17 + name_len {
            None
        } else {
            Some(
                (
                    HeaderView {
                        name: s.subrange(1, 1 + name_len),
                        file_size: spec_u64_from_be_bytes(s.subrange(1 + name_len, 9 + name_len)),
                        offset: spec_u64_from_be_bytes(s.subrange(9 + name_len, 17 + name_len)),
                    },
                    17 + name_len,
                ),
            )
        }
    }
}

/// Parses a header from the front of a byte string, returning it with
/// the count of bytes consumed.  Fails exactly when the bytes are too
/// short or the name length byte is zero.
pub fn parse_header(s: &[u8]) -> (r: Option<(Header, usize)>)
    ensures
        match r {
            Some((h, used)) => {
                &&& spec_parse_header(s@) == Some((h@, used as int))
                &&& h.wf()
                &&& used <= s@.len()
            },
            None => spec_parse_header(s@) is None,
        },
{
    if s.len() < 1 {
        return None;
    }
    let name_len = s[0] as usize;
    if name_len == 0 || s.len() < 17 + name_len {
        return None;
    }
    let mut name: Vec<u8> = Vec::new();
    let mut i: usize = 0;
    while i < name_len
        invariant
            i <= name_len,
            17 + name_len <= s@.len(),
            name@ =~= s@.subrange(1, 1 + i as int),
        decreases name_len - i,
    {
        name.push(s[1 + i]);
        i = i + 1;
    }
    let size_start = 1 + name_len;
    let size_slice = slice_subrange(s, size_start, size_start + 8);
    let file_size = u64_from_be_bytes(size_slice);
    let offset_slice = slice_subrange(s, size_start + 8, size_start + 16);
    let offset = u64_from_be_bytes(offset_slice);
    let h = Header { name, file_size, offset };
    proof {
        assert(h.name@ =~= s@.subrange(1, 1 + name_len as int));
        assert(size_slice@ =~= s@.subrange(1 + name_len as int, 9 + name_len as int));
        assert(offset_slice@ =~= s@.subrange(9 + name_len as int, 17 + name_len as int));
    }
    Some((h, 17 + name_len))
}

/// Parsing the encoding of any well-formed header gives the header
/// back and consumes exactly its bytes: the framing is unambiguous.
pub proof fn lemma_header_round_trip(h: HeaderView)
    requires
        h.wf(),
    ensures
        spec_parse_header(spec_encode_header(h)) == Some((h, spec_encode_header(h).len() as int)),
{
    let s = spec_encode_header(h);
    let name_len = h.name.len() as int;
    lemma_u64_be_bytes_round_trip(h.file_size);
    lemma_u64_be_bytes_round_trip(h.offset);
    assert(s.len() == 17 + name_len);
    assert(s[0] == name_len as u8);
    assert(s.subrange(1, 1 + name_len) =~= h.name);
    assert(s.subrange(1 + name_len, 9 + name_len) =~= spec_u64_to_be_bytes(h.file_size));
    assert(s.subrange(9 + name_len, 17 + name_len) =~= spec_u64_to_be_bytes(h.offset));
    let parsed = spec_parse_header(s).unwrap().0;
    assert(parsed.name == h.name && parsed.file_size == h.file_size && parsed.offset == h.offset);
}

/// Encoding the header that some bytes parse to gives those bytes
/// back: the framing is unambiguous, every frame has exactly one
/// byte form.
pub proof fn lemma_header_parse_inverse(s: Seq<u8>)
    requires
        spec_parse_header(s) is Some,
    ensures
        ({
            let (h, used) = spec_parse_header(s).unwrap();
            &&& h.wf()
            &&& spec_encode_header(h) == s.take(used)
        }),
{
    let (h, used) = spec_parse_header(s).unwrap();
    let name_len = s[0] as int;
    lemma_u64_be_bytes_inverse(s.subrange(1 + name_len, 9 + name_len));
    lemma_u64_be_bytes_inverse(s.subrange(9 + name_len, 17 + name_len));
    assert(h.name.len() == name_len);
    assert(spec_encode_header(h) =~= s.take(used));
}

} // verus!
