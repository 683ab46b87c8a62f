use crate::error::ImageError;
use crate::interpreter::data_reader::{
    push_byte_char, spec_ascii, spec_scan_zero, spec_u16_le, spec_u32_le, DataReader,
};
use vstd::prelude::*;

verus! {

/// The signature that opens the metadata root.
pub const METADATA_SIGNATURE: u32 = 0x424A_5342;

/// The longest name a stream header can hold.
pub const STREAM_NAME_MAX: usize = 32;

/// One entry of the stream directory: where a stream lies, counted from the
/// metadata root, and its name.
#[derive(Debug)]
pub struct StreamHeader {
    pub offset: u32,
    pub size: u32,
    pub name: String,
}

/// Where the name of the stream header at `pos` ends: at its first zero byte, after
/// thirty-two bytes, or with the data.
pub open spec fn spec_stream_name_end(s: Seq<u8>, pos: int) -> int {
    spec_scan_zero(s, pos + 8, pos + 8 + 32)
}

/// Where the entry after the stream header at `pos` starts: behind the name and its
/// closing zero, rounded up to a multiple of four; `None` where the data ends first.
pub open spec fn spec_stream_header_next(s: Seq<u8>, pos: int) -> Option<int> {
    let end = spec_stream_name_end(s, pos);
    if pos < 0 || pos + 8 > s.len() {
        None
    } else if end == pos + 8 + 32 {
        Some(end)
    } else if end >= s.len() {
        None
    } else if (end + 4) - (end + 4) % 4 > s.len() {
        None
    } else {
        Some((end + 4) - (end + 4) % 4)
    }
}

/// Where the `k`-th stream header of a directory starting at `first` starts.
pub open spec fn spec_stream_header_pos(s: Seq<u8>, first: int, k: nat) -> Option<int>
    decreases k,
{
    if k == 0 {
        Some(first)
    } else {
        match spec_stream_header_pos(s, first, (k - 1) as nat) {
            Some(p) => spec_stream_header_next(s, p),
            None => None,
        }
    }
}

impl StreamHeader {
    /// True where `self` is the entry that the bytes at `pos` hold.
    pub open spec fn spec_parsed_from(&self, s: Seq<u8>, pos: int) -> bool {
        &&& self.offset == spec_u32_le(s, pos)
        &&& self.size == spec_u32_le(s, pos + 4)
        &&& self.name@ == spec_ascii(s.subrange(pos + 8, spec_stream_name_end(s, pos)))
    }

    /// Reads one entry of the stream directory at the cursor, and moves the cursor to
    /// the next entry.
    #[verifier::loop_isolation(false)]
    pub fn new(reader: &mut DataReader) -> (result: Result<StreamHeader, ImageError>)
        ensures
            final(reader).bytes() == old(reader).bytes(),
            match result {
                Ok(h) => {
                    &&& spec_stream_header_next(old(reader).bytes(), old(reader).pos() as int)
                        == Some(final(reader).pos() as int)
                    &&& h.spec_parsed_from(old(reader).bytes(), old(reader).pos() as int)
                },
                Err(e) => {
                    &&& spec_stream_header_next(old(reader).bytes(), old(reader).pos() as int).is_none()
                    &&& e == ImageError::UnexpectedEof
                },
            },
    {
        let ghost s = reader.bytes();
        let ghost pos = reader.pos() as int;
        let offset: u32 = reader.read_u32()?;
        let size: u32 = reader.read_u32()?;
        let origin: usize = reader.get_position();
        let mut name = String::new();
        let mut i: usize = 0;
        let mut closed: bool = false;
        while i < STREAM_NAME_MAX && !closed
            invariant
                i <= 32,
                reader.bytes() == s,
                origin == pos + 8,
                origin + i <= s.len() <= usize::MAX,
                reader.pos() == origin + i + (if closed { 1int } else { 0int }),
                closed ==> i < 32 && origin + i < s.len() && s[origin + i] == 0,
                spec_scan_zero(s, origin as int, origin + 32) == spec_scan_zero(
                    s,
                    origin + i,
                    origin + 32,
                ),
                name@ == spec_ascii(s.subrange(origin as int, origin + i)),
            decreases 32 - i + (if closed { 0int } else { 1int }),
        {
            let b: u8 = reader.read_u8()?;
            if b == 0 {
                closed = true;
            } else {
                push_byte_char(&mut name, b);
                i += 1;
                assert(name@ =~= spec_ascii(s.subrange(origin as int, origin + i)));
            }
        }
        if closed {
            let end: usize = origin + i;
            let base: usize = end - end % 4;
            assert((end + 4) % 4 == end % 4);
            assert(spec_stream_name_end(s, pos) == end);
            if base > usize::MAX - 4 {
                return Err(ImageError::UnexpectedEof);
            }
            reader.set_position(base + 4)?;
        }
        proof {
            let end = spec_stream_name_end(s, pos);
            assert(end == origin + i);
            assert((end + 4) - (end + 4) % 4 == end - end % 4 + 4);
        }
        Ok(StreamHeader { offset, size, name })
    }
}

/// The root of the metadata: versions, and the directory of streams.
#[derive(Debug)]
pub struct MetadataHeader {
    pub major_version: u16,
    pub minor_version: u16,
    pub reserved1: u32,
    pub string_length: u32,
    pub version_string: String,
    pub offset_2nd_part: u32,
    pub flags: u8,
    pub reserved2: u8,
    pub streams: u16,
    pub stream_headers: Vec<StreamHeader>,
}

/// Where the stream directory of the metadata root at `pos` starts.
pub open spec fn spec_stream_directory_start(s: Seq<u8>, pos: int) -> int {
    pos + 16 + spec_u32_le(s, pos + 12) + 4
}

/// Why the metadata root at `pos` cannot be read, if it cannot.
pub open spec fn spec_metadata_header_error(s: Seq<u8>, pos: int) -> Option<ImageError> {
    let first = spec_stream_directory_start(s, pos);
    let streams = spec_u16_le(s, first - 2) as nat;
    if pos + 4 > s.len() {
        Some(ImageError::UnexpectedEof)
    } else if spec_u32_le(s, pos) != 0x424A_5342 {
        Some(ImageError::InvalidData)
    } else if pos + 16 > s.len() || first > s.len() {
        Some(ImageError::UnexpectedEof)
    } else if first - 4 > u32::MAX {
        Some(ImageError::InvalidData)
    } else if spec_stream_header_pos(s, first, streams).is_none() {
        Some(ImageError::UnexpectedEof)
    } else {
        None
    }
}

pub proof fn lemma_stream_header_pos_prefix(s: Seq<u8>, first: int, k: nat, n: nat)
    requires
        k <= n,
        spec_stream_header_pos(s, first, n).is_some(),
    ensures
        spec_stream_header_pos(s, first, k).is_some(),
    decreases n,
{
    if k < n {
        lemma_stream_header_pos_prefix(s, first, k, (n - 1) as nat);
    }
}

pub proof fn lemma_stream_header_pos_fails(s: Seq<u8>, first: int, k: nat, n: nat)
    requires
        k <= n,
        spec_stream_header_pos(s, first, k).is_none(),
    ensures
        spec_stream_header_pos(s, first, n).is_none(),
    decreases n,
{
    if k < n {
        lemma_stream_header_pos_fails(s, first, k, (n - 1) as nat);
    }
}

impl MetadataHeader {
    /// True where the fixed fields are what the bytes at `pos` hold.
    pub open spec fn spec_parsed_from(&self, s: Seq<u8>, pos: int) -> bool {
        let first = spec_stream_directory_start(s, pos);
        &&& self.major_version == spec_u16_le(s, pos + 4)
        &&& self.minor_version == spec_u16_le(s, pos + 6)
        &&& self.reserved1 == spec_u32_le(s, pos + 8)
        &&& self.string_length == spec_u32_le(s, pos + 12)
        &&& self.version_string@ == spec_ascii(
            s.subrange(pos + 16, spec_scan_zero(s, pos + 16, pos + 16 + self.string_length)),
        )
        &&& self.offset_2nd_part == first - 4
        &&& self.flags == s[first - 4]
        &&& self.reserved2 == s[first - 3]
        &&& self.streams == spec_u16_le(s, first - 2)
        &&& self.stream_headers@.len() == self.streams
        &&& forall|k: int|
            0 <= k < self.streams ==> (#[trigger] self.stream_headers@[k]).spec_parsed_from(
                s,
                spec_stream_header_pos(s, first, k as nat).unwrap(),
            )
    }

    /// Reads the metadata root at the cursor, with its stream directory.
    #[verifier::loop_isolation(false)]
    pub fn new(reader: &mut DataReader) -> (result: Result<MetadataHeader, ImageError>)
        ensures
            final(reader).bytes() == old(reader).bytes(),
            match result {
                Ok(h) => {
                    &&& spec_metadata_header_error(old(reader).bytes(), old(reader).pos() as int).is_none()
                    &&& h.spec_parsed_from(old(reader).bytes(), old(reader).pos() as int)
                    &&& spec_stream_header_pos(
                        old(reader).bytes(),
                        spec_stream_directory_start(old(reader).bytes(), old(reader).pos() as int),
                        h.streams as nat,
                    ) == Some(final(reader).pos() as int)
                },
                Err(e) => spec_metadata_header_error(old(reader).bytes(), old(reader).pos() as int)
                    == Some(e),
            },
    {
        let ghost s = reader.bytes();
        let ghost pos = reader.pos() as int;
        let signature: u32 = reader.read_u32()?;
        if signature != METADATA_SIGNATURE {
            return Err(ImageError::InvalidData);
        }
        reader.check_position(reader.get_position(), 12)?;
        let major_version: u16 = reader.read_u16()?;
        let minor_version: u16 = reader.read_u16()?;
        let reserved1: u32 = reader.read_u32()?;
        let string_length: u32 = reader.read_u32()?;
        let after: usize = reader.get_position();
        if after > usize::MAX - 4 || string_length as usize > usize::MAX - 4 - after {
            return Err(ImageError::UnexpectedEof);
        }
        reader.check_position(after, string_length as usize + 4)?;
        let version_string: String = reader.read_string(string_length as usize)?;
        let second: usize = reader.get_position();
        if second > u32::MAX as usize {
            return Err(ImageError::InvalidData);
        }
        let offset_2nd_part: u32 = second as u32;
        let flags: u8 = reader.read_u8()?;
        let reserved2: u8 = reader.read_u8()?;
        let streams: u16 = reader.read_u16()?;
        let ghost first = reader.pos() as int;
        let mut stream_headers: Vec<StreamHeader> = Vec::with_capacity(streams as usize);
        let mut k: u16 = 0;
        while k < streams
            invariant
                k <= streams,
                reader.bytes() == s,
                first == spec_stream_directory_start(s, pos),
                spec_stream_header_pos(s, first, k as nat) == Some(reader.pos() as int),
                stream_headers@.len() == k,
                forall|j: int|
                    0 <= j < k ==> (#[trigger] stream_headers@[j]).spec_parsed_from(
                        s,
                        spec_stream_header_pos(s, first, j as nat).unwrap(),
                    ),
            decreases streams - k,
        {
            let ghost here = reader.pos();
            match StreamHeader::new(reader) {
                Ok(h) => {
                    stream_headers.push(h);
                },
                Err(e) => {
                    proof {
                        assert(spec_stream_header_pos(s, first, (k + 1) as nat).is_none());
                        lemma_stream_header_pos_fails(s, first, (k + 1) as nat, streams as nat);
                    }
                    return Err(e);
                },
            }
            k += 1;
        }
        Ok(
            MetadataHeader {
                major_version,
                minor_version,
                reserved1,
                string_length,
                version_string,
                offset_2nd_part,
                flags,
                reserved2,
                streams,
                stream_headers,
            },
        )
    }
}

} // verus!
