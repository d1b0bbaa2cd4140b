//! ICC profile framing: just enough of ISO 15076-1 to walk over an
//! embedded profile. The 128-byte header is skipped, the tag table is
//! read, and the position moves past the furthest tag data; the tag
//! contents themselves are not interpreted.

use vstd::prelude::*;

use crate::reader::{be32, ByteReader, ReadError};

verus! {

/// One entry of the tag table: a signature registered with the ICC, and
/// the placement of its data within the profile.
struct Tag {
    signature: u32,
    offset: u32,
    size: u32,
}

impl Tag {
    /// A four byte value registered with the ICC.
    #[allow(dead_code)]
    fn signature(&self) -> (r: u32)
        ensures
            r == self.signature,
    {
        self.signature
    }

    /// An address within the profile, relative to its first byte.
    fn offset(&self) -> (r: u32)
        ensures
            r == self.offset,
    {
        self.offset
    }

    /// The number of bytes in the tag data element.
    fn size(&self) -> (r: u32)
        ensures
            r == self.size,
    {
        self.size
    }
}

/// An ICC profile that was walked over successfully.
#[derive(Debug)]
pub struct ICCProfile {}

/// The placement of the tag reaching the furthest among the first `k`
/// entries of the tag table at `t`: the offset with the greatest value,
/// paired with that tag's size. Each table entry is 12 bytes: signature,
/// offset, size.
pub open spec fn icc_furthest_tag(s: Seq<u8>, t: int, k: int) -> (int, int)
    decreases k,
{
    if k <= 0 {
        (0, 0)
    } else {
        let prev = icc_furthest_tag(s, t, k - 1);
        let off = be32(s, t + 12 * (k - 1) + 4);
        let sz = be32(s, t + 12 * (k - 1) + 8);
        if off > prev.0 {
            (off, sz)
        } else {
            prev
        }
    }
}

/// Walk over an ICC profile at the current position: the fixed header,
/// the tag table with its transmitted entry count, and the data of the
/// tag that reaches furthest, plus four trailing bytes.
pub fn decode_icc(reader: &mut ByteReader) -> (r: Result<ICCProfile, ReadError>)
    requires
        old(reader).inv(),
    ensures
        final(reader).inv(),
        final(reader).bytes() == old(reader).bytes(),
        r is Ok ==> final(reader).pos() >= old(reader).pos() + 4,
        r is Ok <==> ({
            let p = old(reader).pos();
            let s = old(reader).bytes();
            let n = be32(s, p + 128);
            let f = icc_furthest_tag(s, p + 132, n);
            &&& p + 132 + 12 * n <= s.len()
            &&& p + f.0 + f.1 + 4 <= s.len()
        }),
        r is Ok ==> ({
            let p = old(reader).pos();
            let s = old(reader).bytes();
            let f = icc_furthest_tag(s, p + 132, be32(s, p + 128));
            final(reader).pos() == p + f.0 + f.1 + 4
        }),
{
    let icc_start_position = reader.position();

    match reader.skip(128) {
        Ok(()) => {},
        Err(e) => { return Err(e); },
    }
    let tag_count = match reader.read_u32() {
        Ok(v) => v,
        Err(e) => { return Err(e); },
    };

    let mut largest_offset: u32 = 0;
    let mut largest_size: u32 = 0;
    let mut i: u32 = 0;
    let ghost p = old(reader).pos();
    let ghost s = old(reader).bytes();
    while i < tag_count
        invariant
            reader.inv(),
            reader.bytes() == s,
            s == old(reader).bytes(),
            p == old(reader).pos(),
            icc_start_position == p,
            tag_count == be32(s, p + 128),
            i <= tag_count,
            reader.pos() == p + 132 + 12 * i,
            largest_offset == icc_furthest_tag(s, p + 132, i as int).0,
            largest_size == icc_furthest_tag(s, p + 132, i as int).1,
        decreases tag_count - i,
    {
        let signature = match reader.read_u32() {
            Ok(v) => v,
            Err(e) => { return Err(e); },
        };
        let offset = match reader.read_u32() {
            Ok(v) => v,
            Err(e) => { return Err(e); },
        };
        let size = match reader.read_u32() {
            Ok(v) => v,
            Err(e) => { return Err(e); },
        };
        let tag = Tag { signature, offset, size };

        if tag.offset() > largest_offset {
            largest_offset = tag.offset();
            largest_size = tag.size();
        }
        i = i + 1;
    }

    // The furthest tag data ends the profile; move past it.
    let end: u128 = icc_start_position as u128 + largest_offset as u128 + largest_size as u128;
    if end > reader.len() as u128 {
        return Err(ReadError::UnexpectedEof);
    }
    reader.seek(end as usize);

    match reader.skip(4) {
        Ok(()) => {},
        Err(e) => { return Err(e); },
    }

    Ok(ICCProfile {})
}

} // verus!
