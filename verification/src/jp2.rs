//! JP2 container parser.
//!
//! A JP2 file is a sequence of boxes, each framed by a 4-byte big-endian
//! length and a 4-byte type code; a length of 1 switches to an 8-byte
//! extended length, and a length of 0 means "to the end of the file"
//! (ISO/IEC 15444-1 Annex I). The parser walks the top-level boxes, decodes
//! each known box into a typed record, and enforces the presence, ordering
//! and uniqueness rules of the standard.

use vstd::prelude::*;

use crate::reader::{be16, be32, be64, ByteReader};

verus! {

/// A box type code: the 4-byte type field read as one big-endian integer.
pub type BoxType = u32;

// `jP\x20\x20` signature box
pub const BOX_TYPE_SIGNATURE: BoxType = 0x6A502020;
// `ftyp`
pub const BOX_TYPE_FILE_TYPE: BoxType = 0x66747970;
// `jp2h`
pub const BOX_TYPE_HEADER: BoxType = 0x6A703268;
// `ihdr`
pub const BOX_TYPE_IMAGE_HEADER: BoxType = 0x69686472;
// `bpcc`
pub const BOX_TYPE_BITS_PER_COMPONENT: BoxType = 0x62706363;
// `colr`
pub const BOX_TYPE_COLOUR_SPECIFICATION: BoxType = 0x636F6C72;
// `pclr`
pub const BOX_TYPE_PALETTE: BoxType = 0x70636C72;
// `cmap`
pub const BOX_TYPE_COMPONENT_MAPPING: BoxType = 0x636D6170;
// `cdef`
pub const BOX_TYPE_CHANNEL_DEFINITION: BoxType = 0x63646566;
// `res\x20`
pub const BOX_TYPE_RESOLUTION: BoxType = 0x72657320;
// `resc`
pub const BOX_TYPE_CAPTURE_RESOLUTION: BoxType = 0x72657363;
// `resd`
pub const BOX_TYPE_DEFAULT_DISPLAY_RESOLUTION: BoxType = 0x72657364;
// `jp2c`
pub const BOX_TYPE_CONTIGUOUS_CODESTREAM: BoxType = 0x6A703263;
// `jp2i`
pub const BOX_TYPE_INTELLECTUAL_PROPERTY: BoxType = 0x6A703269;
// `xml\x20`
pub const BOX_TYPE_XML: BoxType = 0x786D6C20;
// `uuid`
pub const BOX_TYPE_UUID: BoxType = 0x75756964;
// `uinf`
pub const BOX_TYPE_UUID_INFO: BoxType = 0x75696E66;
// `ulst`
pub const BOX_TYPE_UUID_LIST: BoxType = 0x756C7374;
// `url\x20`
pub const BOX_TYPE_DATA_ENTRY_URL: BoxType = 0x75726C20;

// `jp2\x20`
pub const BRAND_JP2: u32 = 0x6A703220;
// `jpx\x20`
pub const BRAND_JPX: u32 = 0x6A707820;

// `<CR><LF><0x87><LF>`: the fixed signature payload.
pub const SIGNATURE_MAGIC: u32 = 0x0D0A870A;

/// Everything that can go wrong while decoding a JP2 container.
#[derive(Debug)]
pub enum JP2Error {
    /// The 4 payload bytes of the signature box are not the fixed magic.
    InvalidSignature { signature: u32, offset: u64 },
    /// The `ftyp` brand is neither `jp2 ` nor any known alternative.
    InvalidBrand { brand: u32, offset: u64 },
    /// The brand is `jpx `: JPEG 2000 Part 2, which this crate does not read.
    Unsupported,
    /// The compatibility list lacks `jp2 `.
    NotCompatible { compatibility_list: Vec<u32> },
    /// A box appeared at a position where it is not allowed.
    BoxUnexpected { box_type: BoxType, offset: u64 },
    /// A box that may appear at most once appeared twice.
    BoxDuplicate { box_type: BoxType, offset: u64 },
    /// Reserved length, truncated payload, or an internal invariant broken.
    BoxMalformed { box_type: BoxType, offset: u64 },
    /// A required box, or the parent a box needs, was not seen.
    BoxMissing { box_type: BoxType },
    /// The buffer ended in the middle of a box header or payload.
    UnexpectedEof { offset: u64 },
}

/// A JP2 box: framing common to every box in the container.
pub trait JBox {
    /// The type code this box kind is stored under.
    spec fn spec_identifier(&self) -> BoxType;

    /// The payload length in bytes, excluding the header.
    spec fn spec_length(&self) -> u64;

    /// The byte offset of the payload within the file.
    spec fn spec_offset(&self) -> u64;

    fn identifier(&self) -> (r: BoxType)
        ensures
            r == self.spec_identifier(),
    ;

    fn length(&self) -> (r: u64)
        ensures
            r == self.spec_length(),
    ;

    fn offset(&self) -> (r: u64)
        ensures
            r == self.spec_offset(),
    ;
}

/// The box header at `p` parses: its 8 bytes are present, the stored
/// length is not reserved, and an extended length is present and large
/// enough.
pub open spec fn box_header_parse_ok(s: Seq<u8>, p: int) -> bool {
    &&& p + 8 <= s.len()
    &&& (be32(s, p) < 2 || be32(s, p) >= 8)
    &&& (be32(s, p) == 1 ==> p + 16 <= s.len() && be64(s, p + 8) >= 16)
}

/// The decoded framing of one box: payload length (excluding the header),
/// type code, and how many header bytes were consumed.
pub struct BoxHeader {
    pub box_length: u64,
    pub box_type: BoxType,
    pub header_length: u8,
}

/// Read one box header at the current position.
///
/// A stored length of 0 is passed through unchanged: it means the payload
/// runs to the end of the file and the caller computes the remainder. A
/// stored length of 1 switches to the 8-byte extended length. Stored
/// lengths 2 through 7 are reserved and rejected.
pub fn decode_box_header(reader: &mut ByteReader) -> (r: Result<BoxHeader, JP2Error>)
    requires
        old(reader).inv(),
    ensures
        final(reader).inv(),
        final(reader).bytes() == old(reader).bytes(),
        r is Ok ==> final(reader).pos() == old(reader).pos() + r->Ok_0.header_length,
        r is Err ==> final(reader).pos() >= old(reader).pos(),
        r matches Err(e) ==> (e is BoxMalformed || e is UnexpectedEof),
        r is Ok <==> box_header_parse_ok(old(reader).bytes(), old(reader).pos()),
        r matches Err(JP2Error::UnexpectedEof { .. }) <==> ({
            let p = old(reader).pos();
            let s = old(reader).bytes();
            p + 8 > s.len() || (p + 8 <= s.len() && be32(s, p) == 1 && p + 16 > s.len())
        }),
        r matches Err(JP2Error::BoxMalformed { .. }) <==> ({
            let p = old(reader).pos();
            let s = old(reader).bytes();
            &&& p + 8 <= s.len()
            &&& ((2 <= be32(s, p) <= 7) || (be32(s, p) == 1 && p + 16 <= s.len()
                    && be64(s, p + 8) < 16))
        }),
        r is Ok <==> ({
            let p = old(reader).pos();
            let s = old(reader).bytes();
            &&& p + 8 <= s.len()
            &&& (be32(s, p) < 2 || be32(s, p) >= 8)
            &&& (be32(s, p) == 1 ==> p + 16 <= s.len() && be64(s, p + 8) >= 16)
        }),
        r is Ok ==> {
            let p = old(reader).pos();
            let s = old(reader).bytes();
            let h = r->Ok_0;
            &&& p + 8 <= s.len()
            &&& h.box_type == be32(s, p + 4)
            &&& (be32(s, p) == 0 ==> h.box_length == 0 && h.header_length == 8
                    && final(reader).pos() == p + 8)
            &&& (be32(s, p) == 1 ==> p + 16 <= s.len() && be64(s, p + 8) >= 16
                    && h.box_length == be64(s, p + 8) - 16 && h.header_length == 16
                    && final(reader).pos() == p + 16)
            &&& (be32(s, p) >= 8 ==> h.box_length == be32(s, p) - 8 && h.header_length == 8
                    && final(reader).pos() == p + 8)
            &&& be32(s, p) < 2 || be32(s, p) >= 8
        },
    {
    let start = reader.position();
    let box_length_raw = match reader.read_u32() {
        Ok(v) => v,
        Err(_) => { return Err(JP2Error::UnexpectedEof { offset: start as u64 }); },
    };
    let box_type = match reader.read_u32() {
        Ok(v) => v,
        Err(_) => { return Err(JP2Error::UnexpectedEof { offset: start as u64 }); },
    };
    if box_length_raw == 0 {
        // Payload runs to the end of the file; the caller resolves it.
        Ok(BoxHeader { box_length: 0, box_type, header_length: 8 })
    } else if box_length_raw == 1 {
        // Extended 8-byte length, which counts all header bytes too.
        let xl = match reader.read_u64() {
            Ok(v) => v,
            Err(_) => { return Err(JP2Error::UnexpectedEof { offset: start as u64 }); },
        };
        if xl < 16 {
            return Err(JP2Error::BoxMalformed { box_type, offset: start as u64 });
        }
        Ok(BoxHeader { box_length: xl - 16, box_type, header_length: 16 })
    } else if box_length_raw <= 7 {
        // Stored lengths 2..=7 are reserved for ISO use.
        Err(JP2Error::BoxMalformed { box_type, offset: start as u64 })
    } else {
        Ok(BoxHeader { box_length: (box_length_raw - 8) as u64, box_type, header_length: 8 })
    }
}

/// JPEG 2000 Signature box (`jP\x20\x20`).
///
/// The first box of every file: a fixed 12-byte record whose 4 payload
/// bytes are `0D 0A 87 0A`, chosen to catch common file-transfer
/// corruptions.
#[derive(Debug, Default)]
pub struct SignatureBox {
    pub length: u64,
    pub offset: u64,
}

impl SignatureBox {
    /// The fixed signature payload.
    pub fn signature(&self) -> (r: u32)
        ensures
            r == SIGNATURE_MAGIC,
    {
        SIGNATURE_MAGIC
    }

    /// Check the 4 payload bytes against the fixed magic.
    pub fn decode(&mut self, reader: &mut ByteReader) -> (r: Result<(), JP2Error>)
        requires
            old(reader).inv(),
        ensures
            final(reader).inv(),
            final(reader).bytes() == old(reader).bytes(),
            final(self).offset == old(self).offset,
            r is Ok ==> {
                let p = old(reader).pos();
                let s = old(reader).bytes();
                &&& p + 4 <= s.len()
                &&& be32(s, p) == SIGNATURE_MAGIC
                &&& final(reader).pos() == p + 4
                &&& final(self).length == 12
            },
            r is Ok <==> old(reader).pos() + 4 <= old(reader).bytes().len()
                && be32(old(reader).bytes(), old(reader).pos()) == SIGNATURE_MAGIC,
            r matches Err(e) ==> (e is InvalidSignature || e is UnexpectedEof),
            r matches Err(JP2Error::UnexpectedEof { .. })
                <==> old(reader).pos() + 4 > old(reader).bytes().len(),
            r matches Err(JP2Error::InvalidSignature { .. })
                <==> old(reader).pos() + 4 <= old(reader).bytes().len()
                    && be32(old(reader).bytes(), old(reader).pos()) != SIGNATURE_MAGIC,
            r matches Err(JP2Error::InvalidSignature { signature, .. })
                ==> signature == be32(old(reader).bytes(), old(reader).pos()),
    {
        self.length = 12;
        let start = reader.position();
        let magic = match reader.read_u32() {
            Ok(v) => v,
            Err(_) => { return Err(JP2Error::UnexpectedEof { offset: start as u64 }); },
        };
        if magic != SIGNATURE_MAGIC {
            return Err(JP2Error::InvalidSignature {
                signature: magic,
                offset: reader.position() as u64,
            });
        }
        Ok(())
    }
}

impl JBox for SignatureBox {
    open spec fn spec_identifier(&self) -> BoxType {
        BOX_TYPE_SIGNATURE
    }

    open spec fn spec_length(&self) -> u64 {
        self.length
    }

    open spec fn spec_offset(&self) -> u64 {
        self.offset
    }

    fn identifier(&self) -> BoxType {
        BOX_TYPE_SIGNATURE
    }

    fn length(&self) -> u64 {
        self.length
    }

    fn offset(&self) -> u64 {
        self.offset
    }
}

/// File Type box (`ftyp`).
///
/// Names the standard that defines the file (the brand), a minor version,
/// and the list of 4-byte compatibility codes; the list must contain
/// `jp2 `.
#[derive(Debug, Default)]
pub struct FileTypeBox {
    pub length: u64,
    pub offset: u64,
    pub brand: u32,
    pub min_version: u32,
    pub compatibility_list: Vec<u32>,
}

/// The `i`-th compatibility code of a File Type box whose payload
/// starts at `p`.
pub open spec fn compat_entry(s: Seq<u8>, p: int, i: int) -> int {
    be32(s, p + 8 + 4 * i)
}

/// Whether some compatibility code among the first `n` is `jp2 `.
pub open spec fn compat_list_has_jp2(s: Seq<u8>, p: int, n: int) -> bool {
    exists|i: int| 0 <= i < n && #[trigger] compat_entry(s, p, i) == BRAND_JP2
}

/// Whether `v` holds `x`.
fn vec_contains_u32(v: &Vec<u32>, x: u32) -> (r: bool)
    ensures
        r == v@.contains(x),
{
    let mut i: usize = 0;
    while i < v.len()
        invariant
            i <= v@.len(),
            forall|j: int| 0 <= j < i ==> v@[j] != x,
        decreases v@.len() - i,
    {
        if v[i] == x {
            return true;
        }
        i = i + 1;
    }
    false
}

impl FileTypeBox {
    /// The brand code, as the 4 bytes read big-endian.
    pub fn brand(&self) -> (r: u32)
        ensures
            r == self.brand,
    {
        self.brand
    }

    /// The minor version of the JP2 specification the file complies with.
    pub fn min_version(&self) -> (r: u32)
        ensures
            r == self.min_version,
    {
        self.min_version
    }

    /// The compatibility codes, each as the 4 bytes read big-endian.
    pub fn compatibility_list(&self) -> (r: &Vec<u32>)
        ensures
            r@ == self.compatibility_list@,
    {
        &self.compatibility_list
    }

    /// Parse brand, minor version and the compatibility list, whose entry
    /// count is derived from the box length. Rejects a `jpx ` brand as
    /// unsupported, any other brand than `jp2 ` as invalid, and a list
    /// without `jp2 ` as not compatible.
    pub fn decode(&mut self, reader: &mut ByteReader) -> (r: Result<(), JP2Error>)
        requires
            old(reader).inv(),
            old(self).length >= 8,
        ensures
            final(reader).inv(),
            final(reader).bytes() == old(reader).bytes(),
            final(self).length == old(self).length,
            final(self).offset == old(self).offset,
            r is Ok ==> {
                let p = old(reader).pos();
                let s = old(reader).bytes();
                let n = (old(self).length - 8) / 4;
                &&& final(self).brand == be32(s, p)
                &&& final(self).brand == BRAND_JP2
                &&& final(self).min_version == be32(s, p + 4)
                &&& final(self).compatibility_list@.len() == n
                &&& forall|i: int| 0 <= i < n ==>
                        final(self).compatibility_list@[i] == be32(s, p + 8 + 4 * i)
                &&& final(self).compatibility_list@.contains(BRAND_JP2)
                &&& final(reader).pos() == p + 8 + 4 * n
            },
            r matches Err(JP2Error::Unsupported) ==>
                be32(old(reader).bytes(), old(reader).pos()) == BRAND_JPX,
            r matches Err(JP2Error::InvalidBrand { brand, .. }) ==>
                brand == be32(old(reader).bytes(), old(reader).pos())
                && brand != BRAND_JP2 && brand != BRAND_JPX,
            r matches Err(e) ==> (e is Unsupported || e is InvalidBrand || e is NotCompatible
                || e is UnexpectedEof),
            r matches Err(JP2Error::Unsupported)
                <==> old(reader).pos() + 4 <= old(reader).bytes().len()
                    && be32(old(reader).bytes(), old(reader).pos()) == BRAND_JPX,
            r matches Err(JP2Error::InvalidBrand { .. })
                <==> old(reader).pos() + 4 <= old(reader).bytes().len()
                    && be32(old(reader).bytes(), old(reader).pos()) != BRAND_JP2
                    && be32(old(reader).bytes(), old(reader).pos()) != BRAND_JPX,
            r matches Err(JP2Error::NotCompatible { .. }) <==> ({
                let p = old(reader).pos();
                let s = old(reader).bytes();
                let n = (old(self).length - 8) / 4;
                &&& p + 8 + 4 * n <= s.len()
                &&& be32(s, p) == BRAND_JP2
                &&& !compat_list_has_jp2(s, p, n)
            }),
            r matches Err(JP2Error::NotCompatible { .. })
                ==> be32(old(reader).bytes(), old(reader).pos()) == BRAND_JP2
                    && !compat_list_has_jp2(
                        old(reader).bytes(),
                        old(reader).pos(),
                        (old(self).length - 8) / 4,
                    ),
            r is Ok <==> ({
                let p = old(reader).pos();
                let s = old(reader).bytes();
                let n = (old(self).length - 8) / 4;
                &&& p + 8 + 4 * n <= s.len()
                &&& be32(s, p) == BRAND_JP2
                &&& compat_list_has_jp2(s, p, n)
            }),
    {
        let start = reader.position();
        let brand = match reader.read_u32() {
            Ok(v) => v,
            Err(_) => { return Err(JP2Error::UnexpectedEof { offset: start as u64 }); },
        };
        self.brand = brand;
        if brand == BRAND_JPX {
            return Err(JP2Error::Unsupported);
        } else if brand != BRAND_JP2 {
            return Err(JP2Error::InvalidBrand {
                brand,
                offset: reader.position() as u64,
            });
        }
        let min_version = match reader.read_u32() {
            Ok(v) => v,
            Err(_) => { return Err(JP2Error::UnexpectedEof { offset: start as u64 }); },
        };
        self.min_version = min_version;

        // The number of compatibility fields is determined by the box length.
        let n = (self.length - 8) / 4;
        let mut list: Vec<u32> = Vec::new();
        let mut i: u64 = 0;
        while i < n
            invariant
                reader.inv(),
                reader.bytes() == old(reader).bytes(),
                self.length == old(self).length,
                self.offset == old(self).offset,
                n == (old(self).length - 8) / 4,
                be32(old(reader).bytes(), old(reader).pos()) == BRAND_JP2,
                i <= n,
                reader.pos() == old(reader).pos() + 8 + 4 * i,
                list@.len() == i,
                forall|j: int| 0 <= j < i ==>
                    list@[j] == be32(old(reader).bytes(), old(reader).pos() + 8 + 4 * j),
            decreases n - i,
        {
            let code = match reader.read_u32() {
                Ok(v) => v,
                Err(_) => { return Err(JP2Error::UnexpectedEof { offset: start as u64 }); },
            };
            list.push(code);
            i = i + 1;
        }

        // The list must contain `jp2 ` for a conforming reader to accept
        // the file.
        if !vec_contains_u32(&list, BRAND_JP2) {
            proof {
                assert forall|k: int| 0 <= k < n implies
                    #[trigger] compat_entry(old(reader).bytes(), old(reader).pos(), k)
                        != BRAND_JP2 by {
                    assert(list@[k] == be32(old(reader).bytes(), old(reader).pos() + 8 + 4 * k));
                }
            }
            return Err(JP2Error::NotCompatible { compatibility_list: list });
        }
        proof {
            let j = choose|j: int| 0 <= j < list@.len() && list@[j] == BRAND_JP2;
            assert(compat_entry(old(reader).bytes(), old(reader).pos(), j) == BRAND_JP2);
        }
        self.compatibility_list = list;
        Ok(())
    }
}

impl JBox for FileTypeBox {
    open spec fn spec_identifier(&self) -> BoxType {
        BOX_TYPE_FILE_TYPE
    }

    open spec fn spec_length(&self) -> u64 {
        self.length
    }

    open spec fn spec_offset(&self) -> u64 {
        self.offset
    }

    fn identifier(&self) -> BoxType {
        BOX_TYPE_FILE_TYPE
    }

    fn length(&self) -> u64 {
        self.length
    }

    fn offset(&self) -> u64 {
        self.offset
    }
}

} // verus!

verus! {

/// Image Header box (`ihdr`): fixed 14-byte payload with the image size,
/// component count and sample description.
#[derive(Debug, Default)]
pub struct ImageHeaderBox {
    pub length: u64,
    pub offset: u64,
    pub height: u32,
    pub width: u32,
    pub components_num: u16,
    pub components_bits: u8,
    pub compression_type: u8,
    pub colourspace_unknown: u8,
    pub intellectual_property: u8,
}

/// The bit depth a raw bits-per-component byte denotes when it is not the
/// 255 sentinel: the low 7 bits plus one.
pub open spec fn spec_depth_value(b: u8) -> u8 {
    (b % 128 + 1) as u8
}

impl ImageHeaderBox {
    pub fn height(&self) -> (r: u32)
        ensures
            r == self.height,
    {
        self.height
    }

    pub fn width(&self) -> (r: u32)
        ensures
            r == self.width,
    {
        self.width
    }

    pub fn components_num(&self) -> (r: u16)
        ensures
            r == self.components_num,
    {
        self.components_num
    }

    /// Bits per component: 255 means the depths vary and are given in the
    /// Bits Per Component box; any other value encodes depth - 1 in the low
    /// 7 bits with the sign flag in the high bit. Raw depths above 37 are
    /// reserved for ISO use and excluded here.
    pub fn components_bits(&self) -> (r: u8)
        requires
            self.components_bits == 255 || self.components_bits % 128 <= 37,
        ensures
            self.components_bits == 255 ==> r == 255,
            self.components_bits != 255 ==> r == spec_depth_value(self.components_bits),
    {
        if self.components_bits == 255 {
            255
        } else {
            self.components_bits % 128 + 1
        }
    }

    /// True when the components hold signed values; the 255 sentinel
    /// reports unsigned here and defers to the Bits Per Component box.
    pub fn values_are_signed(&self) -> (r: bool)
        ensures
            r == (self.components_bits != 255 && self.components_bits >= 128),
    {
        if self.components_bits == 255 {
            false
        } else {
            self.components_bits >= 128
        }
    }

    /// The compression algorithm; 7 (wavelet) is the only value the
    /// standard defines.
    pub fn compression_type(&self) -> (r: u8)
        ensures
            r == self.compression_type,
    {
        self.compression_type
    }

    pub fn colourspace_unknown(&self) -> (r: u8)
        ensures
            r == self.colourspace_unknown,
    {
        self.colourspace_unknown
    }

    pub fn intellectual_property(&self) -> (r: u8)
        ensures
            r == self.intellectual_property,
    {
        self.intellectual_property
    }

    /// Parse the fixed 14-byte payload.
    pub fn decode(&mut self, reader: &mut ByteReader) -> (r: Result<(), JP2Error>)
        requires
            old(reader).inv(),
        ensures
            final(reader).inv(),
            final(reader).bytes() == old(reader).bytes(),
            r matches Err(e) ==> e is UnexpectedEof,
            final(self).length == old(self).length,
            final(self).offset == old(self).offset,
            r is Ok <==> old(reader).pos() + 14 <= old(reader).bytes().len(),
            r is Ok ==> {
                let p = old(reader).pos();
                let s = old(reader).bytes();
                &&& final(reader).pos() == p + 14
                &&& final(self).height == be32(s, p)
                &&& final(self).width == be32(s, p + 4)
                &&& final(self).components_num == be16(s, p + 8)
                &&& final(self).components_bits == s[p + 10]
                &&& final(self).compression_type == s[p + 11]
                &&& final(self).colourspace_unknown == s[p + 12]
                &&& final(self).intellectual_property == s[p + 13]
            },
    {
        let start = reader.position();
        if reader.remaining() < 14 {
            return Err(JP2Error::UnexpectedEof { offset: start as u64 });
        }
        self.height = reader.read_u32().unwrap();
        self.width = reader.read_u32().unwrap();
        self.components_num = reader.read_u16().unwrap();
        self.components_bits = reader.read_u8().unwrap();
        self.compression_type = reader.read_u8().unwrap();
        self.colourspace_unknown = reader.read_u8().unwrap();
        self.intellectual_property = reader.read_u8().unwrap();
        Ok(())
    }
}

impl JBox for ImageHeaderBox {
    open spec fn spec_identifier(&self) -> BoxType {
        BOX_TYPE_IMAGE_HEADER
    }

    open spec fn spec_length(&self) -> u64 {
        self.length
    }

    open spec fn spec_offset(&self) -> u64 {
        self.offset
    }

    fn identifier(&self) -> BoxType {
        BOX_TYPE_IMAGE_HEADER
    }

    fn length(&self) -> u64 {
        self.length
    }

    fn offset(&self) -> u64 {
        self.offset
    }
}

/// A component bit depth: the low 7 bits of the raw byte give depth - 1,
/// the high bit marks signed samples.
#[derive(Debug, PartialEq, Eq, Structural)]
pub enum BitDepth {
    Signed { value: u8 },
    Unsigned { value: u8 },
    Reserved { value: u8 },
}

/// The depth a raw bits-per-component byte denotes.
pub open spec fn spec_bit_depth(b: u8) -> BitDepth {
    if b >= 128 {
        BitDepth::Signed { value: spec_depth_value(b) }
    } else {
        BitDepth::Unsigned { value: spec_depth_value(b) }
    }
}

impl BitDepth {
    /// Decode one raw bits-per-component byte.
    pub fn new(byte: u8) -> (r: BitDepth)
        ensures
            r == spec_bit_depth(byte),
    {
        let value = byte % 128 + 1;
        if byte >= 128 {
            BitDepth::Signed { value }
        } else {
            BitDepth::Unsigned { value }
        }
    }

    pub fn value(&self) -> (r: u8)
        ensures
            r == match *self {
                BitDepth::Signed { value } => value,
                BitDepth::Unsigned { value } => value,
                BitDepth::Reserved { value } => value,
            },
    {
        match self {
            BitDepth::Signed { value } => *value,
            BitDepth::Unsigned { value } => *value,
            BitDepth::Reserved { value } => *value,
        }
    }
}

/// Bits Per Component box (`bpcc`): one raw depth byte per component,
/// present exactly when the Image Header box carries the 255 sentinel.
#[derive(Debug, Default)]
pub struct BitsPerComponentBox {
    pub length: u64,
    pub offset: u64,
    pub components_num: u16,
    pub bits_per_component: Vec<u8>,
}

impl BitsPerComponentBox {
    /// The per-component depths, decoded from the raw bytes.
    pub fn bits_per_component(&self) -> (r: Vec<BitDepth>)
        ensures
            r@.len() == self.bits_per_component@.len(),
            forall|i: int| 0 <= i < r@.len() ==>
                r@[i] == spec_bit_depth(self.bits_per_component@[i]),
    {
        let mut out: Vec<BitDepth> = Vec::new();
        let mut i: usize = 0;
        while i < self.bits_per_component.len()
            invariant
                i <= self.bits_per_component@.len(),
                out@.len() == i,
                forall|j: int| 0 <= j < i ==>
                    out@[j] == spec_bit_depth(self.bits_per_component@[j]),
            decreases self.bits_per_component@.len() - i,
        {
            out.push(BitDepth::new(self.bits_per_component[i]));
            i = i + 1;
        }
        out
    }

    /// Read one raw depth byte per component.
    pub fn decode(&mut self, reader: &mut ByteReader) -> (r: Result<(), JP2Error>)
        requires
            old(reader).inv(),
        ensures
            final(reader).inv(),
            final(reader).bytes() == old(reader).bytes(),
            r matches Err(e) ==> e is UnexpectedEof,
            final(self).length == old(self).length,
            final(self).offset == old(self).offset,
            final(self).components_num == old(self).components_num,
            r is Ok <==> old(reader).pos() + old(self).components_num
                <= old(reader).bytes().len(),
            r is Ok ==> {
                let p = old(reader).pos();
                let s = old(reader).bytes();
                let n = old(self).components_num as int;
                &&& final(reader).pos() == p + n
                &&& final(self).bits_per_component@ == s.subrange(p, p + n)
            },
    {
        let start = reader.position();
        match reader.read_bytes(self.components_num as usize) {
            Ok(bytes) => {
                self.bits_per_component = bytes;
                Ok(())
            },
            Err(_) => Err(JP2Error::UnexpectedEof { offset: start as u64 }),
        }
    }
}

impl JBox for BitsPerComponentBox {
    open spec fn spec_identifier(&self) -> BoxType {
        BOX_TYPE_BITS_PER_COMPONENT
    }

    open spec fn spec_length(&self) -> u64 {
        self.length
    }

    open spec fn spec_offset(&self) -> u64 {
        self.offset
    }

    fn identifier(&self) -> BoxType {
        BOX_TYPE_BITS_PER_COMPONENT
    }

    fn length(&self) -> u64 {
        self.length
    }

    fn offset(&self) -> u64 {
        self.offset
    }
}

pub const METHOD_ENUMERATED_COLOUR_SPACE: u8 = 1;
pub const METHOD_ENUMERATED_RESTRICTED_ICC_PROFILE: u8 = 2;

pub const ENUMERATED_COLOUR_SPACE_UNKNOWN: u32 = 0;
pub const ENUMERATED_COLOUR_SPACE_SRGB: u32 = 16;
pub const ENUMERATED_COLOUR_SPACE_GREYSCALE: u32 = 17;

/// How a Colour Specification box describes the colourspace.
#[derive(Debug, PartialEq, Eq, Structural)]
pub enum ColourSpecificationMethods {
    EnumeratedColourSpace,
    RestrictedICCProfile,
    Reserved { value: u8 },
}

/// The method a raw METH byte denotes.
pub open spec fn spec_colour_method(b: u8) -> ColourSpecificationMethods {
    if b == METHOD_ENUMERATED_COLOUR_SPACE {
        ColourSpecificationMethods::EnumeratedColourSpace
    } else if b == METHOD_ENUMERATED_RESTRICTED_ICC_PROFILE {
        ColourSpecificationMethods::RestrictedICCProfile
    } else {
        ColourSpecificationMethods::Reserved { value: b }
    }
}

impl ColourSpecificationMethods {
    fn new(value: u8) -> (r: ColourSpecificationMethods)
        ensures
            r == spec_colour_method(value),
    {
        if value == METHOD_ENUMERATED_COLOUR_SPACE {
            ColourSpecificationMethods::EnumeratedColourSpace
        } else if value == METHOD_ENUMERATED_RESTRICTED_ICC_PROFILE {
            ColourSpecificationMethods::RestrictedICCProfile
        } else {
            ColourSpecificationMethods::Reserved { value }
        }
    }
}

/// Colour Specification box (`colr`): one way to interpret the colourspace
/// of the decompressed image, either an enumerated code or a restricted
/// ICC profile.
#[derive(Debug, Default)]
pub struct ColourSpecificationBox {
    pub length: u64,
    pub offset: u64,
    pub method: u8,
    pub precedence: u8,
    pub colourspace_approximation: u8,
    pub enumerated_colour_space: u32,
    pub restricted_icc_profile: Vec<u8>,
}

impl ColourSpecificationBox {
    pub fn method(&self) -> (r: ColourSpecificationMethods)
        ensures
            r == spec_colour_method(self.method),
    {
        ColourSpecificationMethods::new(self.method)
    }

    /// Reserved field that must be written as zero; readers ignore it.
    pub fn precedence(&self) -> (r: i8)
        ensures
            r == self.precedence as i8,
    {
        self.precedence as i8
    }

    /// Reserved field that must be written as zero; readers ignore it.
    pub fn colourspace_approximation(&self) -> (r: u8)
        ensures
            r == self.colourspace_approximation,
    {
        self.colourspace_approximation
    }

    /// The enumerated colourspace code (sRGB = 16, greyscale = 17,
    /// sYCC = 18), meaningful when the method is 1.
    pub fn enumerated_colour_space(&self) -> (r: Option<u32>)
        ensures
            r == Some(self.enumerated_colour_space),
    {
        Some(self.enumerated_colour_space)
    }

    /// Parse method, precedence and approximation, then either the 4-byte
    /// enumerated code (method 1) or an ICC profile blob sized from the box
    /// length (method 2). A reserved method skips the rest of the box.
    pub fn decode(&mut self, reader: &mut ByteReader) -> (r: Result<(), JP2Error>)
        requires
            old(reader).inv(),
            old(self).length >= 3,
        ensures
            final(reader).inv(),
            final(reader).bytes() == old(reader).bytes(),
            r matches Err(e) ==> e is UnexpectedEof,
            final(self).length == old(self).length,
            final(self).offset == old(self).offset,
            r is Ok ==> {
                let p = old(reader).pos();
                let s = old(reader).bytes();
                &&& final(self).method == s[p]
                &&& final(self).precedence == s[p + 1]
                &&& final(self).colourspace_approximation == s[p + 2]
                &&& (s[p] == METHOD_ENUMERATED_COLOUR_SPACE ==>
                        final(self).enumerated_colour_space == be32(s, p + 3)
                        && final(reader).pos() == p + 7)
                &&& (s[p] == METHOD_ENUMERATED_RESTRICTED_ICC_PROFILE ==>
                        final(self).restricted_icc_profile@
                            == s.subrange(p + 3, p + old(self).length)
                        && final(reader).pos() == p + old(self).length)
                &&& (s[p] != METHOD_ENUMERATED_COLOUR_SPACE
                        && s[p] != METHOD_ENUMERATED_RESTRICTED_ICC_PROFILE ==>
                        final(reader).pos() == p + old(self).length)
            },
            r is Ok <==> ({
                let p = old(reader).pos();
                let s = old(reader).bytes();
                &&& p + 3 <= s.len()
                &&& (s[p] == METHOD_ENUMERATED_COLOUR_SPACE ==> p + 7 <= s.len())
                &&& (s[p] != METHOD_ENUMERATED_COLOUR_SPACE ==>
                        p + old(self).length <= s.len())
            }),
    {
        let start = reader.position();
        if reader.remaining() < 3 {
            return Err(JP2Error::UnexpectedEof { offset: start as u64 });
        }
        self.method = reader.read_u8().unwrap();
        self.precedence = reader.read_u8().unwrap();
        self.colourspace_approximation = reader.read_u8().unwrap();

        let rest = self.length - 3;
        if self.method == METHOD_ENUMERATED_COLOUR_SPACE {
            let code = match reader.read_u32() {
                Ok(v) => v,
                Err(_) => { return Err(JP2Error::UnexpectedEof { offset: start as u64 }); },
            };
            self.enumerated_colour_space = code;
        } else if self.method == METHOD_ENUMERATED_RESTRICTED_ICC_PROFILE {
            if rest > reader.remaining() as u64 {
                return Err(JP2Error::UnexpectedEof { offset: start as u64 });
            }
            self.restricted_icc_profile = reader.read_bytes(rest as usize).unwrap();
        } else {
            // Reserved method: a conforming reader ignores the whole box.
            if rest > reader.remaining() as u64 {
                return Err(JP2Error::UnexpectedEof { offset: start as u64 });
            }
            reader.skip(rest as usize).unwrap();
        }
        Ok(())
    }
}

impl JBox for ColourSpecificationBox {
    open spec fn spec_identifier(&self) -> BoxType {
        BOX_TYPE_COLOUR_SPECIFICATION
    }

    open spec fn spec_length(&self) -> u64 {
        self.length
    }

    open spec fn spec_offset(&self) -> u64 {
        self.offset
    }

    fn identifier(&self) -> BoxType {
        BOX_TYPE_COLOUR_SPECIFICATION
    }

    fn length(&self) -> u64 {
        self.length
    }

    fn offset(&self) -> u64 {
        self.offset
    }
}

} // verus!

verus! {

pub const COMPONENT_MAP_TYPE_DIRECT: u8 = 1;
pub const COMPONENT_MAP_TYPE_PALETTE: u8 = 2;

/// How a channel is generated from the codestream components.
#[derive(Debug, PartialEq, Eq, Structural)]
pub enum ComponentMapType {
    /// The channel is an actual component of the codestream.
    Direct,
    /// The channel is made by running a component through the palette.
    Palette,
    /// Reserved for ISO use.
    Reserved { value: u8 },
}

/// The mapping type a raw MTYP byte denotes.
pub open spec fn spec_component_map_type(b: u8) -> ComponentMapType {
    if b == COMPONENT_MAP_TYPE_DIRECT {
        ComponentMapType::Direct
    } else if b == COMPONENT_MAP_TYPE_PALETTE {
        ComponentMapType::Palette
    } else {
        ComponentMapType::Reserved { value: b }
    }
}

impl ComponentMapType {
    fn new(value: u8) -> (r: ComponentMapType)
        ensures
            r == spec_component_map_type(value),
    {
        if value == COMPONENT_MAP_TYPE_DIRECT {
            ComponentMapType::Direct
        } else if value == COMPONENT_MAP_TYPE_PALETTE {
            ComponentMapType::Palette
        } else {
            ComponentMapType::Reserved { value }
        }
    }
}

/// One channel definition of the Component Mapping box: the codestream
/// component it draws from, how, and which palette column it uses.
#[derive(Debug)]
pub struct ComponentMap {
    pub component: u16,
    pub mapping_type: ComponentMapType,
    pub palette: u8,
}

impl ComponentMap {
    pub fn component(&self) -> (r: u16)
        ensures
            r == self.component,
    {
        self.component
    }

    /// The raw mapping-type byte this entry was read from.
    pub fn mapping_type(&self) -> (r: u8)
        ensures
            r == match self.mapping_type {
                ComponentMapType::Direct => COMPONENT_MAP_TYPE_DIRECT,
                ComponentMapType::Palette => COMPONENT_MAP_TYPE_PALETTE,
                ComponentMapType::Reserved { value } => value,
            },
    {
        match self.mapping_type {
            ComponentMapType::Direct => COMPONENT_MAP_TYPE_DIRECT,
            ComponentMapType::Palette => COMPONENT_MAP_TYPE_PALETTE,
            ComponentMapType::Reserved { value } => value,
        }
    }

    pub fn palette(&self) -> (r: u8)
        ensures
            r == self.palette,
    {
        self.palette
    }
}

/// Component Mapping box (`cmap`): how image channels are identified from
/// the components decoded from the codestream. Present exactly when the
/// Palette box is present.
#[derive(Debug, Default)]
pub struct ComponentMappingBox {
    pub length: u64,
    pub offset: u64,
    pub mapping: Vec<ComponentMap>,
}

impl ComponentMappingBox {
    pub fn component_map(&self) -> (r: &Vec<ComponentMap>)
        ensures
            r == &self.mapping,
    {
        &self.mapping
    }

    /// Parse the channel entries; their number derives from the box length,
    /// four bytes per entry.
    pub fn decode(&mut self, reader: &mut ByteReader) -> (r: Result<(), JP2Error>)
        requires
            old(reader).inv(),
        ensures
            final(reader).inv(),
            final(reader).bytes() == old(reader).bytes(),
            r matches Err(e) ==> e is UnexpectedEof,
            final(self).length == old(self).length,
            final(self).offset == old(self).offset,
            r is Ok ==> {
                let p = old(reader).pos();
                let s = old(reader).bytes();
                let n = (old(self).length + 3) / 4;
                &&& final(self).mapping@.len() == n
                &&& forall|i: int| 0 <= i < n ==> {
                        let e = #[trigger] final(self).mapping@[i];
                        &&& e.component == be16(s, p + 4 * i)
                        &&& e.mapping_type == spec_component_map_type(s[p + 4 * i + 2])
                        &&& e.palette == s[p + 4 * i + 3]
                    }
                &&& final(reader).pos() == p + 4 * n
            },
            r is Ok <==> old(reader).pos() + 4 * ((old(self).length + 3) / 4)
                <= old(reader).bytes().len(),
    {
        let start = reader.position();
        let mut mapping: Vec<ComponentMap> = Vec::new();
        // The entry count rounds the length up to whole 4-byte groups, as
        // the forward walk over the payload does.
        let n_entries: u64 = self.length / 4 + if self.length % 4 != 0 { 1u64 } else { 0u64 };
        proof {
            assert(n_entries == (self.length + 3) / 4);
        }
        let mut k: u64 = 0;
        while k < n_entries
            invariant
                reader.inv(),
                reader.bytes() == old(reader).bytes(),
                self.length == old(self).length,
                self.offset == old(self).offset,
                n_entries == (self.length + 3) / 4,
                k <= n_entries,
                mapping@.len() == k,
                reader.pos() == old(reader).pos() + 4 * k,
                forall|i: int| 0 <= i < mapping@.len() ==> {
                    let e = #[trigger] mapping@[i];
                    &&& e.component == be16(old(reader).bytes(), old(reader).pos() + 4 * i)
                    &&& e.mapping_type == spec_component_map_type(
                            old(reader).bytes()[old(reader).pos() + 4 * i + 2])
                    &&& e.palette == old(reader).bytes()[old(reader).pos() + 4 * i + 3]
                },
            decreases n_entries - k,
        {
            let component = match reader.read_u16() {
                Ok(v) => v,
                Err(_) => { return Err(JP2Error::UnexpectedEof { offset: start as u64 }); },
            };
            let mapping_type_raw = match reader.read_u8() {
                Ok(v) => v,
                Err(_) => { return Err(JP2Error::UnexpectedEof { offset: start as u64 }); },
            };
            let palette = match reader.read_u8() {
                Ok(v) => v,
                Err(_) => { return Err(JP2Error::UnexpectedEof { offset: start as u64 }); },
            };
            mapping.push(ComponentMap {
                component,
                mapping_type: ComponentMapType::new(mapping_type_raw),
                palette,
            });
            k = k + 1;
        }
        self.mapping = mapping;
        Ok(())
    }
}

impl JBox for ComponentMappingBox {
    open spec fn spec_identifier(&self) -> BoxType {
        BOX_TYPE_COMPONENT_MAPPING
    }

    open spec fn spec_length(&self) -> u64 {
        self.length
    }

    open spec fn spec_offset(&self) -> u64 {
        self.offset
    }

    fn identifier(&self) -> BoxType {
        BOX_TYPE_COMPONENT_MAPPING
    }

    fn length(&self) -> u64 {
        self.length
    }

    fn offset(&self) -> u64 {
        self.offset
    }
}

pub const CHANNEL_TYPE_COLOUR_IMAGE_DATA: u16 = 0;
pub const CHANNEL_TYPE_OPACITY_DATA: u16 = 1;
pub const CHANNEL_TYPE_PREMULTIPLIED_OPACITY: u16 = 2;

/// The meaning of a channel: colour data, opacity, premultiplied opacity,
/// a reserved code, or the 0xFFFF "unspecified" sentinel.
#[derive(Debug, PartialEq, Eq, Structural)]
pub enum ChannelTypes {
    ColourImageData,
    Opacity,
    PremultipliedOpacity,
    Reserved { value: u16 },
    Unspecified { value: u16 },
}

/// The channel type a raw Typ value denotes.
pub open spec fn spec_channel_type(v: u16) -> ChannelTypes {
    if v == 0 {
        ChannelTypes::ColourImageData
    } else if v == 1 {
        ChannelTypes::Opacity
    } else if v == 2 {
        ChannelTypes::PremultipliedOpacity
    } else if v <= 0xFFFE {
        ChannelTypes::Reserved { value: v }
    } else {
        ChannelTypes::Unspecified { value: v }
    }
}

impl ChannelTypes {
    fn new(value: u16) -> (r: ChannelTypes)
        ensures
            r == spec_channel_type(value),
    {
        if value == 0 {
            ChannelTypes::ColourImageData
        } else if value == 1 {
            ChannelTypes::Opacity
        } else if value == 2 {
            ChannelTypes::PremultipliedOpacity
        } else if value <= 0xFFFE {
            ChannelTypes::Reserved { value }
        } else {
            ChannelTypes::Unspecified { value }
        }
    }
}

/// One channel description: its index, its type, and the colour it is
/// associated with.
#[derive(Debug, Default)]
pub struct Channel {
    pub channel_index: u16,
    pub channel_type: u16,
    pub channel_association: u16,
}

impl Channel {
    pub fn channel_index(&self) -> (r: u16)
        ensures
            r == self.channel_index,
    {
        self.channel_index
    }

    pub fn channel_type(&self) -> (r: ChannelTypes)
        ensures
            r == spec_channel_type(self.channel_type),
    {
        ChannelTypes::new(self.channel_type)
    }

    pub fn channel_type_u16(&self) -> (r: u16)
        ensures
            r == self.channel_type,
    {
        self.channel_type
    }

    pub fn channel_association(&self) -> (r: u16)
        ensures
            r == self.channel_association,
    {
        self.channel_association
    }
}

/// Channel Definition box (`cdef`): the meaning of the samples in each
/// channel of the image.
#[derive(Debug, Default)]
pub struct ChannelDefinitionBox {
    pub length: u64,
    pub offset: u64,
    pub channels: Vec<Channel>,
}

impl ChannelDefinitionBox {
    pub fn channels(&self) -> (r: &Vec<Channel>)
        ensures
            r == &self.channels,
    {
        &self.channels
    }

    /// Parse the 2-byte description count, then that many (index, type,
    /// association) triples.
    pub fn decode(&mut self, reader: &mut ByteReader) -> (r: Result<(), JP2Error>)
        requires
            old(reader).inv(),
        ensures
            final(reader).inv(),
            final(reader).bytes() == old(reader).bytes(),
            r matches Err(e) ==> e is UnexpectedEof,
            final(self).length == old(self).length,
            final(self).offset == old(self).offset,
            r is Ok ==> {
                let p = old(reader).pos();
                let s = old(reader).bytes();
                let n = be16(s, p);
                &&& p + 2 <= s.len()
                &&& final(self).channels@.len() == n
                &&& forall|i: int| 0 <= i < n ==> {
                        let c = #[trigger] final(self).channels@[i];
                        &&& c.channel_index == be16(s, p + 2 + 6 * i)
                        &&& c.channel_type == be16(s, p + 4 + 6 * i)
                        &&& c.channel_association == be16(s, p + 6 + 6 * i)
                    }
                &&& final(reader).pos() == p + 2 + 6 * n
            },
            r is Ok <==> old(reader).pos() + 2 <= old(reader).bytes().len()
                && old(reader).pos() + 2 + 6 * be16(old(reader).bytes(), old(reader).pos())
                    <= old(reader).bytes().len(),
    {
        let start = reader.position();
        let n = match reader.read_u16() {
            Ok(v) => v,
            Err(_) => { return Err(JP2Error::UnexpectedEof { offset: start as u64 }); },
        };
        let mut channels: Vec<Channel> = Vec::new();
        let mut i: u16 = 0;
        while i < n
            invariant
                reader.inv(),
                reader.bytes() == old(reader).bytes(),
                self.length == old(self).length,
                self.offset == old(self).offset,
                i <= n,
                n == be16(old(reader).bytes(), old(reader).pos()),
                channels@.len() == i,
                reader.pos() == old(reader).pos() + 2 + 6 * i,
                forall|j: int| 0 <= j < i ==> {
                    let c = #[trigger] channels@[j];
                    &&& c.channel_index
                            == be16(old(reader).bytes(), old(reader).pos() + 2 + 6 * j)
                    &&& c.channel_type
                            == be16(old(reader).bytes(), old(reader).pos() + 4 + 6 * j)
                    &&& c.channel_association
                            == be16(old(reader).bytes(), old(reader).pos() + 6 + 6 * j)
                },
            decreases n - i,
        {
            let channel_index = match reader.read_u16() {
                Ok(v) => v,
                Err(_) => { return Err(JP2Error::UnexpectedEof { offset: start as u64 }); },
            };
            let channel_type = match reader.read_u16() {
                Ok(v) => v,
                Err(_) => { return Err(JP2Error::UnexpectedEof { offset: start as u64 }); },
            };
            let channel_association = match reader.read_u16() {
                Ok(v) => v,
                Err(_) => { return Err(JP2Error::UnexpectedEof { offset: start as u64 }); },
            };
            channels.push(Channel { channel_index, channel_type, channel_association });
            i = i + 1;
        }
        self.channels = channels;
        Ok(())
    }
}

impl JBox for ChannelDefinitionBox {
    open spec fn spec_identifier(&self) -> BoxType {
        BOX_TYPE_CHANNEL_DEFINITION
    }

    open spec fn spec_length(&self) -> u64 {
        self.length
    }

    open spec fn spec_offset(&self) -> u64 {
        self.offset
    }

    fn identifier(&self) -> BoxType {
        BOX_TYPE_CHANNEL_DEFINITION
    }

    fn length(&self) -> u64 {
        self.length
    }

    fn offset(&self) -> u64 {
        self.offset
    }
}

/// One palette-generated component: its bit depth byte and its table
/// column, one byte per palette entry.
#[derive(Clone, Debug, Default)]
pub struct GeneratedComponent {
    pub bit_depth: u8,
    pub values: Vec<u8>,
}

impl GeneratedComponent {
    pub fn bit_depth(&self) -> (r: BitDepth)
        ensures
            r == spec_bit_depth(self.bit_depth),
    {
        BitDepth::new(self.bit_depth)
    }

    pub fn values(&self) -> (r: &Vec<u8>)
        ensures
            r == &self.values,
    {
        &self.values
    }
}

/// The byte width of one palette value whose raw bit-depth byte is `b`:
/// the depth (low 7 bits plus one) padded up to whole bytes.
pub open spec fn pclr_value_width(b: u8) -> int {
    (b % 128) / 8 + 1
}

/// The total byte width of one palette entry restricted to the first `k`
/// generated components, whose raw bit-depth bytes sit at `p + 3`.
pub open spec fn pclr_prefix_width(s: Seq<u8>, p: int, k: int) -> int
    decreases k,
{
    if k <= 0 {
        0
    } else {
        pclr_prefix_width(s, p, k - 1) + pclr_value_width(s[p + 3 + k - 1])
    }
}

/// Entry widths are non-negative and grow with the component count.
pub proof fn lemma_pclr_prefix_width_bounds(s: Seq<u8>, p: int, a: int, b: int)
    requires
        0 <= a <= b,
    ensures
        0 <= pclr_prefix_width(s, p, a) <= pclr_prefix_width(s, p, b),
    decreases b,
{
    if a < b {
        lemma_pclr_prefix_width_bounds(s, p, a, b - 1);
    }
    if a > 0 {
        lemma_pclr_prefix_width_bounds(s, p, 0, a - 1);
    }
}

/// One generated component's raw column bytes after `e` entries: slice
/// `j` of width `w` equals the `w` bytes of entry `j` at this component's
/// position, `start` bytes into the table with `stride` bytes per entry.
pub open spec fn pclr_column_ok(
    vals: Seq<u8>,
    s: Seq<u8>,
    start: int,
    stride: int,
    w: int,
    e: int,
) -> bool {
    &&& vals.len() == e * w
    &&& forall|j: int| 0 <= j < e ==> #[trigger] vals.subrange(j * w, j * w + w)
            == s.subrange(start + j * stride, start + j * stride + w)
}

/// Palette box (`pclr`): a table that turns one component into several.
/// Present exactly when the Component Mapping box is present.
#[derive(Debug, Default)]
pub struct PaletteBox {
    pub length: u64,
    pub offset: u64,
    pub num_entries: u16,
    pub num_components: u8,
    pub generated_components: Vec<GeneratedComponent>,
}

impl PaletteBox {
    /// Number of palette entries; the standard allows 1 to 1024.
    pub fn num_entries(&self) -> (r: u16)
        ensures
            r == self.num_entries,
    {
        self.num_entries
    }

    /// Number of components the palette generates.
    pub fn num_components(&self) -> (r: u8)
        ensures
            r == self.num_components,
    {
        self.num_components
    }

    pub fn generated_components(&self) -> (r: &Vec<GeneratedComponent>)
        ensures
            r == &self.generated_components,
    {
        &self.generated_components
    }

    /// Parse the entry count, the generated-component count, one bit-depth
    /// byte per generated component, then the table values in entry-major
    /// order: all component values of entry 0, then of entry 1, and so
    /// on, each value padded up to whole bytes of its component's depth.
    pub fn decode(&mut self, reader: &mut ByteReader) -> (r: Result<(), JP2Error>)
        requires
            old(reader).inv(),
        ensures
            final(reader).inv(),
            final(reader).bytes() == old(reader).bytes(),
            r matches Err(e) ==> e is UnexpectedEof,
            final(self).length == old(self).length,
            final(self).offset == old(self).offset,
            r is Ok ==> {
                let p = old(reader).pos();
                let s = old(reader).bytes();
                let ne = be16(s, p);
                let nc = s[p + 2];
                let stride = pclr_prefix_width(s, p, nc as int);
                &&& p + 3 <= s.len()
                &&& final(self).num_entries == ne
                &&& final(self).num_components == nc
                &&& final(self).generated_components@.len() == nc
                &&& forall|c: int| 0 <= c < nc ==> {
                        let g = #[trigger] final(self).generated_components@[c];
                        &&& g.bit_depth == s[p + 3 + c]
                        &&& pclr_column_ok(
                                g.values@,
                                s,
                                p + 3 + nc + pclr_prefix_width(s, p, c),
                                stride,
                                pclr_value_width(s[p + 3 + c]),
                                ne,
                            )
                    }
                &&& final(reader).pos() == p + 3 + nc + ne * stride
            },
            r is Ok ==> final(reader).pos() >= old(reader).pos() + 3,
            r is Ok <==> ({
                let p = old(reader).pos();
                let s = old(reader).bytes();
                let ne = be16(s, p);
                let nc = s[p + 2];
                p + 3 <= s.len()
                    && p + 3 + nc + ne * pclr_prefix_width(s, p, nc as int) <= s.len()
            }),
    {
        let start = reader.position();
        let num_entries = match reader.read_u16() {
            Ok(v) => v,
            Err(_) => { return Err(JP2Error::UnexpectedEof { offset: start as u64 }); },
        };
        let num_components = match reader.read_u8() {
            Ok(v) => v,
            Err(_) => { return Err(JP2Error::UnexpectedEof { offset: start as u64 }); },
        };
        self.num_entries = num_entries;
        self.num_components = num_components;

        let ghost p = old(reader).pos();
        let ghost s = old(reader).bytes();
        let ghost nc = num_components as int;
        let ghost ne = num_entries as int;
        let ghost base = p + 3 + nc;
        let ghost stride = pclr_prefix_width(s, p, nc);

        // One raw bit-depth byte per generated component.
        let mut components: Vec<GeneratedComponent> = Vec::new();
        let mut c: usize = 0;
        while c < num_components as usize
            invariant
                reader.inv(),
                reader.bytes() == s,
                s == old(reader).bytes(),
                p == old(reader).pos(),
                self.length == old(self).length,
                self.offset == old(self).offset,
                num_entries == be16(s, p),
                num_components == s[p + 2],
                p + 3 <= s.len(),
                nc == num_components as int,
                ne == num_entries as int,
                base == p + 3 + nc,
                stride == pclr_prefix_width(s, p, nc),
                c <= nc,
                components@.len() == c,
                reader.pos() == p + 3 + c,
                forall|j: int| 0 <= j < c ==> (#[trigger] components@[j]).bit_depth
                    == s[p + 3 + j] && components@[j].values@.len() == 0,
            decreases nc - c,
        {
            let d = match reader.read_u8() {
                Ok(v) => v,
                Err(_) => {
                    proof {
                        lemma_pclr_prefix_width_bounds(s, p, 0, nc);
                        assert(0 <= ne * stride) by (nonlinear_arith)
                            requires
                                0 <= ne,
                                0 <= stride,
                        ;
                    }
                    return Err(JP2Error::UnexpectedEof { offset: start as u64 });
                },
            };
            components.push(GeneratedComponent { bit_depth: d, values: Vec::new() });
            c = c + 1;
        }

        // The table values, entry by entry; each component's value takes
        // as many bytes as its depth needs.
        let mut e: usize = 0;
        while e < num_entries as usize
            invariant
                reader.inv(),
                reader.bytes() == s,
                s == old(reader).bytes(),
                p == old(reader).pos(),
                self.length == old(self).length,
                self.offset == old(self).offset,
                num_entries == be16(s, p),
                num_components == s[p + 2],
                p + 3 <= s.len(),
                nc == num_components as int,
                ne == num_entries as int,
                base == p + 3 + nc,
                stride == pclr_prefix_width(s, p, nc),
                e <= ne,
                components@.len() == nc,
                reader.pos() == base + e * stride,
                forall|j: int| 0 <= j < nc ==> (#[trigger] components@[j]).bit_depth
                    == s[p + 3 + j] && pclr_column_ok(
                        components@[j].values@,
                        s,
                        base + pclr_prefix_width(s, p, j),
                        stride,
                        pclr_value_width(s[p + 3 + j]),
                        e as int,
                    ),
            decreases ne - e,
        {
            let mut c2: usize = 0;
            while c2 < num_components as usize
                invariant
                    reader.inv(),
                    reader.bytes() == s,
                    s == old(reader).bytes(),
                    p == old(reader).pos(),
                    self.length == old(self).length,
                    self.offset == old(self).offset,
                    num_entries == be16(s, p),
                    num_components == s[p + 2],
                    p + 3 <= s.len(),
                    nc == num_components as int,
                    ne == num_entries as int,
                    base == p + 3 + nc,
                    stride == pclr_prefix_width(s, p, nc),
                    e < ne,
                    c2 <= nc,
                    components@.len() == nc,
                    reader.pos() == base + e * stride + pclr_prefix_width(s, p, c2 as int),
                    forall|j: int| 0 <= j < nc ==> (#[trigger] components@[j]).bit_depth
                        == s[p + 3 + j],
                    forall|j: int| c2 <= j < nc ==> pclr_column_ok(
                        (#[trigger] components@[j]).values@,
                        s,
                        base + pclr_prefix_width(s, p, j),
                        stride,
                        pclr_value_width(s[p + 3 + j]),
                        e as int,
                    ),
                    forall|j: int| 0 <= j < c2 ==> pclr_column_ok(
                        (#[trigger] components@[j]).values@,
                        s,
                        base + pclr_prefix_width(s, p, j),
                        stride,
                        pclr_value_width(s[p + 3 + j]),
                        e + 1,
                    ),
                decreases nc - c2,
            {
                let width = components[c2].bit_depth % 128 / 8 + 1;
                proof {
                    assert(width == pclr_value_width(s[p + 3 + c2]));
                    lemma_pclr_prefix_width_bounds(s, p, c2 + 1, nc);
                    assert((e + 1) * stride <= ne * stride
                        && (e + 1) * stride == e * stride + stride)
                        by (nonlinear_arith)
                        requires
                            0 <= stride,
                            0 <= e,
                            e + 1 <= ne,
                    ;
                }
                let mut chunk = match reader.read_bytes(width as usize) {
                    Ok(v) => v,
                    Err(_) => { return Err(JP2Error::UnexpectedEof { offset: start as u64 }); },
                };
                let ghost w = pclr_value_width(s[p + 3 + c2]);
                let ghost old_vals = components@[c2 as int].values@;
                components[c2].values.append(&mut chunk);
                proof {
                    let vals = components@[c2 as int].values@;
                    let vstart = base + pclr_prefix_width(s, p, c2 as int);
                    assert(vals.len() == e * w + w) by (nonlinear_arith)
                        requires
                            vals.len() == old_vals.len() + w,
                            old_vals.len() == e * w,
                    ;
                    assert((e + 1) * w == e * w + w) by (nonlinear_arith);
                    assert forall|j: int| 0 <= j < e + 1 implies
                        #[trigger] vals.subrange(j * w, j * w + w)
                        == s.subrange(vstart + j * stride, vstart + j * stride + w) by {
                        assert(j * w + w <= e * w + w && j * w >= 0) by (nonlinear_arith)
                            requires
                                0 <= j <= e,
                                0 <= w,
                        ;
                        if j < e {
                            assert(j * w + w <= e * w) by (nonlinear_arith)
                                requires
                                    j + 1 <= e,
                                    0 <= w,
                            ;
                            assert(vals.subrange(j * w, j * w + w)
                                =~= old_vals.subrange(j * w, j * w + w));
                        } else {
                            assert(vals.subrange(j * w, j * w + w)
                                =~= s.subrange(vstart + j * stride, vstart + j * stride + w));
                        }
                    }
                    assert(pclr_column_ok(vals, s, vstart, stride, w, e + 1));
                }
                c2 = c2 + 1;
            }
            proof {
                assert((e + 1) * stride == e * stride + stride) by (nonlinear_arith);
            }
            e = e + 1;
        }
        proof {
            lemma_pclr_prefix_width_bounds(s, p, 0, nc);
            assert(0 <= ne * stride) by (nonlinear_arith)
                requires
                    0 <= ne,
                    0 <= stride,
            ;
            assert(reader.pos() == base + ne * stride);
        }
        self.generated_components = components;
        Ok(())
    }
}

impl JBox for PaletteBox {
    open spec fn spec_identifier(&self) -> BoxType {
        BOX_TYPE_PALETTE
    }

    open spec fn spec_length(&self) -> u64 {
        self.length
    }

    open spec fn spec_offset(&self) -> u64 {
        self.offset
    }

    fn identifier(&self) -> BoxType {
        BOX_TYPE_PALETTE
    }

    fn length(&self) -> u64 {
        self.length
    }

    fn offset(&self) -> u64 {
        self.offset
    }
}

} // verus!

verus! {

/// Ten to the power `e`.
pub open spec fn pow10(e: nat) -> nat
    decreases e,
{
    if e == 0 {
        1
    } else {
        10 * pow10((e - 1) as nat)
    }
}

proof fn lemma_pow10_le(a: nat, b: nat)
    requires
        a <= b,
    ensures
        pow10(a) <= pow10(b),
    decreases b,
{
    if a < b {
        lemma_pow10_le(a, (b - 1) as nat);
        assert(pow10(b) == 10 * pow10((b - 1) as nat));
    }
}

/// Compute ten to the power `e`; the bound keeps the result within `u64`.
fn pow10_u64(e: u8) -> (r: u64)
    requires
        e <= 14,
    ensures
        r == pow10(e as nat),
{
    proof {
        reveal_with_fuel(pow10, 15);
        assert(pow10(14) == 0x5AF3107A4000);
    }
    let mut acc: u64 = 1;
    let mut i: u8 = 0;
    while i < e
        invariant
            i <= e,
            e <= 14,
            acc == pow10(i as nat),
        decreases e - i,
    {
        proof {
            lemma_pow10_le(i as nat + 1, 14);
            reveal_with_fuel(pow10, 15);
        }
        acc = acc * 10;
        i = i + 1;
    }
    acc
}

/// Capture Resolution box (`resc`): the grid resolution at which the
/// source was digitized, as a rational with a decimal exponent for each
/// axis.
#[derive(Debug, Default)]
pub struct CaptureResolutionBox {
    pub length: u64,
    pub offset: u64,
    pub vertical_capture_grid_resolution_numerator: u16,
    pub vertical_capture_grid_resolution_denominator: u16,
    pub horizontal_capture_grid_resolution_numerator: u16,
    pub horizontal_capture_grid_resolution_denominator: u16,
    pub vertical_capture_grid_resolution_exponent: u8,
    pub horizontal_capture_grid_resolution_exponent: u8,
}

impl CaptureResolutionBox {
    pub fn vertical_capture_grid_resolution_numerator(&self) -> (r: u16)
        ensures
            r == self.vertical_capture_grid_resolution_numerator,
    {
        self.vertical_capture_grid_resolution_numerator
    }

    pub fn vertical_capture_grid_resolution_denominator(&self) -> (r: u16)
        ensures
            r == self.vertical_capture_grid_resolution_denominator,
    {
        self.vertical_capture_grid_resolution_denominator
    }

    pub fn horizontal_capture_grid_resolution_numerator(&self) -> (r: u16)
        ensures
            r == self.horizontal_capture_grid_resolution_numerator,
    {
        self.horizontal_capture_grid_resolution_numerator
    }

    pub fn horizontal_capture_grid_resolution_denominator(&self) -> (r: u16)
        ensures
            r == self.horizontal_capture_grid_resolution_denominator,
    {
        self.horizontal_capture_grid_resolution_denominator
    }

    pub fn vertical_capture_grid_resolution_exponent(&self) -> (r: i8)
        ensures
            r == self.vertical_capture_grid_resolution_exponent as i8,
    {
        self.vertical_capture_grid_resolution_exponent as i8
    }

    pub fn horizontal_capture_grid_resolution_exponent(&self) -> (r: i8)
        ensures
            r == self.horizontal_capture_grid_resolution_exponent as i8,
    {
        self.horizontal_capture_grid_resolution_exponent as i8
    }

    /// Parse the fixed 10-byte payload.
    pub fn decode(&mut self, reader: &mut ByteReader) -> (r: Result<(), JP2Error>)
        requires
            old(reader).inv(),
        ensures
            final(reader).inv(),
            final(reader).bytes() == old(reader).bytes(),
            r matches Err(e) ==> e is UnexpectedEof,
            final(self).length == old(self).length,
            final(self).offset == old(self).offset,
            r is Ok <==> old(reader).pos() + 10 <= old(reader).bytes().len(),
            r is Ok ==> {
                let p = old(reader).pos();
                let s = old(reader).bytes();
                &&& final(reader).pos() == p + 10
                &&& final(self).vertical_capture_grid_resolution_numerator == be16(s, p)
                &&& final(self).vertical_capture_grid_resolution_denominator == be16(s, p + 2)
                &&& final(self).horizontal_capture_grid_resolution_numerator == be16(s, p + 4)
                &&& final(self).horizontal_capture_grid_resolution_denominator == be16(s, p + 6)
                &&& final(self).vertical_capture_grid_resolution_exponent == s[p + 8]
                &&& final(self).horizontal_capture_grid_resolution_exponent == s[p + 9]
            },
    {
        let start = reader.position();
        if reader.remaining() < 10 {
            return Err(JP2Error::UnexpectedEof { offset: start as u64 });
        }
        self.vertical_capture_grid_resolution_numerator = reader.read_u16().unwrap();
        self.vertical_capture_grid_resolution_denominator = reader.read_u16().unwrap();
        self.horizontal_capture_grid_resolution_numerator = reader.read_u16().unwrap();
        self.horizontal_capture_grid_resolution_denominator = reader.read_u16().unwrap();
        self.vertical_capture_grid_resolution_exponent = reader.read_u8().unwrap();
        self.horizontal_capture_grid_resolution_exponent = reader.read_u8().unwrap();
        Ok(())
    }
}

impl JBox for CaptureResolutionBox {
    open spec fn spec_identifier(&self) -> BoxType {
        BOX_TYPE_CAPTURE_RESOLUTION
    }

    open spec fn spec_length(&self) -> u64 {
        self.length
    }

    open spec fn spec_offset(&self) -> u64 {
        self.offset
    }

    fn identifier(&self) -> BoxType {
        BOX_TYPE_CAPTURE_RESOLUTION
    }

    fn length(&self) -> u64 {
        self.length
    }

    fn offset(&self) -> u64 {
        self.offset
    }
}

/// Default Display Resolution box (`resd`): the desired display grid
/// resolution, with the same layout as the capture box.
#[derive(Debug, Default)]
pub struct DefaultDisplayResolutionBox {
    pub length: u64,
    pub offset: u64,
    pub vertical_display_grid_resolution_numerator: u16,
    pub vertical_display_grid_resolution_denominator: u16,
    pub horizontal_display_grid_resolution_numerator: u16,
    pub horizontal_display_grid_resolution_denominator: u16,
    pub vertical_display_grid_resolution_exponent: u8,
    pub horizontal_display_grid_resolution_exponent: u8,
}

impl DefaultDisplayResolutionBox {
    pub fn vertical_display_grid_resolution_numerator(&self) -> (r: u16)
        ensures
            r == self.vertical_display_grid_resolution_numerator,
    {
        self.vertical_display_grid_resolution_numerator
    }

    pub fn vertical_display_grid_resolution_denominator(&self) -> (r: u16)
        ensures
            r == self.vertical_display_grid_resolution_denominator,
    {
        self.vertical_display_grid_resolution_denominator
    }

    pub fn horizontal_display_grid_resolution_numerator(&self) -> (r: u16)
        ensures
            r == self.horizontal_display_grid_resolution_numerator,
    {
        self.horizontal_display_grid_resolution_numerator
    }

    pub fn horizontal_display_grid_resolution_denominator(&self) -> (r: u16)
        ensures
            r == self.horizontal_display_grid_resolution_denominator,
    {
        self.horizontal_display_grid_resolution_denominator
    }

    pub fn vertical_display_grid_resolution_exponent(&self) -> (r: i8)
        ensures
            r == self.vertical_display_grid_resolution_exponent as i8,
    {
        self.vertical_display_grid_resolution_exponent as i8
    }

    pub fn horizontal_display_grid_resolution_exponent(&self) -> (r: i8)
        ensures
            r == self.horizontal_display_grid_resolution_exponent as i8,
    {
        self.horizontal_display_grid_resolution_exponent as i8
    }

    /// The vertical resolution in grid points per metre, `num / den *
    /// 10^exp`, in integer arithmetic; defined for the non-negative
    /// exponents that keep the product within `u64`.
    pub fn vertical_display_grid_resolution(&self) -> (r: u64)
        requires
            self.vertical_display_grid_resolution_denominator != 0,
            self.vertical_display_grid_resolution_exponent <= 14,
        ensures
            r == (self.vertical_display_grid_resolution_numerator as int
                / self.vertical_display_grid_resolution_denominator as int)
                * pow10(self.vertical_display_grid_resolution_exponent as nat),
    {
        let q: u64 = self.vertical_display_grid_resolution_numerator as u64
            / self.vertical_display_grid_resolution_denominator as u64;
        let p: u64 = pow10_u64(self.vertical_display_grid_resolution_exponent);
        proof {
            lemma_pow10_le(self.vertical_display_grid_resolution_exponent as nat, 14);
            reveal_with_fuel(pow10, 15);
            assert(q * p <= 0xFFFF * 0x5AF3107A4000) by (nonlinear_arith)
                requires
                    q <= 0xFFFF,
                    p <= 0x5AF3107A4000,
            ;
        }
        q * p
    }

    /// The horizontal resolution in grid points per metre, under the same
    /// conditions as the vertical one.
    pub fn horizontal_display_grid_resolution(&self) -> (r: u64)
        requires
            self.horizontal_display_grid_resolution_denominator != 0,
            self.horizontal_display_grid_resolution_exponent <= 14,
        ensures
            r == (self.horizontal_display_grid_resolution_numerator as int
                / self.horizontal_display_grid_resolution_denominator as int)
                * pow10(self.horizontal_display_grid_resolution_exponent as nat),
    {
        let q: u64 = self.horizontal_display_grid_resolution_numerator as u64
            / self.horizontal_display_grid_resolution_denominator as u64;
        let p: u64 = pow10_u64(self.horizontal_display_grid_resolution_exponent);
        proof {
            lemma_pow10_le(self.horizontal_display_grid_resolution_exponent as nat, 14);
            reveal_with_fuel(pow10, 15);
            assert(q * p <= 0xFFFF * 0x5AF3107A4000) by (nonlinear_arith)
                requires
                    q <= 0xFFFF,
                    p <= 0x5AF3107A4000,
            ;
        }
        q * p
    }

    /// Parse the fixed 10-byte payload.
    pub fn decode(&mut self, reader: &mut ByteReader) -> (r: Result<(), JP2Error>)
        requires
            old(reader).inv(),
        ensures
            final(reader).inv(),
            final(reader).bytes() == old(reader).bytes(),
            r matches Err(e) ==> e is UnexpectedEof,
            final(self).length == old(self).length,
            final(self).offset == old(self).offset,
            r is Ok <==> old(reader).pos() + 10 <= old(reader).bytes().len(),
            r is Ok ==> {
                let p = old(reader).pos();
                let s = old(reader).bytes();
                &&& final(reader).pos() == p + 10
                &&& final(self).vertical_display_grid_resolution_numerator == be16(s, p)
                &&& final(self).vertical_display_grid_resolution_denominator == be16(s, p + 2)
                &&& final(self).horizontal_display_grid_resolution_numerator == be16(s, p + 4)
                &&& final(self).horizontal_display_grid_resolution_denominator == be16(s, p + 6)
                &&& final(self).vertical_display_grid_resolution_exponent == s[p + 8]
                &&& final(self).horizontal_display_grid_resolution_exponent == s[p + 9]
            },
    {
        let start = reader.position();
        if reader.remaining() < 10 {
            return Err(JP2Error::UnexpectedEof { offset: start as u64 });
        }
        self.vertical_display_grid_resolution_numerator = reader.read_u16().unwrap();
        self.vertical_display_grid_resolution_denominator = reader.read_u16().unwrap();
        self.horizontal_display_grid_resolution_numerator = reader.read_u16().unwrap();
        self.horizontal_display_grid_resolution_denominator = reader.read_u16().unwrap();
        self.vertical_display_grid_resolution_exponent = reader.read_u8().unwrap();
        self.horizontal_display_grid_resolution_exponent = reader.read_u8().unwrap();
        Ok(())
    }
}

impl JBox for DefaultDisplayResolutionBox {
    open spec fn spec_identifier(&self) -> BoxType {
        BOX_TYPE_DEFAULT_DISPLAY_RESOLUTION
    }

    open spec fn spec_length(&self) -> u64 {
        self.length
    }

    open spec fn spec_offset(&self) -> u64 {
        self.offset
    }

    fn identifier(&self) -> BoxType {
        BOX_TYPE_DEFAULT_DISPLAY_RESOLUTION
    }

    fn length(&self) -> u64 {
        self.length
    }

    fn offset(&self) -> u64 {
        self.offset
    }
}

/// Resolution super-box (`res `): holds a Capture Resolution box, a
/// Default Display Resolution box, or both.
#[derive(Debug, Default)]
pub struct ResolutionSuperBox {
    pub length: u64,
    pub offset: u64,
    pub capture_resolution_box: Option<CaptureResolutionBox>,
    pub default_display_resolution_box: Option<DefaultDisplayResolutionBox>,
}

impl ResolutionSuperBox {
    pub fn capture_resolution_box(&self) -> (r: &Option<CaptureResolutionBox>)
        ensures
            r == &self.capture_resolution_box,
    {
        &self.capture_resolution_box
    }

    pub fn default_display_resolution_box(&self) -> (r: &Option<DefaultDisplayResolutionBox>)
        ensures
            r == &self.default_display_resolution_box,
    {
        &self.default_display_resolution_box
    }

    /// Parse the nested `resc` and `resd` boxes, at most one of each; any
    /// other box type ends the super-box (the reader is put back before its
    /// header). At least one of the two must be present.
    pub fn decode(&mut self, reader: &mut ByteReader) -> (r: Result<(), JP2Error>)
        requires
            old(reader).inv(),
            old(self).capture_resolution_box is None,
            old(self).default_display_resolution_box is None,
        ensures
            final(reader).inv(),
            final(reader).bytes() == old(reader).bytes(),
            r matches Err(e) ==> (e is BoxUnexpected || e is BoxMalformed
                || e is UnexpectedEof),
            r matches Err(JP2Error::BoxUnexpected { box_type, .. })
                ==> (box_type == BOX_TYPE_CAPTURE_RESOLUTION
                    || box_type == BOX_TYPE_DEFAULT_DISPLAY_RESOLUTION),
            final(self).length == old(self).length,
            final(self).offset == old(self).offset,
            r is Ok ==> final(self).capture_resolution_box is Some
                || final(self).default_display_resolution_box is Some,
            r is Ok ==> resolution_children_match_bytes(*final(self), old(reader).bytes()),
            r is Ok ==> final(reader).pos() >= old(reader).pos(),
            res_single_capture_form(old(reader).bytes(), old(reader).pos()) ==> r is Ok
                && final(self).capture_resolution_box is Some,
            res_dup_capture_form(old(reader).bytes(), old(reader).pos())
                ==> (r matches Err(JP2Error::BoxUnexpected { box_type, .. })
                    && box_type == BOX_TYPE_CAPTURE_RESOLUTION),
            box_header_parse_ok(old(reader).bytes(), old(reader).pos())
                && be32(old(reader).bytes(), old(reader).pos() + 4)
                    == BOX_TYPE_CONTIGUOUS_CODESTREAM
                ==> (r matches Err(JP2Error::BoxMalformed { box_type, offset })
                    && box_type == BOX_TYPE_RESOLUTION && offset == old(self).offset),
    {
        loop
            invariant
                reader.inv(),
                reader.bytes() == old(reader).bytes(),
                self.length == old(self).length,
                self.offset == old(self).offset,
                reader.pos() >= old(reader).pos(),
                resolution_children_match_bytes(*self, old(reader).bytes()),
                res_single_capture_form(old(reader).bytes(), old(reader).pos()) ==> (
                    reader.pos() == old(reader).pos()
                        && self.capture_resolution_box is None
                        && self.default_display_resolution_box is None) || (
                    reader.pos() == old(reader).pos() + 18
                        && self.capture_resolution_box is Some
                        && self.default_display_resolution_box is None),
                res_dup_capture_form(old(reader).bytes(), old(reader).pos()) ==> (
                    reader.pos() == old(reader).pos()
                        && self.capture_resolution_box is None
                        && self.default_display_resolution_box is None) || (
                    reader.pos() == old(reader).pos() + 18
                        && self.capture_resolution_box is Some
                        && self.default_display_resolution_box is None),
                box_header_parse_ok(old(reader).bytes(), old(reader).pos())
                    && be32(old(reader).bytes(), old(reader).pos() + 4)
                        == BOX_TYPE_CONTIGUOUS_CODESTREAM
                    ==> reader.pos() == old(reader).pos()
                        && self.capture_resolution_box is None
                        && self.default_display_resolution_box is None,
            ensures
                reader.inv(),
                reader.bytes() == old(reader).bytes(),
                self.length == old(self).length,
                self.offset == old(self).offset,
                reader.pos() >= old(reader).pos(),
                resolution_children_match_bytes(*self, old(reader).bytes()),
                res_single_capture_form(old(reader).bytes(), old(reader).pos())
                    ==> self.capture_resolution_box is Some,
                !res_dup_capture_form(old(reader).bytes(), old(reader).pos()),
                box_header_parse_ok(old(reader).bytes(), old(reader).pos())
                    && be32(old(reader).bytes(), old(reader).pos() + 4)
                        == BOX_TYPE_CONTIGUOUS_CODESTREAM
                    ==> self.capture_resolution_box is None
                        && self.default_display_resolution_box is None,
            decreases old(reader).bytes().len() - reader.pos(),
        {
            let header = match decode_box_header(reader) {
                Ok(h) => h,
                Err(e) => { return Err(e); },
            };

            if header.box_type == BOX_TYPE_CAPTURE_RESOLUTION {
                if self.capture_resolution_box.is_some() {
                    return Err(JP2Error::BoxUnexpected {
                        box_type: BOX_TYPE_CAPTURE_RESOLUTION,
                        offset: reader.position() as u64,
                    });
                }
                let mut capture = CaptureResolutionBox {
                    length: header.box_length,
                    offset: reader.position() as u64,
                    vertical_capture_grid_resolution_numerator: 0,
                    vertical_capture_grid_resolution_denominator: 0,
                    horizontal_capture_grid_resolution_numerator: 0,
                    horizontal_capture_grid_resolution_denominator: 0,
                    vertical_capture_grid_resolution_exponent: 0,
                    horizontal_capture_grid_resolution_exponent: 0,
                };
                match capture.decode(reader) {
                    Ok(()) => {},
                    Err(e) => { return Err(e); },
                }
                self.capture_resolution_box = Some(capture);
            } else if header.box_type == BOX_TYPE_DEFAULT_DISPLAY_RESOLUTION {
                if self.default_display_resolution_box.is_some() {
                    return Err(JP2Error::BoxUnexpected {
                        box_type: BOX_TYPE_DEFAULT_DISPLAY_RESOLUTION,
                        offset: reader.position() as u64,
                    });
                }
                let mut display = DefaultDisplayResolutionBox {
                    length: header.box_length,
                    offset: reader.position() as u64,
                    vertical_display_grid_resolution_numerator: 0,
                    vertical_display_grid_resolution_denominator: 0,
                    horizontal_display_grid_resolution_numerator: 0,
                    horizontal_display_grid_resolution_denominator: 0,
                    vertical_display_grid_resolution_exponent: 0,
                    horizontal_display_grid_resolution_exponent: 0,
                };
                match display.decode(reader) {
                    Ok(()) => {},
                    Err(e) => { return Err(e); },
                }
                self.default_display_resolution_box = Some(display);
            } else {
                // A box this super-box does not hold: put the header back
                // and stop.
                reader.seek(reader.position() - header.header_length as usize);
                break;
            }
        }

        if self.capture_resolution_box.is_none() && self.default_display_resolution_box.is_none()
        {
            return Err(JP2Error::BoxMalformed {
                box_type: BOX_TYPE_RESOLUTION,
                offset: self.offset,
            });
        }
        Ok(())
    }
}

impl JBox for ResolutionSuperBox {
    open spec fn spec_identifier(&self) -> BoxType {
        BOX_TYPE_RESOLUTION
    }

    open spec fn spec_length(&self) -> u64 {
        self.length
    }

    open spec fn spec_offset(&self) -> u64 {
        self.offset
    }

    fn identifier(&self) -> BoxType {
        BOX_TYPE_RESOLUTION
    }

    fn length(&self) -> u64 {
        self.length
    }

    fn offset(&self) -> u64 {
        self.offset
    }
}

} // verus!

verus! {

/// Read a payload of `len` bytes given as a 64-bit box length.
fn read_payload(reader: &mut ByteReader, len: u64) -> (r: Result<Vec<u8>, JP2Error>)
    requires
        old(reader).inv(),
    ensures
        final(reader).inv(),
        final(reader).bytes() == old(reader).bytes(),
        r is Ok <==> old(reader).pos() + len <= old(reader).bytes().len(),
        r is Ok ==> final(reader).pos() == old(reader).pos() + len
            && r->Ok_0@ == old(reader).bytes().subrange(
                old(reader).pos(),
                old(reader).pos() + len,
            ),
        r is Err ==> final(reader).pos() == old(reader).pos(),
        r matches Err(e) ==> e is UnexpectedEof,
{
    if len > reader.remaining() as u64 {
        return Err(JP2Error::UnexpectedEof { offset: reader.position() as u64 });
    }
    match reader.read_bytes(len as usize) {
        Ok(v) => Ok(v),
        Err(_) => Err(JP2Error::UnexpectedEof { offset: reader.position() as u64 }),
    }
}

/// Relies on String::from_utf8: decodes the bytes as UTF-8, refusing
/// invalid sequences; ASCII bytes decode one character per byte.
#[verifier::external_body]
pub(crate) fn utf8_string(v: &Vec<u8>) -> (r: Option<String>)
    ensures
        (forall|i: int| 0 <= i < v@.len() ==> v@[i] < 128) ==> r is Some
            && r->0@.len() == v@.len()
            && (forall|i: int| 0 <= i < v@.len() ==> r->0@[i] == v@[i] as char),
{
    String::from_utf8(v.clone()).ok()
}

/// Intellectual Property box (`jp2i`): opaque rights information.
#[derive(Debug, Default)]
pub struct IntellectualPropertyBox {
    pub length: u64,
    pub offset: u64,
    pub data: Vec<u8>,
}

impl IntellectualPropertyBox {
    /// The payload as a UTF-8 string, where it is one; ASCII bytes
    /// decode one character per byte.
    pub fn format(&self) -> (r: Option<String>)
        ensures
            (forall|i: int| 0 <= i < self.data@.len() ==> self.data@[i] < 128) ==> r is Some
                && r->0@.len() == self.data@.len()
                && (forall|i: int| 0 <= i < self.data@.len() ==> r->0@[i]
                    == self.data@[i] as char),
    {
        utf8_string(&self.data)
    }

    /// Record the payload bytes.
    pub fn decode(&mut self, reader: &mut ByteReader) -> (r: Result<(), JP2Error>)
        requires
            old(reader).inv(),
        ensures
            final(reader).inv(),
            final(reader).bytes() == old(reader).bytes(),
            r matches Err(e) ==> e is UnexpectedEof,
            final(self).length == old(self).length,
            final(self).offset == old(self).offset,
            r is Ok <==> old(reader).pos() + old(self).length <= old(reader).bytes().len(),
            r is Ok ==> final(reader).pos() == old(reader).pos() + old(self).length
                && final(self).data@ == old(reader).bytes().subrange(
                    old(reader).pos(),
                    old(reader).pos() + old(self).length,
                ),
    {
        let data = match read_payload(reader, self.length) {
            Ok(v) => v,
            Err(e) => { return Err(e); },
        };
        self.data = data;
        Ok(())
    }
}

impl JBox for IntellectualPropertyBox {
    open spec fn spec_identifier(&self) -> BoxType {
        BOX_TYPE_INTELLECTUAL_PROPERTY
    }

    open spec fn spec_length(&self) -> u64 {
        self.length
    }

    open spec fn spec_offset(&self) -> u64 {
        self.offset
    }

    fn identifier(&self) -> BoxType {
        BOX_TYPE_INTELLECTUAL_PROPERTY
    }

    fn length(&self) -> u64 {
        self.length
    }

    fn offset(&self) -> u64 {
        self.offset
    }
}

/// XML box (`xml `): vendor-specific information in XML form.
#[derive(Debug, Default)]
pub struct XMLBox {
    pub length: u64,
    pub offset: u64,
    pub xml: Vec<u8>,
}

impl XMLBox {
    /// The payload as a UTF-8 string, where it is one; ASCII bytes
    /// decode one character per byte.
    pub fn format(&self) -> (r: Option<String>)
        ensures
            (forall|i: int| 0 <= i < self.xml@.len() ==> self.xml@[i] < 128) ==> r is Some
                && r->0@.len() == self.xml@.len()
                && (forall|i: int| 0 <= i < self.xml@.len() ==> r->0@[i]
                    == self.xml@[i] as char),
    {
        utf8_string(&self.xml)
    }

    /// Record the payload bytes.
    pub fn decode(&mut self, reader: &mut ByteReader) -> (r: Result<(), JP2Error>)
        requires
            old(reader).inv(),
        ensures
            final(reader).inv(),
            final(reader).bytes() == old(reader).bytes(),
            r matches Err(e) ==> e is UnexpectedEof,
            final(self).length == old(self).length,
            final(self).offset == old(self).offset,
            r is Ok <==> old(reader).pos() + old(self).length <= old(reader).bytes().len(),
            r is Ok ==> final(reader).pos() == old(reader).pos() + old(self).length
                && final(self).xml@ == old(reader).bytes().subrange(
                    old(reader).pos(),
                    old(reader).pos() + old(self).length,
                ),
    {
        let xml = match read_payload(reader, self.length) {
            Ok(v) => v,
            Err(e) => { return Err(e); },
        };
        self.xml = xml;
        Ok(())
    }
}

impl JBox for XMLBox {
    open spec fn spec_identifier(&self) -> BoxType {
        BOX_TYPE_XML
    }

    open spec fn spec_length(&self) -> u64 {
        self.length
    }

    open spec fn spec_offset(&self) -> u64 {
        self.offset
    }

    fn identifier(&self) -> BoxType {
        BOX_TYPE_XML
    }

    fn length(&self) -> u64 {
        self.length
    }

    fn offset(&self) -> u64 {
        self.offset
    }
}

/// UUID box (`uuid`): a 16-byte UUID naming the format of the vendor
/// bytes that follow.
#[derive(Debug, Default)]
pub struct UUIDBox {
    pub length: u64,
    pub offset: u64,
    pub uuid: Vec<u8>,
    pub data: Vec<u8>,
}

impl UUIDBox {
    /// The 16-byte UUID.
    pub fn uuid(&self) -> (r: &Vec<u8>)
        ensures
            r == &self.uuid,
    {
        &self.uuid
    }

    /// The vendor-specific payload after the UUID.
    pub fn data(&self) -> (r: &Vec<u8>)
        ensures
            r == &self.data,
    {
        &self.data
    }

    /// Read the 16-byte UUID, then the remaining payload.
    pub fn decode(&mut self, reader: &mut ByteReader) -> (r: Result<(), JP2Error>)
        requires
            old(reader).inv(),
            old(self).length >= 16,
        ensures
            final(reader).inv(),
            final(reader).bytes() == old(reader).bytes(),
            r matches Err(e) ==> e is UnexpectedEof,
            final(self).length == old(self).length,
            final(self).offset == old(self).offset,
            r is Ok <==> old(reader).pos() + old(self).length <= old(reader).bytes().len(),
            r is Ok ==> final(reader).pos() == old(reader).pos() + old(self).length
                && final(self).uuid@ == old(reader).bytes().subrange(
                    old(reader).pos(),
                    old(reader).pos() + 16,
                )
                && final(self).data@ == old(reader).bytes().subrange(
                    old(reader).pos() + 16,
                    old(reader).pos() + old(self).length,
                ),
    {
        let uuid = match read_payload(reader, 16) {
            Ok(v) => v,
            Err(e) => { return Err(e); },
        };
        let data = match read_payload(reader, self.length - 16) {
            Ok(v) => v,
            Err(e) => { return Err(e); },
        };
        self.uuid = uuid;
        self.data = data;
        Ok(())
    }
}

impl JBox for UUIDBox {
    open spec fn spec_identifier(&self) -> BoxType {
        BOX_TYPE_UUID
    }

    open spec fn spec_length(&self) -> u64 {
        self.length
    }

    open spec fn spec_offset(&self) -> u64 {
        self.offset
    }

    fn identifier(&self) -> BoxType {
        BOX_TYPE_UUID
    }

    fn length(&self) -> u64 {
        self.length
    }

    fn offset(&self) -> u64 {
        self.offset
    }
}

/// UUID List box (`ulst`): the UUIDs a UUID Info super-box describes.
#[derive(Debug, Default)]
pub struct UUIDListBox {
    pub length: u64,
    pub offset: u64,
    pub number_of_uuids: u16,
    pub ids: Vec<Vec<u8>>,
}

impl UUIDListBox {
    /// Read the 2-byte count, then that many 16-byte UUIDs.
    pub fn decode(&mut self, reader: &mut ByteReader) -> (r: Result<(), JP2Error>)
        requires
            old(reader).inv(),
        ensures
            final(reader).inv(),
            final(reader).bytes() == old(reader).bytes(),
            r matches Err(e) ==> e is UnexpectedEof,
            final(self).length == old(self).length,
            final(self).offset == old(self).offset,
            r is Ok ==> {
                let p = old(reader).pos();
                let s = old(reader).bytes();
                let n = be16(s, p);
                &&& p + 2 <= s.len()
                &&& final(self).number_of_uuids == n
                &&& final(self).ids@.len() == n
                &&& forall|i: int| 0 <= i < n ==> (#[trigger] final(self).ids@[i])@
                        == s.subrange(p + 2 + 16 * i, p + 2 + 16 * (i + 1))
                &&& final(reader).pos() == p + 2 + 16 * n
            },
            r is Ok <==> old(reader).pos() + 2 <= old(reader).bytes().len()
                && old(reader).pos() + 2 + 16 * be16(old(reader).bytes(), old(reader).pos())
                    <= old(reader).bytes().len(),
    {
        let start = reader.position();
        let n = match reader.read_u16() {
            Ok(v) => v,
            Err(_) => { return Err(JP2Error::UnexpectedEof { offset: start as u64 }); },
        };
        self.number_of_uuids = n;
        let mut ids: Vec<Vec<u8>> = Vec::new();
        let mut i: u16 = 0;
        while i < n
            invariant
                reader.inv(),
                reader.bytes() == old(reader).bytes(),
                self.length == old(self).length,
                self.offset == old(self).offset,
                self.number_of_uuids == n,
                n == be16(old(reader).bytes(), old(reader).pos()),
                i <= n,
                ids@.len() == i,
                reader.pos() == old(reader).pos() + 2 + 16 * i,
                forall|j: int| 0 <= j < i ==> (#[trigger] ids@[j])@
                    == old(reader).bytes().subrange(
                        old(reader).pos() + 2 + 16 * j,
                        old(reader).pos() + 2 + 16 * (j + 1),
                    ),
            decreases n - i,
        {
            let id = match reader.read_bytes(16) {
                Ok(v) => v,
                Err(_) => { return Err(JP2Error::UnexpectedEof { offset: start as u64 }); },
            };
            ids.push(id);
            i = i + 1;
        }
        self.ids = ids;
        Ok(())
    }
}

impl JBox for UUIDListBox {
    open spec fn spec_identifier(&self) -> BoxType {
        BOX_TYPE_UUID_LIST
    }

    open spec fn spec_length(&self) -> u64 {
        self.length
    }

    open spec fn spec_offset(&self) -> u64 {
        self.offset
    }

    fn identifier(&self) -> BoxType {
        BOX_TYPE_UUID_LIST
    }

    fn length(&self) -> u64 {
        self.length
    }

    fn offset(&self) -> u64 {
        self.offset
    }
}

/// Data Entry URL box (`url `): where to learn more about the UUIDs of
/// the same UUID Info super-box.
#[derive(Debug, Default)]
pub struct DataEntryURLBox {
    pub length: u64,
    pub offset: u64,
    pub version: u8,
    pub flags: u32,
    pub location: Vec<u8>,
}

impl DataEntryURLBox {
    /// Read the version byte, the 3 flag bytes, and the URL, whose size
    /// derives from the box length.
    pub fn decode(&mut self, reader: &mut ByteReader) -> (r: Result<(), JP2Error>)
        requires
            old(reader).inv(),
            old(self).length >= 4,
        ensures
            final(reader).inv(),
            final(reader).bytes() == old(reader).bytes(),
            r matches Err(e) ==> e is UnexpectedEof,
            final(self).length == old(self).length,
            final(self).offset == old(self).offset,
            r is Ok <==> old(reader).pos() + old(self).length <= old(reader).bytes().len(),
            r is Ok ==> {
                let p = old(reader).pos();
                let s = old(reader).bytes();
                &&& final(self).version == s[p]
                &&& final(self).flags == s[p + 1] * 0x10000 + s[p + 2] * 0x100 + s[p + 3]
                &&& final(self).location@ == s.subrange(p + 4, p + old(self).length)
                &&& final(reader).pos() == p + old(self).length
            },
    {
        let start = reader.position();
        if (reader.remaining() as u64) < self.length {
            return Err(JP2Error::UnexpectedEof { offset: start as u64 });
        }
        self.version = reader.read_u8().unwrap();
        let f0 = reader.read_u8().unwrap();
        let f1 = reader.read_u8().unwrap();
        let f2 = reader.read_u8().unwrap();
        self.flags = (f0 as u32) * 0x10000 + (f1 as u32) * 0x100 + (f2 as u32);
        let location = match read_payload(reader, self.length - 4) {
            Ok(v) => v,
            Err(e) => { return Err(e); },
        };
        self.location = location;
        Ok(())
    }
}

impl JBox for DataEntryURLBox {
    open spec fn spec_identifier(&self) -> BoxType {
        BOX_TYPE_DATA_ENTRY_URL
    }

    open spec fn spec_length(&self) -> u64 {
        self.length
    }

    open spec fn spec_offset(&self) -> u64 {
        self.offset
    }

    fn identifier(&self) -> BoxType {
        BOX_TYPE_DATA_ENTRY_URL
    }

    fn length(&self) -> u64 {
        self.length
    }

    fn offset(&self) -> u64 {
        self.offset
    }
}

/// UUID Info super-box (`uinf`): groups one UUID List box with one Data
/// Entry URL box; the children follow as sibling boxes and are attached by
/// the top-level walk.
#[derive(Debug, Default)]
pub struct UUIDInfoSuperBox {
    pub length: u64,
    pub offset: u64,
    pub uuid_list: Vec<UUIDListBox>,
    pub data_entry_url_box: Vec<DataEntryURLBox>,
}

impl UUIDInfoSuperBox {
    /// The super-box has no payload of its own to read.
    pub fn decode(&mut self, reader: &mut ByteReader) -> (r: Result<(), JP2Error>)
        requires
            old(reader).inv(),
        ensures
            final(reader).inv(),
            final(reader).bytes() == old(reader).bytes(),
            final(reader).pos() == old(reader).pos(),
            *final(self) == *old(self),
            r is Ok,
    {
        Ok(())
    }
}

impl JBox for UUIDInfoSuperBox {
    open spec fn spec_identifier(&self) -> BoxType {
        BOX_TYPE_UUID_INFO
    }

    open spec fn spec_length(&self) -> u64 {
        self.length
    }

    open spec fn spec_offset(&self) -> u64 {
        self.offset
    }

    fn identifier(&self) -> BoxType {
        BOX_TYPE_UUID_INFO
    }

    fn length(&self) -> u64 {
        self.length
    }

    fn offset(&self) -> u64 {
        self.offset
    }
}

/// Contiguous Codestream box (`jp2c`): the compressed image payload. The
/// box parser records where it lies and skips over it; the codestream
/// parser reads it separately.
#[derive(Debug, Default)]
pub struct ContiguousCodestreamBox {
    pub length: u64,
    pub offset: u64,
}

impl ContiguousCodestreamBox {
    /// Skip the payload. A stored length of 0 means the payload runs to
    /// the end of the file, and the real length is recorded; a stored
    /// length that passes the end of the buffer is clipped to it, and the
    /// walk ends at the following read.
    pub fn decode(&mut self, reader: &mut ByteReader) -> (r: Result<(), JP2Error>)
        requires
            old(reader).inv(),
            old(self).offset == old(reader).pos(),
        ensures
            final(reader).inv(),
            final(reader).bytes() == old(reader).bytes(),
            final(self).offset == old(self).offset,
            r is Ok,
            old(self).length == 0 ==> final(reader).pos() == old(reader).bytes().len()
                && final(self).length == old(reader).bytes().len() - old(self).offset,
            old(self).length != 0 ==> final(self).length == old(self).length
                && final(reader).pos() == if old(self).offset + old(self).length
                        <= old(reader).bytes().len() {
                    old(self).offset + old(self).length
                } else {
                    old(reader).bytes().len() as int
                },
    {
        if self.length == 0 {
            let end = reader.len();
            reader.seek(end);
            self.length = end as u64 - self.offset;
        } else {
            let rem = reader.remaining();
            if self.length <= rem as u64 {
                reader.skip(self.length as usize).unwrap();
            } else {
                let end = reader.len();
                reader.seek(end);
            }
        }
        Ok(())
    }
}

impl JBox for ContiguousCodestreamBox {
    open spec fn spec_identifier(&self) -> BoxType {
        BOX_TYPE_CONTIGUOUS_CODESTREAM
    }

    open spec fn spec_length(&self) -> u64 {
        self.length
    }

    open spec fn spec_offset(&self) -> u64 {
        self.offset
    }

    fn identifier(&self) -> BoxType {
        BOX_TYPE_CONTIGUOUS_CODESTREAM
    }

    fn length(&self) -> u64 {
        self.length
    }

    fn offset(&self) -> u64 {
        self.offset
    }
}

} // verus!

verus! {

/// Skip a payload of `len` bytes given as a 64-bit box length.
fn skip_payload(reader: &mut ByteReader, len: u64) -> (r: Result<(), JP2Error>)
    requires
        old(reader).inv(),
    ensures
        final(reader).inv(),
        final(reader).bytes() == old(reader).bytes(),
        r is Ok <==> old(reader).pos() + len <= old(reader).bytes().len(),
        r is Ok ==> final(reader).pos() == old(reader).pos() + len,
        r is Err ==> final(reader).pos() == old(reader).pos(),
        r matches Err(e) ==> e is UnexpectedEof,
{
    if len > reader.remaining() as u64 {
        return Err(JP2Error::UnexpectedEof { offset: reader.position() as u64 });
    }
    match reader.skip(len as usize) {
        Ok(()) => Ok(()),
        Err(_) => Err(JP2Error::UnexpectedEof { offset: reader.position() as u64 }),
    }
}

/// Whether `t` is one of the box type codes this crate knows.
fn is_known_box_type(t: BoxType) -> (r: bool)
    ensures
        r == (t == BOX_TYPE_SIGNATURE || t == BOX_TYPE_FILE_TYPE || t == BOX_TYPE_HEADER
            || t == BOX_TYPE_IMAGE_HEADER || t == BOX_TYPE_BITS_PER_COMPONENT
            || t == BOX_TYPE_COLOUR_SPECIFICATION || t == BOX_TYPE_PALETTE
            || t == BOX_TYPE_COMPONENT_MAPPING || t == BOX_TYPE_CHANNEL_DEFINITION
            || t == BOX_TYPE_RESOLUTION || t == BOX_TYPE_CAPTURE_RESOLUTION
            || t == BOX_TYPE_DEFAULT_DISPLAY_RESOLUTION || t == BOX_TYPE_CONTIGUOUS_CODESTREAM
            || t == BOX_TYPE_INTELLECTUAL_PROPERTY || t == BOX_TYPE_XML || t == BOX_TYPE_UUID
            || t == BOX_TYPE_UUID_INFO || t == BOX_TYPE_UUID_LIST
            || t == BOX_TYPE_DATA_ENTRY_URL),
{
    t == BOX_TYPE_SIGNATURE || t == BOX_TYPE_FILE_TYPE || t == BOX_TYPE_HEADER
        || t == BOX_TYPE_IMAGE_HEADER || t == BOX_TYPE_BITS_PER_COMPONENT
        || t == BOX_TYPE_COLOUR_SPECIFICATION || t == BOX_TYPE_PALETTE
        || t == BOX_TYPE_COMPONENT_MAPPING || t == BOX_TYPE_CHANNEL_DEFINITION
        || t == BOX_TYPE_RESOLUTION || t == BOX_TYPE_CAPTURE_RESOLUTION
        || t == BOX_TYPE_DEFAULT_DISPLAY_RESOLUTION || t == BOX_TYPE_CONTIGUOUS_CODESTREAM
        || t == BOX_TYPE_INTELLECTUAL_PROPERTY || t == BOX_TYPE_XML || t == BOX_TYPE_UUID
        || t == BOX_TYPE_UUID_INFO || t == BOX_TYPE_UUID_LIST || t == BOX_TYPE_DATA_ENTRY_URL
}

/// JP2 Header super-box (`jp2h`): generic information about the file. The
/// Image Header box comes first; the other children may follow in any
/// order, each at most once except the Colour Specification boxes, of
/// which at least one must be present. A Bits Per Component box is
/// present exactly when the Image Header box carries the 255 depth
/// sentinel, and the Palette and Component Mapping boxes are present or
/// absent together.
#[derive(Debug, Default)]
pub struct HeaderSuperBox {
    pub length: u64,
    pub offset: u64,
    pub image_header_box: ImageHeaderBox,
    pub bits_per_component_box: Option<BitsPerComponentBox>,
    pub colour_specification_boxes: Vec<ColourSpecificationBox>,
    pub palette_box: Option<PaletteBox>,
    pub component_mapping_box: Option<ComponentMappingBox>,
    pub channel_definition_box: Option<ChannelDefinitionBox>,
    pub resolution_box: Option<ResolutionSuperBox>,
}

/// The structural facts every decoded JP2 Header super-box satisfies: at
/// least one Colour Specification box; the Image Header box before every
/// other child; a Bits Per Component box exactly when the depth byte is
/// the 255 sentinel; the Palette and Component Mapping boxes together or
/// not at all.
pub open spec fn header_super_box_wf(h: HeaderSuperBox) -> bool {
    &&& h.colour_specification_boxes@.len() >= 1
    &&& (h.bits_per_component_box is Some <==> h.image_header_box.components_bits == 255)
    &&& (h.component_mapping_box is Some <==> h.palette_box is Some)
    &&& h.image_header_box.offset >= h.offset + 8
    &&& forall|i: int| 0 <= i < h.colour_specification_boxes@.len() ==>
            (#[trigger] h.colour_specification_boxes@[i]).offset > h.image_header_box.offset
    &&& (h.bits_per_component_box matches Some(b) ==> b.offset > h.image_header_box.offset)
    &&& (h.palette_box matches Some(b) ==> b.offset > h.image_header_box.offset)
    &&& (h.component_mapping_box matches Some(b) ==> b.offset > h.image_header_box.offset)
    &&& (h.channel_definition_box matches Some(b) ==> b.offset > h.image_header_box.offset)
    &&& (h.resolution_box matches Some(b) ==> b.offset > h.image_header_box.offset)
}

impl HeaderSuperBox {
    /// Parse the children: the mandatory leading Image Header box, then
    /// siblings until an unknown type (ignored, ending the walk) or a
    /// recognised top-level type (put back for the caller). A second
    /// Image Header box is skipped; duplicates of the single-occurrence
    /// children are rejected; the invariants described on
    /// [`header_super_box_wf`] are enforced.
    pub fn decode(&mut self, reader: &mut ByteReader) -> (r: Result<(), JP2Error>)
        requires
            old(reader).inv(),
            old(reader).pos() == old(self).offset,
            old(self).colour_specification_boxes@.len() == 0,
            old(self).bits_per_component_box is None,
            old(self).palette_box is None,
            old(self).component_mapping_box is None,
            old(self).channel_definition_box is None,
            old(self).resolution_box is None,
        ensures
            final(reader).inv(),
            final(reader).bytes() == old(reader).bytes(),
            r matches Err(e) ==> box_walk_error(e),
            final(self).length == old(self).length,
            final(self).offset == old(self).offset,
            r is Ok ==> header_super_box_wf(*final(self)),
            r is Ok ==> header_children_match_bytes(*final(self), old(reader).bytes()),
            !(r matches Err(JP2Error::BoxMissing { .. })),
            jp2h_minimal_form(old(reader).bytes(), old(reader).pos()) ==> r is Ok
                && final(reader).pos() == old(reader).pos() + 37,
            r matches Err(JP2Error::BoxUnexpected { box_type, .. }) ==> ({
                let s = old(reader).bytes();
                let p = old(reader).pos();
                ||| box_type == be32(s, p + 4) && box_type != BOX_TYPE_IMAGE_HEADER
                ||| box_type == BOX_TYPE_CAPTURE_RESOLUTION
                ||| box_type == BOX_TYPE_DEFAULT_DISPLAY_RESOLUTION
            }),
            box_header_parse_ok(old(reader).bytes(), old(reader).pos())
                && be32(old(reader).bytes(), old(reader).pos() + 4)
                    != BOX_TYPE_IMAGE_HEADER
                ==> (r matches Err(JP2Error::BoxUnexpected { box_type, .. })
                    && box_type == be32(old(reader).bytes(), old(reader).pos() + 4)),
            jp2h_no_colr_form(old(reader).bytes(), old(reader).pos())
                ==> (r matches Err(JP2Error::BoxMalformed { box_type, .. })
                    && box_type == BOX_TYPE_IMAGE_HEADER),
            jp2h_dup_cdef_form(old(reader).bytes(), old(reader).pos())
                ==> (r matches Err(JP2Error::BoxDuplicate { box_type, .. })
                    && box_type == BOX_TYPE_CHANNEL_DEFINITION),
            r matches Err(JP2Error::BoxDuplicate { box_type, .. })
                ==> (box_type == BOX_TYPE_BITS_PER_COMPONENT || box_type == BOX_TYPE_PALETTE
                    || box_type == BOX_TYPE_COMPONENT_MAPPING
                    || box_type == BOX_TYPE_CHANNEL_DEFINITION
                    || box_type == BOX_TYPE_RESOLUTION),
            r is Ok ==> final(reader).pos() > old(reader).pos(),
    {
        let header = match decode_box_header(reader) {
            Ok(h) => h,
            Err(e) => { return Err(e); },
        };
        if header.box_type != BOX_TYPE_IMAGE_HEADER {
            return Err(JP2Error::BoxUnexpected {
                box_type: header.box_type,
                offset: reader.position() as u64,
            });
        }
        self.image_header_box.length = header.box_length;
        self.image_header_box.offset = reader.position() as u64;
        match self.image_header_box.decode(reader) {
            Ok(()) => {},
            Err(e) => { return Err(e); },
        }

        let ghost ihdr0 = self.image_header_box;
        let ghost ihdr_end = reader.pos();
        loop
            invariant
                reader.inv(),
                reader.bytes() == old(reader).bytes(),
                self.length == old(self).length,
                self.offset == old(self).offset,
                self.image_header_box == ihdr0,
                ihdr0.offset == old(self).offset + 8 || ihdr0.offset == old(self).offset + 16,
                ihdr_end == ihdr0.offset + 14,
                reader.pos() >= ihdr_end,
                forall|i: int| 0 <= i < self.colour_specification_boxes@.len() ==>
                    (#[trigger] self.colour_specification_boxes@[i]).offset
                        > self.image_header_box.offset,
                self.bits_per_component_box matches Some(b) ==> b.offset > ihdr0.offset,
                self.palette_box matches Some(b) ==> b.offset > ihdr0.offset,
                self.component_mapping_box matches Some(b) ==> b.offset > ihdr0.offset,
                self.channel_definition_box matches Some(b) ==> b.offset > ihdr0.offset,
                self.resolution_box matches Some(b) ==> b.offset > ihdr0.offset,
                header_children_match_bytes(*self, old(reader).bytes()),
                jp2h_minimal_form(old(reader).bytes(), old(reader).pos()) ==> (
                    reader.pos() == old(reader).pos() + 22
                        && self.colour_specification_boxes@.len() == 0
                        && self.bits_per_component_box is None && self.palette_box is None
                        && self.component_mapping_box is None
                        && self.channel_definition_box is None && self.resolution_box is None
                        && ihdr0.offset == old(reader).pos() + 8) || (
                    reader.pos() == old(reader).pos() + 37
                        && self.colour_specification_boxes@.len() == 1
                        && self.bits_per_component_box is None && self.palette_box is None
                        && self.component_mapping_box is None
                        && self.channel_definition_box is None && self.resolution_box is None
                        && ihdr0.offset == old(reader).pos() + 8),
                jp2h_no_colr_form(old(reader).bytes(), old(reader).pos())
                    ==> reader.pos() == old(reader).pos() + 22
                        && self.colour_specification_boxes@.len() == 0,
                jp2h_dup_cdef_form(old(reader).bytes(), old(reader).pos()) ==> (
                    reader.pos() == old(reader).pos() + 22
                        && self.channel_definition_box is None) || (
                    reader.pos() == old(reader).pos() + 37
                        && self.channel_definition_box is None) || (
                    reader.pos() == old(reader).pos() + 47
                        && self.channel_definition_box is Some),
                be32(old(reader).bytes(), old(reader).pos() + 4) == BOX_TYPE_IMAGE_HEADER,
            ensures
                reader.inv(),
                reader.bytes() == old(reader).bytes(),
                self.length == old(self).length,
                self.offset == old(self).offset,
                self.image_header_box == ihdr0,
                reader.pos() >= ihdr_end,
                forall|i: int| 0 <= i < self.colour_specification_boxes@.len() ==>
                    (#[trigger] self.colour_specification_boxes@[i]).offset
                        > self.image_header_box.offset,
                self.bits_per_component_box matches Some(b) ==> b.offset > ihdr0.offset,
                self.palette_box matches Some(b) ==> b.offset > ihdr0.offset,
                self.component_mapping_box matches Some(b) ==> b.offset > ihdr0.offset,
                self.channel_definition_box matches Some(b) ==> b.offset > ihdr0.offset,
                self.resolution_box matches Some(b) ==> b.offset > ihdr0.offset,
                header_children_match_bytes(*self, old(reader).bytes()),
                jp2h_minimal_form(old(reader).bytes(), old(reader).pos()) ==> (
                    reader.pos() == old(reader).pos() + 37
                        && self.colour_specification_boxes@.len() == 1
                        && self.bits_per_component_box is None && self.palette_box is None
                        && self.component_mapping_box is None
                        && ihdr0.offset == old(reader).pos() + 8),
                jp2h_no_colr_form(old(reader).bytes(), old(reader).pos())
                    ==> self.colour_specification_boxes@.len() == 0,
                !jp2h_dup_cdef_form(old(reader).bytes(), old(reader).pos()),
            decreases old(reader).bytes().len() - reader.pos(),
        {
            let header = match decode_box_header(reader) {
                Ok(h) => h,
                Err(e) => { return Err(e); },
            };
            let child_offset = reader.position() as u64;

            if header.box_type == BOX_TYPE_IMAGE_HEADER {
                // A later Image Header box is ignored, per the standard.
                match skip_payload(reader, header.box_length) {
                    Ok(()) => {},
                    Err(e) => { return Err(e); },
                }
            } else if header.box_type == BOX_TYPE_COLOUR_SPECIFICATION {
                if header.box_length < 3 {
                    return Err(JP2Error::BoxMalformed {
                        box_type: BOX_TYPE_COLOUR_SPECIFICATION,
                        offset: child_offset,
                    });
                }
                let mut colour = ColourSpecificationBox {
                    length: header.box_length,
                    offset: child_offset,
                    method: 0,
                    precedence: 0,
                    colourspace_approximation: 0,
                    enumerated_colour_space: ENUMERATED_COLOUR_SPACE_UNKNOWN,
                    restricted_icc_profile: Vec::new(),
                };
                match colour.decode(reader) {
                    Ok(()) => {},
                    Err(e) => { return Err(e); },
                }
                self.colour_specification_boxes.push(colour);
            } else if header.box_type == BOX_TYPE_BITS_PER_COMPONENT {
                if self.bits_per_component_box.is_some() {
                    return Err(JP2Error::BoxDuplicate {
                        box_type: BOX_TYPE_BITS_PER_COMPONENT,
                        offset: child_offset,
                    });
                }
                let mut bpc = BitsPerComponentBox {
                    length: header.box_length,
                    offset: child_offset,
                    components_num: self.image_header_box.components_num,
                    bits_per_component: Vec::new(),
                };
                match bpc.decode(reader) {
                    Ok(()) => {},
                    Err(e) => { return Err(e); },
                }
                self.bits_per_component_box = Some(bpc);
            } else if header.box_type == BOX_TYPE_PALETTE {
                if self.palette_box.is_some() {
                    return Err(JP2Error::BoxDuplicate {
                        box_type: BOX_TYPE_PALETTE,
                        offset: child_offset,
                    });
                }
                let mut palette = PaletteBox {
                    length: header.box_length,
                    offset: child_offset,
                    num_entries: 0,
                    num_components: 0,
                    generated_components: Vec::new(),
                };
                match palette.decode(reader) {
                    Ok(()) => {},
                    Err(e) => { return Err(e); },
                }
                self.palette_box = Some(palette);
            } else if header.box_type == BOX_TYPE_COMPONENT_MAPPING {
                if self.component_mapping_box.is_some() {
                    return Err(JP2Error::BoxDuplicate {
                        box_type: BOX_TYPE_COMPONENT_MAPPING,
                        offset: child_offset,
                    });
                }
                let mut mapping = ComponentMappingBox {
                    length: header.box_length,
                    offset: child_offset,
                    mapping: Vec::new(),
                };
                match mapping.decode(reader) {
                    Ok(()) => {},
                    Err(e) => { return Err(e); },
                }
                self.component_mapping_box = Some(mapping);
            } else if header.box_type == BOX_TYPE_CHANNEL_DEFINITION {
                if self.channel_definition_box.is_some() {
                    return Err(JP2Error::BoxDuplicate {
                        box_type: BOX_TYPE_CHANNEL_DEFINITION,
                        offset: child_offset,
                    });
                }
                let mut cdef = ChannelDefinitionBox {
                    length: header.box_length,
                    offset: child_offset,
                    channels: Vec::new(),
                };
                match cdef.decode(reader) {
                    Ok(()) => {},
                    Err(e) => { return Err(e); },
                }
                self.channel_definition_box = Some(cdef);
            } else if header.box_type == BOX_TYPE_RESOLUTION {
                if self.resolution_box.is_some() {
                    return Err(JP2Error::BoxDuplicate {
                        box_type: BOX_TYPE_RESOLUTION,
                        offset: child_offset,
                    });
                }
                let mut resolution = ResolutionSuperBox {
                    length: header.box_length,
                    offset: child_offset,
                    capture_resolution_box: None,
                    default_display_resolution_box: None,
                };
                match resolution.decode(reader) {
                    Ok(()) => {},
                    Err(e) => { return Err(e); },
                }
                self.resolution_box = Some(resolution);
            } else if is_known_box_type(header.box_type) {
                // End of the header, but a recognised top-level box: put
                // its header back for the caller.
                reader.seek(reader.position() - header.header_length as usize);
                break;
            } else {
                // An unknown box ends the walk.
                break;
            }
        }

        // At least one Colour Specification box must be present.
        if self.colour_specification_boxes.len() == 0 {
            return Err(JP2Error::BoxMalformed {
                box_type: BOX_TYPE_IMAGE_HEADER,
                offset: reader.position() as u64,
            });
        }
        // The Bits Per Component box stands in exactly when the Image
        // Header box defers to it with the 255 sentinel.
        if self.bits_per_component_box.is_some() != (self.image_header_box.components_bits == 255)
        {
            return Err(JP2Error::BoxMalformed {
                box_type: BOX_TYPE_BITS_PER_COMPONENT,
                offset: reader.position() as u64,
            });
        }
        // A palette is usable only through a component mapping, and the
        // mapping is meaningless without the palette: both or neither.
        if self.component_mapping_box.is_some() != self.palette_box.is_some() {
            return Err(JP2Error::BoxMalformed {
                box_type: BOX_TYPE_COMPONENT_MAPPING,
                offset: reader.position() as u64,
            });
        }
        Ok(())
    }
}

impl JBox for HeaderSuperBox {
    open spec fn spec_identifier(&self) -> BoxType {
        BOX_TYPE_HEADER
    }

    open spec fn spec_length(&self) -> u64 {
        self.length
    }

    open spec fn spec_offset(&self) -> u64 {
        self.offset
    }

    fn identifier(&self) -> BoxType {
        BOX_TYPE_HEADER
    }

    fn length(&self) -> u64 {
        self.length
    }

    fn offset(&self) -> u64 {
        self.offset
    }
}

} // verus!

verus! {

/// A fully decoded JP2 file: the box tree of one container.
#[derive(Debug)]
pub struct JP2File {
    pub length: u64,
    pub signature: Option<SignatureBox>,
    pub file_type: Option<FileTypeBox>,
    pub header: Option<HeaderSuperBox>,
    pub contiguous_codestreams: Vec<ContiguousCodestreamBox>,
    pub intellectual_property: Option<IntellectualPropertyBox>,
    pub xml: Vec<XMLBox>,
    pub uuid: Vec<UUIDBox>,
    pub uuid_info: Vec<UUIDInfoSuperBox>,
}

/// Every member of a UUID Info group was attached after the group's own
/// header was seen.
pub open spec fn uuid_group_members_after(g: UUIDInfoSuperBox) -> bool {
    &&& forall|m: int| 0 <= m < g.uuid_list@.len() ==> (#[trigger] g.uuid_list@[m]).offset
            > g.offset
    &&& forall|m: int| 0 <= m < g.data_entry_url_box@.len()
            ==> (#[trigger] g.data_entry_url_box@[m]).offset > g.offset
}

/// A UUID Info group whose header and members all lie before `bound`.
pub open spec fn uuid_group_before(g: UUIDInfoSuperBox, bound: int) -> bool {
    &&& g.offset < bound
    &&& forall|m: int| 0 <= m < g.uuid_list@.len() ==> (#[trigger] g.uuid_list@[m]).offset
            < bound
    &&& forall|m: int| 0 <= m < g.data_entry_url_box@.len()
            ==> (#[trigger] g.data_entry_url_box@[m]).offset < bound
}

/// The UUID Info groups in file order: each UUID List and Data Entry
/// URL box lies after its own group's header and before the next
/// group's, so each was attached to the group most recently opened.
pub open spec fn uuid_info_groups_wf(gs: Seq<UUIDInfoSuperBox>) -> bool {
    &&& forall|k: int| 0 <= k < gs.len() ==> uuid_group_members_after(#[trigger] gs[k])
    &&& forall|k: int| 0 <= k && k + 1 < gs.len() ==> uuid_group_before(
            #[trigger] gs[k],
            gs[k + 1].offset as int,
        )
}

/// Every Contiguous Codestream box lies after the Header super-box, which
/// must be present once any codestream is.
pub open spec fn codestreams_after_header(
    cs: Seq<ContiguousCodestreamBox>,
    h: Option<HeaderSuperBox>,
) -> bool {
    forall|i: int| 0 <= i < cs.len() ==> h is Some && (#[trigger] cs[i]).offset > h->0.offset
}

/// The structural facts every decoded JP2 file satisfies: exactly one
/// Signature box at the head, exactly one File Type box right after it,
/// a well-formed Header super-box when one was seen, and the Header
/// super-box before every Contiguous Codestream box.
pub open spec fn jp2_file_wf(f: JP2File) -> bool {
    &&& f.signature matches Some(sig) && sig.offset == 8 && sig.length == 12
    &&& f.file_type matches Some(ft) && ft.offset == 20
    &&& f.header matches Some(h) && h.offset > 16 && header_super_box_wf(h)
    &&& codestreams_after_header(f.contiguous_codestreams@, f.header)
}

impl JP2File {
    /// The byte length of the file that was decoded.
    pub fn length(&self) -> (r: u64)
        ensures
            r == self.length,
    {
        self.length
    }

    pub fn signature_box(&self) -> (r: &Option<SignatureBox>)
        ensures
            r == &self.signature,
    {
        &self.signature
    }

    pub fn file_type_box(&self) -> (r: &Option<FileTypeBox>)
        ensures
            r == &self.file_type,
    {
        &self.file_type
    }

    pub fn header_box(&self) -> (r: &Option<HeaderSuperBox>)
        ensures
            r == &self.header,
    {
        &self.header
    }

    pub fn contiguous_codestreams_boxes(&self) -> (r: &Vec<ContiguousCodestreamBox>)
        ensures
            r == &self.contiguous_codestreams,
    {
        &self.contiguous_codestreams
    }

    /// Intellectual property rights information, when the file carries
    /// any.
    pub fn intellectual_property_box(&self) -> (r: &Option<IntellectualPropertyBox>)
        ensures
            r == &self.intellectual_property,
    {
        &self.intellectual_property
    }

    pub fn xml_boxes(&self) -> (r: &Vec<XMLBox>)
        ensures
            r == &self.xml,
    {
        &self.xml
    }

    pub fn uuid_boxes(&self) -> (r: &Vec<UUIDBox>)
        ensures
            r == &self.uuid,
    {
        &self.uuid
    }

    /// The UUID Info super-boxes, each grouping a UUID List box with a
    /// Data Entry URL box.
    pub fn uuid_info_boxes(&self) -> (r: &Vec<UUIDInfoSuperBox>)
        ensures
            r == &self.uuid_info,
    {
        &self.uuid_info
    }
}

/// Parse the head of the file: the Signature box, which must come
/// first, and the File Type box, which must immediately follow it. On
/// success the reader stands on the first top-level box after the head.
#[verifier::spinoff_prover]
fn decode_file_head(reader: &mut ByteReader) -> (r: Result<
    (SignatureBox, FileTypeBox),
    JP2Error,
>)
    requires
        old(reader).inv(),
    ensures
        final(reader).inv(),
        final(reader).bytes() == old(reader).bytes(),
        r is Ok ==> old(reader).pos() == 0,
        r is Ok ==> ({
            let s = old(reader).bytes();
            let sig = r->Ok_0.0;
            let ft = r->Ok_0.1;
            &&& sig.offset == 8
            &&& sig.length == 12
            &&& ft.offset == 20
            &&& be32(s, 4) == BOX_TYPE_SIGNATURE
            &&& be32(s, 8) == SIGNATURE_MAGIC
            &&& be32(s, 16) == BOX_TYPE_FILE_TYPE
            &&& ft.brand == be32(s, 20)
            &&& ft.brand == BRAND_JP2
            &&& ft.min_version == be32(s, 24)
            &&& ft.compatibility_list@.contains(BRAND_JP2)
            &&& final(reader).pos() == 28 + 4 * ((be32(s, 12) - 16) / 4)
            &&& final(reader).pos() >= 28
        }),
        r matches Err(JP2Error::Unsupported)
            ==> be32(old(reader).bytes(), 20) == BRAND_JPX,
        r matches Err(JP2Error::InvalidSignature { signature, .. })
            ==> signature == be32(old(reader).bytes(), 8)
                && be32(old(reader).bytes(), 8) != SIGNATURE_MAGIC,
        r matches Err(JP2Error::InvalidBrand { brand, .. })
            ==> brand == be32(old(reader).bytes(), 20) && brand != BRAND_JP2
                && brand != BRAND_JPX,
        r matches Err(JP2Error::NotCompatible { .. })
            ==> be32(old(reader).bytes(), 20) == BRAND_JP2 && !compat_list_has_jp2(
                old(reader).bytes(),
                20,
                (be32(old(reader).bytes(), 12) - 16) / 4,
            ),
        !(r matches Err(JP2Error::BoxMissing { .. })),
        !(r matches Err(JP2Error::BoxDuplicate { .. })),
        jp2_prelude_form(old(reader).bytes()) && old(reader).pos() == 0
            ==> r is Ok && final(reader).pos() == 32,
{
    proof {
        reveal(jp2_prelude_form);
    }
    // The Signature box must be the first box.
    let header = match decode_box_header(reader) {
        Ok(h) => h,
        Err(e) => { return Err(e); },
    };
    let mut signature_box = SignatureBox { length: header.box_length, offset: 0 };
    if header.box_type != BOX_TYPE_SIGNATURE {
        return Err(JP2Error::BoxUnexpected {
            box_type: header.box_type,
            offset: reader.position() as u64,
        });
    }
    if reader.position() != 8 {
        // An extended or to-end length on the signature box does not fit
        // its fixed 12-byte form.
        return Err(JP2Error::BoxMalformed {
            box_type: BOX_TYPE_SIGNATURE,
            offset: reader.position() as u64,
        });
    }
    signature_box.offset = 8;
    match signature_box.decode(reader) {
        Ok(()) => {},
        Err(e) => { return Err(e); },
    }

    // The File Type box must immediately follow the Signature box.
    let header = match decode_box_header(reader) {
        Ok(h) => h,
        Err(e) => { return Err(e); },
    };
    if header.box_type != BOX_TYPE_FILE_TYPE {
        return Err(JP2Error::BoxUnexpected {
            box_type: header.box_type,
            offset: reader.position() as u64,
        });
    }
    if header.box_length < 8 || reader.position() != 20 {
        return Err(JP2Error::BoxMalformed {
            box_type: BOX_TYPE_FILE_TYPE,
            offset: reader.position() as u64,
        });
    }
    let mut file_type_box = FileTypeBox {
        length: header.box_length,
        offset: 20,
        brand: 0,
        min_version: 0,
        compatibility_list: Vec::new(),
    };
    proof {
        // The first compatibility code of a minimal file sits at byte 28.
        assert(compat_entry(old(reader).bytes(), 20, 0) == be32(old(reader).bytes(), 28));
    }
    match file_type_box.decode(reader) {
        Ok(()) => {},
        Err(e) => { return Err(e); },
    }


    Ok((signature_box, file_type_box))
}

/// Decode a whole JP2 container.
///
/// The Signature box must come first and the File Type box second. The
/// top-level walk then collects the Header super-box (later ones are
/// skipped), Contiguous Codestream boxes (each of which needs the Header
/// super-box before it), rights, XML, UUID and UUID Info boxes. The walk
/// ends at the end of the buffer, or early at an unknown box type. On
/// success the result satisfies [`jp2_file_wf`].
#[verifier::rlimit(100)]
#[verifier::spinoff_prover]
pub fn decode_jp2(reader: &mut ByteReader) -> (r: Result<JP2File, JP2Error>)
    requires
        old(reader).inv(),
    ensures
        final(reader).inv(),
        final(reader).bytes() == old(reader).bytes(),
        r is Ok ==> old(reader).pos() == 0,
        r is Ok ==> r->Ok_0.length == final(reader).pos(),
        jp2_minimal_form(old(reader).bytes()) && old(reader).pos() == 0 ==> r is Ok,
        r matches Err(JP2Error::BoxMissing { box_type })
            ==> (box_type == BOX_TYPE_UUID_INFO || box_type == BOX_TYPE_HEADER),
        r is Ok ==> uuid_info_groups_wf(r->Ok_0.uuid_info@),
        jp2_prelude_form(old(reader).bytes()) && old(reader).pos() == 0
            && be32(old(reader).bytes(), 32) >= 8
            && be32(old(reader).bytes(), 36) == BOX_TYPE_CONTIGUOUS_CODESTREAM
            ==> (r matches Err(JP2Error::BoxUnexpected { box_type, .. })
                && box_type == BOX_TYPE_CONTIGUOUS_CODESTREAM),
        jp2_prelude_form(old(reader).bytes()) && old(reader).pos() == 0
            && be32(old(reader).bytes(), 32) >= 8
            && be32(old(reader).bytes(), 36) == BOX_TYPE_UUID_LIST
            && 42 + 16 * be16(old(reader).bytes(), 40) <= old(reader).bytes().len()
            ==> (r matches Err(JP2Error::BoxMissing { box_type })
                && box_type == BOX_TYPE_UUID_INFO),
        r is Ok ==> jp2_file_wf(r->Ok_0),
        r is Ok ==> ({
            let s = old(reader).bytes();
            let f = r->Ok_0;
            &&& be32(s, 4) == BOX_TYPE_SIGNATURE
            &&& be32(s, 8) == SIGNATURE_MAGIC
            &&& be32(s, 16) == BOX_TYPE_FILE_TYPE
            &&& f.file_type->0.brand == be32(s, 20)
            &&& f.file_type->0.min_version == be32(s, 24)
            &&& header_children_match_bytes(f.header->0, s)
        }),
        r is Ok ==> r->Ok_0.file_type->0.brand == BRAND_JP2
            && r->Ok_0.file_type->0.compatibility_list@.contains(BRAND_JP2),
        r matches Err(JP2Error::Unsupported)
            ==> be32(old(reader).bytes(), 20) == BRAND_JPX,
        r matches Err(JP2Error::InvalidSignature { signature, .. })
            ==> signature == be32(old(reader).bytes(), 8)
                && be32(old(reader).bytes(), 8) != SIGNATURE_MAGIC,
        r matches Err(JP2Error::InvalidBrand { brand, .. })
            ==> brand == be32(old(reader).bytes(), 20) && brand != BRAND_JP2
                && brand != BRAND_JPX,
        r matches Err(JP2Error::NotCompatible { .. })
            ==> be32(old(reader).bytes(), 20) == BRAND_JP2 && !compat_list_has_jp2(
                old(reader).bytes(),
                20,
                (be32(old(reader).bytes(), 12) - 16) / 4,
            ),
{
    let (signature_box, file_type_box) = match decode_file_head(reader) {
        Ok(head) => head,
        Err(e) => { return Err(e); },
    };

    let ghost fam_jp2c: bool = jp2_prelude_form(old(reader).bytes()) && old(reader).pos() == 0
        && be32(old(reader).bytes(), 32) >= 8
        && be32(old(reader).bytes(), 36) == BOX_TYPE_CONTIGUOUS_CODESTREAM;
    let ghost fam_ulst: bool = jp2_prelude_form(old(reader).bytes()) && old(reader).pos() == 0
        && be32(old(reader).bytes(), 32) >= 8
        && be32(old(reader).bytes(), 36) == BOX_TYPE_UUID_LIST
        && 42 + 16 * be16(old(reader).bytes(), 40) <= old(reader).bytes().len();
    proof {
        reveal(jp2_prelude_form);
        assert(fam_jp2c ==> old(reader).bytes().len() >= 40);
        assert(fam_ulst ==> old(reader).bytes().len() >= 40);
    }
    let mut header_box_option: Option<HeaderSuperBox> = None;
    let mut contiguous_codestream_boxes: Vec<ContiguousCodestreamBox> = Vec::new();
    let mut intellectual_property_option: Option<IntellectualPropertyBox> = None;
    let mut xml_boxes: Vec<XMLBox> = Vec::new();
    let mut uuid_boxes: Vec<UUIDBox> = Vec::new();
    let mut uuid_info_boxes: Vec<UUIDInfoSuperBox> = Vec::new();
    let mut current_uuid_info_box: Option<UUIDInfoSuperBox> = None;

    loop
        invariant
            reader.inv(),
            reader.bytes() == old(reader).bytes(),
            reader.pos() >= 24,
            header_box_option matches Some(h) ==> h.offset > 16
                && h.offset < reader.pos() + 1 && header_super_box_wf(h)
                && header_children_match_bytes(h, old(reader).bytes()),
            codestreams_after_header(contiguous_codestream_boxes@, header_box_option),
            jp2_minimal_form(old(reader).bytes()) && old(reader).pos() == 0 ==> (
                reader.pos() == 32 && header_box_option is None) || (
                reader.pos() == 77 && header_box_option is Some) || (
                reader.pos() == old(reader).bytes().len() && header_box_option is Some),
            fam_jp2c == (jp2_prelude_form(old(reader).bytes()) && old(reader).pos() == 0
                && be32(old(reader).bytes(), 32) >= 8
                && be32(old(reader).bytes(), 36) == BOX_TYPE_CONTIGUOUS_CODESTREAM),
            fam_ulst == (jp2_prelude_form(old(reader).bytes()) && old(reader).pos() == 0
                && be32(old(reader).bytes(), 32) >= 8
                && be32(old(reader).bytes(), 36) == BOX_TYPE_UUID_LIST
                && 42 + 16 * be16(old(reader).bytes(), 40) <= old(reader).bytes().len()),
            fam_jp2c ==> reader.pos() == 32 && header_box_option is None,
            fam_ulst ==> reader.pos() == 32 && current_uuid_info_box is None,
            fam_jp2c || fam_ulst ==> old(reader).bytes().len() >= 40,
            uuid_info_groups_wf(uuid_info_boxes@),
            uuid_info_boxes@.len() > 0 ==> current_uuid_info_box is Some,
            current_uuid_info_box matches Some(g) ==> uuid_group_members_after(g)
                && uuid_group_before(g, reader.pos() + 1)
                && (uuid_info_boxes@.len() > 0 ==> uuid_group_before(
                    uuid_info_boxes@.last(),
                    g.offset as int,
                )),
        ensures
            reader.inv(),
            reader.bytes() == old(reader).bytes(),
            header_box_option matches Some(h) ==> h.offset > 16 && header_super_box_wf(h)
                && header_children_match_bytes(h, old(reader).bytes()),
            codestreams_after_header(contiguous_codestream_boxes@, header_box_option),
            jp2_minimal_form(old(reader).bytes()) && old(reader).pos() == 0
                ==> header_box_option is Some,
            !fam_jp2c,
            !fam_ulst,
            uuid_info_groups_wf(uuid_info_boxes@),
            current_uuid_info_box matches Some(g) ==> uuid_group_members_after(g)
                && (uuid_info_boxes@.len() > 0 ==> uuid_group_before(
                    uuid_info_boxes@.last(),
                    g.offset as int,
                )),
            fam_jp2c == (jp2_prelude_form(old(reader).bytes()) && old(reader).pos() == 0
                && be32(old(reader).bytes(), 32) >= 8
                && be32(old(reader).bytes(), 36) == BOX_TYPE_CONTIGUOUS_CODESTREAM),
            fam_ulst == (jp2_prelude_form(old(reader).bytes()) && old(reader).pos() == 0
                && be32(old(reader).bytes(), 32) >= 8
                && be32(old(reader).bytes(), 36) == BOX_TYPE_UUID_LIST
                && 42 + 16 * be16(old(reader).bytes(), 40) <= old(reader).bytes().len()),
        decreases old(reader).bytes().len() - reader.pos(),
    {
        let header = match decode_box_header(reader) {
            Ok(h) => h,
            Err(e) => {
                match e {
                    // The end of the buffer at a box boundary is the
                    // legitimate end of the walk.
                    JP2Error::UnexpectedEof { .. } => { break; },
                    _ => { return Err(e); },
                }
            },
        };
        let box_offset = reader.position() as u64;

        if header.box_type == BOX_TYPE_HEADER {
            if header_box_option.is_some() {
                // Later Header super-boxes at the top level are ignored.
                match skip_payload(reader, header.box_length) {
                    Ok(()) => {},
                    Err(e) => { return Err(e); },
                }
            } else {
                let mut header_box = HeaderSuperBox {
                    length: header.box_length,
                    offset: box_offset,
                    image_header_box: ImageHeaderBox {
                        length: 0,
                        offset: 0,
                        height: 0,
                        width: 0,
                        components_num: 0,
                        components_bits: 0,
                        compression_type: 0,
                        colourspace_unknown: 0,
                        intellectual_property: 0,
                    },
                    bits_per_component_box: None,
                    colour_specification_boxes: Vec::new(),
                    palette_box: None,
                    component_mapping_box: None,
                    channel_definition_box: None,
                    resolution_box: None,
                };
                match header_box.decode(reader) {
                    Ok(()) => {},
                    Err(e) => { return Err(e); },
                }
                header_box_option = Some(header_box);
            }
        } else if header.box_type == BOX_TYPE_INTELLECTUAL_PROPERTY {
            let mut ipr = IntellectualPropertyBox {
                length: header.box_length,
                offset: box_offset,
                data: Vec::new(),
            };
            match ipr.decode(reader) {
                Ok(()) => {},
                Err(e) => { return Err(e); },
            }
            intellectual_property_option = Some(ipr);
        } else if header.box_type == BOX_TYPE_XML {
            let mut xml_box = XMLBox {
                length: header.box_length,
                offset: box_offset,
                xml: Vec::new(),
            };
            match xml_box.decode(reader) {
                Ok(()) => {},
                Err(e) => { return Err(e); },
            }
            xml_boxes.push(xml_box);
        } else if header.box_type == BOX_TYPE_UUID {
            if header.box_length < 16 {
                return Err(JP2Error::BoxMalformed {
                    box_type: BOX_TYPE_UUID,
                    offset: box_offset,
                });
            }
            let mut uuid_box = UUIDBox {
                length: header.box_length,
                offset: box_offset,
                uuid: Vec::new(),
                data: Vec::new(),
            };
            match uuid_box.decode(reader) {
                Ok(()) => {},
                Err(e) => { return Err(e); },
            }
            uuid_boxes.push(uuid_box);
        } else if header.box_type == BOX_TYPE_UUID_INFO {
            let mut uuid_info_box = UUIDInfoSuperBox {
                length: header.box_length,
                offset: box_offset,
                uuid_list: Vec::new(),
                data_entry_url_box: Vec::new(),
            };
            match uuid_info_box.decode(reader) {
                Ok(()) => {},
                Err(e) => { return Err(e); },
            }
            if current_uuid_info_box.is_some() {
                let ghost old_chain = uuid_info_boxes@;
                let finished = current_uuid_info_box.take().unwrap();
                uuid_info_boxes.push(finished);
                proof {
                    assert(uuid_info_boxes@ =~= old_chain.push(finished));
                    assert forall|k: int| 0 <= k < uuid_info_boxes@.len() implies
                        uuid_group_members_after(#[trigger] uuid_info_boxes@[k]) by {
                        assert(uuid_info_boxes@[k] == old_chain.push(finished)[k]);
                        if k < old_chain.len() {
                            assert(old_chain.push(finished)[k] == old_chain[k]);
                        } else {
                            assert(old_chain.push(finished)[k] == finished);
                        }
                    }
                    assert forall|k: int| 0 <= k && k + 1 < uuid_info_boxes@.len() implies
                        uuid_group_before(
                            #[trigger] uuid_info_boxes@[k],
                            uuid_info_boxes@[k + 1].offset as int,
                        ) by {
                        assert(uuid_info_boxes@.len() == old_chain.len() + 1);
                        assert(0 <= k < old_chain.len());
                        assert(uuid_info_boxes@[k] == old_chain.push(finished)[k]);
                        assert(old_chain.push(finished)[k] == old_chain[k]);
                        if k + 1 < old_chain.len() {
                            assert(uuid_info_boxes@[k + 1] == old_chain[k + 1]);
                        } else {
                            assert(uuid_info_boxes@[k + 1] == finished);
                            assert(old_chain[k] == old_chain.last());
                        }
                    }
                }
            }
            current_uuid_info_box = Some(uuid_info_box);
        } else if header.box_type == BOX_TYPE_UUID_LIST {
            let mut uuid_list_box = UUIDListBox {
                length: header.box_length,
                offset: box_offset,
                number_of_uuids: 0,
                ids: Vec::new(),
            };
            match uuid_list_box.decode(reader) {
                Ok(()) => {},
                Err(e) => { return Err(e); },
            }
            if current_uuid_info_box.is_some() {
                let mut group = current_uuid_info_box.take().unwrap();
                group.uuid_list.push(uuid_list_box);
                current_uuid_info_box = Some(group);
            } else {
                return Err(JP2Error::BoxMissing { box_type: BOX_TYPE_UUID_INFO });
            }
        } else if header.box_type == BOX_TYPE_DATA_ENTRY_URL {
            if header.box_length < 4 {
                return Err(JP2Error::BoxMalformed {
                    box_type: BOX_TYPE_DATA_ENTRY_URL,
                    offset: box_offset,
                });
            }
            let mut data_entry_url_box = DataEntryURLBox {
                length: header.box_length,
                offset: box_offset,
                version: 0,
                flags: 0,
                location: Vec::new(),
            };
            match data_entry_url_box.decode(reader) {
                Ok(()) => {},
                Err(e) => { return Err(e); },
            }
            if current_uuid_info_box.is_some() {
                let mut group = current_uuid_info_box.take().unwrap();
                group.data_entry_url_box.push(data_entry_url_box);
                current_uuid_info_box = Some(group);
            } else {
                return Err(JP2Error::BoxMissing { box_type: BOX_TYPE_UUID_INFO });
            }
        } else if header.box_type == BOX_TYPE_CONTIGUOUS_CODESTREAM {
            // The Header super-box must come before any codestream.
            if header_box_option.is_none() {
                return Err(JP2Error::BoxUnexpected {
                    box_type: header.box_type,
                    offset: reader.position() as u64,
                });
            }
            let mut codestream_box = ContiguousCodestreamBox {
                length: header.box_length,
                offset: box_offset,
            };
            match codestream_box.decode(reader) {
                Ok(()) => {},
                Err(e) => { return Err(e); },
            }
            contiguous_codestream_boxes.push(codestream_box);
        } else {
            // An unrecognised box ends the walk: the file is read up to
            // here.
            break;
        }
    }

    if current_uuid_info_box.is_some() {
        let finished = current_uuid_info_box.take().unwrap();
        uuid_info_boxes.push(finished);
    }

    // Every file owns exactly one Header super-box.
    if header_box_option.is_none() {
        return Err(JP2Error::BoxMissing { box_type: BOX_TYPE_HEADER });
    }

    Ok(JP2File {
        length: reader.position() as u64,
        signature: Some(signature_box),
        file_type: Some(file_type_box),
        header: header_box_option,
        contiguous_codestreams: contiguous_codestream_boxes,
        intellectual_property: intellectual_property_option,
        xml: xml_boxes,
        uuid: uuid_boxes,
        uuid_info: uuid_info_boxes,
    })
}

} // verus!

verus! {

/// The errors the box walks below the top level produce: framing,
/// placement, duplication, truncation — never the signature- or
/// brand-level errors of the file head.
pub open spec fn box_walk_error(e: JP2Error) -> bool {
    ||| e is BoxUnexpected
    ||| e is BoxDuplicate
    ||| e is BoxMalformed
    ||| e is BoxMissing
    ||| e is UnexpectedEof
}

/// An Image Header box whose fields are the bytes at its own offset.
pub open spec fn image_header_matches_bytes(z: ImageHeaderBox, s: Seq<u8>) -> bool {
    let p = z.offset as int;
    &&& z.height == be32(s, p)
    &&& z.width == be32(s, p + 4)
    &&& z.components_num == be16(s, p + 8)
    &&& z.components_bits == s[p + 10]
    &&& z.compression_type == s[p + 11]
    &&& z.colourspace_unknown == s[p + 12]
    &&& z.intellectual_property == s[p + 13]
}

/// A Colour Specification box whose fields are the bytes at its own
/// offset.
pub open spec fn colour_matches_bytes(b: ColourSpecificationBox, s: Seq<u8>) -> bool {
    let p = b.offset as int;
    &&& b.method == s[p]
    &&& b.precedence == s[p + 1]
    &&& b.colourspace_approximation == s[p + 2]
    &&& (s[p] == METHOD_ENUMERATED_COLOUR_SPACE ==> b.enumerated_colour_space == be32(s, p + 3))
    &&& (s[p] == METHOD_ENUMERATED_RESTRICTED_ICC_PROFILE ==> b.restricted_icc_profile@
            == s.subrange(p + 3, p + b.length))
}

/// A Capture Resolution box whose fields are the bytes at its own
/// offset.
pub open spec fn capture_resolution_matches_bytes(b: CaptureResolutionBox, s: Seq<u8>) -> bool {
    let p = b.offset as int;
    &&& b.vertical_capture_grid_resolution_numerator == be16(s, p)
    &&& b.vertical_capture_grid_resolution_denominator == be16(s, p + 2)
    &&& b.horizontal_capture_grid_resolution_numerator == be16(s, p + 4)
    &&& b.horizontal_capture_grid_resolution_denominator == be16(s, p + 6)
    &&& b.vertical_capture_grid_resolution_exponent == s[p + 8]
    &&& b.horizontal_capture_grid_resolution_exponent == s[p + 9]
}

/// A Default Display Resolution box whose fields are the bytes at its
/// own offset.
pub open spec fn display_resolution_matches_bytes(
    b: DefaultDisplayResolutionBox,
    s: Seq<u8>,
) -> bool {
    let p = b.offset as int;
    &&& b.vertical_display_grid_resolution_numerator == be16(s, p)
    &&& b.vertical_display_grid_resolution_denominator == be16(s, p + 2)
    &&& b.horizontal_display_grid_resolution_numerator == be16(s, p + 4)
    &&& b.horizontal_display_grid_resolution_denominator == be16(s, p + 6)
    &&& b.vertical_display_grid_resolution_exponent == s[p + 8]
    &&& b.horizontal_display_grid_resolution_exponent == s[p + 9]
}

/// A Header super-box payload in its smallest form: the Image Header
/// box with a depth byte other than the 255 sentinel, one enumerated
/// Colour Specification box, and then a recognisable top-level box
/// header that ends the walk.
pub open spec fn jp2h_minimal_form(s: Seq<u8>, p: int) -> bool {
    &&& p + 45 <= s.len()
    &&& be32(s, p) == 22
    &&& be32(s, p + 4) == BOX_TYPE_IMAGE_HEADER
    &&& s[p + 18] != 255
    &&& be32(s, p + 22) == 15
    &&& be32(s, p + 26) == BOX_TYPE_COLOUR_SPECIFICATION
    &&& s[p + 30] == METHOD_ENUMERATED_COLOUR_SPACE
    &&& be32(s, p + 37) >= 8
    &&& be32(s, p + 41) == BOX_TYPE_CONTIGUOUS_CODESTREAM
}

/// A whole file in its smallest form: the Signature box, a File Type box
/// with the single compatibility code `jp2 `, a minimal Header
/// super-box, and one Contiguous Codestream box running to the end of
/// the file.
pub open spec fn jp2_minimal_form(s: Seq<u8>) -> bool {
    &&& s.len() >= 85
    &&& be32(s, 0) == 12
    &&& be32(s, 4) == BOX_TYPE_SIGNATURE
    &&& be32(s, 8) == SIGNATURE_MAGIC
    &&& be32(s, 12) == 20
    &&& be32(s, 16) == BOX_TYPE_FILE_TYPE
    &&& be32(s, 20) == BRAND_JP2
    &&& be32(s, 28) == BRAND_JP2
    &&& be32(s, 32) == 45
    &&& be32(s, 36) == BOX_TYPE_HEADER
    &&& jp2h_minimal_form(s, 40)
    &&& be32(s, 77) == 0
    &&& be32(s, 81) == BOX_TYPE_CONTIGUOUS_CODESTREAM
}

/// A Header super-box payload whose Image Header box is followed
/// directly by a recognisable top-level box: no Colour Specification
/// box at all.
pub open spec fn jp2h_no_colr_form(s: Seq<u8>, p: int) -> bool {
    &&& p + 30 <= s.len()
    &&& be32(s, p) == 22
    &&& be32(s, p + 4) == BOX_TYPE_IMAGE_HEADER
    &&& be32(s, p + 22) >= 8
    &&& be32(s, p + 26) == BOX_TYPE_CONTIGUOUS_CODESTREAM
}

/// A Header super-box payload holding the Image Header box, one
/// enumerated Colour Specification box, and then two Channel Definition
/// boxes in a row.
pub open spec fn jp2h_dup_cdef_form(s: Seq<u8>, p: int) -> bool {
    &&& p + 55 <= s.len()
    &&& be32(s, p) == 22
    &&& be32(s, p + 4) == BOX_TYPE_IMAGE_HEADER
    &&& be32(s, p + 22) == 15
    &&& be32(s, p + 26) == BOX_TYPE_COLOUR_SPECIFICATION
    &&& s[p + 30] == METHOD_ENUMERATED_COLOUR_SPACE
    &&& be32(s, p + 37) == 10
    &&& be32(s, p + 41) == BOX_TYPE_CHANNEL_DEFINITION
    &&& be16(s, p + 45) == 0
    &&& be32(s, p + 47) >= 8
    &&& be32(s, p + 51) == BOX_TYPE_CHANNEL_DEFINITION
}

/// A Resolution super-box payload holding two Capture Resolution boxes
/// in a row.
pub open spec fn res_dup_capture_form(s: Seq<u8>, p: int) -> bool {
    &&& p + 26 <= s.len()
    &&& be32(s, p) == 18
    &&& be32(s, p + 4) == BOX_TYPE_CAPTURE_RESOLUTION
    &&& be32(s, p + 18) == 18
    &&& be32(s, p + 22) == BOX_TYPE_CAPTURE_RESOLUTION
}

/// The head of a file through a minimal Signature box and File Type
/// box, leaving the walk at byte 32.
#[verifier::opaque]
pub open spec fn jp2_prelude_form(s: Seq<u8>) -> bool {
    &&& s.len() >= 40
    &&& be32(s, 0) == 12
    &&& be32(s, 4) == BOX_TYPE_SIGNATURE
    &&& be32(s, 8) == SIGNATURE_MAGIC
    &&& be32(s, 12) == 20
    &&& be32(s, 16) == BOX_TYPE_FILE_TYPE
    &&& be32(s, 20) == BRAND_JP2
    &&& be32(s, 28) == BRAND_JP2
}

/// A Resolution super-box payload holding exactly one Capture Resolution
/// box, followed by a recognisable top-level box header that ends the
/// walk.
pub open spec fn res_single_capture_form(s: Seq<u8>, p: int) -> bool {
    &&& p + 26 <= s.len()
    &&& be32(s, p) == 18
    &&& be32(s, p + 4) == BOX_TYPE_CAPTURE_RESOLUTION
    &&& be32(s, p + 18) >= 8
    &&& be32(s, p + 22) == BOX_TYPE_CONTIGUOUS_CODESTREAM
}

/// A Resolution super-box whose children's fields are the bytes at their
/// own offsets.
pub open spec fn resolution_children_match_bytes(rb: ResolutionSuperBox, s: Seq<u8>) -> bool {
    &&& (rb.capture_resolution_box matches Some(c) ==> capture_resolution_matches_bytes(c, s))
    &&& (rb.default_display_resolution_box matches Some(d)
            ==> display_resolution_matches_bytes(d, s))
}

/// A Header super-box whose Image Header, Colour Specification and
/// Resolution children carry the bytes at their own offsets.
pub open spec fn header_children_match_bytes(h: HeaderSuperBox, s: Seq<u8>) -> bool {
    &&& image_header_matches_bytes(h.image_header_box, s)
    &&& forall|i: int| 0 <= i < h.colour_specification_boxes@.len() ==> colour_matches_bytes(
            #[trigger] h.colour_specification_boxes@[i],
            s,
        )
    &&& (h.resolution_box matches Some(rb) ==> resolution_children_match_bytes(rb, s))
}

} // verus!
