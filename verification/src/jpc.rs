//! JPC codestream parser.
//!
//! A codestream is a sequence of marker segments: a 2-byte marker in
//! `0xFF4F..=0xFFFF`, followed for most markers by a 2-byte big-endian
//! length and a payload (ISO/IEC 15444-1 Annex A). The parser runs two
//! state machines in sequence, the main header and the first tile-part
//! header, and then scans the entropy-coded region for the in-bit-stream
//! markers up to the end of the codestream.

use vstd::prelude::*;

use crate::jp2::utf8_string;
use crate::reader::{be16, be32, ByteReader};

verus! {

/// A marker: the two bytes read as one big-endian integer.
pub type MarkerSymbol = u16;

// Delimiting markers.
pub const MARKER_SYMBOL_SOC: MarkerSymbol = 0xFF4F;
pub const MARKER_SYMBOL_SOT: MarkerSymbol = 0xFF90;
pub const MARKER_SYMBOL_SOD: MarkerSymbol = 0xFF93;
pub const MARKER_SYMBOL_EOC: MarkerSymbol = 0xFFD9;

// Fixed information marker segments.
pub const MARKER_SYMBOL_SIZ: MarkerSymbol = 0xFF51;

// Functional marker segments.
pub const MARKER_SYMBOL_COD: MarkerSymbol = 0xFF52;
pub const MARKER_SYMBOL_COC: MarkerSymbol = 0xFF53;
pub const MARKER_SYMBOL_RGN: MarkerSymbol = 0xFF5E;
pub const MARKER_SYMBOL_QCD: MarkerSymbol = 0xFF5C;
pub const MARKER_SYMBOL_QCC: MarkerSymbol = 0xFF5D;
pub const MARKER_SYMBOL_POC: MarkerSymbol = 0xFF5F;

// Pointer marker segments.
pub const MARKER_SYMBOL_TLM: MarkerSymbol = 0xFF55;
pub const MARKER_SYMBOL_PLM: MarkerSymbol = 0xFF57;
pub const MARKER_SYMBOL_PLT: MarkerSymbol = 0xFF58;
pub const MARKER_SYMBOL_PPM: MarkerSymbol = 0xFF60;
pub const MARKER_SYMBOL_PPT: MarkerSymbol = 0xFF61;

// In-bit-stream markers.
pub const MARKER_SYMBOL_SOP: MarkerSymbol = 0xFF91;
pub const MARKER_SYMBOL_EPH: MarkerSymbol = 0xFF92;

// Informational marker segments.
pub const MARKER_SYMBOL_CRG: MarkerSymbol = 0xFF63;
pub const MARKER_SYMBOL_COM: MarkerSymbol = 0xFF64;

/// Everything that can go wrong while decoding a codestream.
#[derive(Debug)]
pub enum CodestreamError {
    /// A marker segment whose payload does not fit its own rules.
    MarkerError { marker: MarkerSymbol, description: &'static str },
    /// A required marker segment was never seen.
    MarkerMissing { marker: MarkerSymbol },
    /// A marker appeared where the state machine does not allow it.
    MarkerUnexpected { marker: MarkerSymbol, offset: u64 },
    /// SIZ invariant broken: a tile has no grid point inside the image.
    TileSizeOverflow {
        image_horizontal_offset: u32,
        image_vertical_offset: u32,
        tile_horizontal_offset: u32,
        tile_vertical_offset: u32,
        reference_tile_width: u32,
        reference_tile_height: u32,
    },
    /// SIZ invariant broken: the tile grid offset passes the image offset.
    TileGridOffsetOverflow {
        tile_horizontal_offset: u32,
        tile_vertical_offset: u32,
        image_horizontal_offset: u32,
        image_vertical_offset: u32,
    },
    /// The buffer ended inside a marker segment.
    UnexpectedEof { offset: u64 },
}

/// Two to the power `e`.
pub open spec fn pow2(e: nat) -> nat
    decreases e,
{
    if e == 0 {
        1
    } else {
        2 * pow2((e - 1) as nat)
    }
}

proof fn lemma_pow2_le(a: nat, b: nat)
    requires
        a <= b,
    ensures
        pow2(a) <= pow2(b),
    decreases b,
{
    if a < b {
        lemma_pow2_le(a, (b - 1) as nat);
        assert(pow2(b) == 2 * pow2((b - 1) as nat));
    }
}

/// Compute two to the power `e` as a 16-bit value.
fn pow2_u16(e: u8) -> (r: u16)
    requires
        e <= 15,
    ensures
        r == pow2(e as nat),
{
    proof {
        reveal_with_fuel(pow2, 16);
        assert(pow2(15) == 0x8000);
    }
    let mut acc: u16 = 1;
    let mut i: u8 = 0;
    while i < e
        invariant
            i <= e,
            e <= 15,
            acc == pow2(i as nat),
        decreases e - i,
    {
        proof {
            lemma_pow2_le(i as nat + 1, 15);
            reveal_with_fuel(pow2, 16);
        }
        acc = acc * 2;
        i = i + 1;
    }
    acc
}

/// The order packets follow in the codestream (Table A.16).
#[derive(Debug, PartialEq, Eq, Structural)]
pub enum ProgressionOrder {
    /// Layer-resolution level-component-position progression.
    LRLCPP,
    /// Resolution level-layer-component-position progression.
    RLLCPP,
    /// Resolution level-position-component-layer progression.
    RLPCLP,
    /// Position-component-resolution level-layer progression.
    PCRLLP,
    /// Component-position-resolution level-layer progression.
    CPRLLP,
    Reserved { value: u8 },
}

/// The progression order a raw byte denotes.
pub open spec fn spec_progression_order(v: u8) -> ProgressionOrder {
    if v == 0 {
        ProgressionOrder::LRLCPP
    } else if v == 1 {
        ProgressionOrder::RLLCPP
    } else if v == 2 {
        ProgressionOrder::RLPCLP
    } else if v == 3 {
        ProgressionOrder::PCRLLP
    } else if v == 4 {
        ProgressionOrder::CPRLLP
    } else {
        ProgressionOrder::Reserved { value: v }
    }
}

impl ProgressionOrder {
    fn new(value: u8) -> (r: ProgressionOrder)
        ensures
            r == spec_progression_order(value),
    {
        if value == 0 {
            ProgressionOrder::LRLCPP
        } else if value == 1 {
            ProgressionOrder::RLLCPP
        } else if value == 2 {
            ProgressionOrder::RLPCLP
        } else if value == 3 {
            ProgressionOrder::PCRLLP
        } else if value == 4 {
            ProgressionOrder::CPRLLP
        } else {
            ProgressionOrder::Reserved { value }
        }
    }
}

/// One decoded flag of the code-block style byte (Table A.19).
#[derive(Debug, PartialEq, Eq, Structural)]
pub enum CodingBlockStyle {
    NoSelectiveArithmeticCodingBypass,
    SelectiveArithmeticCodingBypass,
    NoResetOfContextProbabilities,
    ResetContextProbabilities,
    NoTerminationOnEachCodingPass,
    TerminationOnEachCodingPass,
    NoVerticallyCausalContext,
    VerticallyCausalContext,
    NoPredictableTermination,
    PredictableTermination,
    NoSegmentationSymbolsAreUsed,
    SegmentationSymbolsAreUsed,
    Reserved { value: u8 },
}

impl CodingBlockStyle {
    /// Decode the six independent flags of the style byte, in bit order.
    fn new(value: u8) -> (r: Vec<CodingBlockStyle>)
        ensures
            r@.len() == 6,
            r@[0] == if value % 2 == 1 {
                CodingBlockStyle::SelectiveArithmeticCodingBypass
            } else {
                CodingBlockStyle::NoSelectiveArithmeticCodingBypass
            },
            r@[1] == if value / 2 % 2 == 1 {
                CodingBlockStyle::ResetContextProbabilities
            } else {
                CodingBlockStyle::NoResetOfContextProbabilities
            },
            r@[2] == if value / 4 % 2 == 1 {
                CodingBlockStyle::TerminationOnEachCodingPass
            } else {
                CodingBlockStyle::NoTerminationOnEachCodingPass
            },
            r@[3] == if value / 8 % 2 == 1 {
                CodingBlockStyle::VerticallyCausalContext
            } else {
                CodingBlockStyle::NoVerticallyCausalContext
            },
            r@[4] == if value / 16 % 2 == 1 {
                CodingBlockStyle::PredictableTermination
            } else {
                CodingBlockStyle::NoPredictableTermination
            },
            r@[5] == if value / 32 % 2 == 1 {
                CodingBlockStyle::SegmentationSymbolsAreUsed
            } else {
                CodingBlockStyle::NoSegmentationSymbolsAreUsed
            },
    {
        let mut styles: Vec<CodingBlockStyle> = Vec::new();
        if value % 2 == 1 {
            styles.push(CodingBlockStyle::SelectiveArithmeticCodingBypass);
        } else {
            styles.push(CodingBlockStyle::NoSelectiveArithmeticCodingBypass);
        }
        if value / 2 % 2 == 1 {
            styles.push(CodingBlockStyle::ResetContextProbabilities);
        } else {
            styles.push(CodingBlockStyle::NoResetOfContextProbabilities);
        }
        if value / 4 % 2 == 1 {
            styles.push(CodingBlockStyle::TerminationOnEachCodingPass);
        } else {
            styles.push(CodingBlockStyle::NoTerminationOnEachCodingPass);
        }
        if value / 8 % 2 == 1 {
            styles.push(CodingBlockStyle::VerticallyCausalContext);
        } else {
            styles.push(CodingBlockStyle::NoVerticallyCausalContext);
        }
        if value / 16 % 2 == 1 {
            styles.push(CodingBlockStyle::PredictableTermination);
        } else {
            styles.push(CodingBlockStyle::NoPredictableTermination);
        }
        if value / 32 % 2 == 1 {
            styles.push(CodingBlockStyle::SegmentationSymbolsAreUsed);
        } else {
            styles.push(CodingBlockStyle::NoSegmentationSymbolsAreUsed);
        }
        styles
    }
}

/// One decoded flag of the Scod coding-style byte (Table A.13).
#[derive(Debug, PartialEq, Eq, Structural)]
pub enum CodingStyleDefault {
    /// Precincts take the maximal default size PPx = PPy = 15.
    EntropyCoderWithPrecincts,
    /// Precinct sizes follow in the coding-style parameters.
    EntropyCoderWithPrecinctsDefined,
    NoSOP,
    SOP,
    NoEPH,
    EPH,
    Reserved { value: u8 },
}

impl CodingStyleDefault {
    /// Decode the three independent flags of Scod, in bit order.
    fn new(value: u8) -> (r: Vec<CodingStyleDefault>)
        ensures
            r@.len() == 3,
            r@[0] == if value % 2 == 1 {
                CodingStyleDefault::EntropyCoderWithPrecinctsDefined
            } else {
                CodingStyleDefault::EntropyCoderWithPrecincts
            },
            r@[1] == if value / 2 % 2 == 1 {
                CodingStyleDefault::SOP
            } else {
                CodingStyleDefault::NoSOP
            },
            r@[2] == if value / 4 % 2 == 1 {
                CodingStyleDefault::EPH
            } else {
                CodingStyleDefault::NoEPH
            },
    {
        let mut styles: Vec<CodingStyleDefault> = Vec::new();
        if value % 2 == 1 {
            styles.push(CodingStyleDefault::EntropyCoderWithPrecinctsDefined);
        } else {
            styles.push(CodingStyleDefault::EntropyCoderWithPrecincts);
        }
        if value / 2 % 2 == 1 {
            styles.push(CodingStyleDefault::SOP);
        } else {
            styles.push(CodingStyleDefault::NoSOP);
        }
        if value / 4 % 2 == 1 {
            styles.push(CodingStyleDefault::EPH);
        } else {
            styles.push(CodingStyleDefault::NoEPH);
        }
        styles
    }
}

/// The Scoc coding-style byte of a COC segment.
#[derive(Debug, PartialEq, Eq, Structural)]
pub enum CodingStyleComponent {
    /// Precincts take the maximal default size PPx = PPy = 15.
    EntropyCoderWithPrecincts,
    /// Precinct sizes follow in the coding-style parameters.
    EntropyCoderWithPrecinctsDefined,
    Reserved { value: u8 },
}

/// The component coding style a raw Scoc byte denotes.
pub open spec fn spec_coding_style_component(v: u8) -> CodingStyleComponent {
    if v == 0 {
        CodingStyleComponent::EntropyCoderWithPrecincts
    } else if v == 1 {
        CodingStyleComponent::EntropyCoderWithPrecinctsDefined
    } else {
        CodingStyleComponent::Reserved { value: v }
    }
}

impl CodingStyleComponent {
    fn new(value: u8) -> (r: CodingStyleComponent)
        ensures
            r == spec_coding_style_component(value),
    {
        if value == 0 {
            CodingStyleComponent::EntropyCoderWithPrecincts
        } else if value == 1 {
            CodingStyleComponent::EntropyCoderWithPrecinctsDefined
        } else {
            CodingStyleComponent::Reserved { value }
        }
    }
}

/// Whether the components are decorrelated by a component transform.
#[derive(Debug, PartialEq, Eq, Structural)]
pub enum MultipleComponentTransformation {
    NoTransformation,
    /// A transform on components 0, 1 and 2, matched to the wavelet
    /// filter in use.
    Multiple,
    Reserved { value: u8 },
}

/// The transformation a raw SGcod byte denotes.
pub open spec fn spec_multiple_component_transformation(v: u8) -> MultipleComponentTransformation {
    if v == 0 {
        MultipleComponentTransformation::NoTransformation
    } else if v == 1 {
        MultipleComponentTransformation::Multiple
    } else {
        MultipleComponentTransformation::Reserved { value: v }
    }
}

impl MultipleComponentTransformation {
    fn new(value: u8) -> (r: MultipleComponentTransformation)
        ensures
            r == spec_multiple_component_transformation(value),
    {
        if value == 0 {
            MultipleComponentTransformation::NoTransformation
        } else if value == 1 {
            MultipleComponentTransformation::Multiple
        } else {
            MultipleComponentTransformation::Reserved { value }
        }
    }
}

/// The wavelet filter in use.
#[derive(Debug, PartialEq, Eq, Structural)]
pub enum TransformationFilter {
    /// The 9-7 irreversible filter.
    Irreversible,
    /// The 5-3 reversible filter.
    Reversible,
    Reserved { value: u8 },
}

/// The filter a raw byte denotes.
pub open spec fn spec_transformation_filter(v: u8) -> TransformationFilter {
    if v == 0 {
        TransformationFilter::Irreversible
    } else if v == 1 {
        TransformationFilter::Reversible
    } else {
        TransformationFilter::Reserved { value: v }
    }
}

impl TransformationFilter {
    fn new(value: u8) -> (r: TransformationFilter)
        ensures
            r == spec_transformation_filter(value),
    {
        if value == 0 {
            TransformationFilter::Irreversible
        } else if value == 1 {
            TransformationFilter::Reversible
        } else {
            TransformationFilter::Reserved { value }
        }
    }
}

/// The style of a region of interest.
pub enum RegionOfInterestStyle {
    ImplicitRegionOfInterest,
    Reserved { value: u8 },
}

impl RegionOfInterestStyle {
    fn new(value: u8) -> (r: RegionOfInterestStyle)
        ensures
            value == 0 ==> r is ImplicitRegionOfInterest,
            value != 0 ==> (r matches RegionOfInterestStyle::Reserved { value: v } && v == value),
    {
        if value == 0 {
            RegionOfInterestStyle::ImplicitRegionOfInterest
        } else {
            RegionOfInterestStyle::Reserved { value }
        }
    }
}

/// What a decoder needs to read the codestream (Rsiz).
pub enum DecoderCapability {
    Part1,
    Reserved { value: u16 },
}

impl DecoderCapability {
    fn new(value: u16) -> (r: Vec<DecoderCapability>)
        ensures
            r@.len() == 1,
            value == 0 ==> r@[0] is Part1,
            value != 0 ==> (r@[0] matches DecoderCapability::Reserved { value: v } && v == value),
    {
        let mut caps: Vec<DecoderCapability> = Vec::new();
        if value == 0 {
            caps.push(DecoderCapability::Part1);
        } else {
            caps.push(DecoderCapability::Reserved { value });
        }
        caps
    }
}

/// The sizes of the Ttlm and Ptlm fields of a TLM segment (Stlm).
#[derive(Debug, PartialEq, Eq, Structural)]
pub enum TilePartParameterSize {
    TtlmNone,
    Ttlm8Bit,
    Ttlm16Bit,
    Ptlm16Bit,
    Ptlm32Bit,
    Reserved { value: u8 },
}

impl TilePartParameterSize {
    /// Decode the ST field (bits 4 and 5) and the SP field (bit 6).
    fn new(value: u8) -> (r: Vec<TilePartParameterSize>)
        ensures
            value / 16 % 4 == 0 ==> r@.len() == 2 && r@[0] is TtlmNone,
            value / 16 % 4 == 1 ==> r@.len() == 2 && r@[0] is Ttlm8Bit,
            value / 16 % 4 == 2 ==> r@.len() == 2 && r@[0] is Ttlm16Bit,
            value / 16 % 4 == 3 ==> r@.len() == 1,
            value / 64 % 2 == 0 ==> r@[r@.len() - 1] is Ptlm16Bit,
            value / 64 % 2 == 1 ==> r@[r@.len() - 1] is Ptlm32Bit,
    {
        let mut sizes: Vec<TilePartParameterSize> = Vec::new();
        let st = value / 16 % 4;
        if st == 0 {
            sizes.push(TilePartParameterSize::TtlmNone);
        } else if st == 1 {
            sizes.push(TilePartParameterSize::Ttlm8Bit);
        } else if st == 2 {
            sizes.push(TilePartParameterSize::Ttlm16Bit);
        }
        if value / 64 % 2 == 0 {
            sizes.push(TilePartParameterSize::Ptlm16Bit);
        } else {
            sizes.push(TilePartParameterSize::Ptlm32Bit);
        }
        sizes
    }
}

/// How the bytes of a COM segment are to be read (Table A.44).
#[derive(Debug, PartialEq, Eq, Structural)]
pub enum CommentRegistrationValue {
    /// General use, binary values.
    Binary,
    /// General use, ISO 8859-15 (Latin) values.
    Latin,
    Reserved { value: u16 },
}

/// The registration a raw RCom value denotes.
pub open spec fn spec_comment_registration(v: u16) -> CommentRegistrationValue {
    if v == 0 {
        CommentRegistrationValue::Binary
    } else if v == 1 {
        CommentRegistrationValue::Latin
    } else {
        CommentRegistrationValue::Reserved { value: v }
    }
}

impl CommentRegistrationValue {
    fn new(value: u16) -> (r: CommentRegistrationValue)
        ensures
            r == spec_comment_registration(value),
    {
        if value == 0 {
            CommentRegistrationValue::Binary
        } else if value == 1 {
            CommentRegistrationValue::Latin
        } else {
            CommentRegistrationValue::Reserved { value }
        }
    }
}

/// The quantization style of a QCD or QCC segment, with its guard-bit
/// count.
#[derive(Debug, PartialEq, Eq, Structural)]
pub enum QuantizationStyle {
    No { guard: u8 },
    ScalarDerived { guard: u8 },
    ScalarExpounded { guard: u8 },
    Reserved { value: u8 },
}

/// The style a raw Sqcd byte denotes: style in the low 5 bits, guard-bit
/// count in the high 3.
pub open spec fn spec_quantization_style(b: u8) -> QuantizationStyle {
    if b % 32 == 0 {
        QuantizationStyle::No { guard: (b / 32) as u8 }
    } else if b % 32 == 1 {
        QuantizationStyle::ScalarDerived { guard: (b / 32) as u8 }
    } else if b % 32 == 2 {
        QuantizationStyle::ScalarExpounded { guard: (b / 32) as u8 }
    } else {
        QuantizationStyle::Reserved { value: b }
    }
}

impl QuantizationStyle {
    fn new(byte: u8) -> (r: QuantizationStyle)
        ensures
            r == spec_quantization_style(byte),
    {
        let value = byte % 32;
        let guard = byte / 32;
        if value == 0 {
            QuantizationStyle::No { guard }
        } else if value == 1 {
            QuantizationStyle::ScalarDerived { guard }
        } else if value == 2 {
            QuantizationStyle::ScalarExpounded { guard }
        } else {
            QuantizationStyle::Reserved { value: byte }
        }
    }
}

/// One quantization step size: one byte for the reversible filter, two
/// for the irreversible one.
#[derive(Debug, PartialEq, Eq, Structural)]
pub enum QuantizationValue {
    Reversible { value: u8 },
    Irreversible { value: u16 },
}

impl QuantizationValue {
    /// The raw stored value.
    pub fn value(&self) -> (r: u16)
        ensures
            r == match *self {
                QuantizationValue::Reversible { value } => value as u16,
                QuantizationValue::Irreversible { value } => value,
            },
    {
        match self {
            QuantizationValue::Reversible { value } => *value as u16,
            QuantizationValue::Irreversible { value } => *value,
        }
    }

    /// The 5-bit exponent, stored in the high bits of the first byte.
    pub fn exponent(&self) -> (r: u8)
        ensures
            r == match *self {
                QuantizationValue::Reversible { value } => value / 8,
                QuantizationValue::Irreversible { value } => (value / 2048) as u8,
            },
    {
        match self {
            QuantizationValue::Reversible { value } => *value / 8,
            QuantizationValue::Irreversible { value } => (*value / 2048) as u8,
        }
    }

    /// The 11-bit mantissa of an irreversible step size.
    pub fn mantissa(&self) -> (r: u16)
        requires
            self is Irreversible,
        ensures
            r == self->Irreversible_value % 2048,
    {
        match self {
            QuantizationValue::Reversible { value: _ } => 0,
            QuantizationValue::Irreversible { value } => *value % 2048,
        }
    }
}

} // verus!

verus! {

/// Read the component index of a COC, QCC or RGN segment: one byte when
/// the image has fewer than 257 components, two otherwise.
fn decode_component_index(reader: &mut ByteReader, no_components: u16) -> (r: Result<
    u16,
    CodestreamError,
>)
    requires
        old(reader).inv(),
    ensures
        final(reader).inv(),
        final(reader).bytes() == old(reader).bytes(),
        r is Err ==> final(reader).pos() == old(reader).pos(),
        r matches Err(e) ==> e is UnexpectedEof,
        r is Ok <==> old(reader).pos() + (if no_components < 257 { 1int } else { 2 })
            <= old(reader).bytes().len(),
        r is Ok ==> {
            let p = old(reader).pos();
            let s = old(reader).bytes();
            if no_components < 257 {
                final(reader).pos() == p + 1 && r->Ok_0 == s[p]
            } else {
                final(reader).pos() == p + 2 && r->Ok_0 == be16(s, p)
            }
        },
{
    if no_components < 257 {
        match reader.read_u8() {
            Ok(b) => Ok(b as u16),
            Err(_) => Err(CodestreamError::UnexpectedEof { offset: reader.position() as u64 }),
        }
    } else {
        match reader.read_u16() {
            Ok(v) => Ok(v),
            Err(_) => Err(CodestreamError::UnexpectedEof { offset: reader.position() as u64 }),
        }
    }
}

/// One precinct size byte: width exponent in the low 4 bits, height
/// exponent in the high 4.
#[derive(Debug, Default)]
pub struct CodingStyleParametersPrecinctSize {
    pub value: u8,
}

impl CodingStyleParametersPrecinctSize {
    /// The precinct height exponent PPy, from the high 4 bits.
    pub fn height_exponent(&self) -> (r: u8)
        ensures
            r == self.value / 16,
    {
        self.value / 16
    }

    /// The precinct width exponent PPx, from the low 4 bits.
    pub fn width_exponent(&self) -> (r: u8)
        ensures
            r == self.value % 16,
    {
        self.value % 16
    }
}

/// The coding-style parameters shared by COD and COC (Table A.15): the
/// decomposition level count, the code-block size exponents, the
/// code-block style flags, the wavelet filter, and the optional precinct
/// sizes.
#[derive(Debug, Default)]
pub struct CodingStyleParameters {
    pub coding_style: u8,
    pub no_decomposition_levels: u8,
    pub code_block_width: u8,
    pub code_block_height: u8,
    pub code_block_style: u8,
    pub transformation: u8,
    pub precinct_size: Vec<u8>,
}

/// The code-block size bounds of Table A.18: each exponent between 2 and
/// 10, and their sum at most 12.
pub open spec fn code_block_bounds_ok(xcb_raw: u8, ycb_raw: u8) -> bool {
    &&& xcb_raw % 16 + 2 <= 10
    &&& ycb_raw % 16 + 2 <= 10
    &&& (xcb_raw % 16 + 2) + (ycb_raw % 16 + 2) <= 12
}

impl CodingStyleParameters {
    pub fn no_decomposition_levels(&self) -> (r: u8)
        ensures
            r == self.no_decomposition_levels,
    {
        self.no_decomposition_levels
    }

    /// The code-block width, two to the power of the stored exponent
    /// offset plus two.
    pub fn code_block_width(&self) -> (r: u16)
        requires
            self.code_block_width % 16 <= 8,
        ensures
            r == pow2((self.code_block_width % 16 + 2) as nat),
    {
        pow2_u16(self.code_block_width % 16 + 2)
    }

    /// The code-block height, two to the power of the stored exponent
    /// offset plus two.
    pub fn code_block_height(&self) -> (r: u16)
        requires
            self.code_block_height % 16 <= 8,
        ensures
            r == pow2((self.code_block_height % 16 + 2) as nat),
    {
        pow2_u16(self.code_block_height % 16 + 2)
    }

    pub fn code_block_style(&self) -> (r: u8)
        ensures
            r == self.code_block_style,
    {
        self.code_block_style
    }

    /// The six independent flags of the code-block style byte, in bit
    /// order.
    pub fn coding_block_styles(&self) -> (r: Vec<CodingBlockStyle>)
        ensures
            r@.len() == 6,
            r@[0] == if self.code_block_style % 2 == 1 {
                CodingBlockStyle::SelectiveArithmeticCodingBypass
            } else {
                CodingBlockStyle::NoSelectiveArithmeticCodingBypass
            },
            r@[1] == if self.code_block_style / 2 % 2 == 1 {
                CodingBlockStyle::ResetContextProbabilities
            } else {
                CodingBlockStyle::NoResetOfContextProbabilities
            },
            r@[2] == if self.code_block_style / 4 % 2 == 1 {
                CodingBlockStyle::TerminationOnEachCodingPass
            } else {
                CodingBlockStyle::NoTerminationOnEachCodingPass
            },
            r@[3] == if self.code_block_style / 8 % 2 == 1 {
                CodingBlockStyle::VerticallyCausalContext
            } else {
                CodingBlockStyle::NoVerticallyCausalContext
            },
            r@[4] == if self.code_block_style / 16 % 2 == 1 {
                CodingBlockStyle::PredictableTermination
            } else {
                CodingBlockStyle::NoPredictableTermination
            },
            r@[5] == if self.code_block_style / 32 % 2 == 1 {
                CodingBlockStyle::SegmentationSymbolsAreUsed
            } else {
                CodingBlockStyle::NoSegmentationSymbolsAreUsed
            },
    {
        CodingBlockStyle::new(self.code_block_style)
    }

    pub fn transformation(&self) -> (r: TransformationFilter)
        ensures
            r == spec_transformation_filter(self.transformation),
    {
        TransformationFilter::new(self.transformation)
    }

    /// Whether the coding style announces explicit precinct sizes.
    pub fn has_defined_precinct_size(&self) -> (r: bool)
        ensures
            r == (self.coding_style % 2 == 1),
    {
        self.coding_style % 2 == 1
    }

    /// Whether the precincts take the maximal default size.
    pub fn has_default_precinct_size(&self) -> (r: bool)
        ensures
            r == (self.coding_style % 2 == 0),
    {
        self.coding_style % 2 == 0
    }

    /// The precinct sizes: the stored bytes when they were defined, or
    /// the single maximal default PPx = PPy = 15.
    pub fn precinct_sizes(&self) -> (r: Option<Vec<CodingStyleParametersPrecinctSize>>)
        ensures
            r is Some,
            self.coding_style % 2 == 0 ==> r->0@.len() == 1 && r->0@[0].value == 255,
            self.coding_style % 2 == 1 ==> r->0@.len() == self.precinct_size@.len()
                && forall|i: int| 0 <= i < self.precinct_size@.len() ==>
                    (#[trigger] r->0@[i]).value == self.precinct_size@[i],
    {
        if self.coding_style % 2 == 0 {
            let mut sizes: Vec<CodingStyleParametersPrecinctSize> = Vec::new();
            sizes.push(CodingStyleParametersPrecinctSize { value: 255 });
            return Some(sizes);
        }
        let mut sizes: Vec<CodingStyleParametersPrecinctSize> = Vec::new();
        let mut i: usize = 0;
        while i < self.precinct_size.len()
            invariant
                i <= self.precinct_size@.len(),
                sizes@.len() == i,
                forall|j: int| 0 <= j < i ==>
                    (#[trigger] sizes@[j]).value == self.precinct_size@[j],
            decreases self.precinct_size@.len() - i,
        {
            sizes.push(CodingStyleParametersPrecinctSize { value: self.precinct_size[i] });
            i = i + 1;
        }
        Some(sizes)
    }

    /// Parse the parameters. `coding_style` is the Scod or Scoc byte of
    /// the surrounding segment: its low bit says whether the precinct
    /// size bytes follow, one per decomposition level plus one. The
    /// code-block exponents must satisfy the bounds of Table A.18.
    pub fn decode(reader: &mut ByteReader, coding_style: u8, marker: MarkerSymbol) -> (r: Result<
        CodingStyleParameters,
        CodestreamError,
    >)
        requires
            old(reader).inv(),
        ensures
            final(reader).inv(),
            final(reader).bytes() == old(reader).bytes(),
            r matches Err(e) ==> (e is MarkerError || e is UnexpectedEof),
            r matches Err(CodestreamError::MarkerError { marker: m, .. }) ==> m == marker,
            r is Ok ==> final(reader).pos() >= old(reader).pos() + 5,
            r is Ok ==> {
                let p = old(reader).pos();
                let s = old(reader).bytes();
                let c = r->Ok_0;
                &&& c.coding_style == coding_style
                &&& c.no_decomposition_levels == s[p]
                &&& c.code_block_width == s[p + 1]
                &&& c.code_block_height == s[p + 2]
                &&& c.code_block_style == s[p + 3]
                &&& c.transformation == s[p + 4]
                &&& code_block_bounds_ok(c.code_block_width, c.code_block_height)
                &&& (coding_style % 2 == 1 ==> c.precinct_size@ == s.subrange(
                        p + 5,
                        p + 5 + s[p] + 1,
                    ) && final(reader).pos() == p + 6 + s[p])
                &&& (coding_style % 2 == 0 ==> c.precinct_size@.len() == 0
                        && final(reader).pos() == p + 5)
            },
            r is Ok <==> ({
                let p = old(reader).pos();
                let s = old(reader).bytes();
                &&& p + 5 <= s.len()
                &&& code_block_bounds_ok(s[p + 1], s[p + 2])
                &&& (coding_style % 2 == 1 ==> p + 6 + s[p] <= s.len())
            }),
    {
        let start = reader.position();
        if reader.remaining() < 5 {
            return Err(CodestreamError::UnexpectedEof { offset: start as u64 });
        }
        let no_decomposition_levels = reader.read_u8().unwrap();
        let code_block_width = reader.read_u8().unwrap();
        let code_block_height = reader.read_u8().unwrap();
        let code_block_style = reader.read_u8().unwrap();
        let transformation = reader.read_u8().unwrap();

        // The code-block sizes are limited to powers of two between 2^2
        // and 2^10, with the product at most 2^12 (Table A.18).
        let xcb = code_block_width % 16;
        let ycb = code_block_height % 16;
        if xcb + 2 > 10 || ycb + 2 > 10 || (xcb + 2) + (ycb + 2) > 12 {
            return Err(CodestreamError::MarkerError {
                marker,
                description: "code-block size exponents pass the limits of Table A.18",
            });
        }

        let mut precinct_size: Vec<u8> = Vec::new();
        if coding_style % 2 == 1 {
            // One precinct size byte for the lowest resolution level and
            // one for each further decomposition level.
            let n = no_decomposition_levels as usize + 1;
            if reader.remaining() < n {
                return Err(CodestreamError::UnexpectedEof {
                    offset: reader.position() as u64,
                });
            }
            precinct_size = reader.read_bytes(n).unwrap();
        }
        Ok(CodingStyleParameters {
            coding_style,
            no_decomposition_levels,
            code_block_width,
            code_block_height,
            code_block_style,
            transformation,
            precinct_size,
        })
    }
}

/// Coding style default segment (COD, A.6.1): the coding style for every
/// component not overridden by a COC segment.
#[derive(Debug, Default)]
pub struct CodingStyleMarkerSegment {
    pub offset: u64,
    pub length: u16,
    pub coding_style: u8,
    pub progression_order: u8,
    pub no_layers: u16,
    pub multiple_component_transformation: u8,
    pub coding_style_parameters: CodingStyleParameters,
}

impl CodingStyleMarkerSegment {
    pub fn length(&self) -> (r: u16)
        ensures
            r == self.length,
    {
        self.length
    }

    pub fn offset(&self) -> (r: u64)
        ensures
            r == self.offset,
    {
        self.offset
    }

    /// The raw Scod byte.
    pub fn coding_style(&self) -> (r: u8)
        ensures
            r == self.coding_style,
    {
        self.coding_style
    }

    /// The three independent flags of Scod, in bit order.
    pub fn coding_styles(&self) -> (r: Vec<CodingStyleDefault>)
        ensures
            r@.len() == 3,
            r@[0] == if self.coding_style % 2 == 1 {
                CodingStyleDefault::EntropyCoderWithPrecinctsDefined
            } else {
                CodingStyleDefault::EntropyCoderWithPrecincts
            },
            r@[1] == if self.coding_style / 2 % 2 == 1 {
                CodingStyleDefault::SOP
            } else {
                CodingStyleDefault::NoSOP
            },
            r@[2] == if self.coding_style / 4 % 2 == 1 {
                CodingStyleDefault::EPH
            } else {
                CodingStyleDefault::NoEPH
            },
    {
        CodingStyleDefault::new(self.coding_style)
    }

    /// Whether SOP marker segments may appear in the bit stream.
    pub fn sop_allowed(&self) -> (r: bool)
        ensures
            r == (self.coding_style / 2 % 2 == 1),
    {
        self.coding_style / 2 % 2 == 1
    }

    /// Whether EPH markers may appear in the bit stream.
    pub fn eph_allowed(&self) -> (r: bool)
        ensures
            r == (self.coding_style / 4 % 2 == 1),
    {
        self.coding_style / 4 % 2 == 1
    }

    pub fn progression_order(&self) -> (r: ProgressionOrder)
        ensures
            r == spec_progression_order(self.progression_order),
    {
        ProgressionOrder::new(self.progression_order)
    }

    pub fn no_layers(&self) -> (r: u16)
        ensures
            r == self.no_layers,
    {
        self.no_layers
    }

    pub fn multiple_component_transformation(&self) -> (r: MultipleComponentTransformation)
        ensures
            r == spec_multiple_component_transformation(self.multiple_component_transformation),
    {
        MultipleComponentTransformation::new(self.multiple_component_transformation)
    }

    pub fn coding_style_parameters(&self) -> (r: &CodingStyleParameters)
        ensures
            r == &self.coding_style_parameters,
    {
        &self.coding_style_parameters
    }

    /// Parse a COD segment, the reader standing right after the marker.
    pub fn decode(reader: &mut ByteReader) -> (r: Result<
        CodingStyleMarkerSegment,
        CodestreamError,
    >)
        requires
            old(reader).inv(),
        ensures
            final(reader).inv(),
            final(reader).bytes() == old(reader).bytes(),
            r matches Err(e) ==> (e is MarkerError || e is UnexpectedEof),
            r matches Err(CodestreamError::MarkerError { marker, .. })
                ==> marker == MARKER_SYMBOL_COD,
            r is Ok ==> final(reader).pos() >= old(reader).pos() + 10,
            r is Ok ==> {
                let p = old(reader).pos();
                let s = old(reader).bytes();
                let c = r->Ok_0;
                &&& c.offset == p
                &&& c.length == be16(s, p)
                &&& c.coding_style == s[p + 2]
                &&& c.progression_order == s[p + 3]
                &&& c.no_layers == be16(s, p + 4)
                &&& c.multiple_component_transformation == s[p + 6]
                &&& c.coding_style_parameters.coding_style == s[p + 2]
                &&& c.coding_style_parameters.no_decomposition_levels == s[p + 7]
                &&& c.coding_style_parameters.code_block_width == s[p + 8]
                &&& c.coding_style_parameters.code_block_height == s[p + 9]
                &&& c.coding_style_parameters.code_block_style == s[p + 10]
                &&& c.coding_style_parameters.transformation == s[p + 11]
                &&& code_block_bounds_ok(
                        c.coding_style_parameters.code_block_width,
                        c.coding_style_parameters.code_block_height,
                    )
                &&& (s[p + 2] % 2 == 1 ==> c.coding_style_parameters.precinct_size@
                        == s.subrange(p + 12, p + 13 + s[p + 7]))
                &&& (s[p + 2] % 2 == 0
                        ==> c.coding_style_parameters.precinct_size@.len() == 0)
            },
            r is Ok ==> final(reader).pos() == old(reader).pos() + r->Ok_0.length,
            r is Ok <==> ({
                let p = old(reader).pos();
                let s = old(reader).bytes();
                &&& p + 12 <= s.len()
                &&& code_block_bounds_ok(s[p + 8], s[p + 9])
                &&& (s[p + 2] % 2 == 1 ==> p + 13 + s[p + 7] <= s.len())
                &&& be16(s, p) == 12 + (if s[p + 2] % 2 == 1 { s[p + 7] + 1 } else { 0int })
            }),
    {
        let offset = reader.position() as u64;
        let length = match reader.read_u16() {
            Ok(v) => v,
            Err(_) => {
                return Err(CodestreamError::UnexpectedEof { offset: reader.position() as u64 });
            },
        };
        if reader.remaining() < 5 {
            return Err(CodestreamError::UnexpectedEof { offset: reader.position() as u64 });
        }
        let coding_style = reader.read_u8().unwrap();
        let progression_order = reader.read_u8().unwrap();
        let no_layers = reader.read_u16().unwrap();
        let multiple_component_transformation = reader.read_u8().unwrap();
        let coding_style_parameters = match CodingStyleParameters::decode(
            reader,
            coding_style,
            MARKER_SYMBOL_COD,
        ) {
            Ok(c) => c,
            Err(e) => { return Err(e); },
        };
        // Lcod must cover exactly the fields read, or the marker walk
        // behind this segment would lose its footing.
        let consumed: u16 = if coding_style % 2 == 1 {
            13 + coding_style_parameters.no_decomposition_levels as u16
        } else {
            12
        };
        if length != consumed {
            return Err(CodestreamError::MarkerError {
                marker: MARKER_SYMBOL_COD,
                description: "segment length does not match its contents",
            });
        }
        Ok(CodingStyleMarkerSegment {
            offset,
            length,
            coding_style,
            progression_order,
            no_layers,
            multiple_component_transformation,
            coding_style_parameters,
        })
    }
}

/// Coding style component segment (COC, A.6.2): overrides the COD coding
/// style for one component.
#[derive(Debug, Default)]
pub struct CodingStyleComponentSegment {
    pub offset: u64,
    pub length: u16,
    pub index: u16,
    pub coding_style: u8,
    pub coding_style_parameters: CodingStyleParameters,
}

impl CodingStyleComponentSegment {
    pub fn length(&self) -> (r: u16)
        ensures
            r == self.length,
    {
        self.length
    }

    pub fn offset(&self) -> (r: u64)
        ensures
            r == self.offset,
    {
        self.offset
    }

    pub fn component_index(&self) -> (r: u16)
        ensures
            r == self.index,
    {
        self.index
    }

    pub fn component_coding_style(&self) -> (r: CodingStyleComponent)
        ensures
            r == spec_coding_style_component(self.coding_style),
    {
        CodingStyleComponent::new(self.coding_style)
    }

    pub fn coding_style_parameters(&self) -> (r: &CodingStyleParameters)
        ensures
            r == &self.coding_style_parameters,
    {
        &self.coding_style_parameters
    }

    /// Parse a COC segment, the reader standing right after the marker.
    /// The width of the component index depends on the component count of
    /// the SIZ segment.
    pub fn decode(reader: &mut ByteReader, no_components: u16) -> (r: Result<
        CodingStyleComponentSegment,
        CodestreamError,
    >)
        requires
            old(reader).inv(),
        ensures
            final(reader).inv(),
            final(reader).bytes() == old(reader).bytes(),
            r matches Err(e) ==> (e is MarkerError || e is UnexpectedEof),
            r matches Err(CodestreamError::MarkerError { marker, .. })
                ==> marker == MARKER_SYMBOL_COC,
            r is Ok ==> final(reader).pos() >= old(reader).pos() + 8,
            r is Ok ==> {
                let p = old(reader).pos();
                let s = old(reader).bytes();
                let c = r->Ok_0;
                &&& c.offset == p
                &&& c.length == be16(s, p)
                &&& (no_components < 257 ==> c.index == s[p + 2]
                        && c.coding_style == s[p + 3])
                &&& (no_components >= 257 ==> c.index == be16(s, p + 2)
                        && c.coding_style == s[p + 4])
                &&& code_block_bounds_ok(
                        c.coding_style_parameters.code_block_width,
                        c.coding_style_parameters.code_block_height,
                    )
                &&& ({
                    let w: int = if no_components < 257 { 1 } else { 2 };
                    &&& (s[p + 2 + w] % 2 == 1 ==> c.coding_style_parameters.precinct_size@
                            == s.subrange(p + 8 + w, p + 9 + w + s[p + 3 + w]))
                    &&& (s[p + 2 + w] % 2 == 0
                            ==> c.coding_style_parameters.precinct_size@.len() == 0)
                })
            },
            r is Ok ==> final(reader).pos() == old(reader).pos() + r->Ok_0.length,
            r is Ok <==> ({
                let p = old(reader).pos();
                let s = old(reader).bytes();
                let w: int = if no_components < 257 { 1 } else { 2 };
                &&& p + 8 + w <= s.len()
                &&& code_block_bounds_ok(s[p + 4 + w], s[p + 5 + w])
                &&& (s[p + 2 + w] % 2 == 1 ==> p + 9 + w + s[p + 3 + w] <= s.len())
                &&& be16(s, p) == 8 + w + (if s[p + 2 + w] % 2 == 1 {
                        s[p + 3 + w] + 1
                    } else {
                        0int
                    })
            }),
    {
        let offset = reader.position() as u64;
        let length = match reader.read_u16() {
            Ok(v) => v,
            Err(_) => {
                return Err(CodestreamError::UnexpectedEof { offset: reader.position() as u64 });
            },
        };
        let index = match decode_component_index(reader, no_components) {
            Ok(v) => v,
            Err(e) => { return Err(e); },
        };
        let coding_style = match reader.read_u8() {
            Ok(v) => v,
            Err(_) => {
                return Err(CodestreamError::UnexpectedEof { offset: reader.position() as u64 });
            },
        };
        let coding_style_parameters = match CodingStyleParameters::decode(
            reader,
            coding_style,
            MARKER_SYMBOL_COC,
        ) {
            Ok(c) => c,
            Err(e) => { return Err(e); },
        };
        // Lcoc must cover exactly the fields read.
        let index_width: u16 = if no_components < 257 { 1 } else { 2 };
        let consumed: u16 = if coding_style % 2 == 1 {
            9 + index_width + coding_style_parameters.no_decomposition_levels as u16
        } else {
            8 + index_width
        };
        if length != consumed {
            return Err(CodestreamError::MarkerError {
                marker: MARKER_SYMBOL_COC,
                description: "segment length does not match its contents",
            });
        }
        Ok(CodingStyleComponentSegment {
            offset,
            length,
            index,
            coding_style,
            coding_style_parameters,
        })
    }
}

/// Start of tile-part segment (SOT, A.4.2): the tile index, the length of
/// the tile-part, and its position among the tile-parts of its tile.
#[derive(Debug, Default)]
pub struct StartOfTileSegment {
    pub offset: u64,
    pub length: u16,
    pub tile_index: u16,
    pub tile_length: u32,
    pub tile_part_index: u8,
    pub no_tile_parts: u8,
}

impl StartOfTileSegment {
    /// Parse an SOT segment, the reader standing right after the marker.
    pub fn decode(reader: &mut ByteReader) -> (r: Result<StartOfTileSegment, CodestreamError>)
        requires
            old(reader).inv(),
        ensures
            final(reader).inv(),
            final(reader).bytes() == old(reader).bytes(),
            r matches Err(e) ==> e is UnexpectedEof,
            r is Ok <==> old(reader).pos() + 10 <= old(reader).bytes().len(),
            r is Ok ==> {
                let p = old(reader).pos();
                let s = old(reader).bytes();
                let t = r->Ok_0;
                &&& final(reader).pos() == p + 10
                &&& t.offset == p
                &&& t.length == be16(s, p)
                &&& t.tile_index == be16(s, p + 2)
                &&& t.tile_length == be32(s, p + 4)
                &&& t.tile_part_index == s[p + 8]
                &&& t.no_tile_parts == s[p + 9]
            },
            r is Ok ==> sot_matches_bytes(r->Ok_0, old(reader).bytes()),
    {
        let offset = reader.position() as u64;
        if reader.remaining() < 10 {
            return Err(CodestreamError::UnexpectedEof { offset: reader.position() as u64 });
        }
        let length = reader.read_u16().unwrap();
        let tile_index = reader.read_u16().unwrap();
        let tile_length = reader.read_u32().unwrap();
        let tile_part_index = reader.read_u8().unwrap();
        let no_tile_parts = reader.read_u8().unwrap();
        Ok(StartOfTileSegment {
            offset,
            length,
            tile_index,
            tile_length,
            tile_part_index,
            no_tile_parts,
        })
    }
}

/// Region of interest segment (RGN, A.6.3): signals an ROI for one
/// component.
#[derive(Debug, Default)]
pub struct RegionOfInterestSegment {
    pub offset: u64,
    pub length: u16,
    pub component_index: u16,
    pub region_of_interest_style: u8,
    pub region_of_interest_style_parameter: u8,
}

impl RegionOfInterestSegment {
    /// Parse an RGN segment, the reader standing right after the marker.
    pub fn decode(reader: &mut ByteReader, no_components: u16) -> (r: Result<
        RegionOfInterestSegment,
        CodestreamError,
    >)
        requires
            old(reader).inv(),
        ensures
            final(reader).inv(),
            final(reader).bytes() == old(reader).bytes(),
            r matches Err(e) ==> (e is MarkerError || e is UnexpectedEof),
            r matches Err(CodestreamError::MarkerError { marker, .. })
                ==> marker == MARKER_SYMBOL_RGN,
            r is Ok ==> final(reader).pos() >= old(reader).pos() + 5,
            r is Ok ==> {
                let p = old(reader).pos();
                let s = old(reader).bytes();
                let g = r->Ok_0;
                &&& g.offset == p
                &&& g.length == be16(s, p)
                &&& (no_components < 257 ==> g.component_index == s[p + 2]
                        && g.region_of_interest_style == s[p + 3]
                        && g.region_of_interest_style_parameter == s[p + 4]
                        && final(reader).pos() == p + 5)
                &&& (no_components >= 257 ==> g.component_index == be16(s, p + 2)
                        && g.region_of_interest_style == s[p + 4]
                        && g.region_of_interest_style_parameter == s[p + 5]
                        && final(reader).pos() == p + 6)
            },
            r is Ok <==> old(reader).pos() + (if no_components < 257 { 5int } else { 6 })
                <= old(reader).bytes().len(),
    {
        let offset = reader.position() as u64;
        let length = match reader.read_u16() {
            Ok(v) => v,
            Err(_) => {
                return Err(CodestreamError::UnexpectedEof { offset: reader.position() as u64 });
            },
        };
        let component_index = match decode_component_index(reader, no_components) {
            Ok(v) => v,
            Err(e) => { return Err(e); },
        };
        if reader.remaining() < 2 {
            return Err(CodestreamError::UnexpectedEof { offset: reader.position() as u64 });
        }
        let region_of_interest_style = reader.read_u8().unwrap();
        let region_of_interest_style_parameter = reader.read_u8().unwrap();
        Ok(RegionOfInterestSegment {
            offset,
            length,
            component_index,
            region_of_interest_style,
            region_of_interest_style_parameter,
        })
    }
}

} // verus!

verus! {

/// Image and tile size segment (SIZ, A.5.1): the reference grid, the
/// tile grid, and the per-component precision and sub-sampling.
#[derive(Debug, Default)]
pub struct ImageAndTileSizeMarkerSegment {
    pub offset: u64,
    pub length: u16,
    pub decoder_capabilities: u16,
    pub reference_grid_width: u32,
    pub reference_grid_height: u32,
    pub image_horizontal_offset: u32,
    pub image_vertical_offset: u32,
    pub reference_tile_width: u32,
    pub reference_tile_height: u32,
    pub tile_horizontal_offset: u32,
    pub tile_vertical_offset: u32,
    pub no_components: u16,
    pub precision: Vec<u8>,
    pub horizontal_separation: Vec<u8>,
    pub vertical_separation: Vec<u8>,
}

/// The tile grid invariants of A.5.1: the tile offsets do not pass the
/// image offsets, and the first tile holds at least one grid point of the
/// image area.
pub open spec fn siz_invariants_ok(z: ImageAndTileSizeMarkerSegment) -> bool {
    &&& z.tile_horizontal_offset <= z.image_horizontal_offset
    &&& z.tile_vertical_offset <= z.image_vertical_offset
    &&& z.reference_tile_width + z.tile_horizontal_offset > z.image_horizontal_offset
    &&& z.reference_tile_height + z.tile_vertical_offset > z.image_vertical_offset
}

impl ImageAndTileSizeMarkerSegment {
    pub fn length(&self) -> (r: u16)
        ensures
            r == self.length,
    {
        self.length
    }

    pub fn offset(&self) -> (r: u64)
        ensures
            r == self.offset,
    {
        self.offset
    }

    pub fn decoder_capabilities(&self) -> (r: u16)
        ensures
            r == self.decoder_capabilities,
    {
        self.decoder_capabilities
    }

    pub fn reference_grid_width(&self) -> (r: u32)
        ensures
            r == self.reference_grid_width,
    {
        self.reference_grid_width
    }

    pub fn reference_grid_height(&self) -> (r: u32)
        ensures
            r == self.reference_grid_height,
    {
        self.reference_grid_height
    }

    pub fn image_horizontal_offset(&self) -> (r: u32)
        ensures
            r == self.image_horizontal_offset,
    {
        self.image_horizontal_offset
    }

    pub fn image_vertical_offset(&self) -> (r: u32)
        ensures
            r == self.image_vertical_offset,
    {
        self.image_vertical_offset
    }

    pub fn reference_tile_width(&self) -> (r: u32)
        ensures
            r == self.reference_tile_width,
    {
        self.reference_tile_width
    }

    pub fn reference_tile_height(&self) -> (r: u32)
        ensures
            r == self.reference_tile_height,
    {
        self.reference_tile_height
    }

    pub fn tile_horizontal_offset(&self) -> (r: u32)
        ensures
            r == self.tile_horizontal_offset,
    {
        self.tile_horizontal_offset
    }

    pub fn tile_vertical_offset(&self) -> (r: u32)
        ensures
            r == self.tile_vertical_offset,
    {
        self.tile_vertical_offset
    }

    pub fn no_components(&self) -> (r: u16)
        ensures
            r == self.no_components,
    {
        self.no_components
    }

    /// The bit depth of component `i`: the low 7 bits of its Ssiz byte
    /// plus one.
    pub fn precision(&self, i: usize) -> (r: Result<i16, CodestreamError>)
        requires
            i < self.precision@.len(),
        ensures
            r is Ok,
            r->Ok_0 == self.precision@[i as int] % 128 + 1,
    {
        Ok((self.precision[i] % 128) as i16 + 1)
    }

    /// Whether the samples of component `i` are signed: the high bit of
    /// its Ssiz byte.
    pub fn values_are_signed(&self, i: usize) -> (r: Result<bool, CodestreamError>)
        requires
            i < self.precision@.len(),
        ensures
            r is Ok,
            r->Ok_0 == (self.precision@[i as int] >= 128),
    {
        Ok(self.precision[i] >= 128)
    }

    /// The horizontal sub-sampling of component `i` on the reference
    /// grid.
    pub fn horizontal_separation(&self, i: usize) -> (r: Result<u8, CodestreamError>)
        requires
            i < self.horizontal_separation@.len(),
        ensures
            r is Ok,
            r->Ok_0 == self.horizontal_separation@[i as int],
    {
        Ok(self.horizontal_separation[i])
    }

    /// The vertical sub-sampling of component `i` on the reference grid.
    pub fn vertical_separation(&self, i: usize) -> (r: Result<u8, CodestreamError>)
        requires
            i < self.vertical_separation@.len(),
        ensures
            r is Ok,
            r->Ok_0 == self.vertical_separation@[i as int],
    {
        Ok(self.vertical_separation[i])
    }

    /// Parse a SIZ segment, the reader standing right after the marker.
    /// Enforces the tile grid invariants of [`siz_invariants_ok`].
    #[verifier::rlimit(100)]
    #[verifier::spinoff_prover]
    pub fn decode(reader: &mut ByteReader) -> (r: Result<
        ImageAndTileSizeMarkerSegment,
        CodestreamError,
    >)
        requires
            old(reader).inv(),
        ensures
            final(reader).inv(),
            final(reader).bytes() == old(reader).bytes(),
            r matches Err(e) ==> (e is TileGridOffsetOverflow || e is TileSizeOverflow
                || e is UnexpectedEof),
            r is Ok ==> final(reader).pos() == old(reader).pos() + 38
                + 3 * be16(old(reader).bytes(), old(reader).pos() + 36),
            r is Ok ==> {
                let p = old(reader).pos();
                let s = old(reader).bytes();
                let z = r->Ok_0;
                &&& z.offset == p
                &&& z.length == be16(s, p)
                &&& z.decoder_capabilities == be16(s, p + 2)
                &&& z.reference_grid_width == be32(s, p + 4)
                &&& z.reference_grid_height == be32(s, p + 8)
                &&& z.image_horizontal_offset == be32(s, p + 12)
                &&& z.image_vertical_offset == be32(s, p + 16)
                &&& z.reference_tile_width == be32(s, p + 20)
                &&& z.reference_tile_height == be32(s, p + 24)
                &&& z.tile_horizontal_offset == be32(s, p + 28)
                &&& z.tile_vertical_offset == be32(s, p + 32)
                &&& z.no_components == be16(s, p + 36)
                &&& z.precision@.len() == z.no_components
                &&& z.horizontal_separation@.len() == z.no_components
                &&& z.vertical_separation@.len() == z.no_components
                &&& forall|i: int| 0 <= i < z.no_components ==>
                        #[trigger] z.precision@[i] == s[p + 38 + 3 * i]
                        && z.horizontal_separation@[i] == s[p + 39 + 3 * i]
                        && z.vertical_separation@[i] == s[p + 40 + 3 * i]
                &&& siz_invariants_ok(z)
            },
            r is Ok <==> siz_parse_ok(old(reader).bytes(), old(reader).pos()),
            r is Ok ==> siz_matches_bytes(r->Ok_0, old(reader).bytes()),
            r matches Err(CodestreamError::UnexpectedEof { .. }) <==> ({
                let p = old(reader).pos();
                let s = old(reader).bytes();
                p + 38 > s.len() || p + 38 + 3 * be16(s, p + 36) > s.len()
            }),
            r matches Err(CodestreamError::TileGridOffsetOverflow { .. }) <==> ({
                let p = old(reader).pos();
                let s = old(reader).bytes();
                &&& p + 38 <= s.len()
                &&& p + 38 + 3 * be16(s, p + 36) <= s.len()
                &&& (be32(s, p + 28) > be32(s, p + 12) || be32(s, p + 32) > be32(s, p + 16))
            }),
            r matches Err(CodestreamError::TileSizeOverflow { .. }) <==> ({
                let p = old(reader).pos();
                let s = old(reader).bytes();
                &&& p + 38 <= s.len()
                &&& p + 38 + 3 * be16(s, p + 36) <= s.len()
                &&& be32(s, p + 28) <= be32(s, p + 12)
                &&& be32(s, p + 32) <= be32(s, p + 16)
                &&& (be32(s, p + 20) + be32(s, p + 28) <= be32(s, p + 12)
                        || be32(s, p + 24) + be32(s, p + 32) <= be32(s, p + 16))
            }),
            r matches Err(CodestreamError::TileGridOffsetOverflow {
                tile_horizontal_offset,
                tile_vertical_offset,
                image_horizontal_offset,
                image_vertical_offset,
            }) ==> tile_horizontal_offset == be32(old(reader).bytes(), old(reader).pos() + 28)
                && tile_vertical_offset == be32(old(reader).bytes(), old(reader).pos() + 32)
                && image_horizontal_offset == be32(old(reader).bytes(), old(reader).pos() + 12)
                && image_vertical_offset == be32(old(reader).bytes(), old(reader).pos() + 16),
    {
        let offset = reader.position() as u64;
        if reader.remaining() < 38 {
            return Err(CodestreamError::UnexpectedEof { offset: reader.position() as u64 });
        }
        let length = reader.read_u16().unwrap();
        let decoder_capabilities = reader.read_u16().unwrap();
        let reference_grid_width = reader.read_u32().unwrap();
        let reference_grid_height = reader.read_u32().unwrap();
        let image_horizontal_offset = reader.read_u32().unwrap();
        let image_vertical_offset = reader.read_u32().unwrap();
        let reference_tile_width = reader.read_u32().unwrap();
        let reference_tile_height = reader.read_u32().unwrap();
        let tile_horizontal_offset = reader.read_u32().unwrap();
        let tile_vertical_offset = reader.read_u32().unwrap();
        let no_components = reader.read_u16().unwrap();

        let mut precision: Vec<u8> = Vec::new();
        let mut horizontal_separation: Vec<u8> = Vec::new();
        let mut vertical_separation: Vec<u8> = Vec::new();
        let mut i: u16 = 0;
        let ghost p = old(reader).pos();
        let ghost s = old(reader).bytes();
        while i < no_components
            invariant
                reader.inv(),
                reader.bytes() == s,
                s == old(reader).bytes(),
                p == old(reader).pos(),
                i <= no_components,
                no_components == be16(s, p + 36),
                precision@.len() == i,
                horizontal_separation@.len() == i,
                vertical_separation@.len() == i,
                reader.pos() == p + 38 + 3 * i,
                forall|j: int| 0 <= j < i ==> #[trigger] precision@[j] == s[p + 38 + 3 * j]
                    && horizontal_separation@[j] == s[p + 39 + 3 * j]
                    && vertical_separation@[j] == s[p + 40 + 3 * j],
            decreases no_components - i,
        {
            if reader.remaining() < 3 {
                return Err(CodestreamError::UnexpectedEof { offset: reader.position() as u64 });
            }
            precision.push(reader.read_u8().unwrap());
            horizontal_separation.push(reader.read_u8().unwrap());
            vertical_separation.push(reader.read_u8().unwrap());
            i = i + 1;
        }

        let segment = ImageAndTileSizeMarkerSegment {
            offset,
            length,
            decoder_capabilities,
            reference_grid_width,
            reference_grid_height,
            image_horizontal_offset,
            image_vertical_offset,
            reference_tile_width,
            reference_tile_height,
            tile_horizontal_offset,
            tile_vertical_offset,
            no_components,
            precision,
            horizontal_separation,
            vertical_separation,
        };

        // The tile grid offsets may not pass the image area offsets.
        if segment.tile_horizontal_offset > segment.image_horizontal_offset
            || segment.tile_vertical_offset > segment.image_vertical_offset {
            return Err(CodestreamError::TileGridOffsetOverflow {
                tile_horizontal_offset: segment.tile_horizontal_offset,
                image_horizontal_offset: segment.image_horizontal_offset,
                tile_vertical_offset: segment.tile_vertical_offset,
                image_vertical_offset: segment.image_vertical_offset,
            });
        }
        // The first tile must hold at least one reference grid point of
        // the image area: tile size plus tile offset must pass the image
        // offset.
        if segment.reference_tile_width as u64 + segment.tile_horizontal_offset as u64
            <= segment.image_horizontal_offset as u64
            || segment.reference_tile_height as u64 + segment.tile_vertical_offset as u64
                <= segment.image_vertical_offset as u64 {
            return Err(CodestreamError::TileSizeOverflow {
                reference_tile_width: segment.reference_tile_width,
                tile_horizontal_offset: segment.tile_horizontal_offset,
                image_horizontal_offset: segment.image_horizontal_offset,
                reference_tile_height: segment.reference_tile_height,
                tile_vertical_offset: segment.tile_vertical_offset,
                image_vertical_offset: segment.image_vertical_offset,
            });
        }
        proof {
            assert forall|k: int| 0 <= k < segment.no_components implies
                #[trigger] segment.precision@[k] == s[p + 38 + 3 * k]
                && segment.horizontal_separation@[k] == s[p + 39 + 3 * k]
                && segment.vertical_separation@[k] == s[p + 40 + 3 * k] by {
                assert(segment.precision@[k] == s[p + 38 + 3 * k]);
            }
            assert(segment.offset == p);
            assert(segment.length == be16(s, p) && segment.decoder_capabilities == be16(s, p + 2));
            assert(segment.reference_grid_width == be32(s, p + 4)
                && segment.reference_grid_height == be32(s, p + 8));
            assert(segment.image_horizontal_offset == be32(s, p + 12)
                && segment.image_vertical_offset == be32(s, p + 16));
            assert(segment.reference_tile_width == be32(s, p + 20)
                && segment.reference_tile_height == be32(s, p + 24));
            assert(segment.tile_horizontal_offset == be32(s, p + 28)
                && segment.tile_vertical_offset == be32(s, p + 32));
            assert(segment.no_components == be16(s, p + 36));
            assert(segment.precision@.len() == segment.no_components
                && segment.horizontal_separation@.len() == segment.no_components
                && segment.vertical_separation@.len() == segment.no_components);
            assert forall|k: int| 0 <= k < segment.no_components implies
                #[trigger] segment.precision@[k] == s[segment.offset as int + 38 + 3 * k]
                && segment.horizontal_separation@[k] == s[segment.offset as int + 39 + 3 * k]
                && segment.vertical_separation@[k] == s[segment.offset as int + 40 + 3 * k] by {
                assert(segment.precision@[k] == s[p + 38 + 3 * k]);
                assert(segment.horizontal_separation@[k] == s[p + 39 + 3 * k]);
                assert(segment.vertical_separation@[k] == s[p + 40 + 3 * k]);
            }
            assert(siz_matches_bytes(segment, s));
        }
        Ok(segment)
    }
}

} // verus!

verus! {

/// One progression of a POC segment: its resolution level, component and
/// layer bounds, and its progression order.
#[derive(Debug, Default)]
pub struct CodingStyleComponentSegmentProgression {
    pub resolution_level_index_start: u8,
    pub component_index_start: u16,
    pub layer_index_end: u16,
    pub resolution_level_index_end: u8,
    pub component_index_end: u16,
    pub progression_order: u8,
}

impl CodingStyleComponentSegmentProgression {
    pub fn component_index_start(&self) -> (r: u16)
        ensures
            r == self.component_index_start,
    {
        self.component_index_start
    }

    pub fn component_index_end(&self) -> (r: u16)
        ensures
            r == self.component_index_end,
    {
        self.component_index_end
    }

    pub fn progression_order(&self) -> (r: ProgressionOrder)
        ensures
            r == spec_progression_order(self.progression_order),
    {
        ProgressionOrder::new(self.progression_order)
    }
}

/// Progression order change segment (POC, A.6.6): progressions that
/// override the order of the COD segment.
#[derive(Debug, Default)]
pub struct ProgressionOrderChangeSegment {
    pub offset: u64,
    pub length: u16,
    pub progressions: Vec<CodingStyleComponentSegmentProgression>,
}

impl ProgressionOrderChangeSegment {
    pub fn progressions(&self) -> (r: &Vec<CodingStyleComponentSegmentProgression>)
        ensures
            r == &self.progressions,
    {
        &self.progressions
    }

    /// Parse a POC segment, the reader standing right after the marker.
    /// The entry count derives from the segment length: each entry is 7
    /// bytes, or 9 when the component indices take two bytes.
    pub fn decode(reader: &mut ByteReader, no_components: u16) -> (r: Result<
        ProgressionOrderChangeSegment,
        CodestreamError,
    >)
        requires
            old(reader).inv(),
        ensures
            final(reader).inv(),
            final(reader).bytes() == old(reader).bytes(),
            r matches Err(e) ==> (e is MarkerError || e is UnexpectedEof),
            r matches Err(CodestreamError::MarkerError { marker, .. })
                ==> marker == MARKER_SYMBOL_POC,
            r is Ok ==> {
                let p = old(reader).pos();
                let s = old(reader).bytes();
                let esz: int = if no_components < 257 { 7 } else { 9 };
                let c = r->Ok_0;
                &&& c.offset == p
                &&& c.length == be16(s, p)
                &&& c.length >= 2
                &&& c.progressions@.len() == (c.length - 2) / esz
                &&& final(reader).pos() == p + 2 + esz * ((c.length - 2) / esz)
            },
            r is Ok <==> ({
                let p = old(reader).pos();
                let s = old(reader).bytes();
                let esz: int = if no_components < 257 { 7 } else { 9 };
                &&& p + 2 <= s.len()
                &&& be16(s, p) >= 2
                &&& p + 2 + esz * ((be16(s, p) - 2) / esz) <= s.len()
            }),
    {
        let offset = reader.position() as u64;
        let length = match reader.read_u16() {
            Ok(v) => v,
            Err(_) => {
                return Err(CodestreamError::UnexpectedEof { offset: reader.position() as u64 });
            },
        };
        if length < 2 {
            return Err(CodestreamError::MarkerError {
                marker: MARKER_SYMBOL_POC,
                description: "segment length shorter than its own length field",
            });
        }
        // Each progression is RSpoc (1), CSpoc (1 or 2), LYEpoc (2),
        // REpoc (1), CEpoc (1 or 2) and Ppoc (1).
        let entry_size: u16 = if no_components < 257 { 7 } else { 9 };
        let n = (length - 2) / entry_size;
        let mut progressions: Vec<CodingStyleComponentSegmentProgression> = Vec::new();
        let mut i: u16 = 0;
        while i < n
            invariant
                reader.inv(),
                reader.bytes() == old(reader).bytes(),
                entry_size == (if no_components < 257 { 7int } else { 9 }),
                n == (be16(old(reader).bytes(), old(reader).pos()) - 2) / (entry_size as int),
                be16(old(reader).bytes(), old(reader).pos()) >= 2,
                i <= n,
                progressions@.len() == i,
                reader.pos() == old(reader).pos() + 2 + entry_size * i,
            decreases n - i,
        {
            let resolution_level_index_start = match reader.read_u8() {
                Ok(v) => v,
                Err(_) => {
                    return Err(CodestreamError::UnexpectedEof {
                        offset: reader.position() as u64,
                    });
                },
            };
            let component_index_start = match decode_component_index(reader, no_components) {
                Ok(v) => v,
                Err(e) => { return Err(e); },
            };
            let layer_index_end = match reader.read_u16() {
                Ok(v) => v,
                Err(_) => {
                    return Err(CodestreamError::UnexpectedEof {
                        offset: reader.position() as u64,
                    });
                },
            };
            let resolution_level_index_end = match reader.read_u8() {
                Ok(v) => v,
                Err(_) => {
                    return Err(CodestreamError::UnexpectedEof {
                        offset: reader.position() as u64,
                    });
                },
            };
            let component_index_end = match decode_component_index(reader, no_components) {
                Ok(v) => v,
                Err(e) => { return Err(e); },
            };
            let progression_order = match reader.read_u8() {
                Ok(v) => v,
                Err(_) => {
                    return Err(CodestreamError::UnexpectedEof {
                        offset: reader.position() as u64,
                    });
                },
            };
            progressions.push(CodingStyleComponentSegmentProgression {
                resolution_level_index_start,
                component_index_start,
                layer_index_end,
                resolution_level_index_end,
                component_index_end,
                progression_order,
            });
            i = i + 1;
        }
        Ok(ProgressionOrderChangeSegment { offset, length, progressions })
    }
}

/// Read the step-size values of a QCD or QCC segment: one for each of
/// the `3 * levels + 1` subbands, one byte each without quantization,
/// two bytes each for the scalar styles.
fn decode_quantization_values(
    reader: &mut ByteReader,
    style: &QuantizationStyle,
    no_decomposition_levels: u8,
    marker: MarkerSymbol,
) -> (r: Result<Vec<QuantizationValue>, CodestreamError>)
    requires
        old(reader).inv(),
        !(style is Reserved),
    ensures
        final(reader).inv(),
        final(reader).bytes() == old(reader).bytes(),
        r matches Err(e) ==> e is UnexpectedEof,
        r is Ok ==> {
            let p = old(reader).pos();
            let s = old(reader).bytes();
            let n = 3 * no_decomposition_levels + 1;
            let v = r->Ok_0;
            &&& v@.len() == n
            &&& (style is No ==> final(reader).pos() == p + n
                    && forall|i: int| 0 <= i < n ==> #[trigger] v@[i]
                        == (QuantizationValue::Reversible { value: s[p + i] }))
            &&& (!(style is No) ==> final(reader).pos() == p + 2 * n
                    && forall|i: int| 0 <= i < n ==> #[trigger] v@[i]
                        == (QuantizationValue::Irreversible {
                            value: be16(s, p + 2 * i) as u16,
                        }))
        },
        r is Ok <==> ({
            let n: int = 3 * no_decomposition_levels + 1;
            let k: int = if style is No { 1 } else { 2 };
            old(reader).pos() + k * n <= old(reader).bytes().len()
        }),
{
    let no_subbands: u16 = 3 * no_decomposition_levels as u16 + 1;
    let mut values: Vec<QuantizationValue> = Vec::new();
    let reversible = match style {
        QuantizationStyle::No { guard: _ } => true,
        _ => false,
    };
    let mut i: u16 = 0;
    while i < no_subbands
        invariant
            reader.inv(),
            reader.bytes() == old(reader).bytes(),
            i <= no_subbands,
            no_subbands == 3 * no_decomposition_levels + 1,
            reversible == (style is No),
            values@.len() == i,
            reversible ==> reader.pos() == old(reader).pos() + i,
            !reversible ==> reader.pos() == old(reader).pos() + 2 * i,
            reversible ==> forall|j: int| 0 <= j < i ==> #[trigger] values@[j]
                == (QuantizationValue::Reversible {
                    value: old(reader).bytes()[old(reader).pos() + j],
                }),
            !reversible ==> forall|j: int| 0 <= j < i ==> #[trigger] values@[j]
                == (QuantizationValue::Irreversible {
                    value: be16(old(reader).bytes(), old(reader).pos() + 2 * j) as u16,
                }),
        decreases no_subbands - i,
    {
        if reversible {
            let v = match reader.read_u8() {
                Ok(v) => v,
                Err(_) => {
                    return Err(CodestreamError::UnexpectedEof {
                        offset: reader.position() as u64,
                    });
                },
            };
            values.push(QuantizationValue::Reversible { value: v });
        } else {
            let v = match reader.read_u16() {
                Ok(v) => v,
                Err(_) => {
                    return Err(CodestreamError::UnexpectedEof {
                        offset: reader.position() as u64,
                    });
                },
            };
            values.push(QuantizationValue::Irreversible { value: v });
        }
        i = i + 1;
    }
    Ok(values)
}

/// Quantization default segment (QCD, A.6.4): the quantization for every
/// component not overridden by a QCC segment.
#[derive(Debug, Default)]
pub struct QuantizationDefaultMarkerSegment {
    pub length: u16,
    pub quantization_style: u8,
    pub values: Vec<QuantizationValue>,
}

impl QuantizationDefaultMarkerSegment {
    pub fn length(&self) -> (r: u16)
        ensures
            r == self.length,
    {
        self.length
    }

    /// The raw Sqcd byte.
    pub fn quantization_style_u8(&self) -> (r: u8)
        ensures
            r == self.quantization_style,
    {
        self.quantization_style
    }

    pub fn quantization_style(&self) -> (r: QuantizationStyle)
        ensures
            r == spec_quantization_style(self.quantization_style),
    {
        QuantizationStyle::new(self.quantization_style)
    }

    /// The raw stored step-size values, one per subband.
    pub fn quantization_values(&self) -> (r: Vec<u16>)
        ensures
            r@.len() == self.values@.len(),
            forall|i: int| 0 <= i < r@.len() ==> #[trigger] r@[i] == match self.values@[i] {
                QuantizationValue::Reversible { value } => value as u16,
                QuantizationValue::Irreversible { value } => value,
            },
    {
        let mut out: Vec<u16> = Vec::new();
        let mut i: usize = 0;
        while i < self.values.len()
            invariant
                i <= self.values@.len(),
                out@.len() == i,
                forall|j: int| 0 <= j < i ==> #[trigger] out@[j] == match self.values@[j] {
                    QuantizationValue::Reversible { value } => value as u16,
                    QuantizationValue::Irreversible { value } => value,
                },
            decreases self.values@.len() - i,
        {
            out.push(self.values[i].value());
            i = i + 1;
        }
        out
    }

    /// The 5-bit exponents of the stored step-size values, one per
    /// subband.
    pub fn quantization_exponents(&self) -> (r: Vec<u8>)
        ensures
            r@.len() == self.values@.len(),
            forall|i: int| 0 <= i < r@.len() ==> #[trigger] r@[i] == match self.values@[i] {
                QuantizationValue::Reversible { value } => value / 8,
                QuantizationValue::Irreversible { value } => (value / 2048) as u8,
            },
    {
        let mut out: Vec<u8> = Vec::new();
        let mut i: usize = 0;
        while i < self.values.len()
            invariant
                i <= self.values@.len(),
                out@.len() == i,
                forall|j: int| 0 <= j < i ==> #[trigger] out@[j] == match self.values@[j] {
                    QuantizationValue::Reversible { value } => value / 8,
                    QuantizationValue::Irreversible { value } => (value / 2048) as u8,
                },
            decreases self.values@.len() - i,
        {
            out.push(self.values[i].exponent());
            i = i + 1;
        }
        out
    }

    /// The guard-bit count, from the high 3 bits of Sqcd.
    pub fn no_guard_bits(&self) -> (r: u8)
        ensures
            r == self.quantization_style / 32,
    {
        self.quantization_style / 32
    }

    /// Parse a QCD segment, the reader standing right after the marker.
    /// The subband count is not transmitted: it derives from the segment
    /// length and the quantization style.
    pub fn decode(reader: &mut ByteReader) -> (r: Result<
        QuantizationDefaultMarkerSegment,
        CodestreamError,
    >)
        requires
            old(reader).inv(),
        ensures
            final(reader).inv(),
            final(reader).bytes() == old(reader).bytes(),
            r matches Err(e) ==> (e is MarkerError || e is UnexpectedEof),
            r matches Err(CodestreamError::MarkerError { marker, .. })
                ==> marker == MARKER_SYMBOL_QCD,
            r is Ok ==> final(reader).pos() >= old(reader).pos() + 3,
            r is Ok ==> {
                let p = old(reader).pos();
                let s = old(reader).bytes();
                let q = r->Ok_0;
                &&& q.length == be16(s, p)
                &&& q.quantization_style == s[p + 2]
                &&& !(spec_quantization_style(q.quantization_style) is Reserved)
                &&& (spec_quantization_style(q.quantization_style) is No
                        ==> q.length >= 4 && q.values@.len() == 3 * ((q.length - 4) / 3) + 1)
                &&& (spec_quantization_style(q.quantization_style) is ScalarDerived
                        ==> q.values@.len() == 1)
                &&& (spec_quantization_style(q.quantization_style) is ScalarExpounded
                        ==> q.length >= 5 && q.values@.len() == 3 * ((q.length - 5) / 6) + 1)
                &&& (spec_quantization_style(q.quantization_style) is No
                        ==> final(reader).pos() == p + 3 + (3 * ((q.length - 4) / 3) + 1))
                &&& (spec_quantization_style(q.quantization_style) is ScalarDerived
                        ==> final(reader).pos() == p + 5)
                &&& (spec_quantization_style(q.quantization_style) is ScalarExpounded
                        ==> final(reader).pos() == p + 3 + 2 * (3 * ((q.length - 5) / 6) + 1))
                &&& (spec_quantization_style(q.quantization_style) is No
                        ==> forall|i: int| 0 <= i < q.values@.len() ==> #[trigger] q.values@[i]
                            == (QuantizationValue::Reversible { value: s[p + 3 + i] }))
                &&& (!(spec_quantization_style(q.quantization_style) is No)
                        ==> forall|i: int| 0 <= i < q.values@.len() ==> #[trigger] q.values@[i]
                            == (QuantizationValue::Irreversible {
                                value: be16(s, p + 3 + 2 * i) as u16,
                            }))
            },
            r is Ok <==> ({
                let p = old(reader).pos();
                let s = old(reader).bytes();
                let style = spec_quantization_style(s[p + 2] as u8);
                &&& p + 3 <= s.len()
                &&& !(style is Reserved)
                &&& (style is No ==> be16(s, p) >= 4 && (be16(s, p) - 4) / 3 <= 255
                        && p + 3 + (3 * ((be16(s, p) - 4) / 3) + 1) <= s.len())
                &&& (style is ScalarDerived ==> p + 5 <= s.len())
                &&& (style is ScalarExpounded ==> be16(s, p) >= 5
                        && (be16(s, p) - 5) / 6 <= 255
                        && p + 3 + 2 * (3 * ((be16(s, p) - 5) / 6) + 1) <= s.len())
            }),
    {
        let length = match reader.read_u16() {
            Ok(v) => v,
            Err(_) => {
                return Err(CodestreamError::UnexpectedEof { offset: reader.position() as u64 });
            },
        };
        let style_byte = match reader.read_u8() {
            Ok(v) => v,
            Err(_) => {
                return Err(CodestreamError::UnexpectedEof { offset: reader.position() as u64 });
            },
        };
        let style = QuantizationStyle::new(style_byte);

        // The decomposition level count follows from the segment length:
        // without quantization one byte per subband, with scalar
        // quantization two; the derived style stores one value only.
        let no_decomposition_levels: u16 = match style {
            QuantizationStyle::No { guard: _ } => {
                if length < 4 {
                    return Err(CodestreamError::MarkerError {
                        marker: MARKER_SYMBOL_QCD,
                        description: "segment too short for its quantization style",
                    });
                }
                (length - 4) / 3
            },
            QuantizationStyle::ScalarDerived { guard: _ } => 0,
            QuantizationStyle::ScalarExpounded { guard: _ } => {
                if length < 5 {
                    return Err(CodestreamError::MarkerError {
                        marker: MARKER_SYMBOL_QCD,
                        description: "segment too short for its quantization style",
                    });
                }
                (length - 5) / 6
            },
            QuantizationStyle::Reserved { value: _ } => {
                return Err(CodestreamError::MarkerError {
                    marker: MARKER_SYMBOL_QCD,
                    description: "reserved quantization style",
                });
            },
        };
        if no_decomposition_levels > 255 {
            return Err(CodestreamError::MarkerError {
                marker: MARKER_SYMBOL_QCD,
                description: "more decomposition levels than the standard allows",
            });
        }
        let values = match decode_quantization_values(
            reader,
            &style,
            no_decomposition_levels as u8,
            MARKER_SYMBOL_QCD,
        ) {
            Ok(v) => v,
            Err(e) => { return Err(e); },
        };
        Ok(QuantizationDefaultMarkerSegment {
            length,
            quantization_style: style_byte,
            values,
        })
    }
}

/// Quantization component segment (QCC, A.6.5): overrides the QCD
/// quantization for one component.
#[derive(Debug, Default)]
pub struct QuantizationComponentSegment {
    pub offset: u64,
    pub length: u16,
    pub component_index: u16,
    pub quantization_style: u8,
    pub quantization_values: Vec<QuantizationValue>,
}

impl QuantizationComponentSegment {
    pub fn length(&self) -> (r: u16)
        ensures
            r == self.length,
    {
        self.length
    }

    pub fn component_index(&self) -> (r: u16)
        ensures
            r == self.component_index,
    {
        self.component_index
    }

    /// The raw Sqcc byte.
    pub fn quantization_style_u8(&self) -> (r: u8)
        ensures
            r == self.quantization_style,
    {
        self.quantization_style
    }

    pub fn quantization_style(&self) -> (r: QuantizationStyle)
        ensures
            r == spec_quantization_style(self.quantization_style),
    {
        QuantizationStyle::new(self.quantization_style)
    }

    /// Parse a QCC segment, the reader standing right after the marker.
    pub fn decode(reader: &mut ByteReader, no_components: u16) -> (r: Result<
        QuantizationComponentSegment,
        CodestreamError,
    >)
        requires
            old(reader).inv(),
        ensures
            final(reader).inv(),
            final(reader).bytes() == old(reader).bytes(),
            r matches Err(e) ==> (e is MarkerError || e is UnexpectedEof),
            r matches Err(CodestreamError::MarkerError { marker, .. })
                ==> marker == MARKER_SYMBOL_QCC,
            r is Ok ==> final(reader).pos() >= old(reader).pos() + 4,
            r is Ok ==> {
                let p = old(reader).pos();
                let s = old(reader).bytes();
                let q = r->Ok_0;
                &&& q.offset == p
                &&& q.length == be16(s, p)
                &&& (no_components < 257 ==> q.component_index == s[p + 2]
                        && q.quantization_style == s[p + 3])
                &&& (no_components >= 257 ==> q.component_index == be16(s, p + 2)
                        && q.quantization_style == s[p + 4])
                &&& !(spec_quantization_style(q.quantization_style) is Reserved)
                &&& (spec_quantization_style(q.quantization_style) is No
                        ==> forall|i: int| 0 <= i < q.quantization_values@.len()
                            ==> #[trigger] q.quantization_values@[i]
                                == (QuantizationValue::Reversible {
                                    value: s[p + 3 + (if no_components < 257 { 1int } else { 2 })
                                        + i],
                                }))
                &&& (!(spec_quantization_style(q.quantization_style) is No)
                        ==> forall|i: int| 0 <= i < q.quantization_values@.len()
                            ==> #[trigger] q.quantization_values@[i]
                                == (QuantizationValue::Irreversible {
                                    value: be16(
                                        s,
                                        p + 3 + (if no_components < 257 { 1int } else { 2 })
                                            + 2 * i,
                                    ) as u16,
                                }))
            },
            r is Ok <==> ({
                let p = old(reader).pos();
                let s = old(reader).bytes();
                let w: int = if no_components < 257 { 1 } else { 2 };
                let style = spec_quantization_style(s[p + 2 + w] as u8);
                let fixed: int = 4 + w;
                &&& p + 3 + w <= s.len()
                &&& !(style is Reserved)
                &&& (style is No ==> be16(s, p) >= fixed
                        && (be16(s, p) - fixed) / 3 <= 255
                        && p + 3 + w + (3 * ((be16(s, p) - fixed) / 3) + 1) <= s.len())
                &&& (style is ScalarDerived ==> p + 5 + w <= s.len())
                &&& (style is ScalarExpounded ==> be16(s, p) >= fixed + 1
                        && (be16(s, p) - fixed - 1) / 6 <= 255
                        && p + 3 + w + 2 * (3 * ((be16(s, p) - fixed - 1) / 6) + 1)
                            <= s.len())
            }),
    {
        let offset = reader.position() as u64;
        let length = match reader.read_u16() {
            Ok(v) => v,
            Err(_) => {
                return Err(CodestreamError::UnexpectedEof { offset: reader.position() as u64 });
            },
        };
        let component_index = match decode_component_index(reader, no_components) {
            Ok(v) => v,
            Err(e) => { return Err(e); },
        };
        let style_byte = match reader.read_u8() {
            Ok(v) => v,
            Err(_) => {
                return Err(CodestreamError::UnexpectedEof { offset: reader.position() as u64 });
            },
        };
        let style = QuantizationStyle::new(style_byte);

        // As for QCD, but the fixed part is one byte longer, or two when
        // the component index takes two bytes.
        let fixed: u16 = if no_components < 257 { 5 } else { 6 };
        let no_decomposition_levels: u16 = match style {
            QuantizationStyle::No { guard: _ } => {
                if length < fixed {
                    return Err(CodestreamError::MarkerError {
                        marker: MARKER_SYMBOL_QCC,
                        description: "segment too short for its quantization style",
                    });
                }
                (length - fixed) / 3
            },
            QuantizationStyle::ScalarDerived { guard: _ } => 0,
            QuantizationStyle::ScalarExpounded { guard: _ } => {
                if length < fixed + 1 {
                    return Err(CodestreamError::MarkerError {
                        marker: MARKER_SYMBOL_QCC,
                        description: "segment too short for its quantization style",
                    });
                }
                (length - fixed - 1) / 6
            },
            QuantizationStyle::Reserved { value: _ } => {
                return Err(CodestreamError::MarkerError {
                    marker: MARKER_SYMBOL_QCC,
                    description: "reserved quantization style",
                });
            },
        };
        if no_decomposition_levels > 255 {
            return Err(CodestreamError::MarkerError {
                marker: MARKER_SYMBOL_QCC,
                description: "more decomposition levels than the standard allows",
            });
        }
        let quantization_values = match decode_quantization_values(
            reader,
            &style,
            no_decomposition_levels as u8,
            MARKER_SYMBOL_QCC,
        ) {
            Ok(v) => v,
            Err(e) => { return Err(e); },
        };
        Ok(QuantizationComponentSegment {
            offset,
            length,
            component_index,
            quantization_style: style_byte,
            quantization_values,
        })
    }
}

} // verus!

verus! {

/// One entry of a TLM segment: a tile index and the byte length of one
/// tile-part.
#[derive(Debug, Default)]
pub struct TilePartLength {
    pub tile_index: u16,
    pub tile_length: u32,
}

/// Tile-part lengths segment (TLM, A.7.1): the length of every tile-part
/// in the codestream.
#[derive(Debug, Default)]
pub struct TilePartLengthsSegment {
    pub offset: u64,
    pub length: u16,
    pub index: u8,
    pub parameter_sizes: u8,
    pub tile_part_lengths: Vec<TilePartLength>,
}

impl TilePartLengthsSegment {
    /// The decoded Stlm field sizes.
    pub fn parameter_sizes(&self) -> (r: Vec<TilePartParameterSize>)
        ensures
            r@.len() >= 1,
    {
        TilePartParameterSize::new(self.parameter_sizes)
    }

    /// Parse a TLM segment, the reader standing right after the marker.
    /// The entry count derives from the segment length and the Stlm field
    /// sizes.
    pub fn decode(reader: &mut ByteReader) -> (r: Result<
        TilePartLengthsSegment,
        CodestreamError,
    >)
        requires
            old(reader).inv(),
        ensures
            final(reader).inv(),
            final(reader).bytes() == old(reader).bytes(),
            r matches Err(e) ==> (e is MarkerError || e is UnexpectedEof),
            r matches Err(CodestreamError::MarkerError { marker, .. })
                ==> marker == MARKER_SYMBOL_TLM,
            r is Ok ==> final(reader).pos() >= old(reader).pos() + 4,
            r is Ok ==> {
                let p = old(reader).pos();
                let s = old(reader).bytes();
                let t = r->Ok_0;
                &&& t.offset == p
                &&& t.length == be16(s, p)
                &&& t.length >= 4
                &&& t.index == s[p + 2]
                &&& t.parameter_sizes == s[p + 3]
                &&& t.tile_part_lengths@.len() == (t.length - 4) / (
                        s[p + 3] / 16 % 4 + (if s[p + 3] / 64 % 2 == 0 { 2int } else { 4 }))
                &&& ({
                    let st = s[p + 3] / 16 % 4;
                    let esz = st + (if s[p + 3] / 64 % 2 == 0 { 2int } else { 4 });
                    forall|i: int| 0 <= i < t.tile_part_lengths@.len() ==> {
                        let e = #[trigger] t.tile_part_lengths@[i];
                        &&& e.tile_index == (if st == 0 {
                                0int
                            } else if st == 1 {
                                s[p + 4 + esz * i] as int
                            } else {
                                be16(s, p + 4 + esz * i)
                            })
                        &&& e.tile_length == (if s[p + 3] / 64 % 2 == 0 {
                                be16(s, p + 4 + esz * i + st)
                            } else {
                                be32(s, p + 4 + esz * i + st)
                            })
                    }
                })
            },
            r is Ok <==> ({
                let p = old(reader).pos();
                let s = old(reader).bytes();
                let st = s[p + 3] / 16 % 4;
                let esz: int = st + (if s[p + 3] / 64 % 2 == 0 { 2int } else { 4 });
                &&& p + 4 <= s.len()
                &&& be16(s, p) >= 4
                &&& st != 3
                &&& p + 4 + esz * ((be16(s, p) - 4) / esz) <= s.len()
            }),
    {
        let offset = reader.position() as u64;
        if reader.remaining() < 4 {
            return Err(CodestreamError::UnexpectedEof { offset: reader.position() as u64 });
        }
        let length = reader.read_u16().unwrap();
        let index = reader.read_u8().unwrap();
        let parameter_sizes = reader.read_u8().unwrap();
        if length < 4 {
            return Err(CodestreamError::MarkerError {
                marker: MARKER_SYMBOL_TLM,
                description: "segment length shorter than its fixed fields",
            });
        }

        // The Ttlm width comes from the ST field, the Ptlm width from the
        // SP field.
        let st = parameter_sizes / 16 % 4;
        if st == 3 {
            return Err(CodestreamError::MarkerError {
                marker: MARKER_SYMBOL_TLM,
                description: "reserved Ttlm size",
            });
        }
        let ttlm_size: u16 = st as u16;
        let ptlm_size: u16 = if parameter_sizes / 64 % 2 == 0 { 2 } else { 4 };
        let entry_size: u16 = ttlm_size + ptlm_size;
        let n = (length - 4) / entry_size;

        let mut tile_part_lengths: Vec<TilePartLength> = Vec::new();
        let mut i: u16 = 0;
        while i < n
            invariant
                reader.inv(),
                reader.bytes() == old(reader).bytes(),
                parameter_sizes == old(reader).bytes()[old(reader).pos() + 3],
                length == be16(old(reader).bytes(), old(reader).pos()),
                length >= 4,
                ttlm_size == parameter_sizes / 16 % 4,
                ttlm_size <= 2,
                ptlm_size == (if parameter_sizes / 64 % 2 == 0 { 2int } else { 4 }),
                entry_size == ttlm_size + ptlm_size,
                n == (length - 4) / (entry_size as int),
                i <= n,
                tile_part_lengths@.len() == i,
                reader.pos() == old(reader).pos() + 4 + entry_size * i,
                forall|j: int| 0 <= j < i ==> {
                    let e = #[trigger] tile_part_lengths@[j];
                    let s = old(reader).bytes();
                    let p = old(reader).pos();
                    &&& e.tile_index == (if ttlm_size == 0 {
                            0int
                        } else if ttlm_size == 1 {
                            s[p + 4 + entry_size * j] as int
                        } else {
                            be16(s, p + 4 + entry_size * j)
                        })
                    &&& e.tile_length == (if ptlm_size == 2 {
                            be16(s, p + 4 + entry_size * j + ttlm_size)
                        } else {
                            be32(s, p + 4 + entry_size * j + ttlm_size)
                        })
                },
            decreases n - i,
        {
            proof {
                assert(entry_size * (i + 1) <= entry_size * n
                    && entry_size * (i + 1) == entry_size * i + entry_size)
                    by (nonlinear_arith)
                    requires
                        0 <= entry_size,
                        0 <= i < n,
                ;
            }
            let tile_index: u16 = if ttlm_size == 1 {
                match reader.read_u8() {
                    Ok(v) => v as u16,
                    Err(_) => {
                        return Err(CodestreamError::UnexpectedEof {
                            offset: reader.position() as u64,
                        });
                    },
                }
            } else if ttlm_size == 2 {
                match reader.read_u16() {
                    Ok(v) => v,
                    Err(_) => {
                        return Err(CodestreamError::UnexpectedEof {
                            offset: reader.position() as u64,
                        });
                    },
                }
            } else {
                0
            };
            let tile_length: u32 = if ptlm_size == 2 {
                match reader.read_u16() {
                    Ok(v) => v as u32,
                    Err(_) => {
                        return Err(CodestreamError::UnexpectedEof {
                            offset: reader.position() as u64,
                        });
                    },
                }
            } else {
                match reader.read_u32() {
                    Ok(v) => v,
                    Err(_) => {
                        return Err(CodestreamError::UnexpectedEof {
                            offset: reader.position() as u64,
                        });
                    },
                }
            };
            tile_part_lengths.push(TilePartLength { tile_index, tile_length });
            i = i + 1;
        }
        Ok(TilePartLengthsSegment {
            offset,
            length,
            index,
            parameter_sizes,
            tile_part_lengths,
        })
    }
}

/// Packet length segment, main header (PLM, A.7.2): packet lengths for
/// every tile-part, as 7-bit variable-length numbers.
#[derive(Debug, Default)]
pub struct PacketLengthSegment {
    pub offset: u64,
    pub length: u16,
    pub index: u8,
    pub no_bytes: u8,
    pub packet_length: Vec<u8>,
}

impl PacketLengthSegment {
    /// The Nplm byte count of the first tile-part's packet length bytes.
    pub fn no_bytes(&self) -> (r: u8)
        ensures
            r == self.no_bytes,
    {
        self.no_bytes
    }

    /// Parse a PLM segment, the reader standing right after the marker:
    /// Zplm, Nplm, then the Iplm bytes up to the segment length.
    pub fn decode(reader: &mut ByteReader) -> (r: Result<PacketLengthSegment, CodestreamError>)
        requires
            old(reader).inv(),
        ensures
            final(reader).inv(),
            final(reader).bytes() == old(reader).bytes(),
            r matches Err(e) ==> (e is MarkerError || e is UnexpectedEof),
            r matches Err(CodestreamError::MarkerError { marker, .. })
                ==> marker == MARKER_SYMBOL_PLM,
            r is Ok ==> final(reader).pos() >= old(reader).pos() + 4,
            r is Ok ==> {
                let p = old(reader).pos();
                let s = old(reader).bytes();
                let g = r->Ok_0;
                &&& g.offset == p
                &&& g.length == be16(s, p)
                &&& g.length >= 4
                &&& g.index == s[p + 2]
                &&& g.no_bytes == s[p + 3]
                &&& g.packet_length@ == s.subrange(p + 4, p + g.length)
                &&& final(reader).pos() == p + g.length
            },
            r is Ok <==> old(reader).pos() + 4 <= old(reader).bytes().len()
                && be16(old(reader).bytes(), old(reader).pos()) >= 4
                && old(reader).pos() + be16(old(reader).bytes(), old(reader).pos())
                    <= old(reader).bytes().len(),
    {
        let offset = reader.position() as u64;
        if reader.remaining() < 4 {
            return Err(CodestreamError::UnexpectedEof { offset: reader.position() as u64 });
        }
        let length = reader.read_u16().unwrap();
        let index = reader.read_u8().unwrap();
        let no_bytes = reader.read_u8().unwrap();
        if length < 4 {
            return Err(CodestreamError::MarkerError {
                marker: MARKER_SYMBOL_PLM,
                description: "segment length shorter than its fixed fields",
            });
        }
        let rest = (length - 4) as usize;
        if reader.remaining() < rest {
            return Err(CodestreamError::UnexpectedEof { offset: reader.position() as u64 });
        }
        let packet_length = reader.read_bytes(rest).unwrap();
        Ok(PacketLengthSegment { offset, length, index, no_bytes, packet_length })
    }
}

/// Packet length segment, tile-part header (PLT, A.7.3): packet lengths
/// of one tile-part.
#[derive(Debug, Default)]
pub struct TilePacketLength {
    pub offset: u64,
    pub length: u16,
    pub index: u8,
    pub packet_length: Vec<u8>,
}

impl TilePacketLength {
    /// Parse a PLT segment, the reader standing right after the marker:
    /// Zplt, then the Iplt bytes up to the segment length.
    pub fn decode(reader: &mut ByteReader) -> (r: Result<TilePacketLength, CodestreamError>)
        requires
            old(reader).inv(),
        ensures
            final(reader).inv(),
            final(reader).bytes() == old(reader).bytes(),
            r matches Err(e) ==> (e is MarkerError || e is UnexpectedEof),
            r matches Err(CodestreamError::MarkerError { marker, .. })
                ==> marker == MARKER_SYMBOL_PLT,
            r is Ok ==> final(reader).pos() >= old(reader).pos() + 3,
            r is Ok ==> {
                let p = old(reader).pos();
                let s = old(reader).bytes();
                let g = r->Ok_0;
                &&& g.offset == p
                &&& g.length == be16(s, p)
                &&& g.length >= 3
                &&& g.index == s[p + 2]
                &&& g.packet_length@ == s.subrange(p + 3, p + g.length)
                &&& final(reader).pos() == p + g.length
            },
            r is Ok <==> old(reader).pos() + 3 <= old(reader).bytes().len()
                && be16(old(reader).bytes(), old(reader).pos()) >= 3
                && old(reader).pos() + be16(old(reader).bytes(), old(reader).pos())
                    <= old(reader).bytes().len(),
    {
        let offset = reader.position() as u64;
        if reader.remaining() < 3 {
            return Err(CodestreamError::UnexpectedEof { offset: reader.position() as u64 });
        }
        let length = reader.read_u16().unwrap();
        let index = reader.read_u8().unwrap();
        if length < 3 {
            return Err(CodestreamError::MarkerError {
                marker: MARKER_SYMBOL_PLT,
                description: "segment length shorter than its fixed fields",
            });
        }
        let rest = (length - 3) as usize;
        if reader.remaining() < rest {
            return Err(CodestreamError::UnexpectedEof { offset: reader.position() as u64 });
        }
        let packet_length = reader.read_bytes(rest).unwrap();
        Ok(TilePacketLength { offset, length, index, packet_length })
    }
}

/// Packed packet headers segment, main header (PPM, A.7.4): the packet
/// headers of all tiles, moved into the main header.
#[derive(Debug, Default)]
pub struct PackedPacketHeaderSegment {
    pub offset: u64,
    pub length: u16,
    pub index: u8,
    pub number_of_bytes: u32,
    pub data: Vec<u8>,
}

impl PackedPacketHeaderSegment {
    pub fn index(&self) -> (r: usize)
        ensures
            r == self.index,
    {
        self.index as usize
    }

    pub fn number_of_bytes(&self) -> (r: usize)
        ensures
            r == self.number_of_bytes,
    {
        self.number_of_bytes as usize
    }

    /// Parse a PPM segment, the reader standing right after the marker:
    /// Zppm, Nppm, then the packed headers up to the segment length.
    pub fn decode(reader: &mut ByteReader) -> (r: Result<
        PackedPacketHeaderSegment,
        CodestreamError,
    >)
        requires
            old(reader).inv(),
        ensures
            final(reader).inv(),
            final(reader).bytes() == old(reader).bytes(),
            r matches Err(e) ==> (e is MarkerError || e is UnexpectedEof),
            r matches Err(CodestreamError::MarkerError { marker, .. })
                ==> marker == MARKER_SYMBOL_PPM,
            r is Ok ==> final(reader).pos() >= old(reader).pos() + 7,
            r is Ok ==> {
                let p = old(reader).pos();
                let s = old(reader).bytes();
                let g = r->Ok_0;
                &&& g.offset == p
                &&& g.length == be16(s, p)
                &&& g.length >= 7
                &&& g.index == s[p + 2]
                &&& g.number_of_bytes == be32(s, p + 3)
                &&& g.data@ == s.subrange(p + 7, p + g.length)
                &&& final(reader).pos() == p + g.length
            },
            r is Ok <==> old(reader).pos() + 7 <= old(reader).bytes().len()
                && be16(old(reader).bytes(), old(reader).pos()) >= 7
                && old(reader).pos() + be16(old(reader).bytes(), old(reader).pos())
                    <= old(reader).bytes().len(),
    {
        let offset = reader.position() as u64;
        if reader.remaining() < 7 {
            return Err(CodestreamError::UnexpectedEof { offset: reader.position() as u64 });
        }
        let length = reader.read_u16().unwrap();
        let index = reader.read_u8().unwrap();
        let number_of_bytes = reader.read_u32().unwrap();
        if length < 7 {
            return Err(CodestreamError::MarkerError {
                marker: MARKER_SYMBOL_PPM,
                description: "segment length shorter than its fixed fields",
            });
        }
        let rest = (length - 7) as usize;
        if reader.remaining() < rest {
            return Err(CodestreamError::UnexpectedEof { offset: reader.position() as u64 });
        }
        let data = reader.read_bytes(rest).unwrap();
        Ok(PackedPacketHeaderSegment { offset, length, index, number_of_bytes, data })
    }
}

/// Packed packet headers segment, tile-part header (PPT, A.7.5): the
/// packet headers of one tile or tile-part.
#[derive(Debug, Default)]
pub struct TilePackedPacketHeaderSegment {
    pub offset: u64,
    pub length: u16,
    pub index: u8,
    pub data: Vec<u8>,
}

impl TilePackedPacketHeaderSegment {
    pub fn index(&self) -> (r: usize)
        ensures
            r == self.index,
    {
        self.index as usize
    }

    /// Parse a PPT segment, the reader standing right after the marker:
    /// Zppt, then the packed headers up to the segment length.
    pub fn decode(reader: &mut ByteReader) -> (r: Result<
        TilePackedPacketHeaderSegment,
        CodestreamError,
    >)
        requires
            old(reader).inv(),
        ensures
            final(reader).inv(),
            final(reader).bytes() == old(reader).bytes(),
            r matches Err(e) ==> (e is MarkerError || e is UnexpectedEof),
            r matches Err(CodestreamError::MarkerError { marker, .. })
                ==> marker == MARKER_SYMBOL_PPT,
            r is Ok ==> final(reader).pos() >= old(reader).pos() + 3,
            r is Ok ==> {
                let p = old(reader).pos();
                let s = old(reader).bytes();
                let g = r->Ok_0;
                &&& g.offset == p
                &&& g.length == be16(s, p)
                &&& g.length >= 3
                &&& g.index == s[p + 2]
                &&& g.data@ == s.subrange(p + 3, p + g.length)
                &&& final(reader).pos() == p + g.length
            },
            r is Ok <==> old(reader).pos() + 3 <= old(reader).bytes().len()
                && be16(old(reader).bytes(), old(reader).pos()) >= 3
                && old(reader).pos() + be16(old(reader).bytes(), old(reader).pos())
                    <= old(reader).bytes().len(),
    {
        let offset = reader.position() as u64;
        if reader.remaining() < 3 {
            return Err(CodestreamError::UnexpectedEof { offset: reader.position() as u64 });
        }
        let length = reader.read_u16().unwrap();
        let index = reader.read_u8().unwrap();
        if length < 3 {
            return Err(CodestreamError::MarkerError {
                marker: MARKER_SYMBOL_PPT,
                description: "segment length shorter than its fixed fields",
            });
        }
        let rest = (length - 3) as usize;
        if reader.remaining() < rest {
            return Err(CodestreamError::UnexpectedEof { offset: reader.position() as u64 });
        }
        let data = reader.read_bytes(rest).unwrap();
        Ok(TilePackedPacketHeaderSegment { offset, length, index, data })
    }
}

/// Component registration segment (CRG, A.9.1): the centre of mass of
/// each component's samples, in 1/65536 units of its separation.
#[derive(Debug, Default)]
pub struct ComponentRegistrationSegment {
    pub offset: u64,
    pub length: u16,
    pub horizontal_offset: Vec<u16>,
    pub vertical_offset: Vec<u16>,
}

impl ComponentRegistrationSegment {
    /// Parse a CRG segment, the reader standing right after the marker:
    /// one horizontal and one vertical offset per component.
    pub fn decode(reader: &mut ByteReader, no_components: u16) -> (r: Result<
        ComponentRegistrationSegment,
        CodestreamError,
    >)
        requires
            old(reader).inv(),
        ensures
            final(reader).inv(),
            final(reader).bytes() == old(reader).bytes(),
            r matches Err(e) ==> e is UnexpectedEof,
            r is Ok ==> final(reader).pos() == old(reader).pos() + 2 + 4 * no_components,
            r is Ok ==> {
                let p = old(reader).pos();
                let s = old(reader).bytes();
                let g = r->Ok_0;
                &&& g.offset == p
                &&& g.length == be16(s, p)
                &&& g.horizontal_offset@.len() == no_components
                &&& g.vertical_offset@.len() == no_components
                &&& forall|i: int| 0 <= i < no_components ==>
                        #[trigger] g.horizontal_offset@[i] == be16(s, p + 2 + 4 * i)
                        && g.vertical_offset@[i] == be16(s, p + 4 + 4 * i)
            },
            r is Ok <==> old(reader).pos() + 2 + 4 * no_components
                <= old(reader).bytes().len(),
    {
        let offset = reader.position() as u64;
        let length = match reader.read_u16() {
            Ok(v) => v,
            Err(_) => {
                return Err(CodestreamError::UnexpectedEof { offset: reader.position() as u64 });
            },
        };
        let mut horizontal_offset: Vec<u16> = Vec::new();
        let mut vertical_offset: Vec<u16> = Vec::new();
        let mut i: u16 = 0;
        while i < no_components
            invariant
                reader.inv(),
                reader.bytes() == old(reader).bytes(),
                i <= no_components,
                horizontal_offset@.len() == i,
                vertical_offset@.len() == i,
                reader.pos() == old(reader).pos() + 2 + 4 * i,
                forall|j: int| 0 <= j < i ==> #[trigger] horizontal_offset@[j]
                    == be16(old(reader).bytes(), old(reader).pos() + 2 + 4 * j)
                    && vertical_offset@[j]
                        == be16(old(reader).bytes(), old(reader).pos() + 4 + 4 * j),
            decreases no_components - i,
        {
            if reader.remaining() < 4 {
                return Err(CodestreamError::UnexpectedEof { offset: reader.position() as u64 });
            }
            horizontal_offset.push(reader.read_u16().unwrap());
            vertical_offset.push(reader.read_u16().unwrap());
            i = i + 1;
        }
        Ok(ComponentRegistrationSegment { offset, length, horizontal_offset, vertical_offset })
    }
}

/// Comment segment (COM, A.9.2): unstructured data in the main or
/// tile-part header.
#[derive(Debug, Default)]
pub struct CommentMarkerSegment {
    pub registration_value: u16,
    pub comment: Vec<u8>,
}

impl CommentMarkerSegment {
    pub fn registration_value(&self) -> (r: CommentRegistrationValue)
        ensures
            r == spec_comment_registration(self.registration_value),
    {
        CommentRegistrationValue::new(self.registration_value)
    }

    /// The raw comment bytes.
    pub fn comment(&self) -> (r: &Vec<u8>)
        ensures
            r == &self.comment,
    {
        &self.comment
    }

    /// The comment as a UTF-8 string, where it is one; ASCII bytes
    /// decode one character per byte.
    pub fn comment_utf8(&self) -> (r: Option<String>)
        ensures
            (forall|i: int| 0 <= i < self.comment@.len() ==> self.comment@[i] < 128)
                ==> r is Some && r->0@.len() == self.comment@.len()
                    && (forall|i: int| 0 <= i < self.comment@.len() ==> r->0@[i]
                        == self.comment@[i] as char),
    {
        utf8_string(&self.comment)
    }

    /// Parse a COM segment, the reader standing right after the marker:
    /// RCom, then the comment bytes up to the segment length.
    pub fn decode(reader: &mut ByteReader) -> (r: Result<CommentMarkerSegment, CodestreamError>)
        requires
            old(reader).inv(),
        ensures
            final(reader).inv(),
            final(reader).bytes() == old(reader).bytes(),
            r matches Err(e) ==> (e is MarkerError || e is UnexpectedEof),
            r matches Err(CodestreamError::MarkerError { marker, .. })
                ==> marker == MARKER_SYMBOL_COM,
            r is Ok ==> final(reader).pos() >= old(reader).pos() + 4,
            r is Ok ==> {
                let p = old(reader).pos();
                let s = old(reader).bytes();
                let g = r->Ok_0;
                &&& be16(s, p) >= 4
                &&& g.registration_value == be16(s, p + 2)
                &&& g.comment@ == s.subrange(p + 4, p + be16(s, p))
                &&& final(reader).pos() == p + be16(s, p)
            },
            r is Ok <==> old(reader).pos() + 4 <= old(reader).bytes().len()
                && be16(old(reader).bytes(), old(reader).pos()) >= 4
                && old(reader).pos() + be16(old(reader).bytes(), old(reader).pos())
                    <= old(reader).bytes().len(),
    {
        if reader.remaining() < 4 {
            return Err(CodestreamError::UnexpectedEof { offset: reader.position() as u64 });
        }
        let length = reader.read_u16().unwrap();
        let registration_value = reader.read_u16().unwrap();
        if length < 4 {
            return Err(CodestreamError::MarkerError {
                marker: MARKER_SYMBOL_COM,
                description: "segment length shorter than its fixed fields",
            });
        }
        let rest = (length - 4) as usize;
        if reader.remaining() < rest {
            return Err(CodestreamError::UnexpectedEof { offset: reader.position() as u64 });
        }
        let comment = reader.read_bytes(rest).unwrap();
        Ok(CommentMarkerSegment { registration_value, comment })
    }
}

} // verus!

verus! {

/// The decoded main header of a codestream: the SIZ segment and every
/// marker segment seen before the first tile-part.
#[derive(Debug, Default)]
pub struct Header {
    pub image_and_tile_size_marker_segment: ImageAndTileSizeMarkerSegment,
    pub coding_style_marker_segment: Option<CodingStyleMarkerSegment>,
    pub coding_style_component_segment: Vec<CodingStyleComponentSegment>,
    pub quantization_default_marker_segment: Option<QuantizationDefaultMarkerSegment>,
    pub quantization_component_segments: Vec<QuantizationComponentSegment>,
    pub regions: Vec<RegionOfInterestSegment>,
    pub progression_order_change: Option<ProgressionOrderChangeSegment>,
    pub packed_packet_headers: Vec<PackedPacketHeaderSegment>,
    pub tile_part_lengths: Option<TilePartLengthsSegment>,
    pub packet_lengths: Vec<PacketLengthSegment>,
    pub component_registration: Option<ComponentRegistrationSegment>,
    pub comment_marker_segments: Vec<CommentMarkerSegment>,
}

/// The structural facts every decoded main header satisfies: SIZ, COD
/// and QCD present, and no more COC, QCC or RGN segments than the image
/// has components.
pub open spec fn header_wf(h: Header) -> bool {
    &&& h.coding_style_marker_segment is Some
    &&& h.quantization_default_marker_segment is Some
    &&& h.coding_style_component_segment@.len()
            <= h.image_and_tile_size_marker_segment.no_components
    &&& h.quantization_component_segments@.len()
            <= h.image_and_tile_size_marker_segment.no_components
    &&& h.regions@.len() <= h.image_and_tile_size_marker_segment.no_components
    &&& distinct_u16(h.coding_style_component_segment@.map_values(|c: CodingStyleComponentSegment| c.index))
    &&& distinct_u16(h.quantization_component_segments@.map_values(|q: QuantizationComponentSegment| q.component_index))
    &&& distinct_u16(h.regions@.map_values(|g: RegionOfInterestSegment| g.component_index))
}

impl Header {
    pub fn image_and_tile_size_marker_segment(&self) -> (r: &ImageAndTileSizeMarkerSegment)
        ensures
            r == &self.image_and_tile_size_marker_segment,
    {
        &self.image_and_tile_size_marker_segment
    }

    /// The COD segment; present in every successfully decoded header.
    pub fn coding_style_marker_segment(&self) -> (r: &CodingStyleMarkerSegment)
        requires
            self.coding_style_marker_segment is Some,
        ensures
            r == &self.coding_style_marker_segment->0,
    {
        self.coding_style_marker_segment.as_ref().unwrap()
    }

    /// The COC segments, each overriding the COD coding style for one
    /// component.
    pub fn coding_style_component_segment(&self) -> (r: &Vec<CodingStyleComponentSegment>)
        ensures
            r == &self.coding_style_component_segment,
    {
        &self.coding_style_component_segment
    }

    /// The QCD segment; present in every successfully decoded header.
    pub fn quantization_default_marker_segment(&self) -> (r: &QuantizationDefaultMarkerSegment)
        requires
            self.quantization_default_marker_segment is Some,
        ensures
            r == &self.quantization_default_marker_segment->0,
    {
        self.quantization_default_marker_segment.as_ref().unwrap()
    }

    /// The QCC segments, each overriding the QCD quantization for one
    /// component.
    pub fn quantization_component_segments(&self) -> (r: &Vec<QuantizationComponentSegment>)
        ensures
            r == &self.quantization_component_segments,
    {
        &self.quantization_component_segments
    }

    /// The RGN segments, each signalling a region of interest.
    pub fn region_of_interest_segments(&self) -> (r: &Vec<RegionOfInterestSegment>)
        ensures
            r == &self.regions,
    {
        &self.regions
    }

    /// The POC segment, overriding the progression order of COD.
    pub fn progression_order_change_segment(&self) -> (r: &Option<
        ProgressionOrderChangeSegment,
    >)
        ensures
            r == &self.progression_order_change,
    {
        &self.progression_order_change
    }

    /// The TLM segment: the length of every tile-part.
    pub fn tile_part_lengths_segment(&self) -> (r: &Option<TilePartLengthsSegment>)
        ensures
            r == &self.tile_part_lengths,
    {
        &self.tile_part_lengths
    }

    /// The PLM segments: packet lengths for every tile-part.
    pub fn packet_lengths_segments(&self) -> (r: &Vec<PacketLengthSegment>)
        ensures
            r == &self.packet_lengths,
    {
        &self.packet_lengths
    }

    /// The PPM segments: packet headers moved into the main header.
    pub fn packed_packet_headers_segments(&self) -> (r: &Vec<PackedPacketHeaderSegment>)
        ensures
            r == &self.packed_packet_headers,
    {
        &self.packed_packet_headers
    }

    /// The CRG segment: component registration.
    pub fn component_registration_segment(&self) -> (r: &Option<ComponentRegistrationSegment>)
        ensures
            r == &self.component_registration,
    {
        &self.component_registration
    }

    pub fn comment_marker_segments(&self) -> (r: &Vec<CommentMarkerSegment>)
        ensures
            r == &self.comment_marker_segments,
    {
        &self.comment_marker_segments
    }
}

/// The decoded first tile-part header of one tile.
#[derive(Debug, Default)]
pub struct TileHeader {
    pub start_of_tile_segment: StartOfTileSegment,
    pub coding_style_marker_segment: Option<CodingStyleMarkerSegment>,
    pub coding_style_component_segment: Option<CodingStyleComponentSegment>,
    pub quantization_default_marker_segment: Option<QuantizationDefaultMarkerSegment>,
    pub quantization_component_segment: Option<QuantizationComponentSegment>,
    pub regions: Vec<RegionOfInterestSegment>,
    pub progression_order_change: Option<ProgressionOrderChangeSegment>,
    pub packed_packet_headers: Option<TilePackedPacketHeaderSegment>,
    pub packet_lengths: Vec<TilePacketLength>,
    pub comment_marker_segment: Option<CommentMarkerSegment>,
}

/// One tile: its first tile-part header and the entropy-coded region
/// that follows it.
#[derive(Debug, Default)]
pub struct Tile {
    pub header: TileHeader,
    pub parts: Vec<u8>,
}

/// A decoded contiguous codestream: the main header and the tiles.
#[derive(Debug, Default)]
pub struct ContiguousCodestream {
    pub offset: u64,
    pub length: u16,
    pub header: Header,
    pub tiles: Vec<Tile>,
}

/// Parse the main header (A.3): SOC first, SIZ second, then marker
/// segments until the first SOT, which is put back for the tile-part
/// walk. COD and QCD must have been seen, and the COC, QCC and RGN
/// counts are checked against the component count.
fn decode_main_header(reader: &mut ByteReader) -> (r: Result<Header, CodestreamError>)
    requires
        old(reader).inv(),
    ensures
        final(reader).inv(),
        final(reader).bytes() == old(reader).bytes(),
        r is Ok ==> header_wf(r->Ok_0),
        r is Ok ==> siz_invariants_ok(r->Ok_0.image_and_tile_size_marker_segment),
        r is Ok ==> code_block_bounds_ok(
            r->Ok_0.coding_style_marker_segment->0.coding_style_parameters.code_block_width,
            r->Ok_0.coding_style_marker_segment->0.coding_style_parameters.code_block_height,
        ),
        r is Ok ==> ({
            let p = old(reader).pos();
            let s = old(reader).bytes();
            let h = r->Ok_0;
            &&& be16(s, p) == MARKER_SYMBOL_SOC
            &&& be16(s, p + 2) == MARKER_SYMBOL_SIZ
            &&& h.image_and_tile_size_marker_segment.offset == p + 4
            &&& siz_matches_bytes(h.image_and_tile_size_marker_segment, s)
        }),
        r is Ok ==> final(reader).pos() + 2 <= old(reader).bytes().len()
            && be16(old(reader).bytes(), final(reader).pos()) == MARKER_SYMBOL_SOT,
        main_header_stops_at_sot(old(reader).bytes(), old(reader).pos())
            ==> (r matches Err(CodestreamError::MarkerMissing { marker })
                && marker == MARKER_SYMBOL_QCD),
        main_header_minimal_form(old(reader).bytes(), old(reader).pos()) ==> r is Ok
            && final(reader).pos() == old(reader).pos() + 68,
        r matches Err(CodestreamError::MarkerMissing { marker })
            ==> (marker == MARKER_SYMBOL_QCD || marker == MARKER_SYMBOL_COD),
        r matches Err(CodestreamError::MarkerError { marker, .. })
            ==> is_main_header_marker(marker),
        r matches Err(CodestreamError::MarkerUnexpected { marker, offset }) ==> ({
            let p = old(reader).pos();
            let s = old(reader).bytes();
            ||| marker == MARKER_SYMBOL_SOC && be16(s, p) != MARKER_SYMBOL_SOC
            ||| marker == MARKER_SYMBOL_SIZ && be16(s, p + 2) != MARKER_SYMBOL_SIZ
            ||| be16(s, offset as int) == marker && !is_main_header_marker(marker)
                && marker != MARKER_SYMBOL_SOT
        }),
        r is Ok ==> final(reader).pos() >= old(reader).pos(),
    {
    // SOC is required as the very first marker.
    let marker = match reader.read_u16() {
        Ok(v) => v,
        Err(_) => {
            return Err(CodestreamError::UnexpectedEof { offset: reader.position() as u64 });
        },
    };
    if marker != MARKER_SYMBOL_SOC {
        return Err(CodestreamError::MarkerUnexpected {
            marker: MARKER_SYMBOL_SOC,
            offset: reader.position() as u64 - 2,
        });
    }
    // SIZ is required as the second marker segment.
    let marker = match reader.read_u16() {
        Ok(v) => v,
        Err(_) => {
            return Err(CodestreamError::UnexpectedEof { offset: reader.position() as u64 });
        },
    };
    if marker != MARKER_SYMBOL_SIZ {
        return Err(CodestreamError::MarkerUnexpected {
            marker: MARKER_SYMBOL_SIZ,
            offset: reader.position() as u64 - 2,
        });
    }
    let siz = match ImageAndTileSizeMarkerSegment::decode(reader) {
        Ok(z) => z,
        Err(e) => { return Err(e); },
    };
    let no_components = siz.no_components;
    let ghost hstart = reader.pos();

    let mut cod: Option<CodingStyleMarkerSegment> = None;
    let mut cocs: Vec<CodingStyleComponentSegment> = Vec::new();
    let mut qcd: Option<QuantizationDefaultMarkerSegment> = None;
    let mut qccs: Vec<QuantizationComponentSegment> = Vec::new();
    let mut regions: Vec<RegionOfInterestSegment> = Vec::new();
    let mut poc: Option<ProgressionOrderChangeSegment> = None;
    let mut ppms: Vec<PackedPacketHeaderSegment> = Vec::new();
    let mut tlm: Option<TilePartLengthsSegment> = None;
    let mut plms: Vec<PacketLengthSegment> = Vec::new();
    let mut crg: Option<ComponentRegistrationSegment> = None;
    let mut comments: Vec<CommentMarkerSegment> = Vec::new();

    loop
        invariant
            reader.inv(),
            reader.bytes() == old(reader).bytes(),
            reader.pos() >= old(reader).pos() + 2,
            hstart == old(reader).pos() + 42 + 3 * be16(
                old(reader).bytes(),
                old(reader).pos() + 40,
            ),
            cod matches Some(c) ==> code_block_bounds_ok(
                c.coding_style_parameters.code_block_width,
                c.coding_style_parameters.code_block_height,
            ),
            be16(old(reader).bytes(), hstart) == MARKER_SYMBOL_SOT ==> reader.pos() == hstart
                && qcd is None && cod is None && cocs@.len() == 0 && regions@.len() == 0
                && qccs@.len() == 0,
            main_header_minimal_form(old(reader).bytes(), old(reader).pos()) ==> (
                reader.pos() == old(reader).pos() + 45 && cod is None && qcd is None
                    && cocs@.len() == 0 && regions@.len() == 0 && qccs@.len() == 0) || (
                reader.pos() == old(reader).pos() + 59 && cod is Some && qcd is None
                    && cocs@.len() == 0 && regions@.len() == 0 && qccs@.len() == 0) || (
                reader.pos() == old(reader).pos() + 68 && cod is Some && qcd is Some
                    && cocs@.len() == 0 && regions@.len() == 0 && qccs@.len() == 0),
        ensures
            reader.inv(),
            reader.bytes() == old(reader).bytes(),
            reader.pos() >= old(reader).pos(),
            reader.pos() + 2 <= old(reader).bytes().len(),
            be16(old(reader).bytes(), reader.pos()) == MARKER_SYMBOL_SOT,
            cod matches Some(c) ==> code_block_bounds_ok(
                c.coding_style_parameters.code_block_width,
                c.coding_style_parameters.code_block_height,
            ),
            be16(old(reader).bytes(), hstart) == MARKER_SYMBOL_SOT ==> reader.pos() == hstart
                && qcd is None && cod is None && cocs@.len() == 0 && regions@.len() == 0
                && qccs@.len() == 0,
            main_header_minimal_form(old(reader).bytes(), old(reader).pos()) ==> (
                reader.pos() == old(reader).pos() + 68 && cod is Some && qcd is Some
                    && cocs@.len() == 0 && regions@.len() == 0 && qccs@.len() == 0),
        decreases old(reader).bytes().len() - reader.pos(),
    {
        let marker = match reader.read_u16() {
            Ok(v) => v,
            Err(_) => {
                return Err(CodestreamError::UnexpectedEof { offset: reader.position() as u64 });
            },
        };
        if marker == MARKER_SYMBOL_COC {
            match CodingStyleComponentSegment::decode(reader, no_components) {
                Ok(c) => { cocs.push(c); },
                Err(e) => { return Err(e); },
            }
        } else if marker == MARKER_SYMBOL_QCD {
            match QuantizationDefaultMarkerSegment::decode(reader) {
                Ok(q) => { qcd = Some(q); },
                Err(e) => { return Err(e); },
            }
        } else if marker == MARKER_SYMBOL_COD {
            match CodingStyleMarkerSegment::decode(reader) {
                Ok(c) => { cod = Some(c); },
                Err(e) => { return Err(e); },
            }
        } else if marker == MARKER_SYMBOL_QCC {
            match QuantizationComponentSegment::decode(reader, no_components) {
                Ok(q) => { qccs.push(q); },
                Err(e) => { return Err(e); },
            }
        } else if marker == MARKER_SYMBOL_RGN {
            match RegionOfInterestSegment::decode(reader, no_components) {
                Ok(g) => { regions.push(g); },
                Err(e) => { return Err(e); },
            }
        } else if marker == MARKER_SYMBOL_POC {
            match ProgressionOrderChangeSegment::decode(reader, no_components) {
                Ok(c) => { poc = Some(c); },
                Err(e) => { return Err(e); },
            }
        } else if marker == MARKER_SYMBOL_PPM {
            match PackedPacketHeaderSegment::decode(reader) {
                Ok(g) => { ppms.push(g); },
                Err(e) => { return Err(e); },
            }
        } else if marker == MARKER_SYMBOL_TLM {
            match TilePartLengthsSegment::decode(reader) {
                Ok(t) => { tlm = Some(t); },
                Err(e) => { return Err(e); },
            }
        } else if marker == MARKER_SYMBOL_PLM {
            match PacketLengthSegment::decode(reader) {
                Ok(g) => { plms.push(g); },
                Err(e) => { return Err(e); },
            }
        } else if marker == MARKER_SYMBOL_CRG {
            match ComponentRegistrationSegment::decode(reader, no_components) {
                Ok(g) => { crg = Some(g); },
                Err(e) => { return Err(e); },
            }
        } else if marker == MARKER_SYMBOL_COM {
            match CommentMarkerSegment::decode(reader) {
                Ok(g) => { comments.push(g); },
                Err(e) => { return Err(e); },
            }
        } else if marker == MARKER_SYMBOL_SOT {
            // The first tile-part begins: put the marker back.
            reader.seek(reader.position() - 2);
            break;
        } else {
            return Err(CodestreamError::MarkerUnexpected {
                marker,
                offset: reader.position() as u64 - 2,
            });
        }
    }

    // COD and QCD are required in the main header.
    if qcd.is_none() {
        return Err(CodestreamError::MarkerMissing { marker: MARKER_SYMBOL_QCD });
    }
    if cod.is_none() {
        return Err(CodestreamError::MarkerMissing { marker: MARKER_SYMBOL_COD });
    }
    // No more than one COC, QCC and RGN per component may be present
    // (A.6.2, A.6.5, A.6.3).
    if cocs.len() > no_components as usize {
        return Err(CodestreamError::MarkerError {
            marker: MARKER_SYMBOL_COC,
            description: "more coding style component segments than components",
        });
    }
    if regions.len() > no_components as usize {
        return Err(CodestreamError::MarkerError {
            marker: MARKER_SYMBOL_RGN,
            description: "more region of interest segments than components",
        });
    }
    if qccs.len() > no_components as usize {
        return Err(CodestreamError::MarkerError {
            marker: MARKER_SYMBOL_QCC,
            description: "more quantization component segments than components",
        });
    }
    // At most one COC, QCC and RGN per component index (A.6.2, A.6.5,
    // A.6.3).
    let mut coc_indices: Vec<u16> = Vec::new();
    let mut k: usize = 0;
    while k < cocs.len()
        invariant
            k <= cocs@.len(),
            coc_indices@ == cocs@.map_values(|c: CodingStyleComponentSegment| c.index).take(
                k as int,
            ),
        decreases cocs@.len() - k,
    {
        coc_indices.push(cocs[k].index);
        proof {
            assert(coc_indices@ =~= cocs@.map_values(
                |c: CodingStyleComponentSegment| c.index,
            ).take(k + 1));
        }
        k = k + 1;
    }
    proof {
        assert(coc_indices@ =~= cocs@.map_values(|c: CodingStyleComponentSegment| c.index));
    }
    if has_duplicate_u16(&coc_indices) {
        return Err(CodestreamError::MarkerError {
            marker: MARKER_SYMBOL_COC,
            description: "more than one coding style component segment for a component",
        });
    }
    let mut qcc_indices: Vec<u16> = Vec::new();
    let mut k2: usize = 0;
    while k2 < qccs.len()
        invariant
            k2 <= qccs@.len(),
            qcc_indices@ == qccs@.map_values(
                |q: QuantizationComponentSegment| q.component_index,
            ).take(k2 as int),
        decreases qccs@.len() - k2,
    {
        qcc_indices.push(qccs[k2].component_index);
        proof {
            assert(qcc_indices@ =~= qccs@.map_values(
                |q: QuantizationComponentSegment| q.component_index,
            ).take(k2 + 1));
        }
        k2 = k2 + 1;
    }
    proof {
        assert(qcc_indices@ =~= qccs@.map_values(
            |q: QuantizationComponentSegment| q.component_index,
        ));
    }
    if has_duplicate_u16(&qcc_indices) {
        return Err(CodestreamError::MarkerError {
            marker: MARKER_SYMBOL_QCC,
            description: "more than one quantization component segment for a component",
        });
    }
    let mut rgn_indices: Vec<u16> = Vec::new();
    let mut k3: usize = 0;
    while k3 < regions.len()
        invariant
            k3 <= regions@.len(),
            rgn_indices@ == regions@.map_values(
                |g: RegionOfInterestSegment| g.component_index,
            ).take(k3 as int),
        decreases regions@.len() - k3,
    {
        rgn_indices.push(regions[k3].component_index);
        proof {
            assert(rgn_indices@ =~= regions@.map_values(
                |g: RegionOfInterestSegment| g.component_index,
            ).take(k3 + 1));
        }
        k3 = k3 + 1;
    }
    proof {
        assert(rgn_indices@ =~= regions@.map_values(
            |g: RegionOfInterestSegment| g.component_index,
        ));
    }
    if has_duplicate_u16(&rgn_indices) {
        return Err(CodestreamError::MarkerError {
            marker: MARKER_SYMBOL_RGN,
            description: "more than one region of interest segment for a component",
        });
    }

    Ok(Header {
        image_and_tile_size_marker_segment: siz,
        coding_style_marker_segment: cod,
        coding_style_component_segment: cocs,
        quantization_default_marker_segment: qcd,
        quantization_component_segments: qccs,
        regions,
        progression_order_change: poc,
        packed_packet_headers: ppms,
        tile_part_lengths: tlm,
        packet_lengths: plms,
        component_registration: crg,
        comment_marker_segments: comments,
    })
}

/// Parse the first tile-part header of a tile (A.4): SOT first, then
/// marker segments until SOD, which is put back. A PPT segment is
/// rejected when the main header already holds PPM segments.
fn decode_first_tile_header(
    reader: &mut ByteReader,
    no_components: u16,
    ppm_present: bool,
) -> (r: Result<TileHeader, CodestreamError>)
    requires
        old(reader).inv(),
    ensures
        final(reader).inv(),
        final(reader).bytes() == old(reader).bytes(),
        r is Ok ==> final(reader).pos() >= old(reader).pos(),
        r is Ok && ppm_present ==> r->Ok_0.packed_packet_headers is None,
        r is Ok ==> ({
            let p = old(reader).pos();
            let s = old(reader).bytes();
            let t = r->Ok_0.start_of_tile_segment;
            &&& be16(s, p) == MARKER_SYMBOL_SOT
            &&& t.offset == p + 2
            &&& sot_matches_bytes(t, s)
        }),
        r is Ok ==> final(reader).pos() + 2 <= old(reader).bytes().len()
            && be16(old(reader).bytes(), final(reader).pos()) == MARKER_SYMBOL_SOD,
        old(reader).pos() + 14 <= old(reader).bytes().len()
            && be16(old(reader).bytes(), old(reader).pos()) == MARKER_SYMBOL_SOT
            && be16(old(reader).bytes(), old(reader).pos() + 12) == MARKER_SYMBOL_SOD
            ==> r is Ok && final(reader).pos() == old(reader).pos() + 12,
        old(reader).pos() + 14 <= old(reader).bytes().len()
            && be16(old(reader).bytes(), old(reader).pos()) == MARKER_SYMBOL_SOT
            && be16(old(reader).bytes(), old(reader).pos() + 12) == MARKER_SYMBOL_PPT
            && ppm_present
            ==> (r matches Err(CodestreamError::MarkerUnexpected { marker, offset })
                && marker == MARKER_SYMBOL_PPT && offset == old(reader).pos() + 12),
        r matches Err(CodestreamError::MarkerError { marker, .. })
            ==> is_tile_header_marker(marker),
        r matches Err(CodestreamError::MarkerUnexpected { marker, offset }) ==> ({
            let p = old(reader).pos();
            let s = old(reader).bytes();
            ||| marker == MARKER_SYMBOL_SOT && be16(s, p) != MARKER_SYMBOL_SOT
            ||| marker == MARKER_SYMBOL_PPT && ppm_present
                && be16(s, offset as int) == MARKER_SYMBOL_PPT
            ||| be16(s, offset as int) == marker && !is_tile_header_marker(marker)
                && marker != MARKER_SYMBOL_SOD
        }),
    {
    let marker = match reader.read_u16() {
        Ok(v) => v,
        Err(_) => {
            return Err(CodestreamError::UnexpectedEof { offset: reader.position() as u64 });
        },
    };
    // SOT is required as the first marker segment of a tile-part header.
    if marker != MARKER_SYMBOL_SOT {
        return Err(CodestreamError::MarkerUnexpected {
            marker: MARKER_SYMBOL_SOT,
            offset: reader.position() as u64 - 2,
        });
    }
    let sot = match StartOfTileSegment::decode(reader) {
        Ok(t) => t,
        Err(e) => { return Err(e); },
    };

    let mut cod: Option<CodingStyleMarkerSegment> = None;
    let mut coc: Option<CodingStyleComponentSegment> = None;
    let mut qcd: Option<QuantizationDefaultMarkerSegment> = None;
    let mut qcc: Option<QuantizationComponentSegment> = None;
    let mut regions: Vec<RegionOfInterestSegment> = Vec::new();
    let mut poc: Option<ProgressionOrderChangeSegment> = None;
    let mut ppt: Option<TilePackedPacketHeaderSegment> = None;
    let mut plts: Vec<TilePacketLength> = Vec::new();
    let mut comment: Option<CommentMarkerSegment> = None;

    loop
        invariant
            reader.inv(),
            reader.bytes() == old(reader).bytes(),
            reader.pos() >= old(reader).pos() + 2,
            ppm_present ==> ppt is None,
            be16(old(reader).bytes(), old(reader).pos() + 12) == MARKER_SYMBOL_SOD
                ==> reader.pos() == old(reader).pos() + 12,
            ppm_present && be16(old(reader).bytes(), old(reader).pos() + 12)
                == MARKER_SYMBOL_PPT ==> reader.pos() == old(reader).pos() + 12,
        ensures
            reader.inv(),
            reader.bytes() == old(reader).bytes(),
            reader.pos() >= old(reader).pos(),
            reader.pos() + 2 <= old(reader).bytes().len(),
            be16(old(reader).bytes(), reader.pos()) == MARKER_SYMBOL_SOD,
            be16(old(reader).bytes(), old(reader).pos() + 12) == MARKER_SYMBOL_SOD
                ==> reader.pos() == old(reader).pos() + 12,
            ppm_present ==> ppt is None,
        decreases old(reader).bytes().len() - reader.pos(),
    {
        let marker = match reader.read_u16() {
            Ok(v) => v,
            Err(_) => {
                return Err(CodestreamError::UnexpectedEof { offset: reader.position() as u64 });
            },
        };
        if marker == MARKER_SYMBOL_COD {
            match CodingStyleMarkerSegment::decode(reader) {
                Ok(c) => { cod = Some(c); },
                Err(e) => { return Err(e); },
            }
        } else if marker == MARKER_SYMBOL_COC {
            match CodingStyleComponentSegment::decode(reader, no_components) {
                Ok(c) => { coc = Some(c); },
                Err(e) => { return Err(e); },
            }
        } else if marker == MARKER_SYMBOL_QCD {
            match QuantizationDefaultMarkerSegment::decode(reader) {
                Ok(q) => { qcd = Some(q); },
                Err(e) => { return Err(e); },
            }
        } else if marker == MARKER_SYMBOL_QCC {
            match QuantizationComponentSegment::decode(reader, no_components) {
                Ok(q) => { qcc = Some(q); },
                Err(e) => { return Err(e); },
            }
        } else if marker == MARKER_SYMBOL_RGN {
            match RegionOfInterestSegment::decode(reader, no_components) {
                Ok(g) => { regions.push(g); },
                Err(e) => { return Err(e); },
            }
        } else if marker == MARKER_SYMBOL_POC {
            match ProgressionOrderChangeSegment::decode(reader, no_components) {
                Ok(c) => { poc = Some(c); },
                Err(e) => { return Err(e); },
            }
        } else if marker == MARKER_SYMBOL_PPT {
            // With PPM in the main header, all packet headers live
            // there, and PPT is disallowed (A.7.4).
            if ppm_present {
                return Err(CodestreamError::MarkerUnexpected {
                    marker: MARKER_SYMBOL_PPT,
                    offset: reader.position() as u64 - 2,
                });
            }
            match TilePackedPacketHeaderSegment::decode(reader) {
                Ok(g) => { ppt = Some(g); },
                Err(e) => { return Err(e); },
            }
        } else if marker == MARKER_SYMBOL_PLT {
            match TilePacketLength::decode(reader) {
                Ok(g) => { plts.push(g); },
                Err(e) => { return Err(e); },
            }
        } else if marker == MARKER_SYMBOL_COM {
            match CommentMarkerSegment::decode(reader) {
                Ok(g) => { comment = Some(g); },
                Err(e) => { return Err(e); },
            }
        } else if marker == MARKER_SYMBOL_SOD {
            // The entropy-coded data begins: put the marker back.
            reader.seek(reader.position() - 2);
            break;
        } else {
            return Err(CodestreamError::MarkerUnexpected {
                marker,
                offset: reader.position() as u64 - 2,
            });
        }
    }

    Ok(TileHeader {
        start_of_tile_segment: sot,
        coding_style_marker_segment: cod,
        coding_style_component_segment: coc,
        quantization_default_marker_segment: qcd,
        quantization_component_segment: qcc,
        regions,
        progression_order_change: poc,
        packed_packet_headers: ppt,
        packet_lengths: plts,
        comment_marker_segment: comment,
    })
}

impl ContiguousCodestream {
    pub fn length(&self) -> (r: u16)
        ensures
            r == self.length,
    {
        self.length
    }

    pub fn offset(&self) -> (r: u64)
        ensures
            r == self.offset,
    {
        self.offset
    }

    pub fn header(&self) -> (r: &Header)
        ensures
            r == &self.header,
    {
        &self.header
    }

    /// Decode the codestream: main header, first tile-part header, SOD,
    /// then a scan of the entropy-coded region for the in-bit-stream
    /// markers, up to EOC or the end of the buffer. SOP and EPH are
    /// rejected where the coding style or the packed-packet-header
    /// segments disallow them.
    fn decode(&mut self, reader: &mut ByteReader) -> (r: Result<(), CodestreamError>)
        requires
            old(reader).inv(),
        ensures
            final(reader).inv(),
            final(reader).bytes() == old(reader).bytes(),
            final(self).offset == old(self).offset,
            final(self).length == old(self).length,
            r is Ok ==> header_wf(final(self).header),
            r is Ok ==> siz_invariants_ok(
                final(self).header.image_and_tile_size_marker_segment,
            ),
            r is Ok ==> code_block_bounds_ok(
                final(self).header.coding_style_marker_segment
                    ->0.coding_style_parameters.code_block_width,
                final(self).header.coding_style_marker_segment
                    ->0.coding_style_parameters.code_block_height,
            ),
            r is Ok ==> final(self).tiles@.len() == old(self).tiles@.len() + 1,
            r is Ok ==> ({
                let p = old(reader).pos();
                let s = old(reader).bytes();
                let h = final(self).header;
                &&& be16(s, p) == MARKER_SYMBOL_SOC
                &&& be16(s, p + 2) == MARKER_SYMBOL_SIZ
                &&& h.image_and_tile_size_marker_segment.offset == p + 4
                &&& siz_matches_bytes(h.image_and_tile_size_marker_segment, s)
            }),
            main_header_stops_at_sot(old(reader).bytes(), old(reader).pos())
                ==> (r matches Err(CodestreamError::MarkerMissing { marker })
                    && marker == MARKER_SYMBOL_QCD),
            jpc_minimal_form(old(reader).bytes(), old(reader).pos()) ==> r is Ok,
    {
        // The main header sits at the beginning of the codestream.
        let header = match decode_main_header(reader) {
            Ok(h) => h,
            Err(e) => { return Err(e); },
        };
        let no_components = header.image_and_tile_size_marker_segment.no_components;
        let ppm_present = !header.packed_packet_headers.is_empty();

        // The first tile-part header follows.
        let tile_header = match decode_first_tile_header(reader, no_components, ppm_present) {
            Ok(t) => t,
            Err(e) => { return Err(e); },
        };

        // SOD is required as the last marker of every tile-part header.
        let marker = match reader.read_u16() {
            Ok(v) => v,
            Err(_) => {
                return Err(CodestreamError::UnexpectedEof { offset: reader.position() as u64 });
            },
        };
        if marker != MARKER_SYMBOL_SOD {
            return Err(CodestreamError::MarkerUnexpected {
                marker: MARKER_SYMBOL_SOD,
                offset: reader.position() as u64,
            });
        }

        let sop_allowed = header.coding_style_marker_segment.as_ref().unwrap().sop_allowed();
        let eph_allowed = header.coding_style_marker_segment.as_ref().unwrap().eph_allowed();
        let ppt_present = tile_header.packed_packet_headers.is_some();

        // With packed packet headers there are no in-bit-stream packet
        // headers, so EPH may not appear at all (A.8.2).
        let eph_ok = eph_allowed && !ppm_present && !ppt_present;
        match scan_bit_stream(reader, sop_allowed, eph_ok) {
            Ok(()) => {},
            Err(e) => { return Err(e); },
        }

        self.header = header;
        self.tiles.push(Tile { header: tile_header, parts: Vec::new() });
        Ok(())
    }
}

/// Decode a whole codestream from the current position: the main header,
/// the first tile-part header, and the entropy-coded region up to EOC.
pub fn decode_jpc(reader: &mut ByteReader) -> (r: Result<ContiguousCodestream, CodestreamError>)
    requires
        old(reader).inv(),
    ensures
        final(reader).inv(),
        final(reader).bytes() == old(reader).bytes(),
        r is Ok ==> {
            let c = r->Ok_0;
            &&& c.offset == 0
            &&& c.length == 0
            &&& header_wf(c.header)
            &&& siz_invariants_ok(c.header.image_and_tile_size_marker_segment)
            &&& code_block_bounds_ok(
                    c.header.coding_style_marker_segment
                        ->0.coding_style_parameters.code_block_width,
                    c.header.coding_style_marker_segment
                        ->0.coding_style_parameters.code_block_height,
                )
            &&& c.tiles@.len() == 1
        },
        r is Ok ==> ({
            let p = old(reader).pos();
            let s = old(reader).bytes();
            let h = r->Ok_0.header;
            &&& be16(s, p) == MARKER_SYMBOL_SOC
            &&& be16(s, p + 2) == MARKER_SYMBOL_SIZ
            &&& h.image_and_tile_size_marker_segment.offset == p + 4
            &&& siz_matches_bytes(h.image_and_tile_size_marker_segment, s)
        }),
        main_header_stops_at_sot(old(reader).bytes(), old(reader).pos())
            ==> (r matches Err(CodestreamError::MarkerMissing { marker })
                && marker == MARKER_SYMBOL_QCD),
        jpc_minimal_form(old(reader).bytes(), old(reader).pos()) ==> r is Ok,
{
    let mut codestream = ContiguousCodestream {
        offset: 0,
        length: 0,
        header: Header {
            image_and_tile_size_marker_segment: ImageAndTileSizeMarkerSegment {
                offset: 0,
                length: 0,
                decoder_capabilities: 0,
                reference_grid_width: 0,
                reference_grid_height: 0,
                image_horizontal_offset: 0,
                image_vertical_offset: 0,
                reference_tile_width: 0,
                reference_tile_height: 0,
                tile_horizontal_offset: 0,
                tile_vertical_offset: 0,
                no_components: 0,
                precision: Vec::new(),
                horizontal_separation: Vec::new(),
                vertical_separation: Vec::new(),
            },
            coding_style_marker_segment: None,
            coding_style_component_segment: Vec::new(),
            quantization_default_marker_segment: None,
            quantization_component_segments: Vec::new(),
            regions: Vec::new(),
            progression_order_change: None,
            packed_packet_headers: Vec::new(),
            tile_part_lengths: None,
            packet_lengths: Vec::new(),
            component_registration: None,
            comment_marker_segments: Vec::new(),
        },
        tiles: Vec::new(),
    };
    match codestream.decode(reader) {
        Ok(()) => Ok(codestream),
        Err(e) => Err(e),
    }
}

} // verus!

verus! {

/// A codestream main header in its smallest form: SOC, a valid SIZ for
/// one component, a COD without precinct bytes, a QCD without
/// quantization for one decomposition level, and then the first SOT.
pub open spec fn main_header_minimal_form(s: Seq<u8>, p: int) -> bool {
    &&& p + 70 <= s.len()
    &&& be16(s, p) == MARKER_SYMBOL_SOC
    &&& be16(s, p + 2) == MARKER_SYMBOL_SIZ
    &&& siz_parse_ok(s, p + 4)
    &&& be16(s, p + 40) == 1
    &&& be16(s, p + 45) == MARKER_SYMBOL_COD
    &&& be16(s, p + 47) == 12
    &&& s[p + 49] % 2 == 0
    &&& code_block_bounds_ok(s[p + 55], s[p + 56])
    &&& be16(s, p + 59) == MARKER_SYMBOL_QCD
    &&& be16(s, p + 61) == 7
    &&& s[p + 63] % 32 == 0
    &&& be16(s, p + 68) == MARKER_SYMBOL_SOT
}

/// A whole codestream in its smallest form: the minimal main header,
/// one tile-part whose header holds only its SOT, and an empty
/// entropy-coded region ending at EOC.
pub open spec fn jpc_minimal_form(s: Seq<u8>, p: int) -> bool {
    &&& main_header_minimal_form(s, p)
    &&& p + 84 <= s.len()
    &&& be16(s, p + 80) == MARKER_SYMBOL_SOD
    &&& be16(s, p + 82) == MARKER_SYMBOL_EOC
}

/// A codestream whose main header holds no marker segments at all: SOC,
/// a valid SIZ, and then immediately the first SOT. Such a header is
/// missing its required QCD and COD segments.
pub open spec fn main_header_stops_at_sot(s: Seq<u8>, p: int) -> bool {
    let q = p + 4;
    let qend = q + 38 + 3 * be16(s, q + 36);
    &&& p + 4 <= s.len()
    &&& be16(s, p) == MARKER_SYMBOL_SOC
    &&& be16(s, p + 2) == MARKER_SYMBOL_SIZ
    &&& siz_parse_ok(s, q)
    &&& qend + 2 <= s.len()
    &&& be16(s, qend) == MARKER_SYMBOL_SOT
}

/// The SIZ segment at `p` (its length field) parses: the fixed part and
/// the component table fit, and the tile grid invariants hold.
pub open spec fn siz_parse_ok(s: Seq<u8>, p: int) -> bool {
    &&& p + 38 <= s.len()
    &&& p + 38 + 3 * be16(s, p + 36) <= s.len()
    &&& be32(s, p + 28) <= be32(s, p + 12)
    &&& be32(s, p + 32) <= be32(s, p + 16)
    &&& be32(s, p + 20) + be32(s, p + 28) > be32(s, p + 12)
    &&& be32(s, p + 24) + be32(s, p + 32) > be32(s, p + 16)
}

/// A SIZ segment whose fields are the bytes at its own offset.
pub open spec fn siz_matches_bytes(z: ImageAndTileSizeMarkerSegment, s: Seq<u8>) -> bool {
    let p = z.offset as int;
    &&& z.length == be16(s, p)
    &&& z.decoder_capabilities == be16(s, p + 2)
    &&& z.reference_grid_width == be32(s, p + 4)
    &&& z.reference_grid_height == be32(s, p + 8)
    &&& z.image_horizontal_offset == be32(s, p + 12)
    &&& z.image_vertical_offset == be32(s, p + 16)
    &&& z.reference_tile_width == be32(s, p + 20)
    &&& z.reference_tile_height == be32(s, p + 24)
    &&& z.tile_horizontal_offset == be32(s, p + 28)
    &&& z.tile_vertical_offset == be32(s, p + 32)
    &&& z.no_components == be16(s, p + 36)
    &&& z.precision@.len() == z.no_components
    &&& z.horizontal_separation@.len() == z.no_components
    &&& z.vertical_separation@.len() == z.no_components
    &&& forall|i: int| 0 <= i < z.no_components ==> #[trigger] z.precision@[i]
            == s[p + 38 + 3 * i] && z.horizontal_separation@[i] == s[p + 39 + 3 * i]
            && z.vertical_separation@[i] == s[p + 40 + 3 * i]
}

/// An SOT segment whose fields are the bytes at its own offset.
pub open spec fn sot_matches_bytes(t: StartOfTileSegment, s: Seq<u8>) -> bool {
    let p = t.offset as int;
    &&& t.length == be16(s, p)
    &&& t.tile_index == be16(s, p + 2)
    &&& t.tile_length == be32(s, p + 4)
    &&& t.tile_part_index == s[p + 8]
    &&& t.no_tile_parts == s[p + 9]
}

} // verus!

verus! {

/// The marker segments the main-header state machine accepts after SIZ.
pub open spec fn is_main_header_marker(m: MarkerSymbol) -> bool {
    ||| m == MARKER_SYMBOL_COD
    ||| m == MARKER_SYMBOL_COC
    ||| m == MARKER_SYMBOL_QCD
    ||| m == MARKER_SYMBOL_QCC
    ||| m == MARKER_SYMBOL_RGN
    ||| m == MARKER_SYMBOL_POC
    ||| m == MARKER_SYMBOL_PPM
    ||| m == MARKER_SYMBOL_TLM
    ||| m == MARKER_SYMBOL_PLM
    ||| m == MARKER_SYMBOL_CRG
    ||| m == MARKER_SYMBOL_COM
}

/// The marker segments a tile-part header accepts after SOT.
pub open spec fn is_tile_header_marker(m: MarkerSymbol) -> bool {
    ||| m == MARKER_SYMBOL_COD
    ||| m == MARKER_SYMBOL_COC
    ||| m == MARKER_SYMBOL_QCD
    ||| m == MARKER_SYMBOL_QCC
    ||| m == MARKER_SYMBOL_RGN
    ||| m == MARKER_SYMBOL_POC
    ||| m == MARKER_SYMBOL_PPT
    ||| m == MARKER_SYMBOL_PLT
    ||| m == MARKER_SYMBOL_COM
}

/// No two values are equal: at most one segment per component index.
pub open spec fn distinct_u16(xs: Seq<u16>) -> bool {
    forall|i: int, j: int| 0 <= i < j < xs.len() ==> #[trigger] xs[i] != #[trigger] xs[j]
}

/// Whether the values hold a duplicate.
fn has_duplicate_u16(v: &Vec<u16>) -> (r: bool)
    ensures
        r == !distinct_u16(v@),
{
    let mut i: usize = 0;
    while i < v.len()
        invariant
            i <= v@.len(),
            forall|a: int, b: int| 0 <= a < b < i ==> #[trigger] v@[a] != #[trigger] v@[b],
        decreases v@.len() - i,
    {
        let mut j: usize = 0;
        while j < i
            invariant
                j <= i < v@.len(),
                forall|a: int, b: int| 0 <= a < b < i ==> #[trigger] v@[a] != #[trigger] v@[b],
                forall|b: int| 0 <= b < j ==> #[trigger] v@[b] != v@[i as int],
            decreases i - j,
        {
            if v[j] == v[i] {
                return true;
            }
            j = j + 1;
        }
        i = i + 1;
    }
    false
}

} // verus!

verus! {

/// How the bit-stream scan of the entropy-coded region at `q` ends,
/// stepping two bytes at a time: the outcome (0 = clean, at EOC or the
/// end of the data; 1 = a disallowed SOP; 2 = a disallowed EPH; 3 = a
/// further tile-part; 4 = the data ends inside an SOP segment), the
/// offset where it ends, and the position after the scan.
pub open spec fn scan_spec(s: Seq<u8>, q: int, sop_ok: bool, eph_ok: bool) -> (int, int, int)
    decreases s.len() - q,
{
    if q + 2 > s.len() {
        (0, q, q)
    } else {
        let m = be16(s, q);
        if m == MARKER_SYMBOL_SOP {
            if !sop_ok {
                (1, q, q + 2)
            } else if q + 6 > s.len() {
                (4, q, q)
            } else {
                scan_spec(s, q + 6, sop_ok, eph_ok)
            }
        } else if m == MARKER_SYMBOL_EPH {
            if !eph_ok {
                (2, q, q + 2)
            } else {
                scan_spec(s, q + 2, sop_ok, eph_ok)
            }
        } else if m == MARKER_SYMBOL_EOC {
            (0, q, q + 2)
        } else if m == MARKER_SYMBOL_SOT {
            (3, q, q + 2)
        } else {
            scan_spec(s, q + 2, sop_ok, eph_ok)
        }
    }
}

/// Scan the entropy-coded region for the in-bit-stream markers, up to
/// EOC or the end of the data: an allowed SOP is consumed with its
/// fixed 4-byte payload; a disallowed SOP or EPH fails with
/// `MarkerUnexpected` at its offset; a further tile-part fails. The
/// result is exactly the outcome of [`scan_spec`].
fn scan_bit_stream(reader: &mut ByteReader, sop_ok: bool, eph_ok: bool) -> (r: Result<
    (),
    CodestreamError,
>)
    requires
        old(reader).inv(),
    ensures
        final(reader).inv(),
        final(reader).bytes() == old(reader).bytes(),
        ({
            let sc = scan_spec(old(reader).bytes(), old(reader).pos(), sop_ok, eph_ok);
            &&& (r is Ok <==> sc.0 == 0)
            &&& (r is Ok ==> final(reader).pos() == sc.2)
            &&& (sc.0 == 1 ==> (r matches Err(CodestreamError::MarkerUnexpected {
                    marker,
                    offset,
                }) && marker == MARKER_SYMBOL_SOP && offset == sc.1))
            &&& (sc.0 == 2 ==> (r matches Err(CodestreamError::MarkerUnexpected {
                    marker,
                    offset,
                }) && marker == MARKER_SYMBOL_EPH && offset == sc.1))
            &&& (sc.0 == 3 ==> (r matches Err(CodestreamError::MarkerError { marker, .. })
                    && marker == MARKER_SYMBOL_SOT))
            &&& (sc.0 == 4 ==> r matches Err(CodestreamError::UnexpectedEof { .. }))
        }),
{
    loop
        invariant_except_break
            scan_spec(old(reader).bytes(), old(reader).pos(), sop_ok, eph_ok) == scan_spec(
                old(reader).bytes(),
                reader.pos(),
                sop_ok,
                eph_ok,
            ),
        invariant
            reader.inv(),
            reader.bytes() == old(reader).bytes(),
        ensures
            reader.inv(),
            reader.bytes() == old(reader).bytes(),
            scan_spec(old(reader).bytes(), old(reader).pos(), sop_ok, eph_ok).0 == 0,
            scan_spec(old(reader).bytes(), old(reader).pos(), sop_ok, eph_ok).2
                == reader.pos(),
        decreases old(reader).bytes().len() - reader.pos(),
    {
        let marker = match reader.read_u16() {
            Ok(v) => v,
            Err(_) => {
                // The end of the data ends the scan.
                break;
            },
        };
        if marker == MARKER_SYMBOL_SOP {
            if !sop_ok {
                return Err(CodestreamError::MarkerUnexpected {
                    marker: MARKER_SYMBOL_SOP,
                    offset: reader.position() as u64 - 2,
                });
            }
            // An SOP segment carries a fixed 4-byte payload: Lsop and
            // Nsop (A.8.1).
            match reader.read_u16() {
                Ok(_) => {},
                Err(_) => {
                    return Err(CodestreamError::UnexpectedEof {
                        offset: reader.position() as u64,
                    });
                },
            };
            match reader.read_u16() {
                Ok(_) => {},
                Err(_) => {
                    return Err(CodestreamError::UnexpectedEof {
                        offset: reader.position() as u64,
                    });
                },
            };
        } else if marker == MARKER_SYMBOL_EPH {
            if !eph_ok {
                return Err(CodestreamError::MarkerUnexpected {
                    marker: MARKER_SYMBOL_EPH,
                    offset: reader.position() as u64 - 2,
                });
            }
        } else if marker == MARKER_SYMBOL_EOC {
            break;
        } else if marker == MARKER_SYMBOL_SOT {
            // Only the first tile-part of a single tile is read.
            return Err(CodestreamError::MarkerError {
                marker: MARKER_SYMBOL_SOT,
                description: "codestreams with further tile-parts are not supported",
            });
        } else {
            // Entropy-coded data: keep scanning.
        }
    }
    Ok(())
}

} // verus!
