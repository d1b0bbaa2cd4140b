use jpeg2000::jpc::{
    decode_jpc, CodestreamError, CodingBlockStyle, CommentRegistrationValue,
    MultipleComponentTransformation, ProgressionOrder, QuantizationStyle, TransformationFilter,
};
use jpeg2000::reader::ByteReader;

fn push_u16(v: &mut Vec<u8>, x: u16) {
    v.extend_from_slice(&x.to_be_bytes());
}

fn push_u32(v: &mut Vec<u8>, x: u32) {
    v.extend_from_slice(&x.to_be_bytes());
}

fn push_marker(v: &mut Vec<u8>, marker: u16) {
    push_u16(v, marker);
}

/// SIZ for a `width` by `height` grid with one tile and `nc` components
/// of the given raw Ssiz byte.
fn push_siz(v: &mut Vec<u8>, width: u32, height: u32, nc: u16, ssiz: u8) {
    push_marker(v, 0xFF51);
    push_u16(v, 38 + 3 * nc); // Lsiz
    push_u16(v, 0); // Rsiz
    push_u32(v, width);
    push_u32(v, height);
    push_u32(v, 0); // XOsiz
    push_u32(v, 0); // YOsiz
    push_u32(v, width); // XTsiz
    push_u32(v, height); // YTsiz
    push_u32(v, 0); // XTOsiz
    push_u32(v, 0); // YTOsiz
    push_u16(v, nc);
    for _ in 0..nc {
        v.push(ssiz);
        v.push(1); // XRsiz
        v.push(1); // YRsiz
    }
}

/// COD with the given Scod, progression order and decomposition levels,
/// 64-by-64 code blocks, and the reversible filter.
fn push_cod(v: &mut Vec<u8>, scod: u8, progression: u8, levels: u8) {
    push_marker(v, 0xFF52);
    push_u16(v, 12); // Lcod, no precinct bytes
    v.push(scod);
    v.push(progression);
    push_u16(v, 1); // one layer
    v.push(1); // multiple component transformation
    v.push(levels);
    v.push(4); // xcb: 64 wide
    v.push(4); // ycb: 64 high
    v.push(0); // code-block style
    v.push(1); // 5-3 reversible filter
}

/// QCD without quantization for `levels` decomposition levels, guard
/// bits 2, exponent 8 everywhere.
fn push_qcd(v: &mut Vec<u8>, levels: u8) {
    let subbands = 3 * levels as u16 + 1;
    push_marker(v, 0xFF5C);
    push_u16(v, 4 + 3 * levels as u16);
    v.push(0b0100_0000); // no quantization, 2 guard bits
    for _ in 0..subbands {
        v.push(8 << 3);
    }
}

fn push_com(v: &mut Vec<u8>, text: &[u8]) {
    push_marker(v, 0xFF64);
    push_u16(v, 4 + text.len() as u16);
    push_u16(v, 1); // Latin registration
    v.extend_from_slice(text);
}

fn push_sot(v: &mut Vec<u8>) {
    push_marker(v, 0xFF90);
    push_u16(v, 10); // Lsot
    push_u16(v, 0); // tile index
    push_u32(v, 0); // tile-part length: to EOC
    v.push(0); // tile-part index
    v.push(1); // one tile-part
}

fn minimal_jpc(scod: u8) -> Vec<u8> {
    let mut v = Vec::new();
    push_marker(&mut v, 0xFF4F); // SOC
    push_siz(&mut v, 128, 64, 3, 7);
    push_cod(&mut v, scod, 0, 5);
    push_qcd(&mut v, 5);
    push_com(&mut v, b"Created by OpenJPEG version 2.5.0");
    push_sot(&mut v);
    push_marker(&mut v, 0xFF93); // SOD
    v.extend_from_slice(&[0x12, 0x34]);
    push_marker(&mut v, 0xFFD9); // EOC
    v
}

#[test]
fn test_minimal_codestream() {
    let mut reader = ByteReader::new(minimal_jpc(0));
    let codestream = decode_jpc(&mut reader).unwrap();
    assert_eq!(codestream.length(), 0);
    assert_eq!(codestream.offset(), 0);

    let header = codestream.header();

    let siz = header.image_and_tile_size_marker_segment();
    assert_eq!(siz.offset(), 4);
    assert_eq!(siz.length(), 47);
    assert_eq!(siz.decoder_capabilities(), 0);
    assert_eq!(siz.reference_grid_width(), 128);
    assert_eq!(siz.reference_grid_height(), 64);
    assert_eq!(siz.image_horizontal_offset(), 0);
    assert_eq!(siz.image_vertical_offset(), 0);
    assert_eq!(siz.reference_tile_width(), 128);
    assert_eq!(siz.reference_tile_height(), 64);
    assert_eq!(siz.no_components(), 3);
    for i in 0..3 {
        assert_eq!(siz.precision(i).unwrap(), 8);
        assert_eq!(siz.values_are_signed(i).unwrap(), false);
        assert_eq!(siz.horizontal_separation(i).unwrap(), 1);
        assert_eq!(siz.vertical_separation(i).unwrap(), 1);
    }

    let cod = header.coding_style_marker_segment();
    assert_eq!(cod.coding_style(), 0);
    assert_eq!(cod.progression_order(), ProgressionOrder::LRLCPP);
    assert_eq!(cod.no_layers(), 1);
    assert_eq!(
        cod.multiple_component_transformation(),
        MultipleComponentTransformation::Multiple
    );
    let params = cod.coding_style_parameters();
    assert_eq!(params.no_decomposition_levels(), 5);
    assert_eq!(params.code_block_width(), 64);
    assert_eq!(params.code_block_height(), 64);
    assert_eq!(params.code_block_style(), 0);
    assert_eq!(
        params.coding_block_styles(),
        vec![
            CodingBlockStyle::NoSelectiveArithmeticCodingBypass,
            CodingBlockStyle::NoResetOfContextProbabilities,
            CodingBlockStyle::NoTerminationOnEachCodingPass,
            CodingBlockStyle::NoVerticallyCausalContext,
            CodingBlockStyle::NoPredictableTermination,
            CodingBlockStyle::NoSegmentationSymbolsAreUsed
        ]
    );
    assert_eq!(params.transformation(), TransformationFilter::Reversible);
    assert!(!params.has_defined_precinct_size());
    assert!(params.has_default_precinct_size());
    assert!(params.precinct_sizes().is_some());

    assert!(header.coding_style_component_segment().is_empty());

    let qcd = header.quantization_default_marker_segment();
    assert_eq!(qcd.length(), 19);
    assert_eq!(qcd.quantization_style(), QuantizationStyle::No { guard: 2 });
    assert_eq!(qcd.no_guard_bits(), 2);
    assert_eq!(qcd.quantization_exponents(), vec![8; 16]);

    assert!(header.quantization_component_segments().is_empty());
    assert!(header.region_of_interest_segments().is_empty());
    assert!(header.progression_order_change_segment().is_none());
    assert!(header.packed_packet_headers_segments().is_empty());
    assert!(header.tile_part_lengths_segment().is_none());
    assert!(header.packet_lengths_segments().is_empty());
    assert!(header.component_registration_segment().is_none());

    assert_eq!(header.comment_marker_segments().len(), 1);
    let com = header.comment_marker_segments().first().unwrap();
    assert_eq!(com.registration_value(), CommentRegistrationValue::Latin);
    assert_eq!(
        std::str::from_utf8(com.comment()).unwrap(),
        "Created by OpenJPEG version 2.5.0"
    );
    assert_eq!(
        com.comment_utf8(),
        Some(String::from("Created by OpenJPEG version 2.5.0"))
    );

    assert_eq!(codestream.tiles.len(), 1);
    let sot = &codestream.tiles[0].header.start_of_tile_segment;
    assert_eq!(sot.tile_index, 0);
    assert_eq!(sot.tile_length, 0);
    assert_eq!(sot.tile_part_index, 0);
    assert_eq!(sot.no_tile_parts, 1);
}

#[test]
fn test_soc_required_first() {
    let mut v = Vec::new();
    push_marker(&mut v, 0xFF51);
    let mut reader = ByteReader::new(v);
    let err = decode_jpc(&mut reader).unwrap_err();
    assert!(matches!(err, CodestreamError::MarkerUnexpected { .. }));
}

#[test]
fn test_siz_required_second() {
    let mut v = Vec::new();
    push_marker(&mut v, 0xFF4F);
    push_cod(&mut v, 0, 0, 5);
    let mut reader = ByteReader::new(v);
    let err = decode_jpc(&mut reader).unwrap_err();
    assert!(matches!(err, CodestreamError::MarkerUnexpected { .. }));
}

#[test]
fn test_missing_qcd_rejected() {
    let mut v = Vec::new();
    push_marker(&mut v, 0xFF4F);
    push_siz(&mut v, 16, 16, 1, 7);
    push_cod(&mut v, 0, 0, 1);
    push_sot(&mut v);
    push_marker(&mut v, 0xFF93);
    push_marker(&mut v, 0xFFD9);
    let mut reader = ByteReader::new(v);
    let err = decode_jpc(&mut reader).unwrap_err();
    assert!(matches!(
        err,
        CodestreamError::MarkerMissing { marker: 0xFF5C }
    ));
}

#[test]
fn test_missing_cod_rejected() {
    let mut v = Vec::new();
    push_marker(&mut v, 0xFF4F);
    push_siz(&mut v, 16, 16, 1, 7);
    push_qcd(&mut v, 1);
    push_sot(&mut v);
    push_marker(&mut v, 0xFF93);
    push_marker(&mut v, 0xFFD9);
    let mut reader = ByteReader::new(v);
    let err = decode_jpc(&mut reader).unwrap_err();
    assert!(matches!(
        err,
        CodestreamError::MarkerMissing { marker: 0xFF52 }
    ));
}

#[test]
fn test_tile_grid_offset_overflow() {
    // XTOsiz greater than XOsiz breaks the SIZ invariant.
    let mut v = Vec::new();
    push_marker(&mut v, 0xFF4F);
    push_marker(&mut v, 0xFF51);
    push_u16(&mut v, 41);
    push_u16(&mut v, 0);
    push_u32(&mut v, 16); // Xsiz
    push_u32(&mut v, 16); // Ysiz
    push_u32(&mut v, 0); // XOsiz
    push_u32(&mut v, 0); // YOsiz
    push_u32(&mut v, 16); // XTsiz
    push_u32(&mut v, 16); // YTsiz
    push_u32(&mut v, 4); // XTOsiz > XOsiz
    push_u32(&mut v, 0); // YTOsiz
    push_u16(&mut v, 1);
    v.extend_from_slice(&[7, 1, 1]);
    let mut reader = ByteReader::new(v);
    let err = decode_jpc(&mut reader).unwrap_err();
    assert!(matches!(err, CodestreamError::TileGridOffsetOverflow { .. }));
}

#[test]
fn test_tile_size_overflow() {
    // A first tile that holds no grid point of the image area: XTsiz +
    // XTOsiz must pass XOsiz, equality is not enough.
    let mut v = Vec::new();
    push_marker(&mut v, 0xFF4F);
    push_marker(&mut v, 0xFF51);
    push_u16(&mut v, 41);
    push_u16(&mut v, 0);
    push_u32(&mut v, 32); // Xsiz
    push_u32(&mut v, 32); // Ysiz
    push_u32(&mut v, 16); // XOsiz
    push_u32(&mut v, 0); // YOsiz
    push_u32(&mut v, 16); // XTsiz: 16 + 0 == XOsiz
    push_u32(&mut v, 32); // YTsiz
    push_u32(&mut v, 0); // XTOsiz
    push_u32(&mut v, 0); // YTOsiz
    push_u16(&mut v, 1);
    v.extend_from_slice(&[7, 1, 1]);
    let mut reader = ByteReader::new(v);
    let err = decode_jpc(&mut reader).unwrap_err();
    assert!(matches!(err, CodestreamError::TileSizeOverflow { .. }));
}

#[test]
fn test_code_block_size_bounds() {
    // A code-block exponent of 9 gives width 2^11, past the limit of
    // Table A.18.
    let mut v = Vec::new();
    push_marker(&mut v, 0xFF4F);
    push_siz(&mut v, 16, 16, 1, 7);
    push_marker(&mut v, 0xFF52);
    push_u16(&mut v, 12);
    v.push(0); // Scod
    v.push(0); // progression
    push_u16(&mut v, 1);
    v.push(0);
    v.push(1); // levels
    v.push(9); // xcb too large
    v.push(0);
    v.push(0);
    v.push(1);
    let mut reader = ByteReader::new(v);
    let err = decode_jpc(&mut reader).unwrap_err();
    assert!(matches!(
        err,
        CodestreamError::MarkerError { marker: 0xFF52, .. }
    ));
}

#[test]
fn test_unexpected_marker_in_main_header() {
    let mut v = Vec::new();
    push_marker(&mut v, 0xFF4F);
    push_siz(&mut v, 16, 16, 1, 7);
    push_marker(&mut v, 0xFF99); // not a main header marker
    let mut reader = ByteReader::new(v);
    let err = decode_jpc(&mut reader).unwrap_err();
    assert!(matches!(err, CodestreamError::MarkerUnexpected { .. }));
}

#[test]
fn test_sop_and_eph_markers_accepted_when_enabled() {
    // Scod = 6: SOP and EPH both enabled; the scan accepts them in the
    // bit stream.
    let mut v = Vec::new();
    push_marker(&mut v, 0xFF4F);
    push_siz(&mut v, 128, 64, 3, 7);
    push_cod(&mut v, 6, 3, 5); // PCRL progression
    push_qcd(&mut v, 5);
    push_com(&mut v, b"test data for rust JPEG 2000");
    // TLM with no Ttlm field and 32-bit Ptlm lengths.
    push_marker(&mut v, 0xFF55);
    push_u16(&mut v, 8);
    v.push(0); // Ztlm
    v.push(0b0100_0000); // Stlm: ST = 0, SP = 1
    push_u32(&mut v, 1234);
    push_sot(&mut v);
    push_marker(&mut v, 0xFF93); // SOD
    push_marker(&mut v, 0xFF91); // SOP
    push_u16(&mut v, 4); // Lsop
    push_u16(&mut v, 0); // Nsop
    v.extend_from_slice(&[0x00, 0x11]);
    push_marker(&mut v, 0xFF92); // EPH
    push_marker(&mut v, 0xFFD9); // EOC

    let mut reader = ByteReader::new(v);
    let codestream = decode_jpc(&mut reader).unwrap();
    let header = codestream.header();
    let cod = header.coding_style_marker_segment();
    assert_eq!(cod.coding_style(), 6);
    assert!(cod.sop_allowed());
    assert!(cod.eph_allowed());
    assert_eq!(cod.progression_order(), ProgressionOrder::PCRLLP);
    let tlm = header.tile_part_lengths_segment().as_ref().unwrap();
    assert_eq!(tlm.index, 0);
    assert_eq!(tlm.tile_part_lengths.len(), 1);
    assert_eq!(tlm.tile_part_lengths[0].tile_length, 1234);
    let com = header.comment_marker_segments().first().unwrap();
    assert_eq!(
        std::str::from_utf8(com.comment()).unwrap(),
        "test data for rust JPEG 2000"
    );
}

#[test]
fn test_sop_rejected_when_disabled() {
    let mut v = minimal_jpc(0);
    // Replace the EOC at the end with an SOP, which Scod = 0 forbids.
    v.truncate(v.len() - 2);
    push_marker(&mut v, 0xFF91);
    push_u16(&mut v, 4);
    push_u16(&mut v, 0);
    push_marker(&mut v, 0xFFD9);
    let mut reader = ByteReader::new(v);
    let err = decode_jpc(&mut reader).unwrap_err();
    assert!(matches!(
        err,
        CodestreamError::MarkerUnexpected { marker: 0xFF91, .. }
    ));
}

#[test]
fn test_eph_rejected_when_disabled() {
    let mut v = minimal_jpc(0);
    v.truncate(v.len() - 2);
    push_marker(&mut v, 0xFF92);
    push_marker(&mut v, 0xFFD9);
    let mut reader = ByteReader::new(v);
    let err = decode_jpc(&mut reader).unwrap_err();
    assert!(matches!(
        err,
        CodestreamError::MarkerUnexpected { marker: 0xFF92, .. }
    ));
}

#[test]
fn test_too_many_quantization_component_segments() {
    // Two QCC segments for a one-component image break the per-
    // component limit.
    let mut v = Vec::new();
    push_marker(&mut v, 0xFF4F);
    push_siz(&mut v, 16, 16, 1, 7);
    push_cod(&mut v, 0, 0, 1);
    push_qcd(&mut v, 1);
    for _ in 0..2 {
        push_marker(&mut v, 0xFF5D);
        push_u16(&mut v, 8);
        v.push(0); // component 0
        v.push(0b0100_0000); // no quantization, 2 guard bits
        v.extend_from_slice(&[64, 64, 64, 64]);
    }
    push_sot(&mut v);
    push_marker(&mut v, 0xFF93);
    push_marker(&mut v, 0xFFD9);
    let mut reader = ByteReader::new(v);
    let err = decode_jpc(&mut reader).unwrap_err();
    assert!(matches!(
        err,
        CodestreamError::MarkerError { marker: 0xFF5D, .. }
    ));
}

#[test]
fn test_truncated_siz_reports_eof() {
    let mut v = Vec::new();
    push_marker(&mut v, 0xFF4F);
    push_marker(&mut v, 0xFF51);
    push_u16(&mut v, 47);
    push_u16(&mut v, 0);
    let mut reader = ByteReader::new(v);
    let err = decode_jpc(&mut reader).unwrap_err();
    assert!(matches!(err, CodestreamError::UnexpectedEof { .. }));
}

#[test]
fn test_coc_and_qcc_overrides() {
    let mut v = Vec::new();
    push_marker(&mut v, 0xFF4F);
    push_siz(&mut v, 16, 16, 1, 7);
    push_cod(&mut v, 0, 0, 2);
    // COC for component 0: 3 levels, 32-by-32 code blocks, irreversible.
    push_marker(&mut v, 0xFF53);
    push_u16(&mut v, 9);
    v.push(0); // Ccoc
    v.push(0); // Scoc
    v.push(3); // levels
    v.push(3); // xcb: 32
    v.push(3); // ycb: 32
    v.push(0);
    v.push(0); // 9-7 irreversible
    push_qcd(&mut v, 2);
    // QCC for component 0: no quantization, 1 level.
    push_marker(&mut v, 0xFF5D);
    push_u16(&mut v, 8);
    v.push(0); // Cqcc
    v.push(0b0010_0000); // 1 guard bit
    v.extend_from_slice(&[72, 72, 72, 72]);
    push_sot(&mut v);
    push_marker(&mut v, 0xFF93);
    push_marker(&mut v, 0xFFD9);

    let mut reader = ByteReader::new(v);
    let codestream = decode_jpc(&mut reader).unwrap();
    let header = codestream.header();

    assert_eq!(header.coding_style_component_segment().len(), 1);
    let coc = &header.coding_style_component_segment()[0];
    assert_eq!(coc.component_index(), 0);
    assert_eq!(coc.length(), 9);
    let params = coc.coding_style_parameters();
    assert_eq!(params.no_decomposition_levels(), 3);
    assert_eq!(params.code_block_width(), 32);
    assert_eq!(params.code_block_height(), 32);
    assert_eq!(params.transformation(), TransformationFilter::Irreversible);

    assert_eq!(header.quantization_component_segments().len(), 1);
    let qcc = &header.quantization_component_segments()[0];
    assert_eq!(qcc.component_index(), 0);
    assert_eq!(qcc.quantization_style(), QuantizationStyle::No { guard: 1 });
    assert_eq!(qcc.quantization_values.len(), 4);
    assert_eq!(qcc.quantization_values[0].exponent(), 9);
}

#[test]
fn test_rgn_and_crg_segments() {
    let mut v = Vec::new();
    push_marker(&mut v, 0xFF4F);
    push_siz(&mut v, 16, 16, 1, 7);
    push_cod(&mut v, 0, 0, 1);
    push_qcd(&mut v, 1);
    // RGN for component 0, implicit style, shift 5.
    push_marker(&mut v, 0xFF5E);
    push_u16(&mut v, 5);
    v.push(0); // Crgn
    v.push(0); // Srgn
    v.push(5); // SPrgn
    // CRG: centre of mass at (0x1234, 0x5678).
    push_marker(&mut v, 0xFF63);
    push_u16(&mut v, 6);
    push_u16(&mut v, 0x1234);
    push_u16(&mut v, 0x5678);
    push_sot(&mut v);
    push_marker(&mut v, 0xFF93);
    push_marker(&mut v, 0xFFD9);

    let mut reader = ByteReader::new(v);
    let codestream = decode_jpc(&mut reader).unwrap();
    let header = codestream.header();

    assert_eq!(header.region_of_interest_segments().len(), 1);
    let rgn = &header.region_of_interest_segments()[0];
    assert_eq!(rgn.component_index, 0);
    assert_eq!(rgn.region_of_interest_style, 0);
    assert_eq!(rgn.region_of_interest_style_parameter, 5);

    let crg = header.component_registration_segment().as_ref().unwrap();
    assert_eq!(crg.horizontal_offset, vec![0x1234]);
    assert_eq!(crg.vertical_offset, vec![0x5678]);
}

#[test]
fn test_poc_segment() {
    let mut v = Vec::new();
    push_marker(&mut v, 0xFF4F);
    push_siz(&mut v, 16, 16, 1, 7);
    push_cod(&mut v, 0, 0, 1);
    push_qcd(&mut v, 1);
    // One progression: resolution levels 0 to 6, layers up to 1,
    // components 0 to 1, RLPCLP order.
    push_marker(&mut v, 0xFF5F);
    push_u16(&mut v, 9);
    v.push(0); // RSpoc
    v.push(0); // CSpoc
    push_u16(&mut v, 1); // LYEpoc
    v.push(6); // REpoc
    v.push(1); // CEpoc
    v.push(2); // Ppoc
    push_sot(&mut v);
    push_marker(&mut v, 0xFF93);
    push_marker(&mut v, 0xFFD9);

    let mut reader = ByteReader::new(v);
    let codestream = decode_jpc(&mut reader).unwrap();
    let header = codestream.header();
    let poc = header.progression_order_change_segment().as_ref().unwrap();
    assert_eq!(poc.progressions().len(), 1);
    let progression = &poc.progressions()[0];
    assert_eq!(progression.resolution_level_index_start, 0);
    assert_eq!(progression.component_index_start(), 0);
    assert_eq!(progression.layer_index_end, 1);
    assert_eq!(progression.resolution_level_index_end, 6);
    assert_eq!(progression.component_index_end(), 1);
    assert_eq!(progression.progression_order(), ProgressionOrder::RLPCLP);
}

#[test]
fn test_plm_and_ppm_block_eph() {
    // With PPM segments in the main header, EPH may not appear in the
    // bit stream even when the coding style allows it.
    let mut v = Vec::new();
    push_marker(&mut v, 0xFF4F);
    push_siz(&mut v, 16, 16, 1, 7);
    push_cod(&mut v, 4, 0, 1); // EPH allowed by Scod
    push_qcd(&mut v, 1);
    // PLM: one packet of length 0x23.
    push_marker(&mut v, 0xFF57);
    push_u16(&mut v, 5);
    v.push(0); // Zplm
    v.push(1); // Nplm
    v.push(0x23);
    // PPM: four header bytes.
    push_marker(&mut v, 0xFF60);
    push_u16(&mut v, 11);
    v.push(0); // Zppm
    push_u32(&mut v, 4); // Nppm
    v.extend_from_slice(&[0xAA, 0xBB, 0xCC, 0xDD]);
    push_sot(&mut v);
    push_marker(&mut v, 0xFF93);
    push_marker(&mut v, 0xFF92); // EPH: rejected because of PPM
    push_marker(&mut v, 0xFFD9);

    let mut reader = ByteReader::new(v);
    let err = decode_jpc(&mut reader).unwrap_err();
    assert!(matches!(
        err,
        CodestreamError::MarkerUnexpected { marker: 0xFF92, .. }
    ));
}

#[test]
fn test_plm_and_ppm_contents() {
    let mut v = Vec::new();
    push_marker(&mut v, 0xFF4F);
    push_siz(&mut v, 16, 16, 1, 7);
    push_cod(&mut v, 0, 0, 1);
    push_qcd(&mut v, 1);
    push_marker(&mut v, 0xFF57);
    push_u16(&mut v, 5);
    v.push(0);
    v.push(1);
    v.push(0x23);
    push_marker(&mut v, 0xFF60);
    push_u16(&mut v, 11);
    v.push(0);
    push_u32(&mut v, 4);
    v.extend_from_slice(&[0xAA, 0xBB, 0xCC, 0xDD]);
    push_sot(&mut v);
    push_marker(&mut v, 0xFF93);
    push_marker(&mut v, 0xFFD9);

    let mut reader = ByteReader::new(v);
    let codestream = decode_jpc(&mut reader).unwrap();
    let header = codestream.header();

    assert_eq!(header.packet_lengths_segments().len(), 1);
    let plm = &header.packet_lengths_segments()[0];
    assert_eq!(plm.index, 0);
    assert_eq!(plm.no_bytes(), 1);
    assert_eq!(plm.packet_length, vec![0x23]);

    assert_eq!(header.packed_packet_headers_segments().len(), 1);
    let ppm = &header.packed_packet_headers_segments()[0];
    assert_eq!(ppm.index(), 0);
    assert_eq!(ppm.number_of_bytes(), 4);
    assert_eq!(ppm.data, vec![0xAA, 0xBB, 0xCC, 0xDD]);
}

#[test]
fn test_tile_header_segments() {
    let mut v = Vec::new();
    push_marker(&mut v, 0xFF4F);
    push_siz(&mut v, 16, 16, 1, 7);
    push_cod(&mut v, 0, 0, 1);
    push_qcd(&mut v, 1);
    push_sot(&mut v);
    // A tile-level COD overriding the main one.
    push_cod(&mut v, 0, 1, 2);
    // PPT: three packed header bytes.
    push_marker(&mut v, 0xFF61);
    push_u16(&mut v, 6);
    v.push(0); // Zppt
    v.extend_from_slice(&[1, 2, 3]);
    // PLT: two packet length bytes.
    push_marker(&mut v, 0xFF58);
    push_u16(&mut v, 5);
    v.push(0); // Zplt
    v.extend_from_slice(&[0x11, 0x22]);
    push_com(&mut v, b"tile");
    push_marker(&mut v, 0xFF93);
    push_marker(&mut v, 0xFFD9);

    let mut reader = ByteReader::new(v);
    let codestream = decode_jpc(&mut reader).unwrap();
    assert_eq!(codestream.tiles.len(), 1);
    let tile = &codestream.tiles[0].header;

    let tile_cod = tile.coding_style_marker_segment.as_ref().unwrap();
    assert_eq!(tile_cod.progression_order(), ProgressionOrder::RLLCPP);
    assert_eq!(
        tile_cod.coding_style_parameters().no_decomposition_levels(),
        2
    );

    let ppt = tile.packed_packet_headers.as_ref().unwrap();
    assert_eq!(ppt.index(), 0);
    assert_eq!(ppt.data, vec![1, 2, 3]);

    assert_eq!(tile.packet_lengths.len(), 1);
    assert_eq!(tile.packet_lengths[0].index, 0);
    assert_eq!(tile.packet_lengths[0].packet_length, vec![0x11, 0x22]);

    let com = tile.comment_marker_segment.as_ref().unwrap();
    assert_eq!(com.comment(), &b"tile".to_vec());
}

#[test]
fn test_ppt_rejected_with_ppm() {
    let mut v = Vec::new();
    push_marker(&mut v, 0xFF4F);
    push_siz(&mut v, 16, 16, 1, 7);
    push_cod(&mut v, 0, 0, 1);
    push_qcd(&mut v, 1);
    push_marker(&mut v, 0xFF60); // PPM
    push_u16(&mut v, 7);
    v.push(0);
    push_u32(&mut v, 0);
    push_sot(&mut v);
    push_marker(&mut v, 0xFF61); // PPT while PPM present
    push_u16(&mut v, 3);
    v.push(0);
    push_marker(&mut v, 0xFF93);
    push_marker(&mut v, 0xFFD9);

    let mut reader = ByteReader::new(v);
    let err = decode_jpc(&mut reader).unwrap_err();
    assert!(matches!(
        err,
        CodestreamError::MarkerUnexpected { marker: 0xFF61, .. }
    ));
}

#[test]
fn test_further_tile_parts_unsupported() {
    let mut v = minimal_jpc(0);
    v.truncate(v.len() - 2);
    push_sot(&mut v); // a second tile-part in the bit stream
    push_marker(&mut v, 0xFF93);
    push_marker(&mut v, 0xFFD9);
    let mut reader = ByteReader::new(v);
    let err = decode_jpc(&mut reader).unwrap_err();
    assert!(matches!(
        err,
        CodestreamError::MarkerError { marker: 0xFF90, .. }
    ));
}

#[test]
fn test_reserved_quantization_style_rejected() {
    let mut v = Vec::new();
    push_marker(&mut v, 0xFF4F);
    push_siz(&mut v, 16, 16, 1, 7);
    push_cod(&mut v, 0, 0, 1);
    push_marker(&mut v, 0xFF5C);
    push_u16(&mut v, 5);
    v.push(0b0000_011); // reserved style
    v.extend_from_slice(&[0, 0]);
    let mut reader = ByteReader::new(v);
    let err = decode_jpc(&mut reader).unwrap_err();
    assert!(matches!(
        err,
        CodestreamError::MarkerError { marker: 0xFF5C, .. }
    ));
}

#[test]
fn test_expounded_quantization_values() {
    // A scalar expounded QCD for one decomposition level: 4 subbands of
    // 2 bytes each, exponent 9 and mantissa 0x2A.
    let mut v = Vec::new();
    push_marker(&mut v, 0xFF4F);
    push_siz(&mut v, 16, 16, 1, 7);
    push_cod(&mut v, 0, 0, 1);
    push_marker(&mut v, 0xFF5C);
    push_u16(&mut v, 11);
    v.push(0b0100_0010); // expounded, 2 guard bits
    for _ in 0..4 {
        push_u16(&mut v, (9 << 11) | 0x2A);
    }
    push_sot(&mut v);
    push_marker(&mut v, 0xFF93);
    push_marker(&mut v, 0xFFD9);

    let mut reader = ByteReader::new(v);
    let codestream = decode_jpc(&mut reader).unwrap();
    let qcd = codestream.header().quantization_default_marker_segment();
    assert_eq!(
        qcd.quantization_style(),
        QuantizationStyle::ScalarExpounded { guard: 2 }
    );
    assert_eq!(qcd.values.len(), 4);
    assert_eq!(qcd.quantization_exponents(), vec![9; 4]);
    assert_eq!(qcd.values[0].mantissa(), 0x2A);
    assert_eq!(qcd.quantization_values(), vec![(9 << 11) | 0x2A; 4]);
}

#[test]
fn test_precinct_sizes_defined() {
    // Scod bit 0 set: one precinct size byte per resolution level.
    let mut v = Vec::new();
    push_marker(&mut v, 0xFF4F);
    push_siz(&mut v, 16, 16, 1, 7);
    push_marker(&mut v, 0xFF52);
    push_u16(&mut v, 15);
    v.push(1); // Scod: defined precincts
    v.push(0);
    push_u16(&mut v, 1);
    v.push(0);
    v.push(2); // levels
    v.push(4);
    v.push(4);
    v.push(0);
    v.push(1);
    v.extend_from_slice(&[0x57, 0x66, 0x75]); // PPx and PPy per level
    push_qcd(&mut v, 2);
    push_sot(&mut v);
    push_marker(&mut v, 0xFF93);
    push_marker(&mut v, 0xFFD9);

    let mut reader = ByteReader::new(v);
    let codestream = decode_jpc(&mut reader).unwrap();
    let params = codestream
        .header()
        .coding_style_marker_segment()
        .coding_style_parameters();
    assert!(params.has_defined_precinct_size());
    let sizes = params.precinct_sizes().unwrap();
    assert_eq!(sizes.len(), 3);
    // 0x57: PPy = 5 in the high nibble, PPx = 7 in the low nibble.
    assert_eq!(sizes[0].width_exponent(), 0x7);
    assert_eq!(sizes[0].height_exponent(), 0x5);
    assert_eq!(sizes[2].width_exponent(), 0x5);
    assert_eq!(sizes[2].height_exponent(), 0x7);
}

#[test]
fn test_wide_component_indices() {
    // With 300 components the COC component index takes two bytes.
    let mut v = Vec::new();
    push_marker(&mut v, 0xFF4F);
    push_siz(&mut v, 16, 16, 300, 7);
    push_cod(&mut v, 0, 0, 1);
    push_marker(&mut v, 0xFF53); // COC
    push_u16(&mut v, 10);
    push_u16(&mut v, 258); // two-byte Ccoc
    v.push(0); // Scoc
    v.push(1);
    v.push(4);
    v.push(4);
    v.push(0);
    v.push(1);
    push_qcd(&mut v, 1);
    push_sot(&mut v);
    push_marker(&mut v, 0xFF93);
    push_marker(&mut v, 0xFFD9);

    let mut reader = ByteReader::new(v);
    let codestream = decode_jpc(&mut reader).unwrap();
    let header = codestream.header();
    assert_eq!(header.image_and_tile_size_marker_segment().no_components(), 300);
    assert_eq!(header.coding_style_component_segment().len(), 1);
    assert_eq!(header.coding_style_component_segment()[0].component_index(), 258);
}

#[test]
fn test_tlm_with_tile_indices() {
    // Stlm with 8-bit Ttlm and 16-bit Ptlm fields.
    let mut v = Vec::new();
    push_marker(&mut v, 0xFF4F);
    push_siz(&mut v, 16, 16, 1, 7);
    push_cod(&mut v, 0, 0, 1);
    push_qcd(&mut v, 1);
    push_marker(&mut v, 0xFF55);
    push_u16(&mut v, 10);
    v.push(0); // Ztlm
    v.push(0b0001_0000); // Stlm: ST = 1, SP = 0
    v.push(0); // Ttlm 0
    push_u16(&mut v, 400);
    v.push(1); // Ttlm 1
    push_u16(&mut v, 500);
    push_sot(&mut v);
    push_marker(&mut v, 0xFF93);
    push_marker(&mut v, 0xFFD9);

    let mut reader = ByteReader::new(v);
    let codestream = decode_jpc(&mut reader).unwrap();
    let tlm = codestream
        .header()
        .tile_part_lengths_segment()
        .as_ref()
        .unwrap();
    assert_eq!(tlm.tile_part_lengths.len(), 2);
    assert_eq!(tlm.tile_part_lengths[0].tile_index, 0);
    assert_eq!(tlm.tile_part_lengths[0].tile_length, 400);
    assert_eq!(tlm.tile_part_lengths[1].tile_index, 1);
    assert_eq!(tlm.tile_part_lengths[1].tile_length, 500);
}

#[test]
fn test_cod_length_must_match_contents() {
    // An Lcod padded beyond the fields it frames is rejected rather
    // than desynchronizing the marker walk.
    let mut v = Vec::new();
    push_marker(&mut v, 0xFF4F);
    push_siz(&mut v, 16, 16, 1, 7);
    push_marker(&mut v, 0xFF52);
    push_u16(&mut v, 14); // two bytes more than the fields below
    v.push(0);
    v.push(0);
    push_u16(&mut v, 1);
    v.push(0);
    v.push(1);
    v.push(4);
    v.push(4);
    v.push(0);
    v.push(1);
    v.extend_from_slice(&[0, 0]); // padding the length pretends to cover
    let mut reader = ByteReader::new(v);
    let err = decode_jpc(&mut reader).unwrap_err();
    assert!(matches!(
        err,
        CodestreamError::MarkerError { marker: 0xFF52, .. }
    ));
}

#[test]
fn test_minimal_single_component_codestream() {
    // The smallest accepted codestream: SOC, a one-component SIZ, a COD
    // without precinct bytes, a one-level QCD, one tile-part with an
    // empty bit stream, EOC.
    let mut v = Vec::new();
    push_marker(&mut v, 0xFF4F);
    push_siz(&mut v, 16, 16, 1, 7);
    push_cod(&mut v, 0, 0, 1);
    push_qcd(&mut v, 1);
    push_sot(&mut v);
    push_marker(&mut v, 0xFF93);
    push_marker(&mut v, 0xFFD9);
    assert_eq!(v.len(), 84);
    let mut reader = ByteReader::new(v);
    let codestream = decode_jpc(&mut reader).unwrap();
    assert_eq!(codestream.header().image_and_tile_size_marker_segment().no_components(), 1);
    assert_eq!(codestream.tiles.len(), 1);
}

#[test]
fn test_duplicate_component_index_rejected() {
    // Two COC segments for the same component index break the
    // one-per-component rule even when the total stays within Csiz.
    let mut v = Vec::new();
    push_marker(&mut v, 0xFF4F);
    push_siz(&mut v, 16, 16, 3, 7);
    push_cod(&mut v, 0, 0, 1);
    for _ in 0..2 {
        push_marker(&mut v, 0xFF53); // COC for component 1, twice
        push_u16(&mut v, 9);
        v.push(1);
        v.push(0);
        v.push(1);
        v.push(4);
        v.push(4);
        v.push(0);
        v.push(1);
    }
    push_qcd(&mut v, 1);
    push_sot(&mut v);
    push_marker(&mut v, 0xFF93);
    push_marker(&mut v, 0xFFD9);
    let mut reader = ByteReader::new(v);
    let err = decode_jpc(&mut reader).unwrap_err();
    assert!(matches!(
        err,
        CodestreamError::MarkerError { marker: 0xFF53, .. }
    ));
}
