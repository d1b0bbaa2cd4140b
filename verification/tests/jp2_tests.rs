use jpeg2000::jp2::{
    decode_jp2, BitDepth, ChannelTypes, ColourSpecificationMethods, ComponentMapType, JBox,
    JP2Error,
};
use jpeg2000::icc::decode_icc;
use jpeg2000::reader::ByteReader;

fn push_u32(v: &mut Vec<u8>, x: u32) {
    v.extend_from_slice(&x.to_be_bytes());
}

fn push_u16(v: &mut Vec<u8>, x: u16) {
    v.extend_from_slice(&x.to_be_bytes());
}

fn push_box(v: &mut Vec<u8>, box_type: &[u8; 4], payload: &[u8]) {
    push_u32(v, payload.len() as u32 + 8);
    v.extend_from_slice(box_type);
    v.extend_from_slice(payload);
}

fn signature_box(v: &mut Vec<u8>) {
    push_box(v, b"jP\x20\x20", &[0x0D, 0x0A, 0x87, 0x0A]);
}

fn file_type_box(v: &mut Vec<u8>) {
    let mut payload = Vec::new();
    payload.extend_from_slice(b"jp2\x20"); // brand
    push_u32(&mut payload, 0); // minor version
    payload.extend_from_slice(b"jp2\x20"); // compatibility list
    push_box(v, b"ftyp", &payload);
}

fn ihdr_payload(height: u32, width: u32, nc: u16, bpc: u8) -> Vec<u8> {
    let mut p = Vec::new();
    push_u32(&mut p, height);
    push_u32(&mut p, width);
    push_u16(&mut p, nc);
    p.push(bpc); // bits per component, depth - 1 with sign bit
    p.push(7); // wavelet compression
    p.push(0); // colourspace known
    p.push(0); // no intellectual property box
    p
}

fn colr_enumerated(space: u32) -> Vec<u8> {
    let mut p = Vec::new();
    p.push(1); // method: enumerated
    p.push(0); // precedence
    p.push(0); // approximation
    push_u32(&mut p, space);
    p
}

fn header_box(v: &mut Vec<u8>, children: &[(&[u8; 4], Vec<u8>)]) {
    let mut payload = Vec::new();
    for (t, p) in children {
        push_box(&mut payload, t, p);
    }
    push_box(v, b"jp2h", &payload);
}

fn minimal_jp2() -> Vec<u8> {
    let mut v = Vec::new();
    signature_box(&mut v);
    file_type_box(&mut v);
    header_box(
        &mut v,
        &[
            (b"ihdr", ihdr_payload(128, 64, 3, 15)),
            (b"colr", colr_enumerated(16)),
        ],
    );
    push_box(&mut v, b"jp2c", &[0xFF, 0x4F, 0xFF, 0xD9]);
    v
}

#[test]
fn test_minimal_jp2_structure() {
    let mut reader = ByteReader::new(minimal_jp2());
    let file = decode_jp2(&mut reader).unwrap();

    let signature = file.signature_box().as_ref().unwrap();
    assert_eq!(signature.offset(), 8);
    assert_eq!(signature.length(), 12);
    assert_eq!(signature.signature(), 0x0D0A870A);

    let ftyp = file.file_type_box().as_ref().unwrap();
    assert_eq!(ftyp.offset(), 20);
    assert_eq!(ftyp.brand(), 0x6A703220);
    assert_eq!(ftyp.min_version(), 0);
    assert_eq!(ftyp.compatibility_list(), &vec![0x6A703220]);

    let header = file.header_box().as_ref().unwrap();
    let ihdr = &header.image_header_box;
    assert_eq!(ihdr.height(), 128);
    assert_eq!(ihdr.width(), 64);
    assert_eq!(ihdr.components_num(), 3);
    assert_eq!(ihdr.components_bits(), 16);
    assert!(!ihdr.values_are_signed());
    assert_eq!(ihdr.compression_type(), 7);
    assert_eq!(ihdr.colourspace_unknown(), 0);
    assert_eq!(ihdr.intellectual_property(), 0);

    assert_eq!(header.colour_specification_boxes.len(), 1);
    let colr = &header.colour_specification_boxes[0];
    assert_eq!(
        colr.method(),
        ColourSpecificationMethods::EnumeratedColourSpace
    );
    assert_eq!(colr.precedence(), 0);
    assert_eq!(colr.colourspace_approximation(), 0);
    assert_eq!(colr.enumerated_colour_space(), Some(16));

    assert!(header.bits_per_component_box.is_none());
    assert!(header.palette_box.is_none());
    assert!(header.component_mapping_box.is_none());
    assert!(header.channel_definition_box.is_none());
    assert!(header.resolution_box.is_none());

    // The codestream box lies after the header super-box.
    assert_eq!(file.contiguous_codestreams_boxes().len(), 1);
    let jp2c = &file.contiguous_codestreams_boxes()[0];
    assert!(jp2c.offset() > header.offset());
    assert_eq!(jp2c.length(), 4);

    assert_eq!(file.xml_boxes().len(), 0);
    assert_eq!(file.uuid_boxes().len(), 0);
}

#[test]
fn test_invalid_signature_payload() {
    let mut v = Vec::new();
    push_box(&mut v, b"jP\x20\x20", &[0x0D, 0x0A, 0x87, 0x0B]);
    file_type_box(&mut v);
    let mut reader = ByteReader::new(v);
    let err = decode_jp2(&mut reader).unwrap_err();
    assert!(matches!(err, JP2Error::InvalidSignature { .. }));
}

#[test]
fn test_signature_box_must_be_first() {
    let mut v = Vec::new();
    file_type_box(&mut v);
    signature_box(&mut v);
    let mut reader = ByteReader::new(v);
    let err = decode_jp2(&mut reader).unwrap_err();
    assert!(matches!(err, JP2Error::BoxUnexpected { .. }));
}

#[test]
fn test_jpx_brand_unsupported() {
    let mut v = Vec::new();
    signature_box(&mut v);
    let mut payload = Vec::new();
    payload.extend_from_slice(b"jpx\x20");
    push_u32(&mut payload, 0);
    payload.extend_from_slice(b"jp2\x20");
    push_box(&mut v, b"ftyp", &payload);
    let mut reader = ByteReader::new(v);
    let err = decode_jp2(&mut reader).unwrap_err();
    assert!(matches!(err, JP2Error::Unsupported));
}

#[test]
fn test_unknown_brand_invalid() {
    let mut v = Vec::new();
    signature_box(&mut v);
    let mut payload = Vec::new();
    payload.extend_from_slice(b"mjp2");
    push_u32(&mut payload, 0);
    payload.extend_from_slice(b"jp2\x20");
    push_box(&mut v, b"ftyp", &payload);
    let mut reader = ByteReader::new(v);
    let err = decode_jp2(&mut reader).unwrap_err();
    assert!(matches!(err, JP2Error::InvalidBrand { .. }));
}

#[test]
fn test_compatibility_list_needs_jp2() {
    let mut v = Vec::new();
    signature_box(&mut v);
    let mut payload = Vec::new();
    payload.extend_from_slice(b"jp2\x20");
    push_u32(&mut payload, 0);
    payload.extend_from_slice(b"jpxb");
    push_box(&mut v, b"ftyp", &payload);
    let mut reader = ByteReader::new(v);
    let err = decode_jp2(&mut reader).unwrap_err();
    assert!(matches!(err, JP2Error::NotCompatible { .. }));
}

#[test]
fn test_codestream_before_header_rejected() {
    let mut v = Vec::new();
    signature_box(&mut v);
    file_type_box(&mut v);
    push_box(&mut v, b"jp2c", &[0xFF, 0x4F]);
    let mut reader = ByteReader::new(v);
    let err = decode_jp2(&mut reader).unwrap_err();
    assert!(matches!(err, JP2Error::BoxUnexpected { .. }));
}

#[test]
fn test_reserved_box_length_rejected() {
    let mut v = Vec::new();
    signature_box(&mut v);
    file_type_box(&mut v);
    // A stored box length of 3 is reserved.
    push_u32(&mut v, 3);
    v.extend_from_slice(b"jp2h");
    let mut reader = ByteReader::new(v);
    let err = decode_jp2(&mut reader).unwrap_err();
    assert!(matches!(err, JP2Error::BoxMalformed { .. }));
}

#[test]
fn test_missing_colour_specification_rejected() {
    let mut v = Vec::new();
    signature_box(&mut v);
    file_type_box(&mut v);
    header_box(&mut v, &[(b"ihdr", ihdr_payload(8, 8, 1, 7))]);
    push_box(&mut v, b"jp2c", &[]);
    let mut reader = ByteReader::new(v);
    let err = decode_jp2(&mut reader).unwrap_err();
    assert!(matches!(err, JP2Error::BoxMalformed { .. }));
}

#[test]
fn test_duplicate_channel_definition_rejected() {
    let mut cdef = Vec::new();
    push_u16(&mut cdef, 1);
    push_u16(&mut cdef, 0);
    push_u16(&mut cdef, 0);
    push_u16(&mut cdef, 1);
    let mut v = Vec::new();
    signature_box(&mut v);
    file_type_box(&mut v);
    header_box(
        &mut v,
        &[
            (b"ihdr", ihdr_payload(8, 8, 1, 7)),
            (b"colr", colr_enumerated(17)),
            (b"cdef", cdef.clone()),
            (b"cdef", cdef),
        ],
    );
    let mut reader = ByteReader::new(v);
    let err = decode_jp2(&mut reader).unwrap_err();
    assert!(matches!(err, JP2Error::BoxDuplicate { .. }));
}

#[test]
fn test_palette_needs_component_mapping() {
    // pclr without cmap breaks the header invariant.
    let mut pclr = Vec::new();
    push_u16(&mut pclr, 2); // entries
    pclr.push(1); // one generated component
    pclr.push(7); // 8-bit unsigned
    pclr.push(10);
    pclr.push(20);
    let mut v = Vec::new();
    signature_box(&mut v);
    file_type_box(&mut v);
    header_box(
        &mut v,
        &[
            (b"ihdr", ihdr_payload(8, 8, 1, 7)),
            (b"colr", colr_enumerated(17)),
            (b"pclr", pclr),
        ],
    );
    push_box(&mut v, b"jp2c", &[]);
    let mut reader = ByteReader::new(v);
    let err = decode_jp2(&mut reader).unwrap_err();
    assert!(matches!(err, JP2Error::BoxMalformed { .. }));
}

#[test]
fn test_palette_with_component_mapping() {
    // A palette of 256 entries generating 3 components of 8 bits each,
    // and a mapping of all 3 channels through palette columns 0, 1, 2.
    // The table values come entry by entry: all three component values
    // of entry 0, then of entry 1, and so on.
    let entries: u16 = 256;
    let mut pclr = Vec::new();
    push_u16(&mut pclr, entries);
    pclr.push(3);
    for _ in 0..3 {
        pclr.push(7); // depth 8, unsigned
    }
    for e in 0..entries {
        for c in 0..3u16 {
            pclr.push((e % 256) as u8 ^ c as u8);
        }
    }
    let mut cmap = Vec::new();
    for col in 0..3u8 {
        push_u16(&mut cmap, 0); // component 0
        cmap.push(2); // palette mapping
        cmap.push(col);
    }
    let mut v = Vec::new();
    signature_box(&mut v);
    file_type_box(&mut v);
    header_box(
        &mut v,
        &[
            (b"ihdr", ihdr_payload(512, 768, 1, 7)),
            (b"colr", colr_enumerated(16)),
            (b"pclr", pclr),
            (b"cmap", cmap),
        ],
    );
    push_box(&mut v, b"jp2c", &[]);
    let mut reader = ByteReader::new(v);
    let file = decode_jp2(&mut reader).unwrap();
    let header = file.header_box().as_ref().unwrap();

    let palette = header.palette_box.as_ref().unwrap();
    assert_eq!(palette.num_entries(), 256);
    assert_eq!(palette.num_components(), 3);
    assert_eq!(palette.generated_components().len(), 3);
    for c in 0..3usize {
        let generated = &palette.generated_components()[c];
        assert_eq!(
            generated.bit_depth(),
            BitDepth::Unsigned { value: 8 }
        );
        assert_eq!(generated.values().len(), 256);
        assert_eq!(generated.values()[5], 5u8 ^ c as u8);
    }

    let mapping = header.component_mapping_box.as_ref().unwrap();
    assert_eq!(mapping.component_map().len(), 3);
    for (col, entry) in mapping.component_map().iter().enumerate() {
        assert_eq!(entry.component(), 0);
        assert_eq!(entry.mapping_type, ComponentMapType::Palette);
        assert_eq!(entry.palette(), col as u8);
    }
}

#[test]
fn test_bits_per_component_box_with_sentinel() {
    // A depth byte of 255 defers to the bpcc box, here 8-bit unsigned,
    // 10-bit unsigned and 8-bit signed.
    let bpcc = vec![7u8, 9u8, 0x87u8];
    let mut v = Vec::new();
    signature_box(&mut v);
    file_type_box(&mut v);
    header_box(
        &mut v,
        &[
            (b"ihdr", ihdr_payload(8, 8, 3, 255)),
            (b"bpcc", bpcc),
            (b"colr", colr_enumerated(16)),
        ],
    );
    push_box(&mut v, b"jp2c", &[]);
    let mut reader = ByteReader::new(v);
    let file = decode_jp2(&mut reader).unwrap();
    let header = file.header_box().as_ref().unwrap();
    assert_eq!(header.image_header_box.components_bits(), 255);
    let bpc = header.bits_per_component_box.as_ref().unwrap();
    let depths = bpc.bits_per_component();
    assert_eq!(depths.len(), 3);
    assert_eq!(depths[0], BitDepth::Unsigned { value: 8 });
    assert_eq!(depths[1], BitDepth::Unsigned { value: 10 });
    assert_eq!(depths[2], BitDepth::Signed { value: 8 });
}

#[test]
fn test_channel_definitions() {
    let mut cdef = Vec::new();
    push_u16(&mut cdef, 3);
    for (index, typ, assoc) in [(0u16, 0u16, 3u16), (1, 0, 2), (2, 1, 1)] {
        push_u16(&mut cdef, index);
        push_u16(&mut cdef, typ);
        push_u16(&mut cdef, assoc);
    }
    let mut v = Vec::new();
    signature_box(&mut v);
    file_type_box(&mut v);
    header_box(
        &mut v,
        &[
            (b"ihdr", ihdr_payload(8, 8, 3, 7)),
            (b"colr", colr_enumerated(18)),
            (b"cdef", cdef),
        ],
    );
    push_box(&mut v, b"jp2c", &[]);
    let mut reader = ByteReader::new(v);
    let file = decode_jp2(&mut reader).unwrap();
    let header = file.header_box().as_ref().unwrap();
    let cdef = header.channel_definition_box.as_ref().unwrap();
    assert_eq!(cdef.channels().len(), 3);
    assert_eq!(cdef.channels()[0].channel_index(), 0);
    assert_eq!(cdef.channels()[0].channel_type(), ChannelTypes::ColourImageData);
    assert_eq!(cdef.channels()[0].channel_association(), 3);
    assert_eq!(cdef.channels()[2].channel_type(), ChannelTypes::Opacity);
    assert_eq!(cdef.channels()[2].channel_association(), 1);
}

#[test]
fn test_resolution_boxes() {
    // A resolution super-box holding a capture box of 20 and 25
    // grid-points per metre and a display box of 300 and 375.
    let mut res_payload = Vec::new();
    let mut resc = Vec::new();
    push_u16(&mut resc, 20); // vertical numerator
    push_u16(&mut resc, 1); // vertical denominator
    push_u16(&mut resc, 25); // horizontal numerator
    push_u16(&mut resc, 1); // horizontal denominator
    resc.push(0); // vertical exponent
    resc.push(0); // horizontal exponent
    push_box(&mut res_payload, b"resc", &resc);
    let mut resd = Vec::new();
    push_u16(&mut resd, 300);
    push_u16(&mut resd, 1);
    push_u16(&mut resd, 375);
    push_u16(&mut resd, 1);
    resd.push(0);
    resd.push(0);
    push_box(&mut res_payload, b"resd", &resd);

    let mut v = Vec::new();
    signature_box(&mut v);
    file_type_box(&mut v);
    let mut header_payload = Vec::new();
    push_box(&mut header_payload, b"ihdr", &ihdr_payload(8, 8, 1, 7));
    push_box(&mut header_payload, b"colr", &colr_enumerated(17));
    push_box(&mut header_payload, b"res\x20", &res_payload);
    push_box(&mut v, b"jp2h", &header_payload);
    push_box(&mut v, b"jp2c", &[]);

    let mut reader = ByteReader::new(v);
    let file = decode_jp2(&mut reader).unwrap();
    let header = file.header_box().as_ref().unwrap();
    let res = header.resolution_box.as_ref().unwrap();

    let capture = res.capture_resolution_box().as_ref().unwrap();
    assert_eq!(capture.vertical_capture_grid_resolution_numerator(), 20);
    assert_eq!(capture.vertical_capture_grid_resolution_denominator(), 1);
    assert_eq!(capture.horizontal_capture_grid_resolution_numerator(), 25);
    assert_eq!(capture.horizontal_capture_grid_resolution_denominator(), 1);
    assert_eq!(capture.vertical_capture_grid_resolution_exponent(), 0);
    assert_eq!(capture.horizontal_capture_grid_resolution_exponent(), 0);

    let display = res.default_display_resolution_box().as_ref().unwrap();
    assert_eq!(display.vertical_display_grid_resolution_numerator(), 300);
    assert_eq!(display.horizontal_display_grid_resolution_numerator(), 375);
    assert_eq!(display.vertical_display_grid_resolution(), 300);
    assert_eq!(display.horizontal_display_grid_resolution(), 375);
}

#[test]
fn test_xml_and_uuid_boxes() {
    let xml_text = b"<meta>grid</meta>";
    let uuid: [u8; 16] = [
        0xb1, 0x4b, 0xf8, 0xbd, 0x08, 0x3d, 0x4b, 0x43, 0xa5, 0xae, 0x8c, 0xd7, 0xd5, 0xa6,
        0xce, 0x03,
    ];
    let vendor = b"II*degenerate";

    let mut v = Vec::new();
    signature_box(&mut v);
    file_type_box(&mut v);
    header_box(
        &mut v,
        &[
            (b"ihdr", ihdr_payload(24, 100, 1, 7)),
            (b"colr", colr_enumerated(17)),
        ],
    );
    let xml_offset = v.len() as u64 + 8;
    push_box(&mut v, b"xml\x20", xml_text);
    let uuid_offset = v.len() as u64 + 8;
    let mut uuid_payload = Vec::new();
    uuid_payload.extend_from_slice(&uuid);
    uuid_payload.extend_from_slice(vendor);
    push_box(&mut v, b"uuid", &uuid_payload);

    let mut reader = ByteReader::new(v);
    let file = decode_jp2(&mut reader).unwrap();

    assert_eq!(file.xml_boxes().len(), 1);
    let xml_box = &file.xml_boxes()[0];
    assert_eq!(xml_box.offset(), xml_offset);
    assert_eq!(xml_box.length(), xml_text.len() as u64);
    assert_eq!(xml_box.xml, xml_text);
    assert_eq!(xml_box.format(), Some(String::from("<meta>grid</meta>")));

    assert_eq!(file.uuid_boxes().len(), 1);
    let uuid_box = &file.uuid_boxes()[0];
    assert_eq!(uuid_box.offset(), uuid_offset);
    assert_eq!(uuid_box.uuid(), &uuid.to_vec());
    assert_eq!(uuid_box.data(), &vendor.to_vec());
}

#[test]
fn test_uuid_list_needs_uuid_info() {
    let mut ulst = Vec::new();
    push_u16(&mut ulst, 0);
    let mut v = Vec::new();
    signature_box(&mut v);
    file_type_box(&mut v);
    header_box(
        &mut v,
        &[
            (b"ihdr", ihdr_payload(8, 8, 1, 7)),
            (b"colr", colr_enumerated(17)),
        ],
    );
    push_box(&mut v, b"ulst", &ulst);
    let mut reader = ByteReader::new(v);
    let err = decode_jp2(&mut reader).unwrap_err();
    assert!(matches!(err, JP2Error::BoxMissing { .. }));
}

#[test]
fn test_extended_box_length() {
    // The same minimal file, but the xml box framed with the 8-byte
    // extended length.
    let xml_text = b"<x/>";
    let mut v = Vec::new();
    signature_box(&mut v);
    file_type_box(&mut v);
    header_box(
        &mut v,
        &[
            (b"ihdr", ihdr_payload(8, 8, 1, 7)),
            (b"colr", colr_enumerated(17)),
        ],
    );
    push_u32(&mut v, 1); // escape to the extended length
    v.extend_from_slice(b"xml\x20");
    v.extend_from_slice(&(xml_text.len() as u64 + 16).to_be_bytes());
    v.extend_from_slice(xml_text);
    let mut reader = ByteReader::new(v);
    let file = decode_jp2(&mut reader).unwrap();
    assert_eq!(file.xml_boxes().len(), 1);
    assert_eq!(file.xml_boxes()[0].xml, xml_text);
}

#[test]
fn test_codestream_to_end_of_file() {
    // A length of zero means the codestream runs to the end of the
    // file.
    let mut v = Vec::new();
    signature_box(&mut v);
    file_type_box(&mut v);
    header_box(
        &mut v,
        &[
            (b"ihdr", ihdr_payload(8, 8, 1, 7)),
            (b"colr", colr_enumerated(17)),
        ],
    );
    let jp2c_offset = v.len() as u64 + 8;
    push_u32(&mut v, 0);
    v.extend_from_slice(b"jp2c");
    v.extend_from_slice(&[1, 2, 3, 4, 5]);
    let total = v.len() as u64;
    let mut reader = ByteReader::new(v);
    let file = decode_jp2(&mut reader).unwrap();
    assert_eq!(file.contiguous_codestreams_boxes().len(), 1);
    let jp2c = &file.contiguous_codestreams_boxes()[0];
    assert_eq!(jp2c.offset(), jp2c_offset);
    assert_eq!(jp2c.length(), total - jp2c_offset);
    assert_eq!(file.length(), total);
}

#[test]
fn test_later_image_header_ignored() {
    // A second ihdr inside the header super-box is skipped; the first
    // one stands.
    let mut v = Vec::new();
    signature_box(&mut v);
    file_type_box(&mut v);
    header_box(
        &mut v,
        &[
            (b"ihdr", ihdr_payload(16, 32, 1, 7)),
            (b"ihdr", ihdr_payload(99, 99, 9, 7)),
            (b"colr", colr_enumerated(17)),
        ],
    );
    push_box(&mut v, b"jp2c", &[]);
    let mut reader = ByteReader::new(v);
    let file = decode_jp2(&mut reader).unwrap();
    let header = file.header_box().as_ref().unwrap();
    assert_eq!(header.image_header_box.height(), 16);
    assert_eq!(header.image_header_box.width(), 32);
    assert_eq!(header.image_header_box.components_num(), 1);
}

#[test]
fn test_second_header_super_box_ignored() {
    let mut v = Vec::new();
    signature_box(&mut v);
    file_type_box(&mut v);
    header_box(
        &mut v,
        &[
            (b"ihdr", ihdr_payload(16, 32, 1, 7)),
            (b"colr", colr_enumerated(17)),
        ],
    );
    header_box(
        &mut v,
        &[
            (b"ihdr", ihdr_payload(5, 5, 5, 7)),
            (b"colr", colr_enumerated(16)),
        ],
    );
    push_box(&mut v, b"jp2c", &[]);
    let mut reader = ByteReader::new(v);
    let file = decode_jp2(&mut reader).unwrap();
    let header = file.header_box().as_ref().unwrap();
    assert_eq!(header.image_header_box.height(), 16);
    assert_eq!(file.contiguous_codestreams_boxes().len(), 1);
}

#[test]
fn test_restricted_icc_profile_recorded() {
    let profile: Vec<u8> = (0u8..32).collect();
    let mut colr = Vec::new();
    colr.push(2); // method: restricted ICC profile
    colr.push(0);
    colr.push(0);
    colr.extend_from_slice(&profile);
    let mut v = Vec::new();
    signature_box(&mut v);
    file_type_box(&mut v);
    header_box(
        &mut v,
        &[(b"ihdr", ihdr_payload(8, 8, 1, 7)), (b"colr", colr)],
    );
    push_box(&mut v, b"jp2c", &[]);
    let mut reader = ByteReader::new(v);
    let file = decode_jp2(&mut reader).unwrap();
    let header = file.header_box().as_ref().unwrap();
    let colr = &header.colour_specification_boxes[0];
    assert_eq!(
        colr.method(),
        ColourSpecificationMethods::RestrictedICCProfile
    );
    assert_eq!(colr.restricted_icc_profile, profile);
}

#[test]
fn test_uuid_info_group() {
    let mut ulst = Vec::new();
    push_u16(&mut ulst, 1);
    ulst.extend_from_slice(&[9u8; 16]);
    let mut url = Vec::new();
    url.push(0); // version
    url.extend_from_slice(&[0, 0, 0]); // flags
    url.extend_from_slice(b"http://example.invalid/\0");
    let mut v = Vec::new();
    signature_box(&mut v);
    file_type_box(&mut v);
    header_box(
        &mut v,
        &[
            (b"ihdr", ihdr_payload(8, 8, 1, 7)),
            (b"colr", colr_enumerated(17)),
        ],
    );
    push_box(&mut v, b"uinf", &[]);
    push_box(&mut v, b"ulst", &ulst);
    push_box(&mut v, b"url\x20", &url);
    let mut reader = ByteReader::new(v);
    let file = decode_jp2(&mut reader).unwrap();
    assert!(file.header_box().is_some());
    assert_eq!(file.uuid_info_boxes().len(), 1);
    let info = &file.uuid_info_boxes()[0];
    assert_eq!(info.uuid_list.len(), 1);
    assert_eq!(info.uuid_list[0].number_of_uuids, 1);
    assert_eq!(info.uuid_list[0].ids[0], vec![9u8; 16]);
    assert_eq!(info.data_entry_url_box.len(), 1);
    assert_eq!(info.data_entry_url_box[0].version, 0);
}

#[test]
fn test_truncated_image_header_reports_eof() {
    let mut v = Vec::new();
    signature_box(&mut v);
    file_type_box(&mut v);
    // An ihdr framed for 14 payload bytes, with only 4 present.
    push_u32(&mut v, 8 + 22);
    v.extend_from_slice(b"jp2h");
    push_u32(&mut v, 22);
    v.extend_from_slice(b"ihdr");
    push_u32(&mut v, 128);
    let mut reader = ByteReader::new(v);
    let err = decode_jp2(&mut reader).unwrap_err();
    assert!(matches!(err, JP2Error::UnexpectedEof { .. }));
}

#[test]
fn test_icc_profile_walk() {
    // A degenerate profile: 128 header bytes, two tags, the furthest
    // ending at byte 168, and four trailing bytes.
    let mut v = vec![0u8; 128];
    push_u32(&mut v, 2); // tag count
    push_u32(&mut v, 0x64657363); // first tag signature
    push_u32(&mut v, 156); // offset
    push_u32(&mut v, 8); // size
    push_u32(&mut v, 0x77747074); // second tag signature
    push_u32(&mut v, 164);
    push_u32(&mut v, 4);
    while v.len() < 172 {
        v.push(0xEE);
    }
    let mut reader = ByteReader::new(v);
    assert!(decode_icc(&mut reader).is_ok());
    assert_eq!(reader.position(), 172);
}

#[test]
fn test_icc_profile_truncated() {
    let v = vec![0u8; 64];
    let mut reader = ByteReader::new(v);
    assert!(decode_icc(&mut reader).is_err());
}

#[test]
fn test_reserved_colour_method_skipped() {
    // A reserved method means the whole box is ignored; the walk still
    // needs at least one usable colr, supplied second.
    let mut reserved = Vec::new();
    reserved.push(9); // reserved method
    reserved.push(0);
    reserved.push(0);
    reserved.extend_from_slice(&[0xDE, 0xAD]); // opaque payload
    let mut v = Vec::new();
    signature_box(&mut v);
    file_type_box(&mut v);
    header_box(
        &mut v,
        &[
            (b"ihdr", ihdr_payload(8, 8, 1, 7)),
            (b"colr", reserved),
            (b"colr", colr_enumerated(17)),
        ],
    );
    push_box(&mut v, b"jp2c", &[]);
    let mut reader = ByteReader::new(v);
    let file = decode_jp2(&mut reader).unwrap();
    let header = file.header_box().as_ref().unwrap();
    assert_eq!(header.colour_specification_boxes.len(), 2);
    assert!(matches!(
        header.colour_specification_boxes[0].method(),
        ColourSpecificationMethods::Reserved { value: 9 }
    ));
    assert_eq!(
        header.colour_specification_boxes[1].method(),
        ColourSpecificationMethods::EnumeratedColourSpace
    );
}


#[test]
fn test_palette_with_padded_depths() {
    // A 10-bit component's values take two bytes each; an 8-bit one
    // takes one. Entry-major order interleaves them: two bytes, one
    // byte, per entry.
    let mut pclr = Vec::new();
    push_u16(&mut pclr, 2); // entries
    pclr.push(2); // two generated components
    pclr.push(9); // depth 10, unsigned: two bytes per value
    pclr.push(7); // depth 8, unsigned: one byte per value
    pclr.extend_from_slice(&[0x01, 0x23, 0xAA]); // entry 0
    pclr.extend_from_slice(&[0x02, 0x46, 0xBB]); // entry 1
    let mut cmap = Vec::new();
    for col in 0..2u8 {
        push_u16(&mut cmap, 0);
        cmap.push(2);
        cmap.push(col);
    }
    let mut v = Vec::new();
    signature_box(&mut v);
    file_type_box(&mut v);
    header_box(
        &mut v,
        &[
            (b"ihdr", ihdr_payload(8, 8, 1, 7)),
            (b"colr", colr_enumerated(17)),
            (b"pclr", pclr),
            (b"cmap", cmap),
        ],
    );
    push_box(&mut v, b"jp2c", &[]);
    let mut reader = ByteReader::new(v);
    let file = decode_jp2(&mut reader).unwrap();
    let header = file.header_box().as_ref().unwrap();
    let palette = header.palette_box.as_ref().unwrap();
    assert_eq!(palette.num_entries(), 2);
    assert_eq!(palette.num_components(), 2);
    let wide = &palette.generated_components()[0];
    assert_eq!(wide.bit_depth(), BitDepth::Unsigned { value: 10 });
    assert_eq!(wide.values(), &vec![0x01, 0x23, 0x02, 0x46]);
    let narrow = &palette.generated_components()[1];
    assert_eq!(narrow.bit_depth(), BitDepth::Unsigned { value: 8 });
    assert_eq!(narrow.values(), &vec![0xAA, 0xBB]);
}


#[test]
fn test_missing_header_super_box_rejected() {
    // A file whose top level never presents a jp2h box is incomplete.
    let mut v = Vec::new();
    signature_box(&mut v);
    file_type_box(&mut v);
    push_box(&mut v, b"xml\x20", b"<x/>");
    let mut reader = ByteReader::new(v);
    let err = decode_jp2(&mut reader).unwrap_err();
    assert!(matches!(err, JP2Error::BoxMissing { .. }));
}
