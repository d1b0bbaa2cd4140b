use jpeg2000::coder::{qe_table, MqDecoder, MqEncoder};
use std::collections::hash_map::DefaultHasher;
use std::hash::{Hash, Hasher};

#[test]
fn test_qe_table_integrity() {
    let table = qe_table();

    // Verify table has correct number of entries
    assert_eq!(table.len(), 47);

    // Check some known values from Table C.2
    assert_eq!(table[0].qe, 0x5601);
    assert_eq!(table[0].nmps, 1);
    assert_eq!(table[0].nlps, 1);
    assert_eq!(table[0].switch, true);

    assert_eq!(table[46].qe, 0x5601);
    assert_eq!(table[46].nmps, 46);
    assert_eq!(table[46].nlps, 46);
    assert_eq!(table[46].switch, false);
}

#[test]
fn test_encode_decode_simple() {
    // Test encoding and decoding simple bit sequences
    let num_contexts = 1;
    let mut encoder = MqEncoder::new(num_contexts);
    encoder.init();

    // Encode a simple sequence
    let bits = vec![0, 1, 0, 1, 1, 0, 0, 1];
    for &bit in &bits {
        encoder.encode(0, bit);
    }

    let compressed = encoder.flush();
    println!(
        "Compressed {} bits to {} bytes",
        bits.len(),
        compressed.len()
    );

    // Decode
    let mut decoder = MqDecoder::new(num_contexts);
    decoder.init(&compressed);

    let mut decoded = Vec::new();
    for _ in 0..bits.len() {
        decoded.push(decoder.decode(0));
    }

    assert_eq!(bits, decoded, "Decoded bits should match original");
}

#[test]
fn test_encode_decode_all_zeros() {
    let num_contexts = 1;
    let mut encoder = MqEncoder::new(num_contexts);
    encoder.init();

    // Encode all zeros
    let bits = vec![0; 100];
    for &bit in &bits {
        encoder.encode(0, bit);
    }

    let compressed = encoder.flush();
    println!("Compressed 100 zeros to {} bytes", compressed.len());

    // Decode
    let mut decoder = MqDecoder::new(num_contexts);
    decoder.init(&compressed);

    let mut decoded = Vec::new();
    for _ in 0..bits.len() {
        decoded.push(decoder.decode(0));
    }

    assert_eq!(bits, decoded);
}

#[test]
fn test_encode_decode_all_ones() {
    let num_contexts = 1;
    let mut encoder = MqEncoder::new(num_contexts);
    encoder.init();

    // Encode all ones
    let bits = vec![1; 100];
    for &bit in &bits {
        encoder.encode(0, bit);
    }

    let compressed = encoder.flush();
    println!("Compressed 100 ones to {} bytes", compressed.len());

    // Decode
    let mut decoder = MqDecoder::new(num_contexts);
    decoder.init(&compressed);

    let mut decoded = Vec::new();
    for _ in 0..bits.len() {
        decoded.push(decoder.decode(0));
    }

    assert_eq!(bits, decoded);
}

#[test]
fn test_encode_decode_alternating() {
    let num_contexts = 1;
    let mut encoder = MqEncoder::new(num_contexts);
    encoder.init();

    // Encode alternating pattern
    let mut bits = Vec::new();
    for i in 0..50 {
        bits.push((i % 2) as u8);
    }

    for &bit in &bits {
        encoder.encode(0, bit);
    }

    let compressed = encoder.flush();
    println!(
        "Compressed 50 alternating bits to {} bytes",
        compressed.len()
    );

    // Decode
    let mut decoder = MqDecoder::new(num_contexts);
    decoder.init(&compressed);

    let mut decoded = Vec::new();
    for _ in 0..bits.len() {
        decoded.push(decoder.decode(0));
    }

    assert_eq!(bits, decoded);
}

#[test]
fn test_multiple_contexts() {
    // Test with multiple independent contexts
    let num_contexts = 4;
    let mut encoder = MqEncoder::new(num_contexts);
    encoder.init();

    // Encode different patterns in different contexts
    let sequences = vec![
        vec![0, 0, 0, 1, 0, 0, 0, 1], // Context 0: mostly zeros
        vec![1, 1, 1, 0, 1, 1, 1, 0], // Context 1: mostly ones
        vec![0, 1, 0, 1, 0, 1, 0, 1], // Context 2: alternating
        vec![0, 0, 1, 1, 0, 0, 1, 1], // Context 3: pairs
    ];

    // Interleave encoding from different contexts
    for i in 0..8 {
        for (cx, seq) in sequences.iter().enumerate() {
            encoder.encode(cx, seq[i]);
        }
    }

    let compressed = encoder.flush();
    println!(
        "Compressed {} bits with 4 contexts to {} bytes",
        sequences.len() * 8,
        compressed.len()
    );

    // Decode
    let mut decoder = MqDecoder::new(num_contexts);
    decoder.init(&compressed);

    let mut decoded_sequences = vec![Vec::new(); 4];
    for _ in 0..8 {
        for cx in 0..4 {
            decoded_sequences[cx].push(decoder.decode(cx));
        }
    }

    for (cx, (original, decoded)) in sequences.iter().zip(decoded_sequences.iter()).enumerate() {
        assert_eq!(original, decoded, "Context {} mismatch", cx);
    }
}

#[test]
fn test_random_data() {
    // Generate pseudo-random data for testing
    let num_contexts = 2;
    let mut encoder = MqEncoder::new(num_contexts);
    encoder.init();

    let mut bits = Vec::new();
    let mut hasher = DefaultHasher::new();

    for i in 0..200 {
        i.hash(&mut hasher);
        let hash = hasher.finish();
        bits.push((hash & 1) as u8);

        // Use hash to select context too
        let cx = ((hash >> 1) & 1) as usize;
        encoder.encode(cx, bits[i]);
    }

    let compressed = encoder.flush();
    println!(
        "Compressed 200 pseudo-random bits to {} bytes",
        compressed.len()
    );

    // Decode
    let mut decoder = MqDecoder::new(num_contexts);
    decoder.init(&compressed);

    let mut decoded = Vec::new();
    let mut hasher2 = DefaultHasher::new();
    for i in 0..200 {
        // usize is important because previous loop used usize.
        // different types => different hash
        (i as usize).hash(&mut hasher2);
        let hash = hasher2.finish();
        let cx = ((hash >> 1) & 1) as usize;
        decoded.push(decoder.decode(cx));
    }

    assert_eq!(bits, decoded);
}

#[test]
fn test_compression_efficiency() {
    // Test that highly biased data compresses well
    let num_contexts = 1;
    let mut encoder = MqEncoder::new(num_contexts);
    encoder.init();

    // 95% zeros, 5% ones
    let mut bits = Vec::new();
    for i in 0..200 {
        bits.push(if i % 20 == 0 { 1u8 } else { 0u8 });
    }

    for &bit in &bits {
        encoder.encode(0, bit);
    }

    let compressed = encoder.flush();

    // Should achieve good compression (well below 200 bits = 25 bytes)
    println!(
        "Compressed 200 biased bits to {} bytes ({}% of original)",
        compressed.len(),
        (compressed.len() * 100) / 25
    );
    assert!(
        compressed.len() < 15,
        "Highly biased data should compress well"
    );
}

#[test]
fn test_empty_sequence() {
    let num_contexts = 1;
    let mut encoder = MqEncoder::new(num_contexts);
    encoder.init();

    let compressed = encoder.flush();
    println!("Empty sequence compressed to {} bytes", compressed.len());

    // Should still be able to decode (returns whatever the MPS is)
    let mut decoder = MqDecoder::new(num_contexts);
    decoder.init(&compressed);

    // Decoding from empty data should not crash
    let _ = decoder.decode(0);
}

#[test]
fn test_encode_j10() {
    let j10_4 = b"\x01\x8F\x0D\xC8\x75\x5D";
    let mut encoder = MqEncoder::new(19);
    encoder.reset_contexts();
    encoder.init();

    let context_indexes = vec![
        17, 18, 18, 9, 3, 3, 10, 3, 10, 15, 0, 9, 4, 10, 15, 15, 15, 16, 15, 16, 16, 16, 16, 16,
        16, 16, 16, 16, 16, 16, 16, 16, 16, 16,
    ];

    let exp_bits = [
        1, 1, 1, 1, 0, 1, 0, 1, 0, 0, 1, 1, 1, 0, 1, 0, 1, 0, 0, 0, 1, 1, 0, 0, 1, 1, 1, 0, 1, 0,
        0, 0, 0, 1,
    ];
    println!(
        "Length of ctx {} and exp {}",
        context_indexes.len(),
        exp_bits.len()
    );
    for (idx, bit) in context_indexes.iter().zip(exp_bits.iter()) {
        let ctx = *idx;
        let bit = *bit;
        encoder.encode(ctx, bit);
    }
    // Two trailing decisions bring the reference bytes out of the
    // registers.
    encoder.encode(0, 1);
    encoder.encode(0, 1);
    let encoded = encoder.flush();
    println!("encoded : {:02X?}", encoded);
    println!("expected: {:02X?}", j10_4);
    assert_eq!(encoded, j10_4);
}

#[test]
fn test_decode_j10() {
    let j10_4 = b"\x01\x8F\x0D\xC8\x75\x5D";
    let mut decoder = MqDecoder::new(19);
    decoder.reset_contexts();
    decoder.init(j10_4);

    let context_indexes = vec![
        17, 18, 18, 9, 3, 3, 10, 3, 10, 15, 0, 9, 4, 10, 15, 15, 15, 16, 15, 16, 16, 16, 16, 16,
        16, 16, 16, 16, 16, 16, 16, 16, 16, 16,
    ];
    let exp_bits = vec![
        1, 1, 1, 1, 0, 1, 0, 1, 0, 0, 1, 1, 1, 0, 1, 0, 1, 0, 0, 0, 1, 1, 0, 0, 1, 1, 1, 0, 1, 0,
        0, 0, 0, 1,
    ];

    let mut decoded = Vec::new();
    println!(
        "Length of ctx {} and exp {}",
        context_indexes.len(),
        exp_bits.len()
    );
    for idx in context_indexes.iter() {
        let ctx = *idx;
        let dc = decoder.decode(ctx);
        println!("working from ctx {} -> {}", ctx, dc);
        decoded.push(dc);
    }
    assert_eq!(exp_bits, decoded);
}

#[test]
fn test_decode_j10_2() {
    let exp_bits = vec![1, 0, 1, 0, 0, 0, 0, 0, 0, 0, 1, 0, 1, 0, 0, 1];
    let j10_4 = b"\x0F\xB1\x76";
    let mut decoder = MqDecoder::new(19);
    decoder.reset_contexts();
    decoder.init(j10_4);
    let context_indexes = [17, 18, 18, 9, 3, 0, 3, 3, 14, 0, 3, 10, 3, 10, 3, 16];
    let mut decoded = Vec::new();
    for ctx in context_indexes.iter() {
        decoded.push(decoder.decode(*ctx));
    }
    assert_eq!(exp_bits, decoded);
}

#[test]
fn test_reset_contexts_initial_rows() {
    // The three special contexts move to their standard initial rows,
    // all others to row 0 with the more probable symbol 0.
    let mut encoder = MqEncoder::new(19);
    encoder.reset_contexts();
    for i in 0..19 {
        assert_eq!(encoder.contexts[i].mps, 0);
        let expected = match i {
            18 => 46,
            17 => 3,
            0 => 4,
            _ => 0,
        };
        assert_eq!(encoder.contexts[i].index, expected);
    }
    let mut decoder = MqDecoder::new(19);
    decoder.reset_contexts();
    for i in 0..19 {
        assert_eq!(decoder.contexts[i].mps, 0);
        assert_eq!(decoder.contexts[i].index, encoder.contexts[i].index);
    }
}
