use popsigner::bech32_encode;

#[test]
fn test_bech32_encode() {
    let result = bech32_encode("celestia", &[0u8; 20]).unwrap();
    assert!(result.starts_with("celestia1"));
}

#[test]
fn test_bech32_fixed_vector_twenty_zero_bytes() {
    let result = bech32_encode("celestia", &[0u8; 20]).unwrap();
    assert_eq!(result, "celestia1qqqqqqqqqqqqqqqqqqqqqqqqqqqqqqqqzf30as");
    assert_eq!(result.len(), 47);
}

#[test]
fn test_bech32_empty_data_is_legal() {
    let result = bech32_encode("celestia", &[]).unwrap();
    assert_eq!(result, "celestia17k5ugq");
}

#[test]
fn test_bech32_short_prefix() {
    let result = bech32_encode("bc", b"abc").unwrap();
    assert_eq!(result, "bc1v93xxnyya2r");
}

#[test]
fn test_bech32_reference_decoder_accepts_all_lengths() {
    // Every length from 0 to 64 bytes must round-trip through a reference
    // decoder, recovering the prefix and the data exactly.
    for len in 0..=64usize {
        let data: Vec<u8> = (0..len).map(|i| (i * 37 + len) as u8).collect();
        let encoded = bech32_encode("celestia", &data).unwrap();
        let (hrp, decoded) = bech32::decode(&encoded).expect("reference decoder rejected output");
        assert_eq!(hrp.to_lowercase(), "celestia");
        assert_eq!(decoded, data);
    }
}

#[test]
fn test_bech32_reference_decoder_other_prefixes() {
    for prefix in ["bc", "tb", "a", "an83characterlonghumanreadablepart"] {
        let data = [7u8, 200, 13, 44, 91];
        let encoded = bech32_encode(prefix, &data).unwrap();
        let (hrp, decoded) = bech32::decode(&encoded).expect("reference decoder rejected output");
        assert_eq!(hrp.to_lowercase(), prefix);
        assert_eq!(decoded, data);
    }
}

#[test]
fn test_expand_hrp_layout() {
    // High 3 bits of each character, a zero separator, low 5 bits of each.
    let expanded = popsigner::expand_hrp("bc");
    assert_eq!(expanded, vec![3u8, 3, 0, 2, 3]);
}

#[test]
fn test_polymod_of_empty_is_one() {
    assert_eq!(popsigner::bech32_polymod(&[]), 1);
}
