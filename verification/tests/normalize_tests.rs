use live_transcript::normalize::normalize_i16_block;
use live_transcript::normalize::normalize_u16_block;
use live_transcript::normalize::stereo_to_mono;

#[test]
fn even_length_halves_the_length() {
    let input: Vec<i16> = vec![100, 200, 300, 400, 500, 600];
    let mono = stereo_to_mono(&input);
    assert_eq!(mono.len(), 3);
}

#[test]
fn odd_length_drops_trailing_sample() {
    let input: Vec<i16> = vec![10, 20, 30];
    let mono = stereo_to_mono(&input);
    assert_eq!(mono, vec![15]);
}

#[test]
fn empty_input_gives_empty_output() {
    let input: Vec<i16> = vec![];
    let mono = stereo_to_mono(&input);
    assert!(mono.is_empty());
}

#[test]
fn formula_truncates_each_operand_before_summing() {
    // 3 / 2 truncates to 1 per operand: the pair (3, 3) gives 2, not 3.
    let mono = stereo_to_mono(&[3, 3]);
    assert_eq!(mono, vec![2]);
}

#[test]
fn negative_operands_truncate_toward_zero() {
    assert_eq!(stereo_to_mono(&[-3, -3]), vec![-2]);
    assert_eq!(stereo_to_mono(&[-3, 3]), vec![0]);
    assert_eq!(stereo_to_mono(&[7, -7]), vec![0]);
}

#[test]
fn extreme_samples_stay_in_range() {
    assert_eq!(stereo_to_mono(&[i16::MIN, i16::MIN]), vec![i16::MIN]);
    assert_eq!(stereo_to_mono(&[i16::MAX, i16::MAX]), vec![32766]);
}

#[test]
fn end_to_end_stereo_block() {
    let block: Vec<i16> = vec![2, 4, 2, 4, 2, 4, 2, 4];
    let normalized = normalize_i16_block(&block, 2);
    assert_eq!(normalized, vec![3, 3, 3, 3]);
}

#[test]
fn single_channel_block_passes_through() {
    let block: Vec<i16> = vec![2, 4, 2, 4];
    let normalized = normalize_i16_block(&block, 1);
    assert_eq!(normalized, block);
}

#[test]
fn unsigned_samples_are_rescaled_to_signed() {
    let block: Vec<u16> = vec![0, 65535, 32768];
    let normalized = normalize_u16_block(&block, 1);
    assert_eq!(normalized, vec![-32768, 32767, 0]);
}

#[test]
fn unsigned_stereo_block_is_rescaled_then_downmixed() {
    // 32770 maps to 2 and 32772 to 4; the pair downmixes to 1 + 2 == 3.
    let block: Vec<u16> = vec![32770, 32772];
    let normalized = normalize_u16_block(&block, 2);
    assert_eq!(normalized, vec![3]);
}
