use pixel_audio::frequency::{
    byte_segment_frequency, clamp_change_index, frequency_at, lookback_segment_frequency,
    pixel_product_sum, precompute_frequencies,
};

fn three_pixels() -> Vec<Vec<u8>> {
    vec![vec![1, 2, 3], vec![4, 5, 6], vec![7, 8, 9]]
}

#[test]
fn product_sum_of_equal_lengths() {
    assert_eq!(pixel_product_sum(&vec![1, 2, 3], &vec![4, 5, 6]), 32);
}

#[test]
fn product_sum_stops_at_shorter_pixel() {
    assert_eq!(pixel_product_sum(&vec![1, 2, 3], &vec![4, 5]), 14);
    assert_eq!(pixel_product_sum(&vec![4, 5], &vec![1, 2, 3]), 14);
    assert_eq!(pixel_product_sum(&vec![], &vec![9, 9]), 0);
}

#[test]
fn product_sum_of_brightest_pixels() {
    let white = vec![255u8, 255, 255, 255];
    assert_eq!(pixel_product_sum(&white, &white), 4 * 65025);
}

#[test]
fn table_pairs_neighbours_and_wraps_around() {
    assert_eq!(precompute_frequencies(&three_pixels()), vec![32, 122, 50]);
}

#[test]
fn table_of_a_single_pixel_pairs_it_with_itself() {
    assert_eq!(precompute_frequencies(&vec![vec![2, 3]]), vec![13]);
}

#[test]
fn lookback_pairs_with_previous_pixel() {
    let c = three_pixels();
    assert_eq!(lookback_segment_frequency(&c, 0), 50);
    assert_eq!(lookback_segment_frequency(&c, 1), 32);
    assert_eq!(lookback_segment_frequency(&c, 2), 122);
}

#[test]
fn table_is_lookback_moved_back_one_segment() {
    let c = vec![vec![10, 0, 7], vec![3, 200], vec![0, 1, 2, 3], vec![9, 9, 9]];
    let table = precompute_frequencies(&c);
    for k in 0..c.len() {
        assert_eq!(table[k], lookback_segment_frequency(&c, (k + 1) % c.len()));
    }
}

#[test]
fn byte_frequency_of_first_segment_is_silent() {
    assert_eq!(byte_segment_frequency(&three_pixels(), 0), 0);
}

#[test]
fn byte_frequency_pairs_with_previous_pixel() {
    assert_eq!(byte_segment_frequency(&three_pixels(), 1), 32);
    assert_eq!(byte_segment_frequency(&three_pixels(), 2), 122);
}

#[test]
fn clamp_keeps_indices_in_range() {
    assert_eq!(clamp_change_index(1, 3), 1);
    assert_eq!(clamp_change_index(3, 3), 2);
    assert_eq!(clamp_change_index(50, 3), 2);
    assert_eq!(clamp_change_index(0, 1), 0);
}

#[test]
fn frequency_at_reads_clamped_table_entry() {
    let table = vec![32u128, 122, 50];
    assert_eq!(frequency_at(&table, 0), 32);
    assert_eq!(frequency_at(&table, 2), 50);
    assert_eq!(frequency_at(&table, 7), 50);
}
