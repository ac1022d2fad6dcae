use pixel_audio::pixels::split_pixels;

#[test]
fn rgb_bytes_make_three_channel_pixels() {
    let raw: Vec<u8> = vec![1, 2, 3, 4, 5, 6];
    assert_eq!(split_pixels(&raw, 3), vec![vec![1, 2, 3], vec![4, 5, 6]]);
}

#[test]
fn rgba_bytes_make_four_channel_pixels() {
    let raw: Vec<u8> = vec![1, 2, 3, 4, 5, 6, 7, 8];
    assert_eq!(split_pixels(&raw, 4), vec![vec![1, 2, 3, 4], vec![5, 6, 7, 8]]);
}

#[test]
fn trailing_bytes_are_dropped() {
    let raw: Vec<u8> = vec![1, 2, 3, 4, 5, 6, 7];
    assert_eq!(split_pixels(&raw, 3), vec![vec![1, 2, 3], vec![4, 5, 6]]);
    assert_eq!(split_pixels(&vec![9, 9], 3), Vec::<Vec<u8>>::new());
}

#[test]
fn no_bytes_make_no_pixels() {
    assert!(split_pixels(&vec![], 4).is_empty());
}
