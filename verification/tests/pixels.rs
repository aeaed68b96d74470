use combiner::interleave::{replace_rgba, swap_pixels};

#[test]
fn swap_pixels_preserves_length() {
    let a = vec![0u8; 24];
    let b = vec![255u8; 24];
    let r = swap_pixels(a, b);
    assert_eq!(r.len(), 24);
}

#[test]
fn swap_pixels_alternates_sources_by_flat_offset() {
    let a: Vec<u8> = (0u8..16).collect();
    let b: Vec<u8> = (100u8..116).collect();
    let r = swap_pixels(a.clone(), b.clone());
    assert_eq!(&r[0..4], &a[0..4]);
    assert_eq!(&r[4..8], &b[4..8]);
    assert_eq!(&r[8..12], &a[8..12]);
    assert_eq!(&r[12..16], &b[12..16]);
}

#[test]
fn swap_pixels_red_blue_two_by_two() {
    let red = [255u8, 0, 0, 255];
    let blue = [0u8, 0, 255, 255];
    let a: Vec<u8> = red.iter().cycle().take(16).copied().collect();
    let b: Vec<u8> = blue.iter().cycle().take(16).copied().collect();
    let r = swap_pixels(a, b);
    assert_eq!(&r[0..4], &red);
    assert_eq!(&r[4..8], &blue);
    assert_eq!(&r[8..12], &red);
    assert_eq!(&r[12..16], &blue);
}

#[test]
fn swap_pixels_length_not_multiple_of_eight() {
    let a = vec![1u8; 12];
    let b = vec![2u8; 12];
    let r = swap_pixels(a, b);
    assert_eq!(r, vec![1, 1, 1, 1, 2, 2, 2, 2, 1, 1, 1, 1]);
}

#[test]
fn swap_pixels_empty() {
    let r = swap_pixels(Vec::new(), Vec::new());
    assert!(r.is_empty());
}

#[test]
fn replace_rgba_copies_inclusive_range() {
    let v = vec![5u8, 6, 7, 8, 9, 10];
    assert_eq!(replace_rgba(&v, 1, 4), vec![6, 7, 8, 9]);
    assert_eq!(replace_rgba(&v, 0, 0), vec![5]);
    assert_eq!(replace_rgba(&v, 5, 5), vec![10]);
}

#[test]
fn replace_rgba_empty_range_yields_empty_buffer() {
    let v = vec![5u8, 6, 7];
    assert!(replace_rgba(&v, 2, 1).is_empty());
    assert!(replace_rgba(&v, 10, 0).is_empty());
}
