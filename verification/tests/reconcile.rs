use combiner::dimensions::get_smallest_dimension;

#[test]
fn picks_strictly_smaller_area() {
    assert_eq!(get_smallest_dimension((2, 2), (10, 10)), (2, 2));
    assert_eq!(get_smallest_dimension((10, 10), (2, 2)), (2, 2));
    assert_eq!(get_smallest_dimension((1, 100), (20, 20)), (1, 100));
}

#[test]
fn tie_goes_to_second_argument() {
    assert_eq!(get_smallest_dimension((2, 3), (3, 2)), (3, 2));
    assert_eq!(get_smallest_dimension((3, 2), (2, 3)), (2, 3));
    assert_eq!(get_smallest_dimension((4, 4), (4, 4)), (4, 4));
}

#[test]
fn large_dimensions_do_not_overflow() {
    let big = (u32::MAX, u32::MAX);
    let small = (1, 1);
    assert_eq!(get_smallest_dimension(big, small), small);
    assert_eq!(get_smallest_dimension(small, big), small);
}
