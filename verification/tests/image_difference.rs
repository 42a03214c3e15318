use golden_compare::image::{
    calc_difference, calculate_difference_data, calculate_max_difference, calculate_outliers,
    RgbaImage,
};

fn image(width: u32, height: u32, data: Vec<u8>) -> RgbaImage {
    RgbaImage::from_raw(width, height, data).expect("buffer of the right size")
}

fn difference(actual: &RgbaImage, expected: &RgbaImage) -> (Vec<u8>, bool) {
    let mut alpha = false;
    let data = calculate_difference_data(actual, expected, &mut alpha);
    (data, alpha)
}

#[test]
fn channel_difference_is_absolute() {
    assert_eq!(calc_difference(10, 3), 7);
    assert_eq!(calc_difference(3, 10), 7);
    assert_eq!(calc_difference(0, 255), 255);
    assert_eq!(calc_difference(255, 0), 255);
    assert_eq!(calc_difference(9, 9), 0);
}

#[test]
fn from_raw_wants_the_exact_size() {
    assert!(RgbaImage::from_raw(1, 1, vec![0; 4]).is_some());
    assert!(RgbaImage::from_raw(2, 3, vec![0; 24]).is_some());
    assert!(RgbaImage::from_raw(2, 3, vec![0; 23]).is_none());
    assert!(RgbaImage::from_raw(2, 3, vec![0; 25]).is_none());
    assert!(RgbaImage::from_raw(0, 7, Vec::new()).is_some());
    assert!(RgbaImage::from_raw(0, 7, vec![0; 4]).is_none());
    assert!(RgbaImage::from_raw(u32::MAX, u32::MAX, vec![0; 4]).is_none());
    let built = image(2, 1, vec![1, 2, 3, 4, 5, 6, 7, 8]);
    assert_eq!(built.width(), 2);
    assert_eq!(built.height(), 1);
    assert_eq!(built.as_raw(), &vec![1, 2, 3, 4, 5, 6, 7, 8]);
}

#[test]
fn difference_is_per_channel() {
    let actual = image(2, 1, vec![10, 20, 30, 40, 0, 0, 0, 255]);
    let expected = image(2, 1, vec![13, 15, 30, 40, 255, 1, 0, 255]);
    let (data, alpha) = difference(&actual, &expected);
    assert_eq!(data, vec![3, 5, 0, 0, 255, 1, 0, 0]);
    assert!(!alpha);
}

#[test]
fn alpha_flag_is_raised_by_any_alpha_difference() {
    let actual = image(2, 1, vec![1, 1, 1, 1, 2, 2, 2, 2]);
    let expected = image(2, 1, vec![1, 1, 1, 1, 2, 2, 2, 3]);
    let (data, alpha) = difference(&actual, &expected);
    assert_eq!(data, vec![0, 0, 0, 0, 0, 0, 0, 1]);
    assert!(alpha);
}

#[test]
fn alpha_flag_is_never_lowered() {
    let same = image(1, 1, vec![1, 2, 3, 4]);
    let mut alpha = true;
    let data = calculate_difference_data(&same, &same, &mut alpha);
    assert_eq!(data, vec![0, 0, 0, 0]);
    assert!(alpha);
}

#[test]
fn difference_with_itself_is_zero() {
    let picture = image(2, 2, (0..16).map(|i| (i * 17) as u8).collect());
    let (data, alpha) = difference(&picture, &picture);
    assert_eq!(data, vec![0; 16]);
    assert!(!alpha);
    for tolerance in [0u8, 1, 7, 255] {
        assert_eq!(calculate_outliers(&data, tolerance), 0);
    }
    assert_eq!(calculate_max_difference(&data), 0);
}

#[test]
fn difference_is_symmetric() {
    let a = image(2, 1, vec![0, 50, 100, 150, 200, 250, 3, 9]);
    let b = image(2, 1, vec![255, 40, 100, 151, 0, 0, 4, 9]);
    assert_eq!(difference(&a, &b), difference(&b, &a));
    assert_eq!(difference(&a, &b).0, vec![255, 10, 0, 1, 200, 250, 1, 0]);
    assert!(difference(&a, &b).1);
}

#[test]
fn difference_covers_the_common_pixels_only() {
    let short = RgbaImage { width: 1, height: 1, data: vec![1, 2, 3, 4, 5, 6] };
    let long = RgbaImage { width: 3, height: 1, data: vec![2, 2, 2, 2, 9, 9, 9, 9, 1, 1, 1, 1] };
    assert_eq!(difference(&short, &long), (vec![1, 0, 1, 2], true));
    assert_eq!(difference(&long, &short), (vec![1, 0, 1, 2], true));
    let empty = RgbaImage { width: 0, height: 0, data: Vec::new() };
    assert_eq!(difference(&empty, &long), (Vec::new(), false));
}

#[test]
fn outliers_count_every_channel_by_itself() {
    let data = vec![6, 6, 6, 6, 5, 6, 0, 255];
    assert_eq!(calculate_outliers(&data, 5), 6);
    assert_eq!(calculate_outliers(&data, 6), 1);
    assert_eq!(calculate_outliers(&data, 0), 7);
    assert_eq!(calculate_outliers(&data, 255), 0);
}

#[test]
fn outliers_are_strictly_above_the_tolerance() {
    assert_eq!(calculate_outliers(&[5, 5, 5, 5], 5), 0);
    assert_eq!(calculate_outliers(&[5, 5, 5, 5], 4), 4);
}

#[test]
fn outliers_ignore_an_incomplete_pixel() {
    assert_eq!(calculate_outliers(&[9, 9, 9, 9, 9, 9], 0), 4);
    assert_eq!(calculate_outliers(&[9, 9, 9], 0), 0);
    assert_eq!(calculate_outliers(&[], 0), 0);
}

#[test]
fn max_difference_is_the_largest_sample() {
    assert_eq!(calculate_max_difference(&[0, 0, 0, 0]), 0);
    assert_eq!(calculate_max_difference(&[1, 9, 3, 2, 0, 8, 200, 4]), 200);
    assert_eq!(calculate_max_difference(&[255, 0, 0, 0]), 255);
    assert_eq!(calculate_max_difference(&[1, 2, 3, 4, 99, 99]), 4);
}

#[test]
fn blue_channel_difference_of_ten() {
    let expected = image(2, 2, vec![100; 16]);
    let mut changed = vec![100; 16];
    changed[6] = 110;
    let actual = image(2, 2, changed);
    let (data, alpha) = difference(&actual, &expected);
    assert!(!alpha);
    assert_eq!(calculate_outliers(&data, 5), 1);
    assert_eq!(calculate_outliers(&data, 15), 0);
    assert_eq!(calculate_max_difference(&data), 10);
}
