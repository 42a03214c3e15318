//! The image difference engine: per-channel differences between two RGBA pixel
//! buffers, the number of samples over a tolerance, and the largest difference.
//!
//! Buffers are row-major with four bytes per pixel (red, green, blue, alpha).
//! The functions work on complete pixels only: bytes after the last complete
//! group of four are ignored, and two buffers are compared over the pixels that
//! both of them hold.

use vstd::prelude::*;

verus! {

/// An image of 8-bit RGBA pixels, held as its dimensions and its raw bytes.
pub struct RgbaImage {
    pub width: u32,
    pub height: u32,
    pub data: Vec<u8>,
}

impl RgbaImage {
    /// The buffer holds exactly `width * height` pixels.
    pub open spec fn wf(&self) -> bool {
        self.data@.len() == byte_len(self.width, self.height)
    }

    /// Builds an image from its dimensions and raw bytes, if the buffer has
    /// exactly the size that the dimensions call for.
    pub fn from_raw(width: u32, height: u32, data: Vec<u8>) -> (image: Option<RgbaImage>)
        ensures
            image is Some <==> data@.len() == byte_len(width, height),
            image matches Some(img) ==> img.width == width && img.height == height && img.data
                == data && img.wf(),
    {
        assert(0 <= (width as int) * (height as int) <= 0xffff_ffff * 0xffff_ffff)
            by (nonlinear_arith)
            requires
                0 <= width <= 0xffff_ffff,
                0 <= height <= 0xffff_ffff,
        ;
        let pixels: u64 = (width as u64) * (height as u64);
        let len: u64 = data.len() as u64;
        if len % 4 == 0 && len / 4 == pixels {
            Some(RgbaImage { width, height, data })
        } else {
            None
        }
    }

    pub fn width(&self) -> (w: u32)
        ensures
            w == self.width,
    {
        self.width
    }

    pub fn height(&self) -> (h: u32)
        ensures
            h == self.height,
    {
        self.height
    }

    /// The raw bytes, four per pixel.
    pub fn as_raw(&self) -> (raw: &Vec<u8>)
        ensures
            raw == &self.data,
    {
        &self.data
    }
}

/// Number of bytes of an image of the given dimensions.
pub open spec fn byte_len(width: u32, height: u32) -> int {
    4 * ((width as int) * (height as int))
}

/// Absolute difference of two channel samples, as a mathematical integer.
pub open spec fn abs_diff(lhs: u8, rhs: u8) -> int {
    if lhs >= rhs {
        lhs - rhs
    } else {
        rhs - lhs
    }
}

/// Number of complete pixels that both buffers hold.
pub open spec fn common_pixels(actual: Seq<u8>, expected: Seq<u8>) -> int {
    if actual.len() / 4 <= expected.len() / 4 {
        actual.len() as int / 4
    } else {
        expected.len() as int / 4
    }
}

/// The difference buffer of two images: for every sample of every pixel that
/// both hold, the absolute difference of the expected and the actual sample.
pub open spec fn difference(actual: Seq<u8>, expected: Seq<u8>) -> Seq<u8> {
    Seq::new(
        (4 * common_pixels(actual, expected)) as nat,
        |i: int| abs_diff(expected[i], actual[i]) as u8,
    )
}

/// Whether the alpha samples of some common pixel differ at all.
pub open spec fn alpha_differs(actual: Seq<u8>, expected: Seq<u8>) -> bool {
    exists|p: int|
        0 <= p < common_pixels(actual, expected) && #[trigger] actual[4 * p + 3] != expected[4 * p
            + 3]
}

/// Number of samples of `samples` that strictly exceed `tolerance`.
pub open spec fn count_above(samples: Seq<u8>, tolerance: u8) -> nat
    decreases samples.len(),
{
    if samples.len() == 0 {
        0
    } else {
        count_above(samples.drop_last(), tolerance) + if samples.last() > tolerance {
            1nat
        } else {
            0nat
        }
    }
}

/// The samples of the complete pixels of a buffer.
pub open spec fn whole_pixels(buffer: Seq<u8>) -> Seq<u8> {
    buffer.take(4 * (buffer.len() as int / 4))
}

/// Number of outliers of a difference buffer: the samples, over all pixels and
/// all four channels, that strictly exceed `tolerance`.
pub open spec fn outliers(difference_data: Seq<u8>, tolerance: u8) -> nat {
    count_above(whole_pixels(difference_data), tolerance)
}

/// Largest sample of `samples`; 0 for the empty sequence.
pub open spec fn largest(samples: Seq<u8>) -> u8
    decreases samples.len(),
{
    if samples.len() == 0 {
        0
    } else if samples.last() >= largest(samples.drop_last()) {
        samples.last()
    } else {
        largest(samples.drop_last())
    }
}

/// Largest single-channel difference over the complete pixels of a buffer.
pub open spec fn max_difference(difference_data: Seq<u8>) -> u8 {
    largest(whole_pixels(difference_data))
}

/// Absolute difference of two channel samples.
pub fn calc_difference(lhs: u8, rhs: u8) -> (d: u8)
    ensures
        d == abs_diff(lhs, rhs),
{
    if lhs >= rhs {
        lhs - rhs
    } else {
        rhs - lhs
    }
}

/// Computes the difference buffer of two images and records in
/// `is_alpha_different` whether any alpha sample differs. The flag is only ever
/// raised: a flag that is already set stays set.
pub fn calculate_difference_data(
    actual_image: &RgbaImage,
    expected_image: &RgbaImage,
    is_alpha_different: &mut bool,
) -> (difference_data: Vec<u8>)
    ensures
        difference_data@ == difference(actual_image.data@, expected_image.data@),
        *final(is_alpha_different) == (*old(is_alpha_different) || alpha_differs(
            actual_image.data@,
            expected_image.data@,
        )),
{
    let actual: &Vec<u8> = &actual_image.data;
    let expected: &Vec<u8> = &expected_image.data;
    let actual_pixels: usize = actual.len() / 4;
    let expected_pixels: usize = expected.len() / 4;
    let pixels: usize = if actual_pixels <= expected_pixels {
        actual_pixels
    } else {
        expected_pixels
    };
    let mut difference_data: Vec<u8> = Vec::new();
    let mut p: usize = 0;
    while p < pixels
        invariant
            p <= pixels,
            pixels == common_pixels(actual@, expected@),
            4 * pixels <= actual@.len() <= usize::MAX,
            4 * pixels <= expected@.len(),
            difference_data@.len() == 4 * p,
            forall|i: int|
                0 <= i < 4 * p ==> difference_data@[i] == abs_diff(expected@[i], actual@[i]),
            *is_alpha_different == (*old(is_alpha_different) || exists|q: int|
                0 <= q < p && #[trigger] actual@[4 * q + 3] != expected@[4 * q + 3]),
        decreases pixels - p,
    {
        let base: usize = 4 * p;
        if expected[base + 3] != actual[base + 3] {
            *is_alpha_different = true;
        }
        difference_data.push(calc_difference(expected[base], actual[base]));
        difference_data.push(calc_difference(expected[base + 1], actual[base + 1]));
        difference_data.push(calc_difference(expected[base + 2], actual[base + 2]));
        difference_data.push(calc_difference(expected[base + 3], actual[base + 3]));
        proof {
            let seen_before = exists|q: int|
                0 <= q < p && #[trigger] actual@[4 * q + 3] != expected@[4 * q + 3];
            let seen_after = exists|q: int|
                0 <= q < p + 1 && #[trigger] actual@[4 * q + 3] != expected@[4 * q + 3];
            if seen_after && !seen_before {
                let q = choose|q: int|
                    0 <= q < p + 1 && #[trigger] actual@[4 * q + 3] != expected@[4 * q + 3];
                assert(q == p);
            }
            if actual@[4 * p + 3] != expected@[4 * p + 3] {
                assert(seen_after);
            }
        }
        p = p + 1;
    }
    assert(difference_data@ =~= difference(actual@, expected@));
    difference_data
}

/// Counts the outliers of a difference buffer: the samples that strictly exceed
/// `tolerance`. Every channel counts by itself, so one pixel adds up to four.
pub fn calculate_outliers(difference_data: &[u8], tolerance: u8) -> (count: usize)
    ensures
        count == outliers(difference_data@, tolerance),
{
    let whole: usize = 4 * (difference_data.len() / 4);
    let mut count: usize = 0;
    let mut i: usize = 0;
    while i < whole
        invariant
            i <= whole <= difference_data@.len(),
            whole == 4 * (difference_data@.len() as int / 4),
            count == count_above(difference_data@.take(i as int), tolerance),
            count <= i,
        decreases whole - i,
    {
        proof {
            assert(difference_data@.take(i + 1).drop_last() =~= difference_data@.take(i as int));
        }
        if difference_data[i] > tolerance {
            count = count + 1;
        }
        i = i + 1;
    }
    count
}

/// Finds the largest single-channel difference of a difference buffer, which
/// must hold at least one complete pixel.
pub fn calculate_max_difference(difference_data: &[u8]) -> (largest_difference: u8)
    requires
        difference_data@.len() >= 4,
    ensures
        largest_difference == max_difference(difference_data@),
{
    let whole: usize = 4 * (difference_data.len() / 4);
    let mut largest_difference: u8 = 0;
    let mut i: usize = 0;
    while i < whole
        invariant
            i <= whole <= difference_data@.len(),
            whole == 4 * (difference_data@.len() as int / 4),
            largest_difference == largest(difference_data@.take(i as int)),
        decreases whole - i,
    {
        proof {
            assert(difference_data@.take(i + 1).drop_last() =~= difference_data@.take(i as int));
        }
        if difference_data[i] >= largest_difference {
            largest_difference = difference_data[i];
        }
        i = i + 1;
    }
    largest_difference
}

/// `count_above` never exceeds the number of samples.
pub proof fn count_above_bounded(samples: Seq<u8>, tolerance: u8)
    ensures
        count_above(samples, tolerance) <= samples.len(),
    decreases samples.len(),
{
    if samples.len() > 0 {
        count_above_bounded(samples.drop_last(), tolerance);
    }
}

/// Every complete pixel adds at most four outliers.
pub proof fn outliers_bounded(difference_data: Seq<u8>, tolerance: u8)
    ensures
        outliers(difference_data, tolerance) <= 4 * (difference_data.len() / 4),
{
    count_above_bounded(whole_pixels(difference_data), tolerance);
}

/// No sample is counted exactly when every sample is within the tolerance.
pub proof fn count_above_zero(samples: Seq<u8>, tolerance: u8)
    ensures
        count_above(samples, tolerance) == 0 <==> forall|i: int|
            0 <= i < samples.len() ==> samples[i] <= tolerance,
    decreases samples.len(),
{
    if samples.len() > 0 {
        let front = samples.drop_last();
        count_above_zero(front, tolerance);
        if count_above(samples, tolerance) == 0 {
            assert forall|i: int| 0 <= i < samples.len() implies samples[i] <= tolerance by {
                if i < front.len() {
                    assert(front[i] == samples[i]);
                }
            }
        } else if samples.last() <= tolerance {
            let i = choose|i: int| 0 <= i < front.len() && front[i] > tolerance;
            assert(samples[i] == front[i]);
        }
    }
}

/// `largest` is an upper bound of the samples, and one of them where there are
/// any.
pub proof fn largest_is_maximum(samples: Seq<u8>)
    ensures
        forall|i: int| 0 <= i < samples.len() ==> samples[i] <= largest(samples),
        samples.len() > 0 ==> exists|i: int| 0 <= i < samples.len() && samples[i] == largest(samples),
    decreases samples.len(),
{
    if samples.len() > 0 {
        let front = samples.drop_last();
        largest_is_maximum(front);
        assert forall|i: int| 0 <= i < samples.len() implies samples[i] <= largest(samples) by {
            if i < front.len() {
                assert(front[i] == samples[i]);
            }
        }
        if samples.last() >= largest(front) {
            assert(samples[samples.len() - 1] == largest(samples));
        } else {
            let i = choose|i: int| 0 <= i < front.len() && front[i] == largest(front);
            assert(samples[i] == largest(samples));
        }
    }
}

/// The difference of an image with itself is zero in every sample, its alpha
/// samples do not differ, and it has no outliers under any tolerance.
pub proof fn difference_with_itself(image: Seq<u8>, tolerance: u8)
    ensures
        difference(image, image).len() == 4 * (image.len() as int / 4),
        forall|i: int| 0 <= i < difference(image, image).len() ==> difference(image, image)[i] == 0,
        !alpha_differs(image, image),
        outliers(difference(image, image), tolerance) == 0,
        max_difference(difference(image, image)) == 0,
{
    let d = difference(image, image);
    assert(whole_pixels(d) =~= d);
    count_above_zero(d, tolerance);
    largest_is_maximum(d);
}

/// The difference buffer and the alpha flag do not depend on which of the two
/// images is called the actual one.
pub proof fn difference_is_symmetric(a: Seq<u8>, b: Seq<u8>)
    ensures
        difference(a, b) == difference(b, a),
        alpha_differs(a, b) == alpha_differs(b, a),
{
    assert(difference(a, b) =~= difference(b, a));
    if alpha_differs(a, b) {
        let p = choose|p: int| 0 <= p < common_pixels(a, b) && #[trigger] a[4 * p + 3] != b[4 * p + 3];
        assert(b[4 * p + 3] != a[4 * p + 3]);
    }
    if alpha_differs(b, a) {
        let p = choose|p: int| 0 <= p < common_pixels(b, a) && #[trigger] b[4 * p + 3] != a[4 * p + 3];
        assert(a[4 * p + 3] != b[4 * p + 3]);
    }
}

} // verus!
