use vstd::prelude::*;

use crate::error::BatchError;

verus! {

/// One image as row-major bytes (height, width, channel), with its class.
pub struct ImageItem {
    pub pixels: Vec<u8>,
    pub label: usize,
}

/// Images in channel-major order (channel, height, width), and the class of
/// each, in record order.
pub struct ImageBatch {
    pub images: Vec<Vec<u8>>,
    pub targets: Vec<usize>,
}

/// Where position `i` of a channel-major image is found in the row-major
/// image, for planes of `plane` pixels and `channels` channels.
pub open spec fn channel_major_source(i: int, plane: int, channels: int) -> int {
    (i % plane) * channels + i / plane
}

/// A row-major image of `plane` pixels and `channels` channels, reordered
/// channel by channel.
pub open spec fn channel_major_of(pixels: Seq<u8>, plane: nat, channels: nat) -> Seq<u8> {
    Seq::new(plane * channels, |i: int| pixels[channel_major_source(i, plane as int, channels as int)])
}

proof fn lemma_source_in_bounds(i: int, plane: int, channels: int)
    requires
        plane >= 0,
        channels >= 0,
        0 <= i < plane * channels,
    ensures
        0 <= channel_major_source(i, plane, channels) < plane * channels,
{
    assert(plane > 0 && channels > 0) by (nonlinear_arith)
        requires
            plane >= 0,
            channels >= 0,
            0 <= i < plane * channels,
    ;
    let q = i / plane;
    let m = i % plane;
    assert(i == plane * q + m && 0 <= m < plane) by (nonlinear_arith)
        requires
            plane > 0,
            q == i / plane,
            m == i % plane,
    ;
    assert(0 <= q < channels) by (nonlinear_arith)
        requires
            i == plane * q + m,
            0 <= m < plane,
            0 <= i < plane * channels,
    ;
    assert(0 <= m * channels + q < plane * channels) by (nonlinear_arith)
        requires
            0 <= m < plane,
            0 <= q < channels,
    ;
}

/// Reorders a row-major image of `height` by `width` pixels with `channels`
/// channels into channel-major order. Fails with a shape error when the image
/// does not hold `height * width * channels` bytes.
pub fn channel_major(pixels: &Vec<u8>, height: usize, width: usize, channels: usize) -> (r: Result<
    Vec<u8>,
    BatchError,
>)
    ensures
        pixels@.len() != height * width * channels ==> r == Err::<Vec<u8>, BatchError>(
            BatchError::ShapeError,
        ),
        pixels@.len() == height * width * channels ==> (r matches Ok(v) && v@ == channel_major_of(
            pixels@,
            (height * width) as nat,
            channels as nat,
        )),
{
    let n = pixels.len();
    if channels == 0 {
        if n == 0 {
            let empty: Vec<u8> = Vec::new();
            assert(empty@ =~= channel_major_of(pixels@, (height * width) as nat, 0));
            return Ok(empty);
        }
        return Err(BatchError::ShapeError);
    }
    let plane = match height.checked_mul(width) {
        Some(p) => p,
        None => {
            assert(height * width * channels != n) by (nonlinear_arith)
                requires
                    height * width > usize::MAX,
                    n <= usize::MAX,
                    channels >= 1,
            ;
            return Err(BatchError::ShapeError);
        },
    };
    let total = match plane.checked_mul(channels) {
        Some(t) => t,
        None => {
            return Err(BatchError::ShapeError);
        },
    };
    if pixels.len() != total {
        return Err(BatchError::ShapeError);
    }
    let mut out: Vec<u8> = Vec::new();
    let mut i: usize = 0;
    while i < total
        invariant
            i <= total,
            total == plane * channels,
            plane == height * width,
            pixels@.len() == total,
            out@ =~= channel_major_of(pixels@, plane as nat, channels as nat).take(i as int),
        decreases total - i,
    {
        proof {
            lemma_source_in_bounds(i as int, plane as int, channels as int);
        }
        let source = (i % plane) * channels + i / plane;
        out.push(pixels[source]);
        i = i + 1;
    }
    Ok(out)
}

/// Reorders every image to channel-major order, image `k` and target `k`
/// from `items[k]`. Fails with a shape error when some image does not hold
/// `height * width * channels` bytes.
pub fn batch_images(items: &Vec<ImageItem>, height: usize, width: usize, channels: usize) -> (r:
    Result<ImageBatch, BatchError>)
    ensures
        (exists|k: int|
            0 <= k < items@.len() && #[trigger] items@[k].pixels@.len() != height * width
                * channels) ==> r == Err::<ImageBatch, BatchError>(BatchError::ShapeError),
        (forall|k: int|
            0 <= k < items@.len() ==> #[trigger] items@[k].pixels@.len() == height * width
                * channels) ==> (r matches Ok(b) && b.images@.len() == items@.len()
            && b.targets@.len() == items@.len() && forall|k: int|
            0 <= k < items@.len() ==> #[trigger] b.images@[k]@ == channel_major_of(
                items@[k].pixels@,
                (height * width) as nat,
                channels as nat,
            ) && b.targets@[k] == items@[k].label),
{
    let mut images: Vec<Vec<u8>> = Vec::new();
    let mut targets: Vec<usize> = Vec::new();
    let mut i: usize = 0;
    while i < items.len()
        invariant
            i <= items.len(),
            images@.len() == i,
            targets@.len() == i,
            forall|k: int|
                0 <= k < i ==> #[trigger] items@[k].pixels@.len() == height * width * channels,
            forall|k: int|
                0 <= k < i ==> #[trigger] images@[k]@ == channel_major_of(
                    items@[k].pixels@,
                    (height * width) as nat,
                    channels as nat,
                ) && targets@[k] == items@[k].label,
        decreases items.len() - i,
    {
        let item = &items[i];
        match channel_major(&item.pixels, height, width, channels) {
            Ok(image) => {
                images.push(image);
                targets.push(item.label);
            },
            Err(e) => {
                assert(items@[i as int].pixels@.len() != height * width * channels);
                return Err(e);
            },
        }
        i = i + 1;
    }
    Ok(ImageBatch { images, targets })
}

} // verus!
