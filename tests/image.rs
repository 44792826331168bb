use batching::error::BatchError;
use batching::image::{batch_images, channel_major, ImageItem};

#[test]
fn pixels_are_reordered_channel_by_channel() {
    // 1 x 2 pixels, 3 channels: (r0 g0 b0) (r1 g1 b1)
    let pixels = vec![1, 2, 3, 4, 5, 6];
    assert_eq!(channel_major(&pixels, 1, 2, 3), Ok(vec![1, 4, 2, 5, 3, 6]));
    let square = vec![10, 20, 11, 21, 12, 22, 13, 23];
    assert_eq!(channel_major(&square, 2, 2, 2), Ok(vec![10, 11, 12, 13, 20, 21, 22, 23]));
}

#[test]
fn wrong_image_size_is_a_shape_error() {
    assert_eq!(channel_major(&vec![1, 2, 3], 1, 2, 3), Err(BatchError::ShapeError));
    assert_eq!(channel_major(&vec![1], usize::MAX, 3, 3), Err(BatchError::ShapeError));
    assert_eq!(channel_major(&Vec::new(), 4, 4, 0), Ok(Vec::new()));
}

#[test]
fn image_batch_keeps_order_and_labels() {
    let items = vec![
        ImageItem { pixels: vec![1, 2, 3, 4], label: 7 },
        ImageItem { pixels: vec![5, 6, 7, 8], label: 2 },
    ];
    let b = batch_images(&items, 1, 2, 2).ok().unwrap();
    assert_eq!(b.images, vec![vec![1, 3, 2, 4], vec![5, 7, 6, 8]]);
    assert_eq!(b.targets, vec![7, 2]);
    let bad = vec![ImageItem { pixels: vec![1, 2, 3, 4], label: 0 }, ImageItem { pixels: vec![1], label: 1 }];
    assert_eq!(batch_images(&bad, 1, 2, 2).err(), Some(BatchError::ShapeError));
}
