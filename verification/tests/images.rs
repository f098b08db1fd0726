use f3d::image::Image;
use f3d::image::ImageChannelType;
use f3d::image::ImageFormat;
use f3d::text::MarshalError;

fn checkerboard(w: u32, h: u32, c: u32) -> Vec<u8> {
    let n = (w * h * c) as usize;
    (0..n).map(|i| if i % 2 == 0 { 0u8 } else { 255u8 }).collect()
}

#[test]
fn new_params_zeroes_content_of_exact_size() {
    let img = Image::new_params(4, 2, 3, ImageChannelType::BYTE).unwrap();
    assert_eq!(img.get_width(), 4);
    assert_eq!(img.get_height(), 2);
    assert_eq!(img.get_channel_count(), 3);
    assert_eq!(img.channel_type(), ImageChannelType::BYTE);
    assert_eq!(img.get_content(), vec![0u8; 24]);
}

#[test]
fn new_params_zero_dimension_is_empty() {
    let img = Image::new_params(0, 100, 4, ImageChannelType::SHORT).unwrap();
    assert!(img.get_content().is_empty());
}

#[test]
fn new_params_overflowing_shape_fails() {
    assert!(Image::new_params(u32::MAX, u32::MAX, u32::MAX, ImageChannelType::BYTE).is_none());
}

#[test]
fn new_empty_is_the_placeholder() {
    let img = Image::new_empty().unwrap();
    assert_eq!(img.get_width(), 0);
    assert_eq!(img.get_height(), 0);
    assert_eq!(img.get_channel_count(), 0);
    assert!(img.get_content().is_empty());
}

#[test]
fn content_round_trips() {
    let mut img = Image::new_params(2, 2, 1, ImageChannelType::BYTE).unwrap();
    let data = checkerboard(2, 2, 1);
    img.set_content(&data);
    assert_eq!(img.get_content(), data);
}

#[test]
fn identical_content_and_shape_compare_equal() {
    let data = checkerboard(3, 2, 4);
    let mut a = Image::new_params(3, 2, 4, ImageChannelType::BYTE).unwrap();
    let mut b = Image::new_params(3, 2, 4, ImageChannelType::BYTE).unwrap();
    a.set_content(&data);
    b.set_content(&data);
    assert!(a.equals(&b));
    assert!(b.equals(&a));
    // an image held against itself shows no difference
    assert!(a.equals(&a));
}

#[test]
fn differing_content_or_shape_compare_unequal() {
    let mut a = Image::new_params(2, 2, 1, ImageChannelType::BYTE).unwrap();
    let mut b = Image::new_params(2, 2, 1, ImageChannelType::BYTE).unwrap();
    a.set_content(&[1, 2, 3, 4]);
    b.set_content(&[1, 2, 3, 5]);
    assert!(!a.equals(&b));

    let wide = Image::new_params(4, 1, 1, ImageChannelType::BYTE).unwrap();
    let tall = Image::new_params(1, 4, 1, ImageChannelType::BYTE).unwrap();
    assert!(!wide.equals(&tall));

    let byte = Image::new_params(2, 2, 1, ImageChannelType::BYTE).unwrap();
    let short = Image::new_params(2, 2, 1, ImageChannelType::SHORT).unwrap();
    assert!(!byte.equals(&short));
}

#[test]
fn metadata_does_not_take_part_in_equality() {
    let mut a = Image::new_params(1, 1, 1, ImageChannelType::BYTE).unwrap();
    let b = Image::new_params(1, 1, 1, ImageChannelType::BYTE).unwrap();
    a.set_metadata(b"author", b"someone").unwrap();
    assert!(a.equals(&b));
}

#[test]
fn destroying_one_image_leaves_others_alone() {
    let data = checkerboard(2, 2, 1);
    let mut a = Image::new_params(2, 2, 1, ImageChannelType::BYTE).unwrap();
    let mut b = Image::new_params(2, 2, 1, ImageChannelType::BYTE).unwrap();
    a.set_content(&data);
    b.set_content(&data);
    a.delete();
    // the other independently owned value is untouched
    assert_eq!(b.get_content(), data);
}

#[test]
fn metadata_round_trips_and_lists_keys() {
    let mut img = Image::new_empty().unwrap();
    assert_eq!(img.get_metadata(b"missing"), Ok(None));
    img.set_metadata(b"author", b"someone").unwrap();
    img.set_metadata(b"date", b"today").unwrap();
    assert_eq!(img.get_metadata(b"author"), Ok(Some(b"someone".to_vec())));
    img.set_metadata(b"author", b"someone else").unwrap();
    assert_eq!(img.get_metadata(b"author"), Ok(Some(b"someone else".to_vec())));
    assert_eq!(img.all_metadata(), vec![b"author".to_vec(), b"date".to_vec()]);
    assert_eq!(img.set_metadata(b"bad\0key", b"v"), Err(MarshalError::EmbeddedTerminator));
    assert_eq!(img.set_metadata(b"key", b"bad\0value"), Err(MarshalError::EmbeddedTerminator));
    assert_eq!(img.get_metadata(b"bad\0key"), Err(MarshalError::EmbeddedTerminator));
}

#[test]
fn pixel_at_reads_the_addressed_channels() {
    let mut img = Image::new_params(2, 2, 2, ImageChannelType::BYTE).unwrap();
    img.set_content(&[1, 2, 3, 4, 5, 6, 7, 8]);
    assert_eq!(img.pixel_at(0, 0), Some(vec![1, 2]));
    assert_eq!(img.pixel_at(1, 0), Some(vec![3, 4]));
    assert_eq!(img.pixel_at(0, 1), Some(vec![5, 6]));
    assert_eq!(img.pixel_at(1, 1), Some(vec![7, 8]));
    assert_eq!(img.pixel_at(2, 0), None);
    assert_eq!(img.pixel_at(0, 2), None);
}

#[test]
fn supported_formats_decode_copy_only() {
    let raw = vec![b"png\0".to_vec(), b"jpg\0".to_vec()];
    assert_eq!(Image::supported_formats(&raw), vec![b"png".to_vec(), b"jpg".to_vec()]);
}

#[test]
fn channel_type_raw_round_trip() {
    for v in 0..3u32 {
        assert_eq!(ImageChannelType::from_raw(v).unwrap().to_raw(), v);
    }
    assert!(ImageChannelType::from_raw(3).is_none());
}

#[test]
fn image_format_raw_values() {
    assert_eq!(ImageFormat::PNG.to_raw(), 0);
    assert_eq!(ImageFormat::JPEG.to_raw(), 1);
    assert_eq!(ImageFormat::TIF.to_raw(), 2);
    assert_eq!(ImageFormat::DMP.to_raw(), 3);
}
