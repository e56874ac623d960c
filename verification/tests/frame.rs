use frame_prep::FrameError;
use frame_prep::GrayFrame;

#[test]
fn new_frame_is_blank() {
    let frame = GrayFrame::new(4, 8);
    assert_eq!(frame.dimensions(), (4, 8));
    assert_eq!(frame.width(), 4);
    assert_eq!(frame.height(), 8);
    assert_eq!(frame.as_raw().len(), 32);
    assert!(frame.as_raw().iter().all(|p| *p == 0));
}

#[test]
fn new_frame_may_be_empty() {
    let frame = GrayFrame::new(0, 5);
    assert_eq!(frame.dimensions(), (0, 5));
    assert!(frame.as_raw().is_empty());
    assert_eq!(frame.get_pixel_checked(0, 0), None);
}

#[test]
fn from_raw_keeps_the_buffer() {
    let data: Vec<u8> = (0..12).collect();
    let frame = GrayFrame::from_raw(4, 3, data.clone()).unwrap();
    assert_eq!(frame.dimensions(), (4, 3));
    assert_eq!(frame.as_raw(), &data);
    assert_eq!(frame.into_raw(), data);
}

#[test]
fn from_raw_rejects_other_lengths() {
    assert_eq!(
        GrayFrame::from_raw(4, 3, vec![0; 11]),
        Err(FrameError::LengthMismatch)
    );
    assert_eq!(
        GrayFrame::from_raw(4, 3, vec![0; 13]),
        Err(FrameError::LengthMismatch)
    );
    assert_eq!(
        GrayFrame::from_raw(0, 3, vec![0; 1]),
        Err(FrameError::LengthMismatch)
    );
    assert!(GrayFrame::from_raw(0, 3, vec![]).is_ok());
}

#[test]
fn get_pixel_reads_rows_first() {
    let data: Vec<u8> = (0..12).collect();
    let frame = GrayFrame::from_raw(4, 3, data).unwrap();
    assert_eq!(frame.get_pixel(0, 0), 0);
    assert_eq!(frame.get_pixel(3, 0), 3);
    assert_eq!(frame.get_pixel(0, 1), 4);
    assert_eq!(frame.get_pixel(2, 1), 6);
    assert_eq!(frame.get_pixel(3, 2), 11);
}

#[test]
fn get_pixel_checked_knows_the_bounds() {
    let data: Vec<u8> = (0..12).collect();
    let frame = GrayFrame::from_raw(4, 3, data).unwrap();
    assert_eq!(frame.get_pixel_checked(3, 2), Some(11));
    assert_eq!(frame.get_pixel_checked(1, 2), Some(9));
    assert_eq!(frame.get_pixel_checked(4, 0), None);
    assert_eq!(frame.get_pixel_checked(0, 3), None);
    assert_eq!(frame.get_pixel_checked(u32::MAX, u32::MAX), None);
}

#[test]
fn clone_is_an_equal_frame() {
    let data: Vec<u8> = (0..12).collect();
    let frame = GrayFrame::from_raw(3, 4, data).unwrap();
    let copy = frame.clone();
    assert_eq!(copy, frame);
    assert_eq!(copy.dimensions(), (3, 4));
    assert_eq!(copy.get_pixel(2, 3), 11);
}

#[test]
fn frame_layout_agrees_with_image() {
    let data: Vec<u8> = (0..12).collect();
    let frame = GrayFrame::from_raw(4, 3, data.clone()).unwrap();
    let image = image::GrayImage::from_raw(4, 3, data).unwrap();
    for y in 0..3 {
        for x in 0..4 {
            assert_eq!(frame.get_pixel(x, y), image.get_pixel(x, y)[0]);
        }
    }
}
