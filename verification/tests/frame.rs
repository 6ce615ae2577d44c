use camrig::frame::{FrameBuffer, DEFAULT_HEIGHT, DEFAULT_WIDTH};

#[test]
fn raster_reports_the_size_it_was_made_with() {
    let frame = FrameBuffer::new(3, 7).unwrap();
    assert_eq!(frame.width(), 3);
    assert_eq!(frame.height(), 7);
}

#[test]
fn standard_raster_is_640_by_480() {
    let frame = FrameBuffer::standard();
    assert_eq!(frame.width(), 640);
    assert_eq!(frame.height(), 480);
    assert_eq!(DEFAULT_WIDTH, 640);
    assert_eq!(DEFAULT_HEIGHT, 480);
}

#[test]
fn empty_rasters_can_be_made() {
    let frame = FrameBuffer::new(0, 0).unwrap();
    assert_eq!(frame.width(), 0);
    assert_eq!(frame.height(), 0);
    let frame = FrameBuffer::new(0, 9).unwrap();
    assert_eq!(frame.width(), 0);
    assert_eq!(frame.height(), 9);
}

#[test]
fn oversized_rasters_are_refused() {
    assert!(FrameBuffer::new(0x8000_0000, 1).is_none());
    assert!(FrameBuffer::new(1, 0x8000_0000).is_none());
    assert!(FrameBuffer::new(0, u32::MAX).is_none());
    assert!(FrameBuffer::new(0x1_0000, 0x8000).is_none());
    assert!(FrameBuffer::new(0x7fff_ffff, 0x7fff_ffff).is_none());
}
