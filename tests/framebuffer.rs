use tiny_raytracer::framebuffer::rgb_bytes;
use tiny_raytracer::Framebuffer;

#[test]
fn new_framebuffer_is_filled_and_sized() {
    let fb = Framebuffer::new(4, 3, [0.0f32; 3]);
    assert_eq!(fb.width(), 4);
    assert_eq!(fb.height(), 3);
    assert_eq!(fb.buf().len(), 12);
    assert!(fb.buf().iter().all(|px| *px == [0.0f32; 3]));
}

#[test]
fn empty_framebuffer_has_no_pixels() {
    let fb = Framebuffer::new(0, 5, 7u8);
    assert_eq!(fb.width(), 0);
    assert_eq!(fb.height(), 5);
    assert!(fb.buf().is_empty());
}

#[test]
fn writes_through_buf_mut_are_kept_in_row_major_order() {
    let mut fb = Framebuffer::new(3, 2, 0u32);
    for (i, px) in fb.buf_mut().iter_mut().enumerate() {
        *px = i as u32 * 10;
    }
    assert_eq!(fb.buf(), &[0, 10, 20, 30, 40, 50]);
    assert_eq!(fb.width(), 3);
    assert_eq!(fb.height(), 2);
}

#[test]
fn rgb_bytes_lays_out_channels_pixel_by_pixel() {
    let pixels = [[1u8, 2, 3], [4, 5, 6], [255, 0, 128]];
    assert_eq!(rgb_bytes(&pixels), vec![1, 2, 3, 4, 5, 6, 255, 0, 128]);
}

#[test]
fn rgb_bytes_of_no_pixels_is_empty() {
    let pixels: [[u8; 3]; 0] = [];
    assert!(rgb_bytes(&pixels).is_empty());
}
