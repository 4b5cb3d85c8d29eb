use raycaster::pixel::{CHANNELS, OPAQUE};
use raycaster::{opaque_pixels, startup_patch, Patch};

#[test]
fn one_red_pixel() {
    assert_eq!(opaque_pixels(255, 0, 0, 1), vec![255, 0, 0, 255]);
}

#[test]
fn no_pixels() {
    assert_eq!(opaque_pixels(9, 8, 7, 0), Vec::<u8>::new());
}

#[test]
fn pixels_repeat_in_channel_order() {
    assert_eq!(
        opaque_pixels(1, 2, 3, 3),
        vec![1, 2, 3, 255, 1, 2, 3, 255, 1, 2, 3, 255]
    );
}

#[test]
fn pixels_take_four_bytes_each() {
    for count in [0usize, 1, 2, 17, 256] {
        let data = opaque_pixels(10, 20, 30, count);
        assert_eq!(data.len(), CHANNELS * count);
        for (i, byte) in data.iter().enumerate() {
            let expected = match i % CHANNELS {
                0 => 10,
                1 => 20,
                2 => 30,
                _ => OPAQUE,
            };
            assert_eq!(*byte, expected);
        }
    }
}

#[test]
fn pixel_constants() {
    assert_eq!(CHANNELS, 4);
    assert_eq!(OPAQUE, 255);
}

#[test]
fn startup_patch_is_one_red_pixel_at_ten_ten() {
    let patch: Patch = startup_patch();
    assert_eq!(patch.data, vec![255, 0, 0, 255]);
    assert_eq!(patch.width, 1);
    assert_eq!(patch.height, 1);
    assert_eq!(patch.left, 10);
    assert_eq!(patch.top, 10);
}

#[test]
fn startup_patch_holds_a_pixel_for_each_cell() {
    let patch = startup_patch();
    let cells = (patch.width as usize) * (patch.height as usize);
    assert_eq!(patch.data.len(), CHANNELS * cells);
}
