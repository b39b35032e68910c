use rgba_pixel::pixel::{IntoPixel, Pixel, PixelError, PixelMath};

#[test]
fn pixel_iterator() {
    let px = Pixel::new(9u8, 234, 5);

    let mut iter = IntoPixel::new(&px);

    while let Some(i) = iter.next() {
        println!("{:?}", i);
    }
}

#[test]
fn new_alpha_defaults_to_max() {
    let px = Pixel::new(1u8, 2, 3);
    assert_eq!(px.get_tuple(), (1, 2, 3, 255));

    let wide = Pixel::new(1u16, 2, 3);
    assert_eq!(wide.get_tuple(), (1, 2, 3, 65535));
}

#[test]
fn default_is_zero_color_opaque_alpha() {
    let px: Pixel<u8> = PixelMath::default();
    assert_eq!(px.get_tuple(), (0, 0, 0, 255));

    let wide: Pixel<u16> = PixelMath::default();
    assert_eq!(wide.get_tuple(), (0, 0, 0, 65535));
}

#[test]
fn new_rgba_takes_all_channels() {
    let px = Pixel::new_rgba(10u8, 20, 30, 40);
    assert_eq!(px.get_tuple(), (10, 20, 30, 40));
}

#[test]
fn set_rgba_sets_all_channels() {
    let mut px = Pixel::new(1u8, 2, 3);
    px.set_rgba(40, 50, 60, 70);
    assert_eq!(px.get_tuple(), (40, 50, 60, 70));
}

#[test]
fn set_rgb_leaves_alpha() {
    let mut px = Pixel::new_rgba(1u8, 2, 3, 77);
    px.set_rgb(4, 5, 6);
    assert_eq!(px.get_tuple(), (4, 5, 6, 77));
}

#[test]
fn single_setters_touch_one_channel() {
    let mut px = Pixel::new_rgba(1u8, 2, 3, 4);
    px.set_r(10);
    assert_eq!(px.get_tuple(), (10, 2, 3, 4));
    px.set_g(20);
    assert_eq!(px.get_tuple(), (10, 20, 3, 4));
    px.set_b(30);
    assert_eq!(px.get_tuple(), (10, 20, 30, 4));
    px.set_alpha(40);
    assert_eq!(px.get_tuple(), (10, 20, 30, 40));
}

#[test]
fn setters_return_the_pixel_for_chaining() {
    let mut px = Pixel::new(1u8, 2, 3);
    let seen = px.set_rgba(4, 5, 6, 7).get_tuple();
    assert_eq!(seen, (4, 5, 6, 7));
}

#[test]
fn extractors_agree() {
    let px = Pixel::new_rgba(11u8, 22, 33, 44);
    let (r, g, b, a) = px.get_tuple();
    let v = px.get_vector();
    let s = px.get_slice();
    assert_eq!(v, vec![r, g, b, a]);
    assert_eq!(s, [r, g, b, a]);
    assert_eq!(v.len(), 4);
}

#[test]
fn iterator_yields_channels_then_none() {
    let px = Pixel::new(9u8, 234, 5);
    let mut iter = IntoPixel::new(&px);
    assert_eq!(iter.next(), Some(9));
    assert_eq!(iter.next(), Some(234));
    assert_eq!(iter.next(), Some(5));
    assert_eq!(iter.next(), Some(255));
    assert_eq!(iter.next(), None);
    assert_eq!(iter.next(), None);
}

#[test]
fn to_hex_prefixes_red_and_pads_nothing() {
    let px = Pixel::new(9u8, 234, 5);
    assert_eq!(px.to_hex(), "0x9EA5FF");
}

#[test]
fn to_hex_renders_zero_as_one_digit() {
    let px = Pixel::new_rgba(0u8, 0, 0, 0);
    assert_eq!(px.to_hex(), "0x0000");

    let opaque: Pixel<u8> = PixelMath::default();
    assert_eq!(opaque.to_hex(), "0x000FF");
}

#[test]
fn to_hex_on_wide_channels() {
    let px = Pixel::new_rgba(0x1234u16, 0xBEEF, 7, 0xFFFF);
    assert_eq!(px.to_hex(), "0x1234BEEF7FFFF");
}

#[test]
fn to_hsv_always_unimplemented() {
    let px = Pixel::new(1u8, 2, 3);
    assert_eq!(px.to_hsv(), Err(PixelError::Unimplemented));

    let wide = Pixel::new_rgba(0u16, 0, 0, 0);
    assert_eq!(wide.to_hsv(), Err(PixelError::Unimplemented));
}

#[test]
fn clone_is_independent() {
    let px = Pixel::new_rgba(1u8, 2, 3, 4);
    let mut copy = px.clone();
    copy.set_r(10);
    copy.set_g(20);
    copy.set_b(30);
    copy.set_alpha(40);
    assert_eq!(copy.get_tuple(), (10, 20, 30, 40));
    assert_eq!(px.get_tuple(), (1, 2, 3, 4));
}
