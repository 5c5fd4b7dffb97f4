use pokedex::pixel::Pixel;
use pokedex::render::{render, RenderMode};
use pokedex::sprite::{decode_sprite, DecodeError};

fn png(width: u32, height: u32, rgba: Vec<u8>) -> Vec<u8> {
    let image = image::RgbaImage::from_raw(width, height, rgba).unwrap();
    let mut bytes = Vec::new();
    image::DynamicImage::ImageRgba8(image)
        .write_to(&mut std::io::Cursor::new(&mut bytes), image::ImageOutputFormat::Png)
        .unwrap();
    bytes
}

#[test]
fn a_png_is_decoded_pixel_by_pixel() {
    let rgba = vec![
        255, 0, 0, 255, 0, 255, 0, 0, // first row
        1, 2, 3, 4, 250, 251, 252, 253, // second row
        9, 8, 7, 6, 0, 0, 0, 0, // third row
    ];
    let grid = decode_sprite(&png(2, 3, rgba)).unwrap();
    assert_eq!(grid.width(), 2);
    assert_eq!(grid.height(), 3);
    assert_eq!(grid.get_pixel(0, 0), Pixel { r: 255, g: 0, b: 0, a: 255 });
    assert_eq!(grid.get_pixel(1, 0), Pixel { r: 0, g: 255, b: 0, a: 0 });
    assert_eq!(grid.get_pixel(0, 1), Pixel { r: 1, g: 2, b: 3, a: 4 });
    assert_eq!(grid.get_pixel(1, 1), Pixel { r: 250, g: 251, b: 252, a: 253 });
    assert_eq!(grid.get_pixel(0, 2), Pixel { r: 9, g: 8, b: 7, a: 6 });
    assert_eq!(grid.get_pixel(1, 2), Pixel { r: 0, g: 0, b: 0, a: 0 });
}

#[test]
fn an_opaque_png_has_full_alpha() {
    let image = image::RgbImage::from_raw(1, 1, vec![10, 20, 30]).unwrap();
    let mut bytes = Vec::new();
    image::DynamicImage::ImageRgb8(image)
        .write_to(&mut std::io::Cursor::new(&mut bytes), image::ImageOutputFormat::Png)
        .unwrap();
    let grid = decode_sprite(&bytes).unwrap();
    assert_eq!(grid.get_pixel(0, 0), Pixel { r: 10, g: 20, b: 30, a: 255 });
}

#[test]
fn a_decoded_png_is_drawn() {
    let rgba = vec![
        255, 0, 0, 255, 0, 0, 0, 0, // red, clear
        0, 0, 255, 255, 0, 0, 0, 0, // blue, clear
    ];
    let grid = decode_sprite(&png(2, 2, rgba)).unwrap();
    assert_eq!(
        render(&grid, RenderMode::HalfBlock),
        "\x1B[38;2;255;0;0m\x1B[48;2;0;0;255m\u{2580}\x1B[0m \n"
    );
}

#[test]
fn bytes_that_are_no_image_are_malformed() {
    assert!(matches!(decode_sprite(b""), Err(DecodeError::Malformed { .. })));
    assert!(matches!(decode_sprite(b"not an image"), Err(DecodeError::Malformed { .. })));
    match decode_sprite(b"{\"id\": 25}") {
        Err(DecodeError::Malformed { reason }) => assert!(!reason.is_empty()),
        _ => panic!("bytes of a text were taken for an image"),
    }
}

#[test]
fn a_cut_png_is_malformed() {
    let bytes = png(4, 4, vec![200; 64]);
    let cut = &bytes[..bytes.len() / 2];
    assert!(matches!(decode_sprite(cut), Err(DecodeError::Malformed { .. })));
    let head = &bytes[..8];
    assert!(matches!(decode_sprite(head), Err(DecodeError::Malformed { .. })));
}

#[test]
fn other_formats_are_not_understood() {
    // The first bytes of a GIF file.
    let gif = b"GIF89a\x01\x00\x01\x00\x80\x00\x00\x00\x00\x00\xff\xff\xff";
    assert!(matches!(decode_sprite(gif), Err(DecodeError::Malformed { .. })));
}
